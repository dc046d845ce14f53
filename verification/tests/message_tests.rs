use rtmp_core::amf0::Amf0Encoder;
use rtmp_core::amf0::Amf0Property;
use rtmp_core::amf0::Amf0Scalar;
use rtmp_core::amf0::Amf0Value;
use rtmp_core::chunk::Chunk;
use rtmp_core::messages::MessageData;
use rtmp_core::messages::MessageType;
use rtmp_core::protocol_control::ProtocolControlMessageSetChunkSize;

#[test]
fn test_parse_command() {
    let mut amf0_writer = Vec::new();

    Amf0Encoder::encode_string(&mut amf0_writer, b"connect");
    Amf0Encoder::encode_number(&mut amf0_writer, 1.0f64.to_bits());
    Amf0Encoder::encode_null(&mut amf0_writer);

    let chunk = Chunk::new(0, 0, MessageType::CommandAMF0, 0, amf0_writer);

    let message = MessageData::parse(&chunk).expect("no errors").expect("message");
    match message {
        MessageData::Amf0Command { command_name, transaction_id, command_object, others } => {
            assert_eq!(command_name, Amf0Value::Str(b"connect".to_vec()));
            assert_eq!(transaction_id, Amf0Value::Number(1.0f64.to_bits()));
            assert_eq!(command_object, Amf0Value::Null);
            assert_eq!(others, vec![]);
        }
        _ => unreachable!("wrong message type"),
    }
}

#[test]
fn test_parse_audio_packet() {
    let chunk = Chunk::new(0, 0, MessageType::Audio, 0, vec![0x00, 0x00, 0x00, 0x00]);

    let message = MessageData::parse(&chunk).expect("no errors").expect("message");
    match message {
        MessageData::AudioData { data } => {
            assert_eq!(data, vec![0x00, 0x00, 0x00, 0x00]);
        }
        _ => unreachable!("wrong message type"),
    }
}

#[test]
fn test_parse_video_packet() {
    let chunk = Chunk::new(0, 0, MessageType::Video, 0, vec![0x00, 0x00, 0x00, 0x00]);

    let message = MessageData::parse(&chunk).expect("no errors").expect("message");
    match message {
        MessageData::VideoData { data } => {
            assert_eq!(data, vec![0x00, 0x00, 0x00, 0x00]);
        }
        _ => unreachable!("wrong message type"),
    }
}

#[test]
fn test_parse_set_chunk_size() {
    let chunk = Chunk::new(0, 0, MessageType::SetChunkSize, 0, vec![0x00, 0xFF, 0xFF, 0xFF]);

    let message = MessageData::parse(&chunk).expect("no errors").expect("message");
    match message {
        MessageData::SetChunkSize(ProtocolControlMessageSetChunkSize { chunk_size }) => {
            assert_eq!(chunk_size, 0x00FFFFFF);
        }
        _ => unreachable!("wrong message type"),
    }
}

#[test]
fn test_parse_metadata() {
    let mut amf0_writer = Vec::new();

    Amf0Encoder::encode_string(&mut amf0_writer, b"onMetaData");
    let mut props = Vec::new();
    props.push(Amf0Property {
        key: b"duration".to_vec(),
        value: Amf0Scalar::Number(0.0f64.to_bits()),
    });
    Amf0Encoder::encode_object(&mut amf0_writer, &props);

    let amf_data = amf0_writer.clone();
    let chunk = Chunk::new(0, 0, MessageType::DataAMF0, 0, amf0_writer);

    let message = MessageData::parse(&chunk).expect("no errors").expect("message");
    match message {
        MessageData::Amf0Data { data } => {
            assert_eq!(data, amf_data);
        }
        _ => unreachable!("wrong message type"),
    }
}

#[test]
fn test_unsupported_message_type() {
    let chunk = Chunk::new(0, 0, MessageType::Aggregate, 0, vec![0x00, 0x00, 0x00, 0x00]);

    assert!(MessageData::parse(&chunk).expect("no errors").is_none())
}

#[test]
fn test_parse_command_without_app_field() {
    // A connect command whose object has no `app` key still parses at the
    // message layer; rejecting it is the session's decision.
    let mut amf0_writer = Vec::new();
    Amf0Encoder::encode_string(&mut amf0_writer, b"connect");
    Amf0Encoder::encode_number(&mut amf0_writer, 1.0f64.to_bits());
    let mut props = Vec::new();
    props.push(Amf0Property {
        key: b"flashVer".to_vec(),
        value: Amf0Scalar::Str(b"FMLE/3.0".to_vec()),
    });
    Amf0Encoder::encode_object(&mut amf0_writer, &props);

    let chunk = Chunk::new(0, 0, MessageType::CommandAMF0, 0, amf0_writer);
    let message = MessageData::parse(&chunk).expect("no errors").expect("message");
    match message {
        MessageData::Amf0Command { command_name, .. } => {
            assert_eq!(command_name, Amf0Value::Str(b"connect".to_vec()));
        }
        _ => unreachable!("wrong message type"),
    }
}

#[test]
fn test_amf0_decode_round_trip() {
    let mut bytes = Vec::new();
    Amf0Encoder::encode_string(&mut bytes, b"onStatus");
    Amf0Encoder::encode_number(&mut bytes, 5.5f64.to_bits());
    Amf0Encoder::encode_bool(&mut bytes, true);
    Amf0Encoder::encode_null(&mut bytes);
    let mut props = Vec::new();
    props.push(Amf0Property { key: b"level".to_vec(), value: Amf0Scalar::Str(b"status".to_vec()) });
    props.push(Amf0Property { key: b"count".to_vec(), value: Amf0Scalar::Number(2.0f64.to_bits()) });
    Amf0Encoder::encode_object(&mut bytes, &props);

    let values = rtmp_core::amf0::Amf0Decoder::decode_all(&bytes).expect("decodes");
    assert_eq!(values.len(), 5);
    assert_eq!(values[0], Amf0Value::Str(b"onStatus".to_vec()));
    assert_eq!(values[1], Amf0Value::Number(5.5f64.to_bits()));
    assert_eq!(values[2], Amf0Value::Boolean(true));
    assert_eq!(values[3], Amf0Value::Null);
    assert_eq!(values[4], Amf0Value::Object(props));
}

#[test]
fn test_amf0_number_constants() {
    assert_eq!(rtmp_core::amf0::AMF0_NUMBER_ZERO, 0.0f64.to_bits());
    assert_eq!(rtmp_core::amf0::AMF0_NUMBER_ONE, 1.0f64.to_bits());
    assert_eq!(rtmp_core::session::CAPABILITIES_BITS, 31.0f64.to_bits());
}

#[test]
fn test_number_as_u32_matches_cast() {
    let cases: [f64; 9] = [0.0, 1.0, 1.5, -1.0, -0.25, 16777215.0, 4294967295.0, 4294967296.0, 1e300];
    for x in cases {
        assert_eq!(rtmp_core::amf0::number_as_u32(x.to_bits()), x as u32, "cast of {}", x);
    }
    assert_eq!(rtmp_core::amf0::number_as_u32(f64::NAN.to_bits()), f64::NAN as u32);
    assert_eq!(rtmp_core::amf0::number_as_u32(f64::INFINITY.to_bits()), f64::INFINITY as u32);
    assert_eq!(
        rtmp_core::amf0::number_as_u32(f64::NEG_INFINITY.to_bits()),
        f64::NEG_INFINITY as u32
    );
}
