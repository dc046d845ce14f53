use rtmp_core::amf0::Amf0Decoder;
use rtmp_core::amf0::Amf0Encoder;
use rtmp_core::amf0::Amf0Property;
use rtmp_core::amf0::Amf0Scalar;
use rtmp_core::amf0::Amf0Value;
use rtmp_core::chunk::Chunk;
use rtmp_core::chunk_decoder::ChunkDecoder;
use rtmp_core::chunk_encoder::ChunkEncoder;
use rtmp_core::handshake::RTMP_HANDSHAKE_SIZE;
use rtmp_core::handshake::RTMP_VERSION;
use rtmp_core::messages::MessageType;
use rtmp_core::session::ChannelData;
use rtmp_core::session::Session;
use rtmp_core::session::SessionAction;
use rtmp_core::session::SessionError;
use rtmp_core::session::SessionStage;

/// Builds the client side of the handshake and drives the session through
/// it, checking the server's reply.
fn complete_handshake(session: &mut Session) {
    let mut c0c1 = vec![RTMP_VERSION];
    let c1: Vec<u8> = (0..RTMP_HANDSHAKE_SIZE).map(|i| (i % 251) as u8).collect();
    c0c1.extend_from_slice(&c1);

    let actions = session.feed(&c0c1).expect("handshake bytes accepted");
    assert!(actions.is_empty());
    let reply = session.take_output();
    assert_eq!(reply[0], RTMP_VERSION);
    assert_eq!(reply.len(), 1 + RTMP_HANDSHAKE_SIZE + RTMP_HANDSHAKE_SIZE);
    assert_eq!(&reply[1 + RTMP_HANDSHAKE_SIZE..], c1.as_slice(), "the reply echoes the greeting");

    // The client acknowledgment completes the handshake; the server then
    // announces its chunk size.
    let c2 = vec![0u8; RTMP_HANDSHAKE_SIZE];
    let actions = session.feed(&c2).expect("acknowledgment accepted");
    assert!(actions.is_empty());
    assert_eq!(session.stage(), SessionStage::Ready);

    let announced = session.take_output();
    let mut announced = announced;
    let mut decoder = ChunkDecoder::new();
    let chunk = decoder.read_chunk(&mut announced).expect("read chunk").expect("chunk");
    assert_eq!(chunk.message_header.msg_type_id, 0x01);
    assert_eq!(chunk.payload, vec![0x00, 0x00, 0x10, 0x00], "announces 4096");
}

fn connect_bytes(app: &[u8]) -> Vec<u8> {
    let mut payload = Vec::new();
    Amf0Encoder::encode_string(&mut payload, b"connect");
    Amf0Encoder::encode_number(&mut payload, 1.0f64.to_bits());
    let mut props = Vec::new();
    props.push(Amf0Property { key: b"app".to_vec(), value: Amf0Scalar::Str(app.to_vec()) });
    Amf0Encoder::encode_object(&mut payload, &props);
    let mut bytes = Vec::new();
    let encoder = ChunkEncoder::new();
    encoder.write_chunk(&mut bytes, Chunk::new(3, 0, MessageType::CommandAMF0, 0, payload));
    bytes
}

fn publish_bytes(stream_name: &[u8], msg_stream_id: u32) -> Vec<u8> {
    let mut payload = Vec::new();
    Amf0Encoder::encode_string(&mut payload, b"publish");
    Amf0Encoder::encode_number(&mut payload, 5.0f64.to_bits());
    Amf0Encoder::encode_null(&mut payload);
    Amf0Encoder::encode_string(&mut payload, stream_name);
    Amf0Encoder::encode_string(&mut payload, b"live");
    let mut bytes = Vec::new();
    let encoder = ChunkEncoder::new();
    encoder.write_chunk(
        &mut bytes,
        Chunk::new(3, 0, MessageType::CommandAMF0, msg_stream_id, payload),
    );
    bytes
}

#[test]
fn test_handshake_and_chunk_size_announcement() {
    let mut session = Session::new();
    complete_handshake(&mut session);
}

#[test]
fn test_connect_without_app_is_fatal() {
    // The message parses at the message layer; the session rejects it.
    let mut session = Session::new();
    complete_handshake(&mut session);

    let mut payload = Vec::new();
    Amf0Encoder::encode_string(&mut payload, b"connect");
    Amf0Encoder::encode_number(&mut payload, 1.0f64.to_bits());
    Amf0Encoder::encode_null(&mut payload);
    let mut bytes = Vec::new();
    let encoder = ChunkEncoder::new();
    encoder.write_chunk(&mut bytes, Chunk::new(3, 0, MessageType::CommandAMF0, 0, payload));

    assert_eq!(session.feed(&bytes), Err(SessionError::NoAppName));
}

#[test]
fn test_oversized_chunk_size_request_is_fatal() {
    let mut session = Session::new();
    complete_handshake(&mut session);

    let mut bytes = Vec::new();
    let encoder = ChunkEncoder::new();
    encoder.write_chunk(
        &mut bytes,
        Chunk::new(2, 0, MessageType::SetChunkSize, 0, vec![0x00, 0x01, 0x00, 0x01]),
    );
    assert_eq!(session.feed(&bytes), Err(SessionError::InvalidChunkSize(65537)));

    // The hard cap itself is accepted.
    let mut session = Session::new();
    complete_handshake(&mut session);
    let mut bytes = Vec::new();
    encoder.write_chunk(
        &mut bytes,
        Chunk::new(2, 0, MessageType::SetChunkSize, 0, vec![0x00, 0x01, 0x00, 0x00]),
    );
    assert!(session.feed(&bytes).is_ok());
}

#[test]
fn test_play_is_fatal() {
    let mut session = Session::new();
    complete_handshake(&mut session);

    let mut payload = Vec::new();
    Amf0Encoder::encode_string(&mut payload, b"play");
    Amf0Encoder::encode_number(&mut payload, 2.0f64.to_bits());
    Amf0Encoder::encode_null(&mut payload);
    let mut bytes = Vec::new();
    let encoder = ChunkEncoder::new();
    encoder.write_chunk(&mut bytes, Chunk::new(3, 0, MessageType::CommandAMF0, 0, payload));

    assert_eq!(session.feed(&bytes), Err(SessionError::PlayNotSupported));
}

#[test]
fn test_data_before_publish_is_fatal() {
    let mut session = Session::new();
    complete_handshake(&mut session);

    let mut bytes = Vec::new();
    let encoder = ChunkEncoder::new();
    encoder.write_chunk(&mut bytes, Chunk::new(4, 0, MessageType::Audio, 1, vec![1, 2, 3]));
    assert_eq!(session.feed(&bytes), Err(SessionError::UnknownStreamID(1)));
}

#[test]
fn test_publish_flow() {
    let mut session = Session::new();
    complete_handshake(&mut session);

    // connect
    let actions = session.feed(&connect_bytes(b"live")).expect("connect accepted");
    assert!(actions.is_empty());
    let mut out = session.take_output();
    let mut decoder = ChunkDecoder::new();
    // The server announced its operating chunk size during the handshake;
    // read its replies at that size.
    assert!(decoder.update_max_chunk_size(4096));
    let win = decoder.read_chunk(&mut out).expect("read chunk").expect("chunk");
    assert_eq!(win.message_header.msg_type_id, 0x05);
    let bw = decoder.read_chunk(&mut out).expect("read chunk").expect("chunk");
    assert_eq!(bw.message_header.msg_type_id, 0x06);
    assert_eq!(bw.payload.last(), Some(&2u8));
    let result = decoder.read_chunk(&mut out).expect("read chunk").expect("chunk");
    assert_eq!(result.message_header.msg_type_id, 0x14);
    let values = Amf0Decoder::decode_all(&result.payload).expect("decodes");
    assert_eq!(values[0], Amf0Value::Str(b"_result".to_vec()));
    assert_eq!(values[1], Amf0Value::Number(1.0f64.to_bits()));
    assert!(out.is_empty());

    // createStream
    let mut payload = Vec::new();
    Amf0Encoder::encode_string(&mut payload, b"createStream");
    Amf0Encoder::encode_number(&mut payload, 4.0f64.to_bits());
    Amf0Encoder::encode_null(&mut payload);
    let mut bytes = Vec::new();
    let encoder = ChunkEncoder::new();
    encoder.write_chunk(&mut bytes, Chunk::new(3, 0, MessageType::CommandAMF0, 0, payload));
    session.feed(&bytes).expect("createStream accepted");
    let mut out = session.take_output();
    let result = decoder.read_chunk(&mut out).expect("read chunk").expect("chunk");
    let values = Amf0Decoder::decode_all(&result.payload).expect("decodes");
    assert_eq!(values[0], Amf0Value::Str(b"_result".to_vec()));
    assert_eq!(values[1], Amf0Value::Number(4.0f64.to_bits()));
    assert_eq!(values[2], Amf0Value::Null);
    assert_eq!(values[3], Amf0Value::Number(1.0f64.to_bits()));

    // publish: the session suspends and asks for admission.
    let actions = session.feed(&publish_bytes(b"xyz", 1)).expect("publish accepted");
    assert_eq!(
        actions,
        vec![SessionAction::RequestAdmission {
            app_name: b"live".to_vec(),
            stream_name: b"xyz".to_vec(),
        }]
    );
    assert_eq!(session.stage(), SessionStage::AwaitingAdmission);
    assert!(!session.is_publishing());
    assert!(session.take_output().is_empty());

    // Approval yields exactly one stream-begin event, then one
    // publish-start status, and publishing turns on.
    session.admission_granted(42);
    assert_eq!(session.uid(), Some(42));
    assert!(session.is_publishing());
    let mut out = session.take_output();
    let begin = decoder.read_chunk(&mut out).expect("read chunk").expect("chunk");
    assert_eq!(begin.message_header.msg_type_id, 0x04);
    assert_eq!(begin.payload, vec![0x00, 0x00, 0x00, 0x00, 0x00, 0x01]);
    let status = decoder.read_chunk(&mut out).expect("read chunk").expect("chunk");
    assert_eq!(status.message_header.msg_type_id, 0x14);
    let values = Amf0Decoder::decode_all(&status.payload).expect("decodes");
    assert_eq!(values[0], Amf0Value::Str(b"onStatus".to_vec()));
    assert_eq!(values[1], Amf0Value::Number(5.0f64.to_bits()));
    assert_eq!(values[2], Amf0Value::Null);
    match &values[3] {
        Amf0Value::Object(props) => {
            assert_eq!(props[0].key, b"level".to_vec());
            assert_eq!(props[0].value, Amf0Scalar::Str(b"status".to_vec()));
            assert_eq!(props[1].key, b"code".to_vec());
            assert_eq!(props[1].value, Amf0Scalar::Str(b"NetStream.Publish.Start".to_vec()));
            assert_eq!(props[2].key, b"description".to_vec());
            assert_eq!(props[2].value, Amf0Scalar::Str(b"".to_vec()));
        }
        other => panic!("expected a status object, got {:?}", other),
    }
    assert!(out.is_empty(), "no message beyond the event and the status");
    assert!(decoder.read_chunk(&mut out).expect("no errors").is_none());

    // Media on the bound stream flows to the consumer.
    let mut bytes = Vec::new();
    let encoder = ChunkEncoder::new();
    encoder.write_chunk(&mut bytes, Chunk::new(4, 77, MessageType::Audio, 1, vec![9, 9, 9]));
    let actions = session.feed(&bytes).expect("audio accepted");
    assert_eq!(
        actions,
        vec![SessionAction::Data(ChannelData::Audio { timestamp: 77, data: vec![9, 9, 9] })]
    );

    // deleteStream on the bound stream ends publishing gracefully.
    let mut payload = Vec::new();
    Amf0Encoder::encode_string(&mut payload, b"deleteStream");
    Amf0Encoder::encode_number(&mut payload, 6.0f64.to_bits());
    Amf0Encoder::encode_null(&mut payload);
    Amf0Encoder::encode_number(&mut payload, 1.0f64.to_bits());
    let mut bytes = Vec::new();
    encoder.write_chunk(&mut bytes, Chunk::new(3, 0, MessageType::CommandAMF0, 1, payload));
    session.feed(&bytes).expect("deleteStream accepted");
    assert!(!session.is_publishing());
    let mut out = session.take_output();
    let status = decoder.read_chunk(&mut out).expect("read chunk").expect("chunk");
    let values = Amf0Decoder::decode_all(&status.payload).expect("decodes");
    assert_eq!(values[0], Amf0Value::Str(b"onStatus".to_vec()));
    match &values[3] {
        Amf0Value::Object(props) => {
            assert_eq!(
                props[1].value,
                Amf0Scalar::Str(b"NetStream.DeleteStream.Suceess".to_vec())
            );
        }
        other => panic!("expected a status object, got {:?}", other),
    }
}

#[test]
fn test_publish_without_connect_is_fatal() {
    let mut session = Session::new();
    complete_handshake(&mut session);
    assert_eq!(session.feed(&publish_bytes(b"xyz", 1)), Err(SessionError::NoAppName));
}

#[test]
fn test_publish_without_stream_name_is_fatal() {
    let mut session = Session::new();
    complete_handshake(&mut session);
    session.feed(&connect_bytes(b"live")).expect("connect accepted");

    let mut payload = Vec::new();
    Amf0Encoder::encode_string(&mut payload, b"publish");
    Amf0Encoder::encode_number(&mut payload, 5.0f64.to_bits());
    Amf0Encoder::encode_null(&mut payload);
    let mut bytes = Vec::new();
    let encoder = ChunkEncoder::new();
    encoder.write_chunk(&mut bytes, Chunk::new(3, 0, MessageType::CommandAMF0, 1, payload));
    assert_eq!(session.feed(&bytes), Err(SessionError::NoStreamName));
}

#[test]
fn test_unknown_command_is_ignored() {
    let mut session = Session::new();
    complete_handshake(&mut session);

    let mut payload = Vec::new();
    Amf0Encoder::encode_string(&mut payload, b"releaseStream");
    Amf0Encoder::encode_number(&mut payload, 3.0f64.to_bits());
    Amf0Encoder::encode_null(&mut payload);
    let mut bytes = Vec::new();
    let encoder = ChunkEncoder::new();
    encoder.write_chunk(&mut bytes, Chunk::new(3, 0, MessageType::CommandAMF0, 0, payload));
    let actions = session.feed(&bytes).expect("ignored command");
    assert!(actions.is_empty());
    assert!(session.take_output().is_empty());
}

#[test]
fn test_input_buffers_while_awaiting_admission() {
    let mut session = Session::new();
    complete_handshake(&mut session);
    session.feed(&connect_bytes(b"live")).expect("connect accepted");
    session.feed(&publish_bytes(b"xyz", 1)).expect("publish accepted");
    session.take_output();

    // Audio sent while the admission answer is outstanding only buffers.
    let mut bytes = Vec::new();
    let encoder = ChunkEncoder::new();
    encoder.write_chunk(&mut bytes, Chunk::new(4, 5, MessageType::Audio, 1, vec![1, 2]));
    let actions = session.feed(&bytes).expect("buffered");
    assert!(actions.is_empty());

    // Once granted, the buffered audio is dispatched by the next feed.
    session.admission_granted(7);
    session.take_output();
    let actions = session.feed(&[]).expect("resumed");
    assert_eq!(
        actions,
        vec![SessionAction::Data(ChannelData::Audio { timestamp: 5, data: vec![1, 2] })]
    );
}
