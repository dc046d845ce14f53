use rtmp_core::chunk::Chunk;
use rtmp_core::chunk_decoder::ChunkDecoder;
use rtmp_core::chunk_encoder::ChunkEncoder;
use rtmp_core::messages::MessageType;
use rtmp_core::protocol_control::ProtocolControlMessageSetChunkSize;
use rtmp_core::protocol_control::ProtocolControlMessageSetPeerBandwidth;
use rtmp_core::protocol_control::ProtocolControlMessageSetPeerBandwidthLimitType;
use rtmp_core::protocol_control::ProtocolControlMessageWindowAcknowledgementSize;
use rtmp_core::user_control::EventMessageStreamBegin;

#[test]
fn test_writer_write_set_chunk_size() {
    let encoder = ChunkEncoder::new();
    let mut buf = Vec::new();

    ProtocolControlMessageSetChunkSize { chunk_size: 1 }.write(&encoder, &mut buf);

    let mut decoder = ChunkDecoder::new();

    let chunk = decoder.read_chunk(&mut buf).expect("read chunk").expect("chunk");
    assert_eq!(chunk.basic_header.chunk_stream_id, 0x02);
    assert_eq!(chunk.message_header.msg_type_id, 0x01);
    assert_eq!(chunk.message_header.msg_stream_id, 0);
    assert_eq!(chunk.payload, vec![0x00, 0x00, 0x00, 0x01]);
}

#[test]
fn test_writer_window_acknowledgement_size() {
    let encoder = ChunkEncoder::new();
    let mut buf = Vec::new();

    ProtocolControlMessageWindowAcknowledgementSize { acknowledgement_window_size: 1 }
        .write(&encoder, &mut buf);

    let mut decoder = ChunkDecoder::new();

    let chunk = decoder.read_chunk(&mut buf).expect("read chunk").expect("chunk");
    assert_eq!(chunk.basic_header.chunk_stream_id, 0x02);
    assert_eq!(chunk.message_header.msg_type_id, 0x05);
    assert_eq!(chunk.message_header.msg_stream_id, 0);
    assert_eq!(chunk.payload, vec![0x00, 0x00, 0x00, 0x01]);
}

#[test]
fn test_writer_set_peer_bandwidth() {
    let encoder = ChunkEncoder::new();
    let mut buf = Vec::new();

    ProtocolControlMessageSetPeerBandwidth {
        acknowledgement_window_size: 1,
        limit_type: ProtocolControlMessageSetPeerBandwidthLimitType::Dynamic,
    }
        .write(&encoder, &mut buf);

    let mut decoder = ChunkDecoder::new();

    let chunk = decoder.read_chunk(&mut buf).expect("read chunk").expect("chunk");
    assert_eq!(chunk.basic_header.chunk_stream_id, 0x02);
    assert_eq!(chunk.message_header.msg_type_id, 0x06);
    assert_eq!(chunk.message_header.msg_stream_id, 0);
    assert_eq!(chunk.payload, vec![0x00, 0x00, 0x00, 0x01, 0x02]);
}

#[test]
fn test_write_stream_begin() {
    let mut buf = Vec::new();
    let encoder = ChunkEncoder::new();

    EventMessageStreamBegin { stream_id: 1 }.write(&encoder, &mut buf);

    let mut decoder = ChunkDecoder::new();

    let chunk = decoder.read_chunk(&mut buf).expect("read chunk").expect("chunk");
    assert_eq!(chunk.basic_header.chunk_stream_id, 0x02);
    assert_eq!(chunk.message_header.msg_type_id, 0x04);
    assert_eq!(chunk.message_header.msg_stream_id, 0);
    assert_eq!(chunk.payload, vec![0x00, 0x00, 0x00, 0x00, 0x00, 0x01]);
}

#[test]
fn test_round_trip_control_message() {
    // The encoded form of a control message reads back with the same
    // chunk stream id, type, stream id, and payload.
    let encoder = ChunkEncoder::new();
    let mut buf = Vec::new();
    let payload = vec![0xDE, 0xAD, 0xBE, 0xEF, 0x42];
    encoder.write_chunk(&mut buf, Chunk::new(2, 0, MessageType::Abort, 0, payload.clone()));

    let mut decoder = ChunkDecoder::new();
    let chunk = decoder.read_chunk(&mut buf).expect("read chunk").expect("chunk");
    assert_eq!(chunk.basic_header.chunk_stream_id, 2);
    assert_eq!(chunk.message_header.msg_type_id, 0x02);
    assert_eq!(chunk.message_header.msg_stream_id, 0);
    assert_eq!(chunk.payload, payload);
    assert!(buf.is_empty());
}

#[test]
fn test_extended_timestamp_boundary() {
    // 0xFFFFFE sits whole in the 3-byte field: 1 basic + 11 header bytes.
    let encoder = ChunkEncoder::new();
    let mut buf = Vec::new();
    encoder.write_chunk(&mut buf, Chunk::new(3, 0xFFFFFE, MessageType::Video, 1, vec![7u8]));
    assert_eq!(buf.len(), 1 + 11 + 1);
    assert_eq!(&buf[1..4], &[0xFF, 0xFF, 0xFE]);

    let mut decoder = ChunkDecoder::new();
    let chunk = decoder.read_chunk(&mut buf).expect("read chunk").expect("chunk");
    assert_eq!(chunk.message_header.timestamp, 0xFFFFFE);
    assert!(!chunk.message_header.was_extended_timestamp);

    // 0xFFFFFF escapes to the 4-byte extension: 1 basic + 15 header bytes.
    let mut buf = Vec::new();
    encoder.write_chunk(&mut buf, Chunk::new(3, 0xFFFFFF, MessageType::Video, 1, vec![7u8]));
    assert_eq!(buf.len(), 1 + 15 + 1);
    assert_eq!(&buf[1..4], &[0xFF, 0xFF, 0xFF]);
    assert_eq!(&buf[12..16], &[0x00, 0xFF, 0xFF, 0xFF]);

    let mut decoder = ChunkDecoder::new();
    let chunk = decoder.read_chunk(&mut buf).expect("read chunk").expect("chunk");
    assert_eq!(chunk.message_header.timestamp, 0xFFFFFF);
    assert!(chunk.message_header.was_extended_timestamp);

    // And far above the boundary.
    let mut buf = Vec::new();
    encoder.write_chunk(&mut buf, Chunk::new(3, 0x12345678, MessageType::Video, 1, vec![7u8]));
    let mut decoder = ChunkDecoder::new();
    let chunk = decoder.read_chunk(&mut buf).expect("read chunk").expect("chunk");
    assert_eq!(chunk.message_header.timestamp, 0x12345678);
    assert!(chunk.message_header.was_extended_timestamp);
}

#[test]
fn test_fragmented_message_reassembled() {
    // A message larger than the negotiated chunk size arrives as several
    // same-stream chunks and is reassembled whole.
    let mut encoder = ChunkEncoder::new();
    encoder.set_chunk_size(16);
    let payload: Vec<u8> = (0..50u8).collect();
    let mut buf = Vec::new();
    encoder.write_chunk(&mut buf, Chunk::new(7, 100, MessageType::Video, 1, payload.clone()));

    let mut decoder = ChunkDecoder::new();
    assert!(decoder.update_max_chunk_size(16));
    let chunk = decoder.read_chunk(&mut buf).expect("read chunk").expect("chunk");
    assert_eq!(chunk.basic_header.chunk_stream_id, 7);
    assert_eq!(chunk.message_header.timestamp, 100);
    assert_eq!(chunk.message_header.msg_length, 50);
    assert_eq!(chunk.payload, payload);
    assert!(buf.is_empty());
}

#[test]
fn test_fragmented_extended_timestamp_reassembled() {
    // Fragmentation and the extended timestamp together.
    let mut encoder = ChunkEncoder::new();
    encoder.set_chunk_size(8);
    let payload: Vec<u8> = (0..20u8).collect();
    let mut buf = Vec::new();
    encoder.write_chunk(
        &mut buf,
        Chunk::new(321, 0x1000000, MessageType::Audio, 5, payload.clone()),
    );

    let mut decoder = ChunkDecoder::new();
    assert!(decoder.update_max_chunk_size(8));
    let chunk = decoder.read_chunk(&mut buf).expect("read chunk").expect("chunk");
    assert_eq!(chunk.basic_header.chunk_stream_id, 321);
    assert_eq!(chunk.message_header.timestamp, 0x1000000);
    assert_eq!(chunk.message_header.msg_stream_id, 5);
    assert_eq!(chunk.payload, payload);
}

#[test]
fn test_decoder_needs_more_data() {
    let encoder = ChunkEncoder::new();
    let mut bytes = Vec::new();
    encoder.write_chunk(&mut bytes, Chunk::new(4, 9, MessageType::Audio, 1, vec![1, 2, 3, 4]));

    // Feed the encoding one byte short: the decoder asks for more without
    // consuming anything it cannot finish.
    let mut partial = bytes[..bytes.len() - 1].to_vec();
    let mut decoder = ChunkDecoder::new();
    assert!(decoder.read_chunk(&mut partial).expect("no errors").is_none());

    // With the last byte the message completes.
    partial.push(bytes[bytes.len() - 1]);
    let chunk = decoder.read_chunk(&mut partial).expect("read chunk").expect("chunk");
    assert_eq!(chunk.payload, vec![1, 2, 3, 4]);
}

#[test]
fn test_decoder_rejects_inherited_header_without_history() {
    // A compressed (type 3) header on a chunk stream that never saw a full
    // header is rejected.
    let mut buf = vec![0xC5u8];  // format 3, chunk stream id 5
    let mut decoder = ChunkDecoder::new();
    assert!(decoder.read_chunk(&mut buf).is_err());
}

#[test]
fn test_update_max_chunk_size_cap() {
    let mut decoder = ChunkDecoder::new();
    assert!(decoder.update_max_chunk_size(65536));
    assert!(!decoder.update_max_chunk_size(65537));
}
