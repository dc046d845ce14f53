//! The chunk encoder: frames one logical message into one or more chunks.
//!
//! The encoder always writes a full message header on the first chunk of a
//! message, never a compressed one: a few header bytes buy freedom from
//! every inherited-state hazard on the write side, and receivers must
//! support full headers anyway.

use vstd::prelude::*;

use crate::bytes_util::push_be_u24;
use crate::bytes_util::push_be_u32;
use crate::bytes_util::push_le_u32;
use crate::bytes_util::push_slice_range;
use crate::bytes_util::u24_to_be;
use crate::bytes_util::u32_to_be;
use crate::bytes_util::u32_to_le;
use crate::chunk::Chunk;
use crate::chunk::CHUNK_STREAM_ID_LIMIT;
use crate::chunk::EXTENDED_TIMESTAMP;
use crate::chunk::INIT_CHUNK_SIZE;
use crate::chunk::MIN_CHUNK_STREAM_ID;

verus! {

/// The wire bytes of a basic header with the given format bits and chunk
/// stream id.
pub open spec fn spec_basic_header(fmt: u8, csid: u32) -> Seq<u8>
    recommends
        fmt < 4,
        csid < CHUNK_STREAM_ID_LIMIT,
{
    if csid < 64 {
        seq![(fmt * 64 + csid) as u8]
    } else if csid < 320 {
        seq![(fmt * 64) as u8, (csid - 64) as u8]
    } else {
        seq![(fmt * 64 + 1) as u8, ((csid - 64) / 0x100) as u8, ((csid - 64) % 0x100) as u8]
    }
}

/// The wire bytes of a full message header, extension included when the
/// timestamp needs one.
pub open spec fn spec_message_header_type0(
    timestamp: u32,
    msg_length: u32,
    msg_type_id: u8,
    msg_stream_id: u32,
) -> Seq<u8>
    recommends
        msg_length < 0x1000000,
{
    (if timestamp >= EXTENDED_TIMESTAMP {
        u24_to_be(EXTENDED_TIMESTAMP)
    } else {
        u24_to_be(timestamp)
    }) + u24_to_be(msg_length) + seq![msg_type_id] + u32_to_le(msg_stream_id) + (
    if timestamp >= EXTENDED_TIMESTAMP {
        u32_to_be(timestamp)
    } else {
        Seq::<u8>::empty()
    })
}

/// The wire bytes that carry a message's payload: full chunks separated by
/// continuation headers, each repeating the extended timestamp when the
/// message has one.
pub open spec fn spec_chunk_body(
    csid: u32,
    ext: bool,
    timestamp: u32,
    payload: Seq<u8>,
    cs: int,
) -> Seq<u8>
    decreases payload.len(),
{
    if cs < 1 || payload.len() <= cs {
        payload
    } else {
        payload.take(cs) + spec_basic_header(3, csid) + (if ext {
            u32_to_be(timestamp)
        } else {
            Seq::<u8>::empty()
        }) + spec_chunk_body(csid, ext, timestamp, payload.skip(cs), cs)
    }
}

/// The whole wire encoding of one message framed as chunks.
pub open spec fn spec_encode_chunk(
    csid: u32,
    timestamp: u32,
    msg_type_id: u8,
    msg_stream_id: u32,
    payload: Seq<u8>,
    cs: int,
) -> Seq<u8>
    recommends
        payload.len() < 0x1000000,
{
    spec_basic_header(0, csid) + spec_message_header_type0(
        timestamp,
        payload.len() as u32,
        msg_type_id,
        msg_stream_id,
    ) + spec_chunk_body(csid, timestamp >= EXTENDED_TIMESTAMP, timestamp, payload, cs)
}

/// Frames outbound messages into chunks of a configured size.
#[derive(Debug, Clone, Copy, PartialEq, Eq, Structural)]
pub struct ChunkEncoder {
    /// The chunk size this encoder splits payloads at.
    pub chunk_size: usize,
}

impl Default for ChunkEncoder {
    /// An encoder at the initial chunk size of the protocol.
    fn default() -> (r: Self)
        ensures
            r.chunk_size == INIT_CHUNK_SIZE,
    {
        ChunkEncoder { chunk_size: INIT_CHUNK_SIZE }
    }
}

impl ChunkEncoder {
    /// An encoder is well formed when its chunk size allows progress.
    pub open spec fn wf(&self) -> bool {
        1 <= self.chunk_size
    }

    /// Creates an encoder at the initial chunk size of the protocol.
    pub fn new() -> (r: Self)
        ensures
            r.chunk_size == INIT_CHUNK_SIZE,
    {
        ChunkEncoder { chunk_size: INIT_CHUNK_SIZE }
    }

    /// Sets the chunk size for the messages written after this call.
    pub fn set_chunk_size(&mut self, chunk_size: usize)
        requires
            1 <= chunk_size,
        ensures
            final(self).chunk_size == chunk_size,
    {
        self.chunk_size = chunk_size;
    }

    /// Appends a basic header.
    fn write_basic_header(writer: &mut Vec<u8>, fmt: u8, csid: u32)
        requires
            fmt < 4,
            MIN_CHUNK_STREAM_ID <= csid < CHUNK_STREAM_ID_LIMIT,
        ensures
            final(writer)@ == old(writer)@ + spec_basic_header(fmt, csid),
    {
        if csid < 64 {
            writer.push(fmt * 64 + csid as u8);
        } else if csid < 320 {
            writer.push(fmt * 64);
            writer.push((csid - 64) as u8);
        } else {
            writer.push(fmt * 64 + 1);
            let rest = csid - 64;
            writer.push((rest / 0x100) as u8);
            writer.push((rest % 0x100) as u8);
        }
        proof {
            assert(writer@ =~= old(writer)@ + spec_basic_header(fmt, csid));
        }
    }

    /// Appends a full message header.
    fn write_message_header(
        writer: &mut Vec<u8>,
        timestamp: u32,
        msg_length: u32,
        msg_type_id: u8,
        msg_stream_id: u32,
    )
        requires
            msg_length < 0x1000000,
        ensures
            final(writer)@ == old(writer)@ + spec_message_header_type0(
                timestamp,
                msg_length,
                msg_type_id,
                msg_stream_id,
            ),
    {
        if timestamp >= EXTENDED_TIMESTAMP {
            push_be_u24(writer, EXTENDED_TIMESTAMP);
        } else {
            push_be_u24(writer, timestamp);
        }
        push_be_u24(writer, msg_length);
        writer.push(msg_type_id);
        push_le_u32(writer, msg_stream_id);
        if timestamp >= EXTENDED_TIMESTAMP {
            push_be_u32(writer, timestamp);
        }
        proof {
            assert(writer@ =~= old(writer)@ + spec_message_header_type0(
                timestamp,
                msg_length,
                msg_type_id,
                msg_stream_id,
            ));
        }
    }

    /// Appends the payload from `start` on, splitting it at the chunk size
    /// with continuation headers between the pieces.
    fn write_body(
        writer: &mut Vec<u8>,
        csid: u32,
        ext: bool,
        timestamp: u32,
        payload: &Vec<u8>,
        start: usize,
        cs: usize,
    )
        requires
            1 <= cs,
            start <= payload.len(),
            MIN_CHUNK_STREAM_ID <= csid < CHUNK_STREAM_ID_LIMIT,
        ensures
            final(writer)@ == old(writer)@ + spec_chunk_body(
                csid,
                ext,
                timestamp,
                payload@.skip(start as int),
                cs as int,
            ),
        decreases payload.len() - start,
    {
        let remaining = payload.len() - start;
        if remaining <= cs {
            push_slice_range(writer, payload, start, payload.len());
            proof {
                assert(payload@.subrange(start as int, payload@.len() as int) =~= payload@.skip(
                    start as int,
                ));
            }
        } else {
            push_slice_range(writer, payload, start, start + cs);
            Self::write_basic_header(writer, 3, csid);
            if ext {
                push_be_u32(writer, timestamp);
            }
            Self::write_body(writer, csid, ext, timestamp, payload, start + cs, cs);
            proof {
                assert(payload@.subrange(start as int, start + cs) =~= payload@.skip(
                    start as int,
                ).take(cs as int));
                assert(payload@.skip(start as int).skip(cs as int) =~= payload@.skip(
                    start + cs,
                ));
                assert(writer@ =~= old(writer)@ + spec_chunk_body(
                    csid,
                    ext,
                    timestamp,
                    payload@.skip(start as int),
                    cs as int,
                ));
            }
        }
    }

    /// Frames one message into chunks and appends the bytes.
    pub fn write_chunk(&self, writer: &mut Vec<u8>, chunk: Chunk)
        requires
            self.wf(),
            MIN_CHUNK_STREAM_ID <= chunk.basic_header.chunk_stream_id < CHUNK_STREAM_ID_LIMIT,
            chunk.payload@.len() < 0x1000000,
            chunk.message_header.msg_length == chunk.payload@.len(),
        ensures
            final(writer)@ == old(writer)@ + spec_encode_chunk(
                chunk.basic_header.chunk_stream_id,
                chunk.message_header.timestamp,
                chunk.message_header.msg_type_id,
                chunk.message_header.msg_stream_id,
                chunk.payload@,
                self.chunk_size as int,
            ),
    {
        let csid = chunk.basic_header.chunk_stream_id;
        let timestamp = chunk.message_header.timestamp;
        Self::write_basic_header(writer, 0, csid);
        Self::write_message_header(
            writer,
            timestamp,
            chunk.message_header.msg_length,
            chunk.message_header.msg_type_id,
            chunk.message_header.msg_stream_id,
        );
        Self::write_body(
            writer,
            csid,
            timestamp >= EXTENDED_TIMESTAMP,
            timestamp,
            &chunk.payload,
            0,
            self.chunk_size,
        );
        proof {
            assert(chunk.payload@.skip(0) =~= chunk.payload@);
            assert(writer@ =~= old(writer)@ + spec_encode_chunk(
                csid,
                timestamp,
                chunk.message_header.msg_type_id,
                chunk.message_header.msg_stream_id,
                chunk.payload@,
                self.chunk_size as int,
            ));
        }
    }
}

} // verus!
