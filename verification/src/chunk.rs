//! The chunk types of the framing layer, and its size constants.

use vstd::prelude::*;

use crate::messages::MessageType;

verus! {

/// The chunk stream id that command responses are written on.
pub const COMMAND_CHUNK_STREAM_ID: u32 = 3;

/// The chunk stream id that audio data is written on.
pub const AUDIO_CHUNK_STREAM_ID: u32 = 4;

/// The chunk stream id that video data is written on.
pub const VIDEO_CHUNK_STREAM_ID: u32 = 5;

/// The chunk size this side announces and writes with.
pub const CHUNK_SIZE: usize = 4096;

/// The hard cap on any chunk size the peer may request; a larger request
/// closes the connection.
pub const MAX_CHUNK_SIZE: usize = 4096 * 16;

/// The chunk size both sides start at.
pub const INIT_CHUNK_SIZE: usize = 128;

/// The smallest chunk stream id the basic header can carry.
pub const MIN_CHUNK_STREAM_ID: u32 = 2;

/// One above the largest chunk stream id the basic header can carry.
pub const CHUNK_STREAM_ID_LIMIT: u32 = 65600;

/// The smallest timestamp that does not fit the 3-byte field and is carried
/// in the 4-byte extension instead.
pub const EXTENDED_TIMESTAMP: u32 = 0xFFFFFF;

/// The format of a chunk header: how much of the message header is present.
#[derive(Debug, Clone, Copy, PartialEq, Eq, Structural, Hash)]
pub enum ChunkType {
    /// A full message header.
    Type0,
    /// A header without a message stream id; the timestamp is a delta.
    Type1,
    /// A timestamp delta only.
    Type2,
    /// No header fields at all.
    Type3,
}

impl ChunkType {
    /// The two-bit wire value of this format.
    pub open spec fn spec_u8(self) -> u8 {
        match self {
            ChunkType::Type0 => 0,
            ChunkType::Type1 => 1,
            ChunkType::Type2 => 2,
            ChunkType::Type3 => 3,
        }
    }

    /// The format named by a two-bit wire value.
    pub open spec fn spec_from_u8(v: u8) -> Option<ChunkType> {
        if v == 0 {
            Some(ChunkType::Type0)
        } else if v == 1 {
            Some(ChunkType::Type1)
        } else if v == 2 {
            Some(ChunkType::Type2)
        } else if v == 3 {
            Some(ChunkType::Type3)
        } else {
            None
        }
    }

    /// Returns the two-bit wire value of this format.
    pub fn as_u8(&self) -> (r: u8)
        ensures
            r == self.spec_u8(),
    {
        match self {
            ChunkType::Type0 => 0,
            ChunkType::Type1 => 1,
            ChunkType::Type2 => 2,
            ChunkType::Type3 => 3,
        }
    }

    /// Reads a format from its two-bit wire value.
    pub fn from_u8(v: u8) -> (r: Option<ChunkType>)
        ensures
            r == Self::spec_from_u8(v),
    {
        if v == 0 {
            Some(ChunkType::Type0)
        } else if v == 1 {
            Some(ChunkType::Type1)
        } else if v == 2 {
            Some(ChunkType::Type2)
        } else if v == 3 {
            Some(ChunkType::Type3)
        } else {
            None
        }
    }
}

/// A chunk basic header: the header format and the chunk stream id.
#[derive(Debug, Clone, Copy, PartialEq, Eq, Structural)]
pub struct ChunkBasicHeader {
    /// The header format the chunk was read with.
    pub format: ChunkType,
    /// The chunk stream id the chunk belongs to.
    pub chunk_stream_id: u32,
}

/// A chunk message header, with every inherited field already resolved.
#[derive(Debug, Clone, Copy, PartialEq, Eq, Structural)]
pub struct ChunkMessageHeader {
    /// The timestamp of the message.
    pub timestamp: u32,
    /// The length of the message in bytes.
    pub msg_length: u32,
    /// The message type byte.
    pub msg_type_id: u8,
    /// The message stream id of the message.
    pub msg_stream_id: u32,
    /// Whether the timestamp was carried in the 4-byte extension.
    pub was_extended_timestamp: bool,
}

impl ChunkMessageHeader {
    /// True when the timestamp does not fit the 3-byte field and must be
    /// written in the 4-byte extension.
    pub fn is_extended_timestamp(&self) -> (r: bool)
        ensures
            r == (self.timestamp >= EXTENDED_TIMESTAMP),
    {
        self.timestamp >= EXTENDED_TIMESTAMP
    }
}

/// A chunk: a basic header, a message header, and the payload bytes.
#[derive(Debug, Clone, PartialEq, Eq)]
pub struct Chunk {
    /// The basic header of the chunk.
    pub basic_header: ChunkBasicHeader,
    /// The message header of the chunk.
    pub message_header: ChunkMessageHeader,
    /// The payload of the chunk.
    pub payload: Vec<u8>,
}

impl Chunk {
    /// Builds a full-header chunk for one whole message.
    pub fn new(
        chunk_stream_id: u32,
        timestamp: u32,
        msg_type_id: MessageType,
        msg_stream_id: u32,
        payload: Vec<u8>,
    ) -> (r: Chunk)
        requires
            payload@.len() < 0x1000000,
        ensures
            r.basic_header == (ChunkBasicHeader {
                format: ChunkType::Type0,
                chunk_stream_id: chunk_stream_id,
            }),
            r.message_header == (ChunkMessageHeader {
                timestamp: timestamp,
                msg_length: payload@.len() as u32,
                msg_type_id: msg_type_id.spec_u8(),
                msg_stream_id: msg_stream_id,
                was_extended_timestamp: false,
            }),
            r.payload@ == payload@,
    {
        let msg_length = payload.len() as u32;
        Chunk {
            basic_header: ChunkBasicHeader { format: ChunkType::Type0, chunk_stream_id },
            message_header: ChunkMessageHeader {
                timestamp,
                msg_length,
                msg_type_id: msg_type_id.as_u8(),
                msg_stream_id,
                was_extended_timestamp: false,
            },
            payload,
        }
    }
}

} // verus!
