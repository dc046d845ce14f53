//! Protocol control messages: fixed-size messages that steer the framing
//! layer itself. They are written on chunk stream 2 with timestamp 0 and
//! message stream id 0.

use vstd::prelude::*;

use crate::bytes_util::push_be_u32;
use crate::bytes_util::u32_to_be;
use crate::chunk::Chunk;
use crate::chunk_encoder::ChunkEncoder;
use crate::chunk_encoder::spec_encode_chunk;
use crate::messages::MessageType;

verus! {

/// The chunk stream id that protocol control messages travel on.
pub const CONTROL_CHUNK_STREAM_ID: u32 = 2;

/// A request that the peer adopt a new chunk size.
#[derive(Debug, Clone, Copy, PartialEq, Eq, Structural)]
pub struct ProtocolControlMessageSetChunkSize {
    /// The requested chunk size.
    pub chunk_size: u32,
}

impl ProtocolControlMessageSetChunkSize {
    /// The payload written for this message: the size as four big-endian
    /// bytes with the top bit forced to zero.
    pub open spec fn spec_payload(&self) -> Seq<u8> {
        u32_to_be((self.chunk_size % 0x80000000) as u32)
    }

    /// Frames this message and appends its bytes.
    pub fn write(&self, encoder: &ChunkEncoder, writer: &mut Vec<u8>)
        requires
            encoder.wf(),
        ensures
            final(writer)@ == old(writer)@ + spec_encode_chunk(
                CONTROL_CHUNK_STREAM_ID,
                0,
                MessageType::SetChunkSize.spec_u8(),
                0,
                self.spec_payload(),
                encoder.chunk_size as int,
            ),
    {
        let size = self.chunk_size % 0x80000000;
        let mut payload: Vec<u8> = Vec::new();
        push_be_u32(&mut payload, size);
        proof {
            assert(payload@ =~= self.spec_payload());
        }
        let chunk = Chunk::new(CONTROL_CHUNK_STREAM_ID, 0, MessageType::SetChunkSize, 0, payload);
        encoder.write_chunk(writer, chunk);
    }
}

/// An announcement of the window size this side acknowledges at.
#[derive(Debug, Clone, Copy, PartialEq, Eq, Structural)]
pub struct ProtocolControlMessageWindowAcknowledgementSize {
    /// The acknowledgement window size.
    pub acknowledgement_window_size: u32,
}

impl ProtocolControlMessageWindowAcknowledgementSize {
    /// The payload written for this message: the size as four big-endian
    /// bytes.
    pub open spec fn spec_payload(&self) -> Seq<u8> {
        u32_to_be(self.acknowledgement_window_size)
    }

    /// Frames this message and appends its bytes.
    pub fn write(&self, encoder: &ChunkEncoder, writer: &mut Vec<u8>)
        requires
            encoder.wf(),
        ensures
            final(writer)@ == old(writer)@ + spec_encode_chunk(
                CONTROL_CHUNK_STREAM_ID,
                0,
                MessageType::WindowAcknowledgementSize.spec_u8(),
                0,
                self.spec_payload(),
                encoder.chunk_size as int,
            ),
    {
        let mut payload: Vec<u8> = Vec::new();
        push_be_u32(&mut payload, self.acknowledgement_window_size);
        proof {
            assert(payload@ =~= self.spec_payload());
        }
        let chunk = Chunk::new(
            CONTROL_CHUNK_STREAM_ID,
            0,
            MessageType::WindowAcknowledgementSize,
            0,
            payload,
        );
        encoder.write_chunk(writer, chunk);
    }
}

/// How the peer should treat a bandwidth limit.
#[derive(Debug, Clone, Copy, PartialEq, Eq, Structural)]
pub enum ProtocolControlMessageSetPeerBandwidthLimitType {
    /// The peer should hold output to the given bandwidth.
    Hard,
    /// The peer may hold output to any value at most the given bandwidth.
    Soft,
    /// The peer should treat the limit as hard when it was, and soft
    /// otherwise.
    Dynamic,
}

impl ProtocolControlMessageSetPeerBandwidthLimitType {
    /// The wire value of this limit type.
    pub open spec fn spec_u8(self) -> u8 {
        match self {
            ProtocolControlMessageSetPeerBandwidthLimitType::Hard => 0,
            ProtocolControlMessageSetPeerBandwidthLimitType::Soft => 1,
            ProtocolControlMessageSetPeerBandwidthLimitType::Dynamic => 2,
        }
    }

    /// Returns the wire value of this limit type.
    pub fn as_u8(&self) -> (r: u8)
        ensures
            r == self.spec_u8(),
    {
        match self {
            ProtocolControlMessageSetPeerBandwidthLimitType::Hard => 0,
            ProtocolControlMessageSetPeerBandwidthLimitType::Soft => 1,
            ProtocolControlMessageSetPeerBandwidthLimitType::Dynamic => 2,
        }
    }
}

/// A request that the peer limit its output bandwidth.
#[derive(Debug, Clone, Copy, PartialEq, Eq, Structural)]
pub struct ProtocolControlMessageSetPeerBandwidth {
    /// The window size to limit to.
    pub acknowledgement_window_size: u32,
    /// How the limit is to be treated.
    pub limit_type: ProtocolControlMessageSetPeerBandwidthLimitType,
}

impl ProtocolControlMessageSetPeerBandwidth {
    /// The payload written for this message: the size as four big-endian
    /// bytes, then the limit-type byte.
    pub open spec fn spec_payload(&self) -> Seq<u8> {
        u32_to_be(self.acknowledgement_window_size) + seq![self.limit_type.spec_u8()]
    }

    /// Frames this message and appends its bytes.
    pub fn write(&self, encoder: &ChunkEncoder, writer: &mut Vec<u8>)
        requires
            encoder.wf(),
        ensures
            final(writer)@ == old(writer)@ + spec_encode_chunk(
                CONTROL_CHUNK_STREAM_ID,
                0,
                MessageType::SetPeerBandwidth.spec_u8(),
                0,
                self.spec_payload(),
                encoder.chunk_size as int,
            ),
    {
        let mut payload: Vec<u8> = Vec::new();
        push_be_u32(&mut payload, self.acknowledgement_window_size);
        payload.push(self.limit_type.as_u8());
        proof {
            assert(payload@ =~= self.spec_payload());
        }
        let chunk = Chunk::new(
            CONTROL_CHUNK_STREAM_ID,
            0,
            MessageType::SetPeerBandwidth,
            0,
            payload,
        );
        encoder.write_chunk(writer, chunk);
    }
}

} // verus!
