//! User control events: short notifications about the state of a message
//! stream, written on chunk stream 2 with timestamp 0 and message stream
//! id 0.

use vstd::prelude::*;

use crate::bytes_util::push_be_u16;
use crate::bytes_util::push_be_u32;
use crate::bytes_util::u16_to_be;
use crate::bytes_util::u32_to_be;
use crate::chunk::Chunk;
use crate::chunk_encoder::ChunkEncoder;
use crate::chunk_encoder::spec_encode_chunk;
use crate::messages::MessageType;
use crate::protocol_control::CONTROL_CHUNK_STREAM_ID;

verus! {

/// The event-type code of a stream-begin event.
pub const STREAM_BEGIN_EVENT: u16 = 0;

/// The event that announces a message stream is live.
#[derive(Debug, Clone, Copy, PartialEq, Eq, Structural)]
pub struct EventMessageStreamBegin {
    /// The message stream that begins.
    pub stream_id: u32,
}

impl EventMessageStreamBegin {
    /// The payload written for this event: the 2-byte event-type code,
    /// then the stream id as four big-endian bytes.
    pub open spec fn spec_payload(&self) -> Seq<u8> {
        u16_to_be(STREAM_BEGIN_EVENT) + u32_to_be(self.stream_id)
    }

    /// Frames this event and appends its bytes.
    pub fn write(&self, encoder: &ChunkEncoder, writer: &mut Vec<u8>)
        requires
            encoder.wf(),
        ensures
            final(writer)@ == old(writer)@ + spec_encode_chunk(
                CONTROL_CHUNK_STREAM_ID,
                0,
                MessageType::UserControlEvent.spec_u8(),
                0,
                self.spec_payload(),
                encoder.chunk_size as int,
            ),
    {
        let mut payload: Vec<u8> = Vec::new();
        push_be_u16(&mut payload, STREAM_BEGIN_EVENT);
        push_be_u32(&mut payload, self.stream_id);
        proof {
            assert(payload@ =~= self.spec_payload());
        }
        let chunk = Chunk::new(
            CONTROL_CHUNK_STREAM_ID,
            0,
            MessageType::UserControlEvent,
            0,
            payload,
        );
        encoder.write_chunk(writer, chunk);
    }
}

} // verus!
