//! Stream-level status replies, written on the command chunk stream with
//! timestamp 0 and message stream id 0.

use vstd::prelude::*;

use crate::amf0::Amf0Encoder;
use crate::amf0::Amf0Property;
use crate::amf0::Amf0Scalar;
use crate::amf0::Amf0ScalarView;
use crate::amf0::Amf0ValueView;
use crate::amf0::props_view;
use crate::amf0::spec_encode_value;
use crate::amf0::wf_props;
use crate::bytes_util::copy_vec;
use crate::chunk::COMMAND_CHUNK_STREAM_ID;
use crate::chunk::Chunk;
use crate::chunk_encoder::ChunkEncoder;
use crate::chunk_encoder::spec_encode_chunk;
use crate::messages::MessageType;
use crate::wire_strings;

verus! {

broadcast use Seq::add_empty_left, Seq::add_empty_right;

/// The payload of a status reply: the status command name, the transaction
/// id, a null command object, and a level/code/description object.
pub open spec fn spec_on_status_payload(
    transaction_id: u64,
    level: Seq<u8>,
    code: Seq<u8>,
    description: Seq<u8>,
) -> Seq<u8> {
    spec_encode_value(Amf0ValueView::Str(wire_strings::spec_on_status_name()))
        + spec_encode_value(Amf0ValueView::Number(transaction_id)) + spec_encode_value(
        Amf0ValueView::Null,
    ) + spec_encode_value(
        Amf0ValueView::Object(
            seq![
                (wire_strings::spec_key_level(), Amf0ScalarView::Str(level)),
                (wire_strings::spec_key_code(), Amf0ScalarView::Str(code)),
                (wire_strings::spec_key_description(), Amf0ScalarView::Str(description)),
            ],
        ),
    )
}

/// Writes stream-level status replies.
pub struct NetStreamWriter;

impl NetStreamWriter {
    /// Frames and appends a status reply.
    pub fn write_on_status(
        encoder: &ChunkEncoder,
        writer: &mut Vec<u8>,
        transaction_id: u64,
        level: &Vec<u8>,
        code: &Vec<u8>,
        description: &Vec<u8>,
    )
        requires
            encoder.wf(),
            level@.len() < 0x10000,
            code@.len() < 0x10000,
            description@.len() < 0x10000,
        ensures
            final(writer)@ == old(writer)@ + spec_encode_chunk(
                COMMAND_CHUNK_STREAM_ID,
                0,
                MessageType::CommandAMF0.spec_u8(),
                0,
                spec_on_status_payload(transaction_id, level@, code@, description@),
                encoder.chunk_size as int,
            ),
    {
        let mut payload: Vec<u8> = Vec::new();
        let name = wire_strings::on_status_name();
        Amf0Encoder::encode_string(&mut payload, name.as_slice());
        Amf0Encoder::encode_number(&mut payload, transaction_id);
        Amf0Encoder::encode_null(&mut payload);
        let mut info: Vec<Amf0Property> = Vec::new();
        info.push(
            Amf0Property { key: wire_strings::key_level(), value: Amf0Scalar::Str(copy_vec(level)) },
        );
        info.push(
            Amf0Property { key: wire_strings::key_code(), value: Amf0Scalar::Str(copy_vec(code)) },
        );
        info.push(
            Amf0Property {
                key: wire_strings::key_description(),
                value: Amf0Scalar::Str(copy_vec(description)),
            },
        );
        proof {
            assert(props_view(info@) =~= seq![
                (wire_strings::spec_key_level(), Amf0ScalarView::Str(level@)),
                (wire_strings::spec_key_code(), Amf0ScalarView::Str(code@)),
                (wire_strings::spec_key_description(), Amf0ScalarView::Str(description@)),
            ]);
            assert(wf_props(props_view(info@)));
        }
        Amf0Encoder::encode_object(&mut payload, &info);
        proof {
            assert(payload@ =~= spec_on_status_payload(transaction_id, level@, code@, description@));
            crate::amf0::lemma_encode_value_len(Amf0ValueView::Object(props_view(info@)));
            assert(payload@.len() < 0x1000000);
        }
        let chunk = Chunk::new(COMMAND_CHUNK_STREAM_ID, 0, MessageType::CommandAMF0, 0, payload);
        encoder.write_chunk(writer, chunk);
    }
}

} // verus!
