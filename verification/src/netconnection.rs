//! Connection-level command replies: the connect result and the
//! create-stream result. Both are written on the command chunk stream with
//! timestamp 0 and message stream id 0.

use vstd::prelude::*;

use crate::amf0::Amf0Encoder;
use crate::amf0::Amf0Property;
use crate::amf0::Amf0Scalar;
use crate::amf0::Amf0ScalarView;
use crate::amf0::Amf0ValueView;
use crate::amf0::props_view;
use crate::amf0::spec_encode_value;
use crate::amf0::wf_props;
use crate::bytes_util::copy_vec;
use crate::chunk::COMMAND_CHUNK_STREAM_ID;
use crate::chunk::Chunk;
use crate::chunk_encoder::ChunkEncoder;
use crate::chunk_encoder::spec_encode_chunk;
use crate::messages::MessageType;
use crate::wire_strings;

verus! {

broadcast use Seq::add_empty_left, Seq::add_empty_right;

/// The payload of a connect reply: a result command naming the server
/// version and capabilities, and a status object with the outcome.
pub open spec fn spec_connect_response_payload(
    transaction_id: u64,
    fmsver: Seq<u8>,
    capabilities: u64,
    code: Seq<u8>,
    level: Seq<u8>,
    description: Seq<u8>,
    encoding: u64,
) -> Seq<u8> {
    spec_encode_value(Amf0ValueView::Str(wire_strings::spec_result_name()))
        + spec_encode_value(Amf0ValueView::Number(transaction_id)) + spec_encode_value(
        Amf0ValueView::Object(
            seq![
                (wire_strings::spec_key_fms_ver(), Amf0ScalarView::Str(fmsver)),
                (wire_strings::spec_key_capabilities(), Amf0ScalarView::Number(capabilities)),
            ],
        ),
    ) + spec_encode_value(
        Amf0ValueView::Object(
            seq![
                (wire_strings::spec_key_level(), Amf0ScalarView::Str(level)),
                (wire_strings::spec_key_code(), Amf0ScalarView::Str(code)),
                (wire_strings::spec_key_description(), Amf0ScalarView::Str(description)),
                (wire_strings::spec_key_object_encoding(), Amf0ScalarView::Number(encoding)),
            ],
        ),
    )
}

/// The payload of a create-stream reply: a result command carrying the
/// allocated stream id.
pub open spec fn spec_create_stream_response_payload(transaction_id: u64, stream_id: u64) -> Seq<
    u8,
> {
    spec_encode_value(Amf0ValueView::Str(wire_strings::spec_result_name()))
        + spec_encode_value(Amf0ValueView::Number(transaction_id)) + spec_encode_value(
        Amf0ValueView::Null,
    ) + spec_encode_value(Amf0ValueView::Number(stream_id))
}

/// Writes connection-level command replies.
pub struct NetConnection;

impl NetConnection {
    /// Frames and appends a connect reply. Numbers are given as the bit
    /// patterns of their 8-byte wire fields.
    pub fn write_connect_response(
        encoder: &ChunkEncoder,
        writer: &mut Vec<u8>,
        transaction_id: u64,
        fmsver: &Vec<u8>,
        capabilities: u64,
        code: &Vec<u8>,
        level: &Vec<u8>,
        description: &Vec<u8>,
        encoding: u64,
    )
        requires
            encoder.wf(),
            fmsver@.len() < 0x10000,
            code@.len() < 0x10000,
            level@.len() < 0x10000,
            description@.len() < 0x10000,
        ensures
            final(writer)@ == old(writer)@ + spec_encode_chunk(
                COMMAND_CHUNK_STREAM_ID,
                0,
                MessageType::CommandAMF0.spec_u8(),
                0,
                spec_connect_response_payload(
                    transaction_id,
                    fmsver@,
                    capabilities,
                    code@,
                    level@,
                    description@,
                    encoding,
                ),
                encoder.chunk_size as int,
            ),
    {
        let mut payload: Vec<u8> = Vec::new();
        let name = wire_strings::result_name();
        Amf0Encoder::encode_string(&mut payload, name.as_slice());
        Amf0Encoder::encode_number(&mut payload, transaction_id);
        let mut props: Vec<Amf0Property> = Vec::new();
        props.push(
            Amf0Property { key: wire_strings::key_fms_ver(), value: Amf0Scalar::Str(copy_vec(fmsver)) },
        );
        props.push(
            Amf0Property {
                key: wire_strings::key_capabilities(),
                value: Amf0Scalar::Number(capabilities),
            },
        );
        proof {
            assert(props_view(props@) =~= seq![
                (wire_strings::spec_key_fms_ver(), Amf0ScalarView::Str(fmsver@)),
                (wire_strings::spec_key_capabilities(), Amf0ScalarView::Number(capabilities)),
            ]);
            assert(wf_props(props_view(props@)));
        }
        Amf0Encoder::encode_object(&mut payload, &props);
        let mut info: Vec<Amf0Property> = Vec::new();
        info.push(
            Amf0Property { key: wire_strings::key_level(), value: Amf0Scalar::Str(copy_vec(level)) },
        );
        info.push(
            Amf0Property { key: wire_strings::key_code(), value: Amf0Scalar::Str(copy_vec(code)) },
        );
        info.push(
            Amf0Property {
                key: wire_strings::key_description(),
                value: Amf0Scalar::Str(copy_vec(description)),
            },
        );
        info.push(
            Amf0Property {
                key: wire_strings::key_object_encoding(),
                value: Amf0Scalar::Number(encoding),
            },
        );
        proof {
            assert(props_view(info@) =~= seq![
                (wire_strings::spec_key_level(), Amf0ScalarView::Str(level@)),
                (wire_strings::spec_key_code(), Amf0ScalarView::Str(code@)),
                (wire_strings::spec_key_description(), Amf0ScalarView::Str(description@)),
                (wire_strings::spec_key_object_encoding(), Amf0ScalarView::Number(encoding)),
            ]);
            assert(wf_props(props_view(info@)));
        }
        Amf0Encoder::encode_object(&mut payload, &info);
        proof {
            assert(payload@ =~= spec_connect_response_payload(
                transaction_id,
                fmsver@,
                capabilities,
                code@,
                level@,
                description@,
                encoding,
            ));
            crate::amf0::lemma_encode_value_len(Amf0ValueView::Object(props_view(props@)));
            crate::amf0::lemma_encode_value_len(Amf0ValueView::Object(props_view(info@)));
            assert(payload@.len() < 0x1000000);
        }
        let chunk = Chunk::new(COMMAND_CHUNK_STREAM_ID, 0, MessageType::CommandAMF0, 0, payload);
        encoder.write_chunk(writer, chunk);
    }

    /// Frames and appends a create-stream reply allocating a stream id.
    pub fn write_create_stream_response(
        encoder: &ChunkEncoder,
        writer: &mut Vec<u8>,
        transaction_id: u64,
        stream_id: u64,
    )
        requires
            encoder.wf(),
        ensures
            final(writer)@ == old(writer)@ + spec_encode_chunk(
                COMMAND_CHUNK_STREAM_ID,
                0,
                MessageType::CommandAMF0.spec_u8(),
                0,
                spec_create_stream_response_payload(transaction_id, stream_id),
                encoder.chunk_size as int,
            ),
    {
        let mut payload: Vec<u8> = Vec::new();
        let name = wire_strings::result_name();
        Amf0Encoder::encode_string(&mut payload, name.as_slice());
        Amf0Encoder::encode_number(&mut payload, transaction_id);
        Amf0Encoder::encode_null(&mut payload);
        Amf0Encoder::encode_number(&mut payload, stream_id);
        proof {
            assert(payload@ =~= spec_create_stream_response_payload(transaction_id, stream_id));
        }
        let chunk = Chunk::new(COMMAND_CHUNK_STREAM_ID, 0, MessageType::CommandAMF0, 0, payload);
        encoder.write_chunk(writer, chunk);
    }
}

} // verus!
