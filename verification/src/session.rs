//! The session state machine: drives the handshake, reads framed messages,
//! dispatches commands, manages one publish admission, and hands media to
//! the caller.
//!
//! The session decides; the caller performs the outside work. Bytes read
//! from the peer go in through `feed`; bytes to write back accumulate and
//! are drained with `take_output`; media and admission requests come back
//! as actions. While an admission request is outstanding the session only
//! buffers input, until `admission_granted` resumes it.

use vstd::prelude::*;

use crate::amf0::Amf0Property;
use crate::amf0::Amf0Scalar;
use crate::amf0::Amf0ScalarView;
use crate::amf0::Amf0ValueView;
use crate::amf0::Amf0Value;
use crate::amf0::find_property_index;
use crate::amf0::props_view;
use crate::amf0::spec_find_property;
use crate::amf0::spec_number_as_u32;
use crate::amf0::number_as_u32;
use crate::amf0::AMF0_NUMBER_ONE;
use crate::amf0::AMF0_NUMBER_ZERO;
use crate::bytes_util::bytes_eq;
use crate::bytes_util::copy_vec;
use crate::bytes_util::push_slice;
use crate::bytes_util::u16_to_be;
use crate::bytes_util::u32_to_be;
use crate::chunk::CHUNK_SIZE;
use crate::chunk::COMMAND_CHUNK_STREAM_ID;
use crate::chunk::MAX_CHUNK_SIZE;
use crate::chunk_decoder::ChunkDecodeError;
use crate::chunk_decoder::ChunkDecoder;
use crate::chunk_decoder::entries_view;
use crate::chunk_decoder::lemma_read_message_progress;
use crate::chunk_decoder::spec_read_message;
use crate::chunk_decoder::SpecEntry;
use crate::chunk_decoder::SpecReadOutcome;
use crate::chunk_encoder::ChunkEncoder;
use crate::chunk_encoder::spec_encode_chunk;
use crate::handshake::HandshakeServer;
use crate::handshake::ServerHandshakeState;
use crate::messages::MessageData;
use crate::messages::MessageDataView;
use crate::messages::MessageError;
use crate::messages::MessageType;
use crate::netconnection::NetConnection;
use crate::netconnection::spec_connect_response_payload;
use crate::netconnection::spec_create_stream_response_payload;
use crate::netstream::NetStreamWriter;
use crate::netstream::spec_on_status_payload;
use crate::protocol_control::CONTROL_CHUNK_STREAM_ID;
use crate::protocol_control::ProtocolControlMessageSetChunkSize;
use crate::protocol_control::ProtocolControlMessageSetPeerBandwidth;
use crate::protocol_control::ProtocolControlMessageSetPeerBandwidthLimitType;
use crate::protocol_control::ProtocolControlMessageWindowAcknowledgementSize;
use crate::user_control::EventMessageStreamBegin;
use crate::wire_strings;

verus! {

broadcast use Seq::add_empty_left, Seq::add_empty_right;

/// The bit pattern of the capabilities number sent in a connect reply.
pub const CAPABILITIES_BITS: u64 = 0x403F000000000000;

/// Where the session stands.
#[derive(Debug, Clone, Copy, PartialEq, Eq, Structural)]
pub enum SessionStage {
    /// Performing the opening byte exchange.
    Handshaking,
    /// Reading and dispatching framed messages.
    Ready,
    /// Waiting for the admission collaborator's answer to a publish
    /// request; input is buffered meanwhile.
    AwaitingAdmission,
}

/// Why a session must end.
#[derive(Debug, Clone, Copy, PartialEq, Eq, Structural)]
pub enum SessionError {
    /// A connect command carried no application name.
    NoAppName,
    /// A publish command carried no stream name.
    NoStreamName,
    /// The peer asked to play, which this server does not serve.
    PlayNotSupported,
    /// The peer requested a chunk size above the hard cap.
    InvalidChunkSize(u32),
    /// Media arrived for a stream id that is not the bound publishing
    /// stream.
    UnknownStreamID(u32),
    /// The admission collaborator denied the publish request or went away.
    PublishRequestDenied,
    /// The chunk layer rejected the input.
    ChunkDecode(ChunkDecodeError),
    /// The message layer rejected a payload.
    Message(MessageError),
}

/// One decoded media payload with its timestamp.
#[derive(Debug, Clone, PartialEq, Eq)]
pub enum ChannelData {
    /// An audio payload.
    Audio {
        /// The timestamp of the wrapping message.
        timestamp: u32,
        /// The payload bytes.
        data: Vec<u8>,
    },
    /// A video payload.
    Video {
        /// The timestamp of the wrapping message.
        timestamp: u32,
        /// The payload bytes.
        data: Vec<u8>,
    },
    /// A metadata payload.
    Metadata {
        /// The timestamp of the wrapping message.
        timestamp: u32,
        /// The payload bytes.
        data: Vec<u8>,
    },
}

/// Outside work the caller must perform for the session.
#[derive(Debug, Clone, PartialEq, Eq)]
pub enum SessionAction {
    /// Forward this media payload to the consumer.
    Data(ChannelData),
    /// Ask the admission collaborator whether this publish may proceed,
    /// then answer with `admission_granted` or abort with
    /// `PublishRequestDenied`.
    RequestAdmission {
        /// The application namespace from the connect command.
        app_name: Vec<u8>,
        /// The requested stream name.
        stream_name: Vec<u8>,
    },
}

/// A server-side session over one connection.
#[derive(Debug)]
pub struct Session {
    /// Where the session stands.
    pub stage: SessionStage,
    /// The handshake driver.
    pub handshake: HandshakeServer,
    /// The application namespace, once a connect command named it.
    pub app_name: Option<Vec<u8>>,
    /// The identifier the admission collaborator issued, once granted.
    pub uid: Option<u64>,
    /// The bound publishing stream id; 0 when none.
    pub stream_id: u32,
    /// Whether a publish is active.
    pub is_publishing: bool,
    /// The chunk decoder and its per-stream cache.
    pub decoder: ChunkDecoder,
    /// The chunk encoder for responses.
    pub encoder: ChunkEncoder,
    /// Bytes received and not yet consumed.
    pub read_buf: Vec<u8>,
    /// Bytes to be written to the peer.
    pub write_buf: Vec<u8>,
    /// The message stream id a pending publish would bind.
    pub pending_stream_id: u32,
    /// The transaction id of the pending publish command.
    pub pending_transaction_id: u64,
}

/// The bytes of the window-acknowledgement-size announcement.
pub open spec fn spec_window_ack_bytes(cs: int) -> Seq<u8> {
    spec_encode_chunk(
        CONTROL_CHUNK_STREAM_ID,
        0,
        MessageType::WindowAcknowledgementSize.spec_u8(),
        0,
        u32_to_be(CHUNK_SIZE as u32),
        cs,
    )
}

/// The bytes of the set-peer-bandwidth request with the dynamic limit.
pub open spec fn spec_set_peer_bandwidth_bytes(cs: int) -> Seq<u8> {
    spec_encode_chunk(
        CONTROL_CHUNK_STREAM_ID,
        0,
        MessageType::SetPeerBandwidth.spec_u8(),
        0,
        u32_to_be(CHUNK_SIZE as u32) + seq![2u8],
        cs,
    )
}

/// The bytes of the set-chunk-size announcement of the operating size.
pub open spec fn spec_set_chunk_size_bytes(cs: int) -> Seq<u8> {
    spec_encode_chunk(
        CONTROL_CHUNK_STREAM_ID,
        0,
        MessageType::SetChunkSize.spec_u8(),
        0,
        u32_to_be((CHUNK_SIZE as u32 % 0x80000000) as u32),
        cs,
    )
}

/// The bytes of the successful connect reply.
pub open spec fn spec_connect_success_bytes(cs: int, transaction_id: u64) -> Seq<u8> {
    spec_encode_chunk(
        COMMAND_CHUNK_STREAM_ID,
        0,
        MessageType::CommandAMF0.spec_u8(),
        0,
        spec_connect_response_payload(
            transaction_id,
            wire_strings::spec_fms_version(),
            CAPABILITIES_BITS,
            wire_strings::spec_code_connect_success(),
            wire_strings::spec_level_status(),
            wire_strings::spec_desc_connect_success(),
            AMF0_NUMBER_ZERO,
        ),
        cs,
    )
}

/// The bytes of the create-stream reply allocating stream id one.
pub open spec fn spec_create_stream_bytes(cs: int, transaction_id: u64) -> Seq<u8> {
    spec_encode_chunk(
        COMMAND_CHUNK_STREAM_ID,
        0,
        MessageType::CommandAMF0.spec_u8(),
        0,
        spec_create_stream_response_payload(transaction_id, AMF0_NUMBER_ONE),
        cs,
    )
}

/// The bytes of a status reply at the status level.
pub open spec fn spec_status_bytes(cs: int, transaction_id: u64, code: Seq<u8>, description: Seq<
    u8,
>) -> Seq<u8> {
    spec_encode_chunk(
        COMMAND_CHUNK_STREAM_ID,
        0,
        MessageType::CommandAMF0.spec_u8(),
        0,
        spec_on_status_payload(
            transaction_id,
            wire_strings::spec_level_status(),
            code,
            description,
        ),
        cs,
    )
}

/// The bytes of a stream-begin event for a stream id.
pub open spec fn spec_stream_begin_bytes(cs: int, stream_id: u32) -> Seq<u8> {
    spec_encode_chunk(
        CONTROL_CHUNK_STREAM_ID,
        0,
        MessageType::UserControlEvent.spec_u8(),
        0,
        u16_to_be(0) + u32_to_be(stream_id),
        cs,
    )
}

/// The command name a value carries: its bytes when it is a string,
/// nothing otherwise.
pub open spec fn spec_name_bytes(v: Amf0Value) -> Seq<u8> {
    match v {
        Amf0Value::Str(s) => s@,
        _ => Seq::<u8>::empty(),
    }
}

/// The transaction id a value carries: its bits when it is a number, the
/// zero number otherwise.
pub open spec fn spec_txid_bits(v: Amf0Value) -> u64 {
    match v {
        Amf0Value::Number(n) => n,
        _ => AMF0_NUMBER_ZERO,
    }
}

/// The property list a command object carries: its properties when it is
/// an object, none otherwise.
pub open spec fn spec_obj_props(v: Amf0Value) -> Seq<(Seq<u8>, Amf0ScalarView)> {
    match v {
        Amf0Value::Object(props) => props_view(props@),
        _ => Seq::<(Seq<u8>, Amf0ScalarView)>::empty(),
    }
}

/// What dispatching a connect command does: the window-acknowledgement and
/// set-peer-bandwidth announcements go out first; then a missing `app`
/// string is fatal, and otherwise the namespace is recorded and the
/// success reply goes out.
pub open spec fn connect_effect(
    pre: Session,
    post: Session,
    transaction_id: u64,
    obj: Seq<(Seq<u8>, Amf0ScalarView)>,
    r: Result<(), SessionError>,
) -> bool {
    let cs = pre.encoder.chunk_size as int;
    let prelude = pre.write_buf@ + spec_window_ack_bytes(cs) + spec_set_peer_bandwidth_bytes(cs);
    match spec_find_property(obj, wire_strings::spec_key_app()) {
        Some(Amf0ScalarView::Str(app)) => {
            &&& r is Ok
            &&& post == (Session {
                app_name: post.app_name,
                write_buf: post.write_buf,
                ..pre
            })
            &&& post.app_name matches Some(a) && a@ == app
            &&& post.write_buf@ == prelude + spec_connect_success_bytes(cs, transaction_id)
        },
        _ => {
            &&& r == Err::<(), SessionError>(SessionError::NoAppName)
            &&& post == (Session { write_buf: post.write_buf, ..pre })
            &&& post.write_buf@ == prelude
        },
    }
}

/// What dispatching a create-stream command does: a result reply
/// allocating stream id one goes out.
pub open spec fn create_stream_effect(
    pre: Session,
    post: Session,
    transaction_id: u64,
    r: Result<(), SessionError>,
) -> bool {
    &&& r is Ok
    &&& post == (Session { write_buf: post.write_buf, ..pre })
    &&& post.write_buf@ == pre.write_buf@ + spec_create_stream_bytes(
        pre.encoder.chunk_size as int,
        transaction_id,
    )
}

/// What dispatching a delete-stream command does: when the named stream is
/// the bound publishing stream, publishing stops; either way a
/// delete-success status goes out.
pub open spec fn delete_stream_effect(
    pre: Session,
    post: Session,
    transaction_id: u64,
    others: Seq<Amf0Value>,
    r: Result<(), SessionError>,
) -> bool {
    let sid = if others.len() > 0 && others[0] is Number {
        spec_number_as_u32(others[0]->Number_0)
    } else {
        0
    };
    &&& r is Ok
    &&& (if pre.stream_id == sid && pre.is_publishing {
        post == (Session {
            stream_id: 0u32,
            is_publishing: false,
            write_buf: post.write_buf,
            ..pre
        })
    } else {
        post == (Session { write_buf: post.write_buf, ..pre })
    })
    &&& post.write_buf@ == pre.write_buf@ + spec_status_bytes(
        pre.encoder.chunk_size as int,
        transaction_id,
        wire_strings::spec_code_delete_stream_success(),
        wire_strings::spec_empty_text(),
    )
}

/// What dispatching a publish command does: a missing stream name or a
/// missing prior connect is fatal; otherwise an admission request goes to
/// the caller and the session suspends until the answer.
pub open spec fn publish_effect(
    pre: Session,
    post: Session,
    transaction_id: u64,
    msg_stream_id: u32,
    others: Seq<Amf0Value>,
    r: Result<(), SessionError>,
    acts0: Seq<SessionAction>,
    acts1: Seq<SessionAction>,
) -> bool {
    if !(others.len() > 0 && others[0] is Str) {
        &&& r == Err::<(), SessionError>(SessionError::NoStreamName)
        &&& post == pre
        &&& acts1 == acts0
    } else {
        match pre.app_name {
            Some(app) => {
                &&& r is Ok
                &&& post == (Session {
                    stage: SessionStage::AwaitingAdmission,
                    pending_stream_id: msg_stream_id,
                    pending_transaction_id: transaction_id,
                    ..pre
                })
                &&& acts1.len() == acts0.len() + 1
                &&& acts1.subrange(0, acts0.len() as int) == acts0
                &&& acts1.last() matches SessionAction::RequestAdmission {
                    app_name: a,
                    stream_name: s,
                } && a@ == app@ && s@ == others[0]->Str_0@
            },
            None => {
                &&& r == Err::<(), SessionError>(SessionError::NoAppName)
                &&& post == pre
                &&& acts1 == acts0
            },
        }
    }
}

/// What dispatching a media payload does: it must belong to the bound
/// publishing stream, and then goes to the caller as an action.
pub open spec fn data_effect(
    pre: Session,
    post: Session,
    msg_stream_id: u32,
    d: ChannelData,
    r: Result<(), SessionError>,
    acts0: Seq<SessionAction>,
    acts1: Seq<SessionAction>,
) -> bool {
    if msg_stream_id == pre.stream_id && pre.is_publishing {
        &&& r is Ok
        &&& post == pre
        &&& acts1 == acts0.push(SessionAction::Data(d))
    } else {
        &&& r == Err::<(), SessionError>(SessionError::UnknownStreamID(msg_stream_id))
        &&& post == pre
        &&& acts1 == acts0
    }
}

/// What dispatching a set-chunk-size request does: a size above the hard
/// cap is fatal and must end the session; otherwise the decoder adopts it.
pub open spec fn set_chunk_size_effect(
    pre: Session,
    post: Session,
    size: u32,
    r: Result<(), SessionError>,
) -> bool {
    if size <= MAX_CHUNK_SIZE as u32 {
        &&& r is Ok
        &&& post == (Session { decoder: post.decoder, ..pre })
        &&& post.decoder.max_chunk_size == size as usize
        &&& post.decoder.entries == pre.decoder.entries
    } else {
        &&& r == Err::<(), SessionError>(SessionError::InvalidChunkSize(size))
        &&& post == (Session { decoder: post.decoder, ..pre })
        &&& post.decoder.max_chunk_size == pre.decoder.max_chunk_size
        &&& post.decoder.entries == pre.decoder.entries
    }
}

/// What dispatching a command message does, keyed by its name: connect,
/// createStream, deleteStream and publish act as their effects say; play
/// is fatal; anything else is ignored.
pub open spec fn command_effect(
    pre: Session,
    post: Session,
    msg_stream_id: u32,
    name: Seq<u8>,
    transaction_id: u64,
    obj: Seq<(Seq<u8>, Amf0ScalarView)>,
    others: Seq<Amf0Value>,
    r: Result<(), SessionError>,
    acts0: Seq<SessionAction>,
    acts1: Seq<SessionAction>,
) -> bool {
    if name == wire_strings::spec_cmd_connect() {
        connect_effect(pre, post, transaction_id, obj, r) && acts1 == acts0
    } else if name == wire_strings::spec_cmd_create_stream() {
        create_stream_effect(pre, post, transaction_id, r) && acts1 == acts0
    } else if name == wire_strings::spec_cmd_delete_stream() {
        delete_stream_effect(pre, post, transaction_id, others, r) && acts1 == acts0
    } else if name == wire_strings::spec_cmd_play() {
        r == Err::<(), SessionError>(SessionError::PlayNotSupported) && post == pre && acts1
            == acts0
    } else if name == wire_strings::spec_cmd_publish() {
        publish_effect(pre, post, transaction_id, msg_stream_id, others, r, acts0, acts1)
    } else {
        r is Ok && post == pre && acts1 == acts0
    }
}

/// What dispatching one typed message does: the per-kind effect, with the
/// actions untouched where the kind emits none.
pub open spec fn message_effect(
    pre: Session,
    post: Session,
    msg: MessageData,
    msg_stream_id: u32,
    timestamp: u32,
    r: Result<(), SessionError>,
    acts0: Seq<SessionAction>,
    acts1: Seq<SessionAction>,
) -> bool {
    match msg {
        MessageData::SetChunkSize(p) => set_chunk_size_effect(pre, post, p.chunk_size, r) && acts1
            == acts0,
        MessageData::Amf0Command { command_name, transaction_id, command_object, others } => (
        command_effect(
            pre,
            post,
            msg_stream_id,
            spec_name_bytes(command_name),
            spec_txid_bits(transaction_id),
            spec_obj_props(command_object),
            others@,
            r,
            acts0,
            acts1,
        )),
        MessageData::Amf0Data { data } => data_effect(
            pre,
            post,
            msg_stream_id,
            ChannelData::Metadata { timestamp, data },
            r,
            acts0,
            acts1,
        ),
        MessageData::AudioData { data } => data_effect(
            pre,
            post,
            msg_stream_id,
            ChannelData::Audio { timestamp, data },
            r,
            acts0,
            acts1,
        ),
        MessageData::VideoData { data } => data_effect(
            pre,
            post,
            msg_stream_id,
            ChannelData::Video { timestamp, data },
            r,
            acts0,
            acts1,
        ),
    }
}

/// The shape of a media payload over byte sequences.
pub enum ChannelDataView {
    /// An audio payload.
    Audio {
        /// The timestamp of the wrapping message.
        timestamp: u32,
        /// The payload bytes.
        data: Seq<u8>,
    },
    /// A video payload.
    Video {
        /// The timestamp of the wrapping message.
        timestamp: u32,
        /// The payload bytes.
        data: Seq<u8>,
    },
    /// A metadata payload.
    Metadata {
        /// The timestamp of the wrapping message.
        timestamp: u32,
        /// The payload bytes.
        data: Seq<u8>,
    },
}

impl View for ChannelData {
    type V = ChannelDataView;

    open spec fn view(&self) -> ChannelDataView {
        match self {
            ChannelData::Audio { timestamp, data } => ChannelDataView::Audio {
                timestamp: *timestamp,
                data: data@,
            },
            ChannelData::Video { timestamp, data } => ChannelDataView::Video {
                timestamp: *timestamp,
                data: data@,
            },
            ChannelData::Metadata { timestamp, data } => ChannelDataView::Metadata {
                timestamp: *timestamp,
                data: data@,
            },
        }
    }
}

/// The shape of an action over byte sequences.
pub enum SessionActionView {
    /// Forward this media payload to the consumer.
    Data(ChannelDataView),
    /// Ask the admission collaborator whether this publish may proceed.
    RequestAdmission {
        /// The application namespace from the connect command.
        app_name: Seq<u8>,
        /// The requested stream name.
        stream_name: Seq<u8>,
    },
}

impl View for SessionAction {
    type V = SessionActionView;

    open spec fn view(&self) -> SessionActionView {
        match self {
            SessionAction::Data(d) => SessionActionView::Data(d@),
            SessionAction::RequestAdmission { app_name, stream_name } => (
            SessionActionView::RequestAdmission {
                app_name: app_name@,
                stream_name: stream_name@,
            }),
        }
    }
}

/// The view of an action list: each action's view, in order.
pub open spec fn actions_view(s: Seq<SessionAction>) -> Seq<SessionActionView> {
    Seq::new(s.len(), |i: int| s[i]@)
}

/// A session's whole state over mathematical values: what the session
/// run-level contracts speak of.
pub struct SessionModel {
    /// Where the session stands.
    pub stage: SessionStage,
    /// Where the handshake stands.
    pub hs_state: ServerHandshakeState,
    /// The application namespace, once a connect command named it.
    pub app_name: Option<Seq<u8>>,
    /// The identifier the admission collaborator issued, once granted.
    pub uid: Option<u64>,
    /// The bound publishing stream id; 0 when none.
    pub stream_id: u32,
    /// Whether a publish is active.
    pub is_publishing: bool,
    /// The decoder's negotiated chunk size.
    pub dec_max: int,
    /// The decoder's per-chunk-stream cache.
    pub dec_entries: Seq<(u32, SpecEntry)>,
    /// The encoder's chunk size.
    pub enc_cs: int,
    /// Bytes received and not yet consumed.
    pub read_buf: Seq<u8>,
    /// Bytes to be written to the peer.
    pub write_buf: Seq<u8>,
    /// The message stream id a pending publish would bind.
    pub pending_stream_id: u32,
    /// The transaction id of the pending publish command.
    pub pending_transaction_id: u64,
}

/// One dispatch step over the model: the state afterwards, the actions
/// emitted, and the error when the message is fatal. On an error the
/// session ends, so the state and actions of the error arms carry no
/// meaning.
pub open spec fn spec_dispatch(
    pre: SessionModel,
    msg: MessageDataView,
    msg_stream_id: u32,
    timestamp: u32,
) -> (SessionModel, Seq<SessionActionView>, Option<SessionError>) {
    match msg {
        MessageDataView::SetChunkSize(size) => {
            if size <= MAX_CHUNK_SIZE as u32 {
                (
                    SessionModel { dec_max: size as int, ..pre },
                    Seq::<SessionActionView>::empty(),
                    None,
                )
            } else {
                (pre, Seq::<SessionActionView>::empty(), Some(SessionError::InvalidChunkSize(size)))
            }
        },
        MessageDataView::Amf0Command { command_name, transaction_id, command_object, others } => {
            let name = match command_name {
                Amf0ValueView::Str(n) => n,
                _ => Seq::<u8>::empty(),
            };
            let txid = match transaction_id {
                Amf0ValueView::Number(n) => n,
                _ => AMF0_NUMBER_ZERO,
            };
            let obj = match command_object {
                Amf0ValueView::Object(p) => p,
                _ => Seq::<(Seq<u8>, Amf0ScalarView)>::empty(),
            };
            if name == wire_strings::spec_cmd_connect() {
                let prelude = pre.write_buf + spec_window_ack_bytes(pre.enc_cs)
                    + spec_set_peer_bandwidth_bytes(pre.enc_cs);
                match spec_find_property(obj, wire_strings::spec_key_app()) {
                    Some(Amf0ScalarView::Str(app)) => (
                        SessionModel {
                            app_name: Some(app),
                            write_buf: prelude + spec_connect_success_bytes(pre.enc_cs, txid),
                            ..pre
                        },
                        Seq::<SessionActionView>::empty(),
                        None,
                    ),
                    _ => (
                        SessionModel { write_buf: prelude, ..pre },
                        Seq::<SessionActionView>::empty(),
                        Some(SessionError::NoAppName),
                    ),
                }
            } else if name == wire_strings::spec_cmd_create_stream() {
                (
                    SessionModel {
                        write_buf: pre.write_buf + spec_create_stream_bytes(pre.enc_cs, txid),
                        ..pre
                    },
                    Seq::<SessionActionView>::empty(),
                    None,
                )
            } else if name == wire_strings::spec_cmd_delete_stream() {
                let sid = if others.len() > 0 && others[0] is Number {
                    spec_number_as_u32(others[0]->Number_0)
                } else {
                    0
                };
                let write2 = pre.write_buf + spec_status_bytes(
                    pre.enc_cs,
                    txid,
                    wire_strings::spec_code_delete_stream_success(),
                    wire_strings::spec_empty_text(),
                );
                if pre.stream_id == sid && pre.is_publishing {
                    (
                        SessionModel {
                            stream_id: 0u32,
                            is_publishing: false,
                            write_buf: write2,
                            ..pre
                        },
                        Seq::<SessionActionView>::empty(),
                        None,
                    )
                } else {
                    (
                        SessionModel { write_buf: write2, ..pre },
                        Seq::<SessionActionView>::empty(),
                        None,
                    )
                }
            } else if name == wire_strings::spec_cmd_play() {
                (pre, Seq::<SessionActionView>::empty(), Some(SessionError::PlayNotSupported))
            } else if name == wire_strings::spec_cmd_publish() {
                if !(others.len() > 0 && others[0] is Str) {
                    (pre, Seq::<SessionActionView>::empty(), Some(SessionError::NoStreamName))
                } else {
                    match pre.app_name {
                        Some(app) => (
                            SessionModel {
                                stage: SessionStage::AwaitingAdmission,
                                pending_stream_id: msg_stream_id,
                                pending_transaction_id: txid,
                                ..pre
                            },
                            seq![
                                SessionActionView::RequestAdmission {
                                    app_name: app,
                                    stream_name: others[0]->Str_0,
                                },
                            ],
                            None,
                        ),
                        None => (
                            pre,
                            Seq::<SessionActionView>::empty(),
                            Some(SessionError::NoAppName),
                        ),
                    }
                }
            } else {
                (pre, Seq::<SessionActionView>::empty(), None)
            }
        },
        MessageDataView::Amf0Data { data } => {
            if msg_stream_id == pre.stream_id && pre.is_publishing {
                (
                    pre,
                    seq![SessionActionView::Data(ChannelDataView::Metadata { timestamp, data })],
                    None,
                )
            } else {
                (
                    pre,
                    Seq::<SessionActionView>::empty(),
                    Some(SessionError::UnknownStreamID(msg_stream_id)),
                )
            }
        },
        MessageDataView::AudioData { data } => {
            if msg_stream_id == pre.stream_id && pre.is_publishing {
                (
                    pre,
                    seq![SessionActionView::Data(ChannelDataView::Audio { timestamp, data })],
                    None,
                )
            } else {
                (
                    pre,
                    Seq::<SessionActionView>::empty(),
                    Some(SessionError::UnknownStreamID(msg_stream_id)),
                )
            }
        },
        MessageDataView::VideoData { data } => {
            if msg_stream_id == pre.stream_id && pre.is_publishing {
                (
                    pre,
                    seq![SessionActionView::Data(ChannelDataView::Video { timestamp, data })],
                    None,
                )
            } else {
                (
                    pre,
                    Seq::<SessionActionView>::empty(),
                    Some(SessionError::UnknownStreamID(msg_stream_id)),
                )
            }
        },
    }
}

/// Dispatching never touches the buffered input.
pub proof fn lemma_dispatch_keeps_read_buf(
    pre: SessionModel,
    msg: MessageDataView,
    msg_stream_id: u32,
    timestamp: u32,
)
    ensures
        spec_dispatch(pre, msg, msg_stream_id, timestamp).0.read_buf == pre.read_buf,
{
}

/// Reads and dispatches messages from the model's buffered input until the
/// input runs short, a publish suspends the session, or a message is
/// fatal: the state afterwards, the actions emitted, and the error if one
/// ended the run. On an error the session ends, so the state and actions
/// of an error outcome carry no meaning.
pub open spec fn spec_ready_loop(pre: SessionModel) -> (
    SessionModel,
    Seq<SessionActionView>,
    Option<SessionError>,
)
    decreases pre.read_buf.len(),
{
    if !(pre.stage is Ready) {
        (pre, Seq::<SessionActionView>::empty(), None)
    } else {
        match spec_read_message(pre.dec_max, pre.dec_entries, pre.read_buf) {
            SpecReadOutcome::NeedMore { entries, rest } => (
                SessionModel { dec_entries: entries, read_buf: rest, ..pre },
                Seq::<SessionActionView>::empty(),
                None,
            ),
            SpecReadOutcome::Failed { err } => (
                pre,
                Seq::<SessionActionView>::empty(),
                Some(SessionError::ChunkDecode(err)),
            ),
            SpecReadOutcome::Msg { entries, rest, chunk } => {
                if rest.len() < pre.read_buf.len() {
                    let mid = SessionModel { dec_entries: entries, read_buf: rest, ..pre };
                    match MessageData::spec_parse(chunk.msg_type_id, chunk.payload) {
                        Err(e) => (
                            mid,
                            Seq::<SessionActionView>::empty(),
                            Some(SessionError::Message(e)),
                        ),
                        Ok(None) => spec_ready_loop(mid),
                        Ok(Some(m)) => {
                            let d = spec_dispatch(mid, m, chunk.msg_stream_id, chunk.timestamp);
                            match d.2 {
                                Some(e) => (d.0, d.1, Some(e)),
                                None => {
                                    if d.0.read_buf.len() < pre.read_buf.len() {
                                        let f = spec_ready_loop(d.0);
                                        (f.0, d.1 + f.1, f.2)
                                    } else {
                                        (d.0, d.1, None)
                                    }
                                },
                            }
                        },
                    }
                } else {
                    (pre, Seq::<SessionActionView>::empty(), None)
                }
            },
        }
    }
}

/// The per-message effects, read at the model level: a dispatched message
/// moves the model exactly as `spec_dispatch` says, emitting its actions,
/// or fails with exactly the error `spec_dispatch` names.
#[verifier::rlimit(100)]
#[verifier::spinoff_prover]
proof fn lemma_effect_gives_dispatch(
    pre: Session,
    post: Session,
    msg: MessageData,
    msg_stream_id: u32,
    timestamp: u32,
    r: Result<(), SessionError>,
    acts0: Seq<SessionAction>,
    acts1: Seq<SessionAction>,
)
    requires
        message_effect(pre, post, msg, msg_stream_id, timestamp, r, acts0, acts1),
    ensures
        ({
            let d = spec_dispatch(pre.model(), msg@, msg_stream_id, timestamp);
            match r {
                Ok(_) => d.2 is None && post.model() == d.0 && actions_view(acts1)
                    == actions_view(acts0) + d.1,
                Err(e) => d.2 == Some(e),
            }
        }),
{
    let d = spec_dispatch(pre.model(), msg@, msg_stream_id, timestamp);
    match msg {
        MessageData::SetChunkSize(p) => {
            if p.chunk_size <= MAX_CHUNK_SIZE as u32 {
                assert(post.model() == (SessionModel {
                    dec_max: p.chunk_size as int,
                    ..pre.model()
                }));
                assert(actions_view(acts1) =~= actions_view(acts0)
                    + Seq::<SessionActionView>::empty());
            }
        },
        MessageData::Amf0Command { command_name, transaction_id, command_object, others } => {
            let name = spec_name_bytes(command_name);
            let txid = spec_txid_bits(transaction_id);
            let obj = spec_obj_props(command_object);
            let others_v = crate::amf0::values_view(others@);
            assert(name == (match command_name@ {
                Amf0ValueView::Str(n) => n,
                _ => Seq::<u8>::empty(),
            }));
            assert(txid == (match transaction_id@ {
                Amf0ValueView::Number(n) => n,
                _ => AMF0_NUMBER_ZERO,
            }));
            assert(obj == (match command_object@ {
                Amf0ValueView::Object(p) => p,
                _ => Seq::<(Seq<u8>, Amf0ScalarView)>::empty(),
            }));
            if others@.len() > 0 {
                assert(others_v[0] == others@[0]@);
            }
            if name == wire_strings::spec_cmd_connect() {
                lemma_connect_model(pre, post, txid, obj, r);
                if r is Ok {
                    assert(actions_view(acts1) =~= actions_view(acts0)
                        + Seq::<SessionActionView>::empty());
                }
            } else if name == wire_strings::spec_cmd_create_stream() {
                if r is Ok {
                    assert(post.model() == (SessionModel {
                        write_buf: pre.write_buf@ + spec_create_stream_bytes(
                            pre.encoder.chunk_size as int,
                            txid,
                        ),
                        ..pre.model()
                    }));
                    assert(actions_view(acts1) =~= actions_view(acts0)
                        + Seq::<SessionActionView>::empty());
                }
            } else if name == wire_strings::spec_cmd_delete_stream() {
                lemma_delete_model(pre, post, txid, others@, r);
                if r is Ok {
                    assert(actions_view(acts1) =~= actions_view(acts0)
                        + Seq::<SessionActionView>::empty());
                }
            } else if name == wire_strings::spec_cmd_play() {
            } else if name == wire_strings::spec_cmd_publish() {
                lemma_publish_model(pre, post, txid, msg_stream_id, others@, r, acts0, acts1);
            } else {
                if r is Ok {
                    assert(post.model() == pre.model());
                    assert(actions_view(acts1) =~= actions_view(acts0)
                        + Seq::<SessionActionView>::empty());
                }
            }
        },
        MessageData::Amf0Data { data } => {
            lemma_data_model(
                pre,
                post,
                msg_stream_id,
                ChannelData::Metadata { timestamp, data },
                r,
                acts0,
                acts1,
            );
        },
        MessageData::AudioData { data } => {
            lemma_data_model(
                pre,
                post,
                msg_stream_id,
                ChannelData::Audio { timestamp, data },
                r,
                acts0,
                acts1,
            );
        },
        MessageData::VideoData { data } => {
            lemma_data_model(
                pre,
                post,
                msg_stream_id,
                ChannelData::Video { timestamp, data },
                r,
                acts0,
                acts1,
            );
        },
    }
}

/// The connect effect, read at the model level.
proof fn lemma_connect_model(
    pre: Session,
    post: Session,
    transaction_id: u64,
    obj: Seq<(Seq<u8>, Amf0ScalarView)>,
    r: Result<(), SessionError>,
)
    requires
        connect_effect(pre, post, transaction_id, obj, r),
    ensures
        ({
            let cs = pre.encoder.chunk_size as int;
            let prelude = pre.write_buf@ + spec_window_ack_bytes(cs)
                + spec_set_peer_bandwidth_bytes(cs);
            match spec_find_property(obj, wire_strings::spec_key_app()) {
                Some(Amf0ScalarView::Str(app)) => r is Ok && post.model() == (SessionModel {
                    app_name: Some(app),
                    write_buf: prelude + spec_connect_success_bytes(cs, transaction_id),
                    ..pre.model()
                }),
                _ => r == Err::<(), SessionError>(SessionError::NoAppName),
            }
        }),
{
}

/// The delete-stream effect, read at the model level.
proof fn lemma_delete_model(
    pre: Session,
    post: Session,
    transaction_id: u64,
    others: Seq<Amf0Value>,
    r: Result<(), SessionError>,
)
    requires
        delete_stream_effect(pre, post, transaction_id, others, r),
    ensures
        ({
            let others_v = crate::amf0::values_view(others);
            let sid = if others_v.len() > 0 && others_v[0] is Number {
                spec_number_as_u32(others_v[0]->Number_0)
            } else {
                0
            };
            let write2 = pre.write_buf@ + spec_status_bytes(
                pre.encoder.chunk_size as int,
                transaction_id,
                wire_strings::spec_code_delete_stream_success(),
                wire_strings::spec_empty_text(),
            );
            r is Ok && post.model() == (if pre.stream_id == sid && pre.is_publishing {
                (SessionModel {
                    stream_id: 0u32,
                    is_publishing: false,
                    write_buf: write2,
                    ..pre.model()
                })
            } else {
                (SessionModel { write_buf: write2, ..pre.model() })
            })
        }),
{
    let others_v = crate::amf0::values_view(others);
    if others.len() > 0 {
        assert(others_v[0] == others[0]@);
    }
}

/// The publish effect, read at the model level.
proof fn lemma_publish_model(
    pre: Session,
    post: Session,
    transaction_id: u64,
    msg_stream_id: u32,
    others: Seq<Amf0Value>,
    r: Result<(), SessionError>,
    acts0: Seq<SessionAction>,
    acts1: Seq<SessionAction>,
)
    requires
        publish_effect(pre, post, transaction_id, msg_stream_id, others, r, acts0, acts1),
    ensures
        ({
            let others_v = crate::amf0::values_view(others);
            if !(others_v.len() > 0 && others_v[0] is Str) {
                r == Err::<(), SessionError>(SessionError::NoStreamName)
            } else {
                match pre.model().app_name {
                    Some(app) => r is Ok && post.model() == (SessionModel {
                        stage: SessionStage::AwaitingAdmission,
                        pending_stream_id: msg_stream_id,
                        pending_transaction_id: transaction_id,
                        ..pre.model()
                    }) && actions_view(acts1) == actions_view(acts0) + seq![
                        SessionActionView::RequestAdmission {
                            app_name: app,
                            stream_name: others_v[0]->Str_0,
                        },
                    ],
                    None => r == Err::<(), SessionError>(SessionError::NoAppName),
                }
            }
        }),
{
    let others_v = crate::amf0::values_view(others);
    if others.len() > 0 {
        assert(others_v[0] == others[0]@);
    }
    if others.len() > 0 && others[0] is Str && pre.app_name is Some && r is Ok {
        assert(actions_view(acts1) =~= actions_view(acts0) + seq![
            SessionActionView::RequestAdmission {
                app_name: pre.app_name->Some_0@,
                stream_name: others[0]->Str_0@,
            },
        ]) by {
            assert(forall|i: int|
                0 <= i < acts0.len() ==> acts1[i] == #[trigger] acts1.subrange(
                    0,
                    acts0.len() as int,
                )[i]);
            assert(acts1[acts1.len() - 1] == acts1.last());
        }
    }
}

/// The media-payload effect, read at the model level.
proof fn lemma_data_model(
    pre: Session,
    post: Session,
    msg_stream_id: u32,
    d: ChannelData,
    r: Result<(), SessionError>,
    acts0: Seq<SessionAction>,
    acts1: Seq<SessionAction>,
)
    requires
        data_effect(pre, post, msg_stream_id, d, r, acts0, acts1),
    ensures
        ({
            if msg_stream_id == pre.stream_id && pre.is_publishing {
                r is Ok && post.model() == pre.model() && actions_view(acts1) == actions_view(
                    acts0,
                ) + seq![SessionActionView::Data(d@)]
            } else {
                r == Err::<(), SessionError>(SessionError::UnknownStreamID(msg_stream_id))
            }
        }),
{
    if msg_stream_id == pre.stream_id && pre.is_publishing {
        assert(actions_view(acts1) =~= actions_view(acts0) + seq![SessionActionView::Data(d@)]);
    }
}

/// One call of `feed`, over the model whose buffered input already holds/// One call of `feed`, over the model whose buffered input already holds
/// the newly fed bytes: while awaiting admission nothing happens; during
/// the handshake one exchange step runs, and on its completion the
/// operating chunk size is announced and adopted before reading messages;
/// in the ready stage messages are read and dispatched.
pub open spec fn spec_feed(pre: SessionModel) -> (
    SessionModel,
    Seq<SessionActionView>,
    Option<SessionError>,
) {
    if pre.stage is AwaitingAdmission {
        (pre, Seq::<SessionActionView>::empty(), None)
    } else if pre.stage is Handshaking {
        let (st2, rest, out) = crate::handshake::spec_handshake_step(pre.hs_state, pre.read_buf);
        let mid = SessionModel {
            hs_state: st2,
            read_buf: rest,
            write_buf: pre.write_buf + out,
            ..pre
        };
        if st2 is Finish {
            let mid2 = SessionModel {
                stage: SessionStage::Ready,
                enc_cs: CHUNK_SIZE as int,
                write_buf: mid.write_buf + spec_set_chunk_size_bytes(mid.enc_cs),
                ..mid
            };
            spec_ready_loop(mid2)
        } else {
            (mid, Seq::<SessionActionView>::empty(), None)
        }
    } else {
        spec_ready_loop(pre)
    }
}

/// A connect command that carries no `app` string parses at the message
/// layer, but its dispatch fails with the missing-app-name error: the two
/// control announcements go out first, and no success reply follows.
pub proof fn lemma_connect_without_app_is_fatal(
    pre: SessionModel,
    transaction_id: u64,
    obj: Seq<(Seq<u8>, Amf0ScalarView)>,
    msg_stream_id: u32,
    timestamp: u32,
)
    requires
        crate::amf0::wf_props(obj),
        !(spec_find_property(obj, wire_strings::spec_key_app()) matches Some(
            Amf0ScalarView::Str(_),
        )),
    ensures
        ({
            let vals = seq![
                Amf0ValueView::Str(wire_strings::spec_cmd_connect()),
                Amf0ValueView::Number(transaction_id),
                Amf0ValueView::Object(obj),
            ];
            let payload = crate::amf0::spec_encode_values(vals);
            let m = MessageDataView::Amf0Command {
                command_name: vals[0],
                transaction_id: vals[1],
                command_object: vals[2],
                others: Seq::<Amf0ValueView>::empty(),
            };
            &&& MessageData::spec_parse(MessageType::CommandAMF0.spec_u8(), payload) == Ok::<
                Option<MessageDataView>,
                crate::messages::MessageError,
            >(Some(m))
            &&& spec_dispatch(pre, m, msg_stream_id, timestamp).2 == Some(SessionError::NoAppName)
            &&& spec_dispatch(pre, m, msg_stream_id, timestamp).0.write_buf == pre.write_buf
                + spec_window_ack_bytes(pre.enc_cs) + spec_set_peer_bandwidth_bytes(pre.enc_cs)
        }),
{
    let vals = seq![
        Amf0ValueView::Str(wire_strings::spec_cmd_connect()),
        Amf0ValueView::Number(transaction_id),
        Amf0ValueView::Object(obj),
    ];
    assert(crate::amf0::wf_values(vals)) by {
        assert(crate::amf0::wf_value(vals[0]));
        assert(crate::amf0::wf_value(vals[1]));
        assert(crate::amf0::wf_value(vals[2]));
    }
    crate::amf0::lemma_decode_all_round_trip(vals);
    assert(vals.skip(3) =~= Seq::<Amf0ValueView>::empty());
}

/// A publish command with a stream name, after a connect recorded the
/// namespace, emits exactly one admission request carrying that namespace
/// and name, suspends the session, and writes nothing; `admission_granted`
/// then answers it with exactly one stream-begin event followed by one
/// publish-start status.
pub proof fn lemma_publish_requests_admission(
    pre: SessionModel,
    transaction_id: u64,
    msg_stream_id: u32,
    timestamp: u32,
    stream_name: Seq<u8>,
    trailing: Seq<Amf0ValueView>,
)
    requires
        pre.app_name is Some,
        trailing.len() > 0,
        trailing[0] == Amf0ValueView::Str(stream_name),
    ensures
        ({
            let m = MessageDataView::Amf0Command {
                command_name: Amf0ValueView::Str(wire_strings::spec_cmd_publish()),
                transaction_id: Amf0ValueView::Number(transaction_id),
                command_object: Amf0ValueView::Null,
                others: trailing,
            };
            spec_dispatch(pre, m, msg_stream_id, timestamp) == (
                (SessionModel {
                    stage: SessionStage::AwaitingAdmission,
                    pending_stream_id: msg_stream_id,
                    pending_transaction_id: transaction_id,
                    ..pre
                }),
                seq![
                    SessionActionView::RequestAdmission {
                        app_name: pre.app_name->Some_0,
                        stream_name: stream_name,
                    },
                ],
                None::<SessionError>,
            )
        }),
{
}

impl Session {
    /// A session is well formed when its encoder can make progress.
    pub open spec fn wf(&self) -> bool {
        self.encoder.wf()
    }

    /// The session's state over mathematical values.
    pub open spec fn model(&self) -> SessionModel {
        SessionModel {
            stage: self.stage,
            hs_state: self.handshake.state,
            app_name: match self.app_name {
                Some(a) => Some(a@),
                None => None,
            },
            uid: self.uid,
            stream_id: self.stream_id,
            is_publishing: self.is_publishing,
            dec_max: self.decoder.max_chunk_size as int,
            dec_entries: entries_view(self.decoder.entries@),
            enc_cs: self.encoder.chunk_size as int,
            read_buf: self.read_buf@,
            write_buf: self.write_buf@,
            pending_stream_id: self.pending_stream_id,
            pending_transaction_id: self.pending_transaction_id,
        }
    }

    /// Creates a session about to perform the handshake.
    pub fn new() -> (r: Session)
        ensures
            r.wf(),
            r.stage == SessionStage::Handshaking,
            r.handshake.state == ServerHandshakeState::ReadC0C1,
            r.app_name is None,
            r.uid is None,
            r.stream_id == 0,
            !r.is_publishing,
            r.read_buf@ == Seq::<u8>::empty(),
            r.write_buf@ == Seq::<u8>::empty(),
            r.decoder.max_chunk_size == crate::chunk::INIT_CHUNK_SIZE,
            entries_view(r.decoder.entries@) == Seq::<(u32, crate::chunk_decoder::SpecEntry)>::empty(),
            r.encoder.chunk_size == crate::chunk::INIT_CHUNK_SIZE,
    {
        Session {
            stage: SessionStage::Handshaking,
            handshake: HandshakeServer::new(),
            app_name: None,
            uid: None,
            stream_id: 0,
            is_publishing: false,
            decoder: ChunkDecoder::new(),
            encoder: ChunkEncoder::new(),
            read_buf: Vec::new(),
            write_buf: Vec::new(),
            pending_stream_id: 0,
            pending_transaction_id: 0,
        }
    }

    /// The identifier the admission collaborator issued, once granted.
    pub fn uid(&self) -> (r: Option<u64>)
        ensures
            r == self.uid,
    {
        self.uid
    }

    /// Where the session stands.
    pub fn stage(&self) -> (r: SessionStage)
        ensures
            r == self.stage,
    {
        self.stage
    }

    /// Whether a publish is active; at teardown, false distinguishes a
    /// graceful stop from an abrupt disconnect.
    pub fn is_publishing(&self) -> (r: bool)
        ensures
            r == self.is_publishing,
    {
        self.is_publishing
    }

    /// Drains the bytes that must be written to the peer.
    pub fn take_output(&mut self) -> (r: Vec<u8>)
        ensures
            r@ == old(self).write_buf@,
            *final(self) == (Session { write_buf: final(self).write_buf, ..*old(self) }),
            final(self).write_buf@ == Seq::<u8>::empty(),
    {
        let out = self.write_buf.split_off(0);
        proof {
            assert(out@ =~= old(self).write_buf@);
            assert(self.write_buf@ =~= Seq::<u8>::empty());
        }
        out
    }

    /// Announces the operating chunk size to the peer and adopts it for
    /// the messages written afterwards.
    fn send_set_chunk_size(&mut self)
        requires
            old(self).wf(),
        ensures
            final(self).wf(),
            *final(self) == (Session {
                encoder: final(self).encoder,
                write_buf: final(self).write_buf,
                ..*old(self)
            }),
            final(self).encoder.chunk_size == CHUNK_SIZE,
            final(self).write_buf@ == old(self).write_buf@ + spec_set_chunk_size_bytes(
                old(self).encoder.chunk_size as int,
            ),
    {
        let msg = ProtocolControlMessageSetChunkSize { chunk_size: CHUNK_SIZE as u32 };
        msg.write(&self.encoder, &mut self.write_buf);
        self.encoder.set_chunk_size(CHUNK_SIZE);
    }

    /// Applies a peer-requested chunk size; a size above the hard cap is a
    /// fatal protocol violation.
    fn on_set_chunk_size(&mut self, chunk_size: u32) -> (r: Result<(), SessionError>)
        requires
            old(self).wf(),
        ensures
            final(self).wf(),
            set_chunk_size_effect(*old(self), *final(self), chunk_size, r),
    {
        if self.decoder.update_max_chunk_size(chunk_size as usize) {
            Ok(())
        } else {
            Err(SessionError::InvalidChunkSize(chunk_size))
        }
    }

    /// Forwards a media payload to the caller when it belongs to the bound
    /// publishing stream.
    fn on_data(
        &mut self,
        msg_stream_id: u32,
        data: ChannelData,
        actions: &mut Vec<SessionAction>,
    ) -> (r: Result<(), SessionError>)
        requires
            old(self).wf(),
        ensures
            final(self).wf(),
            data_effect(
                *old(self),
                *final(self),
                msg_stream_id,
                data,
                r,
                old(actions)@,
                final(actions)@,
            ),
    {
        if msg_stream_id != self.stream_id || !self.is_publishing {
            return Err(SessionError::UnknownStreamID(msg_stream_id));
        }
        actions.push(SessionAction::Data(data));
        Ok(())
    }

    /// Handles a connect command.
    fn on_command_connect(&mut self, transaction_id: u64, command_obj: &Vec<Amf0Property>) -> (r:
        Result<(), SessionError>)
        requires
            old(self).wf(),
        ensures
            final(self).wf(),
            connect_effect(
                *old(self),
                *final(self),
                transaction_id,
                props_view(command_obj@),
                r,
            ),
    {
        let win = ProtocolControlMessageWindowAcknowledgementSize {
            acknowledgement_window_size: CHUNK_SIZE as u32,
        };
        win.write(&self.encoder, &mut self.write_buf);
        let bw = ProtocolControlMessageSetPeerBandwidth {
            acknowledgement_window_size: CHUNK_SIZE as u32,
            limit_type: ProtocolControlMessageSetPeerBandwidthLimitType::Dynamic,
        };
        bw.write(&self.encoder, &mut self.write_buf);
        let key = wire_strings::key_app();
        let app = match find_property_index(command_obj, key.as_slice()) {
            Some(i) => {
                match &command_obj[i].value {
                    Amf0Scalar::Str(s) => copy_vec(s),
                    _ => {
                        return Err(SessionError::NoAppName);
                    },
                }
            },
            None => {
                return Err(SessionError::NoAppName);
            },
        };
        self.app_name = Some(app);
        let fmsver = wire_strings::fms_version();
        let code = wire_strings::code_connect_success();
        let level = wire_strings::level_status();
        let description = wire_strings::desc_connect_success();
        NetConnection::write_connect_response(
            &self.encoder,
            &mut self.write_buf,
            transaction_id,
            &fmsver,
            CAPABILITIES_BITS,
            &code,
            &level,
            &description,
            AMF0_NUMBER_ZERO,
        );
        Ok(())
    }

    /// Handles a create-stream command.
    fn on_command_create_stream(&mut self, transaction_id: u64) -> (r: Result<(), SessionError>)
        requires
            old(self).wf(),
        ensures
            final(self).wf(),
            create_stream_effect(*old(self), *final(self), transaction_id, r),
    {
        NetConnection::write_create_stream_response(
            &self.encoder,
            &mut self.write_buf,
            transaction_id,
            AMF0_NUMBER_ONE,
        );
        Ok(())
    }

    /// Handles a delete-stream command.
    fn on_command_delete_stream(&mut self, transaction_id: u64, others: &Vec<Amf0Value>) -> (r:
        Result<(), SessionError>)
        requires
            old(self).wf(),
        ensures
            final(self).wf(),
            delete_stream_effect(*old(self), *final(self), transaction_id, others@, r),
    {
        let sid: u32 = if others.len() > 0 {
            match &others[0] {
                Amf0Value::Number(bits) => number_as_u32(*bits),
                _ => 0,
            }
        } else {
            0
        };
        if self.stream_id == sid && self.is_publishing {
            self.stream_id = 0;
            self.is_publishing = false;
        }
        let level = wire_strings::level_status();
        let code = wire_strings::code_delete_stream_success();
        let description = wire_strings::empty_text();
        NetStreamWriter::write_on_status(
            &self.encoder,
            &mut self.write_buf,
            transaction_id,
            &level,
            &code,
            &description,
        );
        Ok(())
    }

    /// Handles a publish command: emits the admission request and suspends
    /// the session until the caller answers.
    fn on_command_publish(
        &mut self,
        transaction_id: u64,
        msg_stream_id: u32,
        others: &Vec<Amf0Value>,
        actions: &mut Vec<SessionAction>,
    ) -> (r: Result<(), SessionError>)
        requires
            old(self).wf(),
        ensures
            final(self).wf(),
            publish_effect(
                *old(self),
                *final(self),
                transaction_id,
                msg_stream_id,
                others@,
                r,
                old(actions)@,
                final(actions)@,
            ),
    {
        if others.len() == 0 {
            return Err(SessionError::NoStreamName);
        }
        let stream_name = match &others[0] {
            Amf0Value::Str(s) => copy_vec(s),
            _ => {
                return Err(SessionError::NoStreamName);
            },
        };
        let app_name = match &self.app_name {
            Some(a) => copy_vec(a),
            None => {
                return Err(SessionError::NoAppName);
            },
        };
        actions.push(SessionAction::RequestAdmission { app_name, stream_name });
        proof {
            assert(actions@.subrange(0, old(actions)@.len() as int) =~= old(actions)@);
            assert(actions@.last() == (SessionAction::RequestAdmission {
                app_name: actions@.last()->RequestAdmission_app_name,
                stream_name: actions@.last()->RequestAdmission_stream_name,
            }));
        }
        self.stage = SessionStage::AwaitingAdmission;
        self.pending_stream_id = msg_stream_id;
        self.pending_transaction_id = transaction_id;
        Ok(())
    }

    /// Dispatches a command message by its name.
    fn on_amf0_command_message(
        &mut self,
        msg_stream_id: u32,
        command_name: Amf0Value,
        transaction_id: Amf0Value,
        command_object: Amf0Value,
        others: Vec<Amf0Value>,
        actions: &mut Vec<SessionAction>,
    ) -> (r: Result<(), SessionError>)
        requires
            old(self).wf(),
        ensures
            final(self).wf(),
            command_effect(
                *old(self),
                *final(self),
                msg_stream_id,
                spec_name_bytes(command_name),
                spec_txid_bits(transaction_id),
                spec_obj_props(command_object),
                others@,
                r,
                old(actions)@,
                final(actions)@,
            ),
    {
        let name: Vec<u8> = match command_name {
            Amf0Value::Str(s) => s,
            _ => Vec::new(),
        };
        proof {
            assert(name@ == spec_name_bytes(command_name));
        }
        let txid: u64 = match transaction_id {
            Amf0Value::Number(n) => n,
            _ => AMF0_NUMBER_ZERO,
        };
        let obj: Vec<Amf0Property> = match command_object {
            Amf0Value::Object(props) => props,
            _ => Vec::new(),
        };
        proof {
            assert(props_view(obj@) =~= spec_obj_props(command_object));
        }
        if bytes_eq(&name, wire_strings::cmd_connect().as_slice()) {
            self.on_command_connect(txid, &obj)
        } else if bytes_eq(&name, wire_strings::cmd_create_stream().as_slice()) {
            self.on_command_create_stream(txid)
        } else if bytes_eq(&name, wire_strings::cmd_delete_stream().as_slice()) {
            self.on_command_delete_stream(txid, &others)
        } else if bytes_eq(&name, wire_strings::cmd_play().as_slice()) {
            Err(SessionError::PlayNotSupported)
        } else if bytes_eq(&name, wire_strings::cmd_publish().as_slice()) {
            self.on_command_publish(txid, msg_stream_id, &others, actions)
        } else {
            Ok(())
        }
    }

    /// Dispatches one typed message.
    fn process_messages(
        &mut self,
        msg: MessageData,
        msg_stream_id: u32,
        timestamp: u32,
        actions: &mut Vec<SessionAction>,
    ) -> (r: Result<(), SessionError>)
        requires
            old(self).wf(),
        ensures
            final(self).wf(),
            message_effect(
                *old(self),
                *final(self),
                msg,
                msg_stream_id,
                timestamp,
                r,
                old(actions)@,
                final(actions)@,
            ),
            ({
                let d = spec_dispatch(old(self).model(), msg@, msg_stream_id, timestamp);
                match r {
                    Ok(_) => d.2 is None && final(self).model() == d.0 && actions_view(
                        final(actions)@,
                    ) == actions_view(old(actions)@) + d.1,
                    Err(e) => d.2 == Some(e),
                }
            }),
    {
        let ghost gmsg = msg;
        let r = match msg {
            MessageData::SetChunkSize(p) => self.on_set_chunk_size(p.chunk_size),
            MessageData::Amf0Command { command_name, transaction_id, command_object, others } => {
                self.on_amf0_command_message(
                    msg_stream_id,
                    command_name,
                    transaction_id,
                    command_object,
                    others,
                    actions,
                )
            },
            MessageData::Amf0Data { data } => {
                self.on_data(msg_stream_id, ChannelData::Metadata { timestamp, data }, actions)
            },
            MessageData::AudioData { data } => {
                self.on_data(msg_stream_id, ChannelData::Audio { timestamp, data }, actions)
            },
            MessageData::VideoData { data } => {
                self.on_data(msg_stream_id, ChannelData::Video { timestamp, data }, actions)
            },
        };
        proof {
            lemma_effect_gives_dispatch(
                *old(self),
                *self,
                gmsg,
                msg_stream_id,
                timestamp,
                r,
                old(actions)@,
                actions@,
            );
        }
        r
    }

    /// Reads and dispatches every complete message in the buffer, stopping
    /// when input runs short, a publish suspends the session, or a
    /// dispatch fails: it behaves exactly as `spec_ready_loop` of the
    /// session's model says.
    #[verifier::rlimit(100)]
    #[verifier::spinoff_prover]
    fn process_buffered(&mut self, actions: &mut Vec<SessionAction>) -> (r: Result<
        (),
        SessionError,
    >)
        requires
            old(self).wf(),
        ensures
            final(self).wf(),
            final(self).uid == old(self).uid,
            final(self).stage == old(self).stage || final(self).stage
                == SessionStage::AwaitingAdmission,
            final(self).is_publishing ==> old(self).is_publishing,
            ({
                let f = spec_ready_loop(old(self).model());
                match r {
                    Ok(_) => f.2 is None && final(self).model() == f.0 && actions_view(
                        final(actions)@,
                    ) == actions_view(old(actions)@) + f.1,
                    Err(e) => f.2 == Some(e),
                }
            }),
        decreases old(self).read_buf@.len(),
    {
        let ghost m0 = self.model();
        if !matches!(self.stage, SessionStage::Ready) {
            proof {
                assert(actions_view(actions@) =~= actions_view(actions@)
                    + Seq::<SessionActionView>::empty());
            }
            return Ok(());
        }
        let ghost pre_max = self.decoder.max_chunk_size as int;
        let ghost pre_entries = entries_view(self.decoder.entries@);
        let ghost pre_buf = self.read_buf@;
        let chunk = match self.decoder.read_chunk(&mut self.read_buf) {
            Err(e) => {
                return Err(SessionError::ChunkDecode(e));
            },
            Ok(None) => {
                proof {
                    assert(spec_read_message(m0.dec_max, m0.dec_entries, m0.read_buf) matches
                        SpecReadOutcome::NeedMore { entries, rest } ==> self.model() == (
                        SessionModel { dec_entries: entries, read_buf: rest, ..m0 }));
                    assert(actions_view(actions@) =~= actions_view(actions@)
                        + Seq::<SessionActionView>::empty());
                }
                return Ok(());
            },
            Ok(Some(c)) => c,
        };
        proof {
            lemma_read_message_progress(pre_max, pre_entries, pre_buf);
        }
        let ghost outcome = spec_read_message(m0.dec_max, m0.dec_entries, m0.read_buf);
        let ghost spec_chunk = outcome->Msg_chunk;
        let ghost mid = SessionModel {
            dec_entries: outcome->Msg_entries,
            read_buf: outcome->Msg_rest,
            ..m0
        };
        proof {
            assert(self.model() == mid);
        }
        let timestamp = chunk.message_header.timestamp;
        let msg_stream_id = chunk.message_header.msg_stream_id;
        match MessageData::parse(&chunk) {
            Err(e) => {
                proof {
                    assert(spec_ready_loop(m0).2 == Some(SessionError::Message(e)));
                }
                Err(SessionError::Message(e))
            },
            Ok(None) => {
                proof {
                    assert(spec_ready_loop(m0) == spec_ready_loop(mid));
                }
                let r2 = self.process_buffered(actions);
                r2
            },
            Ok(Some(msg)) => {
                let ghost d = spec_dispatch(
                    mid,
                    msg@,
                    spec_chunk.msg_stream_id,
                    spec_chunk.timestamp,
                );
                match self.process_messages(msg, msg_stream_id, timestamp, actions) {
                    Err(e) => {
                        proof {
                            assert(spec_ready_loop(m0).2 == Some(e));
                        }
                        Err(e)
                    },
                    Ok(_) => {
                        proof {
                            lemma_dispatch_keeps_read_buf(
                                mid,
                                msg@,
                                spec_chunk.msg_stream_id,
                                spec_chunk.timestamp,
                            );
                            assert(self.model() == d.0);
                            assert(d.0.read_buf.len() < m0.read_buf.len());
                        }
                        let ghost acts_mid = actions@;
                        let r2 = self.process_buffered(actions);
                        proof {
                            if r2 is Ok {
                                let f2 = spec_ready_loop(d.0);
                                vstd::seq_lib::lemma_concat_associative(
                                    actions_view(old(actions)@),
                                    d.1,
                                    f2.1,
                                );
                                assert(spec_ready_loop(m0) == (f2.0, d.1 + f2.1, f2.2));
                            }
                        }
                        r2
                    },
                }
            },
        }
    }

    /// Buffers bytes read from the peer and advances the session: drives
    /// the handshake, then reads and dispatches framed messages. While an
    /// admission request is outstanding, input only accumulates. The call
    /// behaves exactly as `spec_feed` of the model whose buffered input
    /// already holds the fed bytes: on success the state and the actions
    /// are the model's, and on failure the error is the model's.
    pub fn feed(&mut self, input: &[u8]) -> (r: Result<Vec<SessionAction>, SessionError>)
        requires
            old(self).wf(),
        ensures
            final(self).wf(),
            final(self).uid == old(self).uid,
            final(self).is_publishing ==> old(self).is_publishing,
            old(self).stage is Ready ==> !(final(self).stage is Handshaking),
            ({
                let f = spec_feed(
                    SessionModel {
                        read_buf: old(self).read_buf@ + input@,
                        ..old(self).model()
                    },
                );
                match r {
                    Ok(acts) => f.2 is None && final(self).model() == f.0 && actions_view(acts@)
                        == f.1,
                    Err(e) => f.2 == Some(e),
                }
            }),
            old(self).stage is AwaitingAdmission ==> (r matches Ok(acts) && acts@
                == Seq::<SessionAction>::empty() && *final(self) == (Session {
                read_buf: final(self).read_buf,
                ..*old(self)
            }) && final(self).read_buf@ == old(self).read_buf@ + input@),
    {
        push_slice(&mut self.read_buf, input);
        let ghost pre = SessionModel {
            read_buf: old(self).read_buf@ + input@,
            ..old(self).model()
        };
        proof {
            assert(self.model() == pre);
        }
        let mut actions: Vec<SessionAction> = Vec::new();
        if matches!(self.stage, SessionStage::AwaitingAdmission) {
            proof {
                assert(actions_view(actions@) =~= Seq::<SessionActionView>::empty());
            }
            return Ok(actions);
        }
        if matches!(self.stage, SessionStage::Handshaking) {
            let ghost step = crate::handshake::spec_handshake_step(pre.hs_state, pre.read_buf);
            let ghost mid = SessionModel {
                hs_state: step.0,
                read_buf: step.1,
                write_buf: pre.write_buf + step.2,
                ..pre
            };
            self.handshake.handshake(&mut self.read_buf, &mut self.write_buf);
            proof {
                assert(self.model() == mid);
            }
            if matches!(self.handshake.state(), ServerHandshakeState::Finish) {
                let ghost mid2 = SessionModel {
                    stage: SessionStage::Ready,
                    enc_cs: CHUNK_SIZE as int,
                    write_buf: mid.write_buf + spec_set_chunk_size_bytes(mid.enc_cs),
                    ..mid
                };
                self.send_set_chunk_size();
                self.stage = SessionStage::Ready;
                proof {
                    assert(self.model() == mid2);
                }
            } else {
                proof {
                    assert(spec_feed(pre) == (mid, Seq::<SessionActionView>::empty(), None::<
                        SessionError,
                    >));
                    assert(actions_view(actions@) =~= Seq::<SessionActionView>::empty());
                }
                return Ok(actions);
            }
        }
        let ghost ready_model = self.model();
        match self.process_buffered(&mut actions) {
            Ok(_) => {
                proof {
                    assert(actions_view(actions@) =~= spec_ready_loop(ready_model).1);
                }
                Ok(actions)
            },
            Err(e) => Err(e),
        }
    }

    /// Resumes a session whose publish the admission collaborator
    /// approved: records the issued identifier, binds the pending stream,
    /// and emits the stream-begin event and the publish-start status.
    /// Buffered input is dispatched by the next `feed`.
    pub fn admission_granted(&mut self, uid: u64)
        requires
            old(self).wf(),
            old(self).stage is AwaitingAdmission,
        ensures
            final(self).wf(),
            *final(self) == (Session {
                stage: SessionStage::Ready,
                uid: Some(uid),
                is_publishing: true,
                stream_id: old(self).pending_stream_id,
                write_buf: final(self).write_buf,
                ..*old(self)
            }),
            final(self).write_buf@ == old(self).write_buf@ + spec_stream_begin_bytes(
                old(self).encoder.chunk_size as int,
                old(self).pending_stream_id,
            ) + spec_status_bytes(
                old(self).encoder.chunk_size as int,
                old(self).pending_transaction_id,
                wire_strings::spec_code_publish_start(),
                wire_strings::spec_empty_text(),
            ),
    {
        self.uid = Some(uid);
        self.is_publishing = true;
        self.stream_id = self.pending_stream_id;
        let ev = EventMessageStreamBegin { stream_id: self.stream_id };
        ev.write(&self.encoder, &mut self.write_buf);
        let level = wire_strings::level_status();
        let code = wire_strings::code_publish_start();
        let description = wire_strings::empty_text();
        NetStreamWriter::write_on_status(
            &self.encoder,
            &mut self.write_buf,
            self.pending_transaction_id,
            &level,
            &code,
            &description,
        );
        self.stage = SessionStage::Ready;
    }
}

} // verus!
