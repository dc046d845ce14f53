//! The message layer: the message-type discriminants of the framing format,
//! and the typed messages read out of reassembled chunks.

use vstd::prelude::*;

use crate::amf0::Amf0Decoder;
use crate::amf0::Amf0Value;
use crate::amf0::Amf0ValueView;
use crate::amf0::spec_decode_all;
use crate::amf0::values_view;
use crate::bytes_util::be32;
use crate::bytes_util::get_be_u32;
use crate::chunk::Chunk;
use crate::protocol_control::ProtocolControlMessageSetChunkSize;

verus! {

/// A message type discriminant, as carried in a chunk message header.
#[derive(Debug, Clone, Copy, PartialEq, Eq, Structural)]
pub enum MessageType {
    /// Protocol control: set chunk size.
    SetChunkSize,
    /// Protocol control: abort.
    Abort,
    /// Protocol control: acknowledgement.
    Acknowledgement,
    /// A user control event.
    UserControlEvent,
    /// Protocol control: window acknowledgement size.
    WindowAcknowledgementSize,
    /// Protocol control: set peer bandwidth.
    SetPeerBandwidth,
    /// An audio payload.
    Audio,
    /// A video payload.
    Video,
    /// Metadata in the newer command encoding.
    DataAMF3,
    /// A shared object in the newer command encoding.
    SharedObjAMF3,
    /// A command in the newer command encoding.
    CommandAMF3,
    /// Metadata in the classic command encoding.
    DataAMF0,
    /// A shared object in the classic command encoding.
    SharedObjAMF0,
    /// A command in the classic command encoding.
    CommandAMF0,
    /// An aggregate message.
    Aggregate,
}

impl MessageType {
    /// The wire value of this message type.
    pub open spec fn spec_u8(self) -> u8 {
        match self {
            MessageType::SetChunkSize => 1,
            MessageType::Abort => 2,
            MessageType::Acknowledgement => 3,
            MessageType::UserControlEvent => 4,
            MessageType::WindowAcknowledgementSize => 5,
            MessageType::SetPeerBandwidth => 6,
            MessageType::Audio => 8,
            MessageType::Video => 9,
            MessageType::DataAMF3 => 15,
            MessageType::SharedObjAMF3 => 16,
            MessageType::CommandAMF3 => 17,
            MessageType::DataAMF0 => 18,
            MessageType::SharedObjAMF0 => 19,
            MessageType::CommandAMF0 => 20,
            MessageType::Aggregate => 22,
        }
    }

    /// The message type named by a wire value, when there is one.
    pub open spec fn spec_from_u8(v: u8) -> Option<MessageType> {
        if v == 1 {
            Some(MessageType::SetChunkSize)
        } else if v == 2 {
            Some(MessageType::Abort)
        } else if v == 3 {
            Some(MessageType::Acknowledgement)
        } else if v == 4 {
            Some(MessageType::UserControlEvent)
        } else if v == 5 {
            Some(MessageType::WindowAcknowledgementSize)
        } else if v == 6 {
            Some(MessageType::SetPeerBandwidth)
        } else if v == 8 {
            Some(MessageType::Audio)
        } else if v == 9 {
            Some(MessageType::Video)
        } else if v == 15 {
            Some(MessageType::DataAMF3)
        } else if v == 16 {
            Some(MessageType::SharedObjAMF3)
        } else if v == 17 {
            Some(MessageType::CommandAMF3)
        } else if v == 18 {
            Some(MessageType::DataAMF0)
        } else if v == 19 {
            Some(MessageType::SharedObjAMF0)
        } else if v == 20 {
            Some(MessageType::CommandAMF0)
        } else if v == 22 {
            Some(MessageType::Aggregate)
        } else {
            None
        }
    }

    /// Returns the wire value of this message type.
    pub fn as_u8(&self) -> (r: u8)
        ensures
            r == self.spec_u8(),
    {
        match self {
            MessageType::SetChunkSize => 1,
            MessageType::Abort => 2,
            MessageType::Acknowledgement => 3,
            MessageType::UserControlEvent => 4,
            MessageType::WindowAcknowledgementSize => 5,
            MessageType::SetPeerBandwidth => 6,
            MessageType::Audio => 8,
            MessageType::Video => 9,
            MessageType::DataAMF3 => 15,
            MessageType::SharedObjAMF3 => 16,
            MessageType::CommandAMF3 => 17,
            MessageType::DataAMF0 => 18,
            MessageType::SharedObjAMF0 => 19,
            MessageType::CommandAMF0 => 20,
            MessageType::Aggregate => 22,
        }
    }

    /// Reads a message type from its wire value.
    pub fn from_u8(v: u8) -> (r: Option<MessageType>)
        ensures
            r == Self::spec_from_u8(v),
    {
        if v == 1 {
            Some(MessageType::SetChunkSize)
        } else if v == 2 {
            Some(MessageType::Abort)
        } else if v == 3 {
            Some(MessageType::Acknowledgement)
        } else if v == 4 {
            Some(MessageType::UserControlEvent)
        } else if v == 5 {
            Some(MessageType::WindowAcknowledgementSize)
        } else if v == 6 {
            Some(MessageType::SetPeerBandwidth)
        } else if v == 8 {
            Some(MessageType::Audio)
        } else if v == 9 {
            Some(MessageType::Video)
        } else if v == 15 {
            Some(MessageType::DataAMF3)
        } else if v == 16 {
            Some(MessageType::SharedObjAMF3)
        } else if v == 17 {
            Some(MessageType::CommandAMF3)
        } else if v == 18 {
            Some(MessageType::DataAMF0)
        } else if v == 19 {
            Some(MessageType::SharedObjAMF0)
        } else if v == 20 {
            Some(MessageType::CommandAMF0)
        } else if v == 22 {
            Some(MessageType::Aggregate)
        } else {
            None
        }
    }
}

/// An error from typing a chunk's payload.
#[derive(Debug, Clone, Copy, PartialEq, Eq, Structural)]
pub enum MessageError {
    /// A protocol-control payload was shorter than its fixed size.
    TruncatedControl,
    /// A command payload was not well-formed command data.
    Amf0Read,
}

/// A typed message read out of one reassembled chunk.
#[derive(Debug, Clone, PartialEq, Eq)]
pub enum MessageData {
    /// A request to change the sender's chunk size.
    SetChunkSize(ProtocolControlMessageSetChunkSize),
    /// A command: a name, a transaction id, a command object, and trailing
    /// values.
    Amf0Command {
        /// The command name.
        command_name: Amf0Value,
        /// The transaction id.
        transaction_id: Amf0Value,
        /// The command object, or the null marker when absent.
        command_object: Amf0Value,
        /// The values after the command object.
        others: Vec<Amf0Value>,
    },
    /// A metadata payload.
    Amf0Data {
        /// The raw payload bytes.
        data: Vec<u8>,
    },
    /// An audio payload.
    AudioData {
        /// The raw payload bytes.
        data: Vec<u8>,
    },
    /// A video payload.
    VideoData {
        /// The raw payload bytes.
        data: Vec<u8>,
    },
}

/// The shape of a typed message over mathematical sequences.
pub enum MessageDataView {
    /// A request to change the sender's chunk size.
    SetChunkSize(u32),
    /// A command message.
    Amf0Command {
        /// The command name.
        command_name: Amf0ValueView,
        /// The transaction id.
        transaction_id: Amf0ValueView,
        /// The command object, or the null marker when absent.
        command_object: Amf0ValueView,
        /// The values after the command object.
        others: Seq<Amf0ValueView>,
    },
    /// A metadata payload.
    Amf0Data {
        /// The raw payload bytes.
        data: Seq<u8>,
    },
    /// An audio payload.
    AudioData {
        /// The raw payload bytes.
        data: Seq<u8>,
    },
    /// A video payload.
    VideoData {
        /// The raw payload bytes.
        data: Seq<u8>,
    },
}

impl View for MessageData {
    type V = MessageDataView;

    open spec fn view(&self) -> MessageDataView {
        match self {
            MessageData::SetChunkSize(p) => MessageDataView::SetChunkSize(p.chunk_size),
            MessageData::Amf0Command { command_name, transaction_id, command_object, others } => (
            MessageDataView::Amf0Command {
                command_name: command_name@,
                transaction_id: transaction_id@,
                command_object: command_object@,
                others: values_view(others@),
            }),
            MessageData::Amf0Data { data } => MessageDataView::Amf0Data { data: data@ },
            MessageData::AudioData { data } => MessageDataView::AudioData { data: data@ },
            MessageData::VideoData { data } => MessageDataView::VideoData { data: data@ },
        }
    }
}

/// The view of a parse result.
pub open spec fn parse_result_view(r: Result<Option<MessageData>, MessageError>) -> Result<
    Option<MessageDataView>,
    MessageError,
> {
    match r {
        Ok(Some(m)) => Ok(Some(m@)),
        Ok(None) => Ok(None),
        Err(e) => Err(e),
    }
}

impl MessageData {
    /// What `parse` returns for a chunk with the given type byte and
    /// payload.
    pub open spec fn spec_parse(msg_type_id: u8, payload: Seq<u8>) -> Result<
        Option<MessageDataView>,
        MessageError,
    > {
        if msg_type_id == 1 {
            if payload.len() < 4 {
                Err(MessageError::TruncatedControl)
            } else {
                Ok(Some(MessageDataView::SetChunkSize(be32(payload.subrange(0, 4)) as u32)))
            }
        } else if msg_type_id == 20 {
            match spec_decode_all(payload) {
                Some(values) => {
                    if values.len() >= 3 && values[0] is Str && values[1] is Number && (values[2]
                        is Object || values[2] is Null) {
                        Ok(
                            Some(
                                MessageDataView::Amf0Command {
                                    command_name: values[0],
                                    transaction_id: values[1],
                                    command_object: values[2],
                                    others: values.skip(3),
                                },
                            ),
                        )
                    } else {
                        Err(MessageError::Amf0Read)
                    }
                },
                None => Err(MessageError::Amf0Read),
            }
        } else if msg_type_id == 18 {
            Ok(Some(MessageDataView::Amf0Data { data: payload }))
        } else if msg_type_id == 8 {
            Ok(Some(MessageDataView::AudioData { data: payload }))
        } else if msg_type_id == 9 {
            Ok(Some(MessageDataView::VideoData { data: payload }))
        } else {
            Ok(None)
        }
    }

    /// Types the payload of a reassembled chunk, keyed by the chunk's
    /// message type; types the layer does not act on give `None`.
    pub fn parse(chunk: &Chunk) -> (r: Result<Option<MessageData>, MessageError>)
        ensures
            parse_result_view(r) == Self::spec_parse(
                chunk.message_header.msg_type_id,
                chunk.payload@,
            ),
    {
        let t = chunk.message_header.msg_type_id;
        if t == 1 {
            if chunk.payload.len() < 4 {
                Err(MessageError::TruncatedControl)
            } else {
                let size = get_be_u32(&chunk.payload, 0);
                proof {
                    assert(0 <= be32(chunk.payload@.subrange(0, 4)) < 0x100000000);
                }
                Ok(
                    Some(
                        MessageData::SetChunkSize(
                            ProtocolControlMessageSetChunkSize { chunk_size: size },
                        ),
                    ),
                )
            }
        } else if t == 20 {
            let mut values = match Amf0Decoder::decode_all(&chunk.payload) {
                Some(v) => v,
                None => {
                    return Err(MessageError::Amf0Read);
                },
            };
            if values.len() < 3 {
                return Err(MessageError::Amf0Read);
            }
            let shape_ok = matches!(&values[0], Amf0Value::Str(_)) && matches!(
                &values[1],
                Amf0Value::Number(_),
            ) && (matches!(&values[2], Amf0Value::Object(_)) || matches!(
                &values[2],
                Amf0Value::Null,
            ));
            proof {
                assert(values_view(values@)[0] == values@[0]@);
                assert(values_view(values@)[1] == values@[1]@);
                assert(values_view(values@)[2] == values@[2]@);
            }
            if !shape_ok {
                return Err(MessageError::Amf0Read);
            }
            let ghost all = values@;
            let command_name = values.remove(0);
            let transaction_id = values.remove(0);
            let command_object = values.remove(0);
            proof {
                assert(values@ =~= all.skip(3));
                assert(values_view(values@) =~= values_view(all).skip(3));
            }
            Ok(
                Some(
                    MessageData::Amf0Command {
                        command_name,
                        transaction_id,
                        command_object,
                        others: values,
                    },
                ),
            )
        } else if t == 18 {
            Ok(Some(MessageData::Amf0Data { data: chunk.payload.clone() }))
        } else if t == 8 {
            Ok(Some(MessageData::AudioData { data: chunk.payload.clone() }))
        } else if t == 9 {
            Ok(Some(MessageData::VideoData { data: chunk.payload.clone() }))
        } else {
            Ok(None)
        }
    }
}

} // verus!
