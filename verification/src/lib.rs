//! Server-side core of a streaming-media ingestion protocol: the byte-level
//! handshake, the chunked message framing layer, the message layer that types
//! chunk payloads, and the session state machine that drives a publish
//! session, together with plain-value models of the media frames that a
//! consumer receives.

pub mod amf0;
pub mod av_formats;
pub mod bytes_util;
pub mod chunk;
pub mod chunk_decoder;
pub mod chunk_encoder;
pub mod chunk_laws;
pub mod command;
pub mod frame;
pub mod handshake;
pub mod messages;
pub mod netconnection;
pub mod netstream;
pub mod protocol_control;
pub mod rational;
pub mod session;
pub mod user_control;
pub mod wire_strings;
