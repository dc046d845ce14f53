//! The server side of the fixed-size byte exchange that opens a session.
//!
//! The server consumes a 1-byte version marker and a 1536-byte client
//! greeting, replies with its own version byte, a 1536-byte greeting, and
//! an echo of the client greeting as acknowledgment, then consumes the
//! client's 1536-byte acknowledgment.

use vstd::prelude::*;

use crate::bytes_util::push_slice_range;

verus! {

/// The protocol version byte this server speaks.
pub const RTMP_VERSION: u8 = 3;

/// The size of each greeting and acknowledgment block.
pub const RTMP_HANDSHAKE_SIZE: usize = 1536;

/// Where the handshake stands.
#[derive(Debug, Clone, Copy, PartialEq, Eq, Structural)]
pub enum ServerHandshakeState {
    /// Waiting for the client's version byte and greeting.
    ReadC0C1,
    /// Waiting for the client's acknowledgment.
    ReadC2,
    /// The handshake is complete.
    Finish,
}

/// The greeting block this server sends: all zero bytes.
pub open spec fn spec_server_greeting() -> Seq<u8> {
    Seq::new(RTMP_HANDSHAKE_SIZE as nat, |i: int| 0u8)
}

/// The whole reply to a client greeting: the version byte, the server
/// greeting, and an echo of the client greeting.
pub open spec fn spec_server_reply(c1: Seq<u8>) -> Seq<u8> {
    seq![RTMP_VERSION] + spec_server_greeting() + c1
}

/// One call of `handshake` on buffered bytes: the state afterwards, the
/// bytes left unconsumed, and the bytes appended to the output.
pub open spec fn spec_handshake_step(st: ServerHandshakeState, buf: Seq<u8>) -> (
    ServerHandshakeState,
    Seq<u8>,
    Seq<u8>,
) {
    match st {
        ServerHandshakeState::ReadC0C1 => {
            if buf.len() < 1537 {
                (st, buf, Seq::<u8>::empty())
            } else if buf.len() < 1537 + 1536 {
                (ServerHandshakeState::ReadC2, buf.skip(1537), spec_server_reply(
                    buf.subrange(1, 1537),
                ))
            } else {
                (ServerHandshakeState::Finish, buf.skip(3073), spec_server_reply(
                    buf.subrange(1, 1537),
                ))
            }
        },
        ServerHandshakeState::ReadC2 => {
            if buf.len() < 1536 {
                (st, buf, Seq::<u8>::empty())
            } else {
                (ServerHandshakeState::Finish, buf.skip(1536), Seq::<u8>::empty())
            }
        },
        ServerHandshakeState::Finish => (st, buf, Seq::<u8>::empty()),
    }
}

/// Drives the server side of the handshake over buffered bytes.
#[derive(Debug)]
pub struct HandshakeServer {
    /// Where the handshake stands.
    pub state: ServerHandshakeState,
}

impl Default for HandshakeServer {
    /// A handshake waiting for the client greeting.
    fn default() -> (r: Self)
        ensures
            r.state == ServerHandshakeState::ReadC0C1,
    {
        HandshakeServer { state: ServerHandshakeState::ReadC0C1 }
    }
}

impl HandshakeServer {
    /// Creates a handshake waiting for the client greeting.
    pub fn new() -> (r: Self)
        ensures
            r.state == ServerHandshakeState::ReadC0C1,
    {
        HandshakeServer { state: ServerHandshakeState::ReadC0C1 }
    }

    /// Where the handshake stands.
    pub fn state(&self) -> (r: ServerHandshakeState)
        ensures
            r == self.state,
    {
        self.state
    }

    /// Consumes as much of the exchange as `buf` holds: the version byte
    /// and greeting first, appending the server's reply to `output`, then
    /// the acknowledgment. Bytes past the exchange stay in `buf`.
    pub fn handshake(&mut self, buf: &mut Vec<u8>, output: &mut Vec<u8>)
        ensures
            ({
                let (st2, rest, out) = spec_handshake_step(old(self).state, old(buf)@);
                &&& final(self).state == st2
                &&& final(buf)@ == rest
                &&& final(output)@ == old(output)@ + out
            }),
    {
        let ghost buf0 = buf@;
        let ghost out0 = output@;
        if matches!(self.state, ServerHandshakeState::ReadC0C1) {
            if buf.len() < 1 + RTMP_HANDSHAKE_SIZE {
                return ;
            }
            output.push(RTMP_VERSION);
            let mut i: usize = 0;
            while i < RTMP_HANDSHAKE_SIZE
                invariant
                    i <= RTMP_HANDSHAKE_SIZE,
                    output@ =~= out0 + seq![RTMP_VERSION] + Seq::new(i as nat, |j: int| 0u8),
                decreases RTMP_HANDSHAKE_SIZE - i,
            {
                output.push(0);
                proof {
                    assert(output@ =~= out0 + seq![RTMP_VERSION] + Seq::new(
                        (i + 1) as nat,
                        |j: int| 0u8,
                    ));
                }
                i = i + 1;
            }
            push_slice_range(output, buf, 1, 1 + RTMP_HANDSHAKE_SIZE);
            proof {
                assert(output@ =~= out0 + spec_server_reply(buf0.subrange(1, 1537)));
            }
            let rest = buf.split_off(1 + RTMP_HANDSHAKE_SIZE);
            *buf = rest;
            proof {
                assert(buf@ =~= buf0.skip(1537));
            }
            self.state = ServerHandshakeState::ReadC2;
            if buf.len() >= RTMP_HANDSHAKE_SIZE {
                let rest2 = buf.split_off(RTMP_HANDSHAKE_SIZE);
                *buf = rest2;
                proof {
                    assert(buf@ =~= buf0.skip(3073));
                }
                self.state = ServerHandshakeState::Finish;
            }
            return ;
        }
        if matches!(self.state, ServerHandshakeState::ReadC2) {
            if buf.len() < RTMP_HANDSHAKE_SIZE {
                return ;
            }
            let rest = buf.split_off(RTMP_HANDSHAKE_SIZE);
            *buf = rest;
            proof {
                assert(buf@ =~= buf0.skip(1536));
            }
            self.state = ServerHandshakeState::Finish;
        }
    }
}

} // verus!
