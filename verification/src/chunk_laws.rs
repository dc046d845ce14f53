//! What holds between the chunk encoder and the chunk decoder: a message
//! framed by the encoder is read back whole, with the same chunk stream id,
//! timestamp, message type, message stream id, and payload.

use vstd::prelude::*;

use crate::bytes_util::be16;
use crate::bytes_util::be24;
use crate::bytes_util::be32;
use crate::bytes_util::lemma_be24_round_trip;
use crate::bytes_util::lemma_be32_round_trip;
use crate::bytes_util::lemma_le32_round_trip;
use crate::bytes_util::u24_to_be;
use crate::bytes_util::u32_to_be;
use crate::bytes_util::u32_to_le;
use crate::chunk::CHUNK_STREAM_ID_LIMIT;
use crate::chunk::EXTENDED_TIMESTAMP;
use crate::chunk::MIN_CHUNK_STREAM_ID;
use crate::chunk_decoder::SpecChunkStep;
use crate::chunk_decoder::SpecEntry;
use crate::chunk_decoder::SpecHeaderStep;
use crate::chunk_decoder::SpecReadOutcome;
use crate::chunk_decoder::assoc_find;
use crate::chunk_decoder::assoc_set;
use crate::chunk_decoder::spec_parse_basic_header;
use crate::chunk_decoder::spec_parse_message_header;
use crate::chunk_decoder::spec_read_chunk_step;
use crate::chunk_decoder::spec_read_message;
use crate::chunk_encoder::spec_basic_header;
use crate::chunk_encoder::spec_chunk_body;
use crate::chunk_encoder::spec_encode_chunk;
use crate::chunk_encoder::spec_message_header_type0;

verus! {

broadcast use Seq::add_empty_left, Seq::add_empty_right;

/// The extension bytes a header carries for its timestamp: the 4-byte field
/// when the timestamp is extended, nothing otherwise.
pub open spec fn ext_bytes(ext: bool, timestamp: u32) -> Seq<u8> {
    if ext {
        u32_to_be(timestamp)
    } else {
        Seq::<u8>::empty()
    }
}

/// A chunk stream is idle in an entry list when it has no cached entry, or
/// an entry with no partial payload.
pub open spec fn stream_idle(entries: Seq<(u32, SpecEntry)>, csid: u32) -> bool {
    match assoc_find(entries, csid) {
        Some(p) => p.partial.len() == 0,
        None => true,
    }
}

/// The timestamp field and extension that a full header carries: at most
/// `0xFFFFFE` it sits whole in the 3-byte field and the header is 11 bytes;
/// from `0xFFFFFF` on the 3-byte field holds the escape and a 4-byte
/// extension carries the value, 15 bytes in all.
pub proof fn lemma_extended_timestamp_boundary(
    timestamp: u32,
    msg_length: u32,
    msg_type_id: u8,
    msg_stream_id: u32,
)
    requires
        msg_length < 0x1000000,
    ensures
        ({
            let h = spec_message_header_type0(timestamp, msg_length, msg_type_id, msg_stream_id);
            &&& timestamp < EXTENDED_TIMESTAMP ==> h.len() == 11 && be24(h.subrange(0, 3))
                == timestamp
            &&& timestamp >= EXTENDED_TIMESTAMP ==> h.len() == 15 && be24(h.subrange(0, 3))
                == EXTENDED_TIMESTAMP && be32(h.subrange(11, 15)) == timestamp
        }),
{
    let h = spec_message_header_type0(timestamp, msg_length, msg_type_id, msg_stream_id);
    if timestamp < EXTENDED_TIMESTAMP {
        assert(h =~= u24_to_be(timestamp) + u24_to_be(msg_length) + seq![msg_type_id] + u32_to_le(
            msg_stream_id,
        ));
        assert(h.subrange(0, 3) =~= u24_to_be(timestamp));
        lemma_be24_round_trip(timestamp);
    } else {
        assert(h =~= u24_to_be(EXTENDED_TIMESTAMP) + u24_to_be(msg_length) + seq![msg_type_id]
            + u32_to_le(msg_stream_id) + u32_to_be(timestamp));
        assert(h.subrange(0, 3) =~= u24_to_be(EXTENDED_TIMESTAMP));
        assert(h.subrange(11, 15) =~= u32_to_be(timestamp));
        lemma_be24_round_trip(EXTENDED_TIMESTAMP);
        lemma_be32_round_trip(timestamp);
    }
}

/// A basic header written for a chunk stream id parses back to the same
/// format bits and id.
proof fn lemma_basic_header_round_trip(fmt: u8, csid: u32, rest: Seq<u8>)
    requires
        fmt < 4,
        MIN_CHUNK_STREAM_ID <= csid < CHUNK_STREAM_ID_LIMIT,
    ensures
        spec_parse_basic_header(spec_basic_header(fmt, csid) + rest) == Some(
            (fmt, csid, spec_basic_header(fmt, csid).len() as int),
        ),
        (spec_basic_header(fmt, csid) + rest).skip(spec_basic_header(fmt, csid).len() as int)
            =~= rest,
        1 <= spec_basic_header(fmt, csid).len() <= 3,
{
    let bh = spec_basic_header(fmt, csid);
    let input = bh + rest;
    if csid < 64 {
        assert(input[0] == (fmt * 64 + csid) as u8);
        assert((fmt * 64 + csid) as u8 / 64 == fmt);
        assert((fmt * 64 + csid) as u8 % 64 == csid);
    } else if csid < 320 {
        assert(input[0] == (fmt * 64) as u8);
        assert(input[1] == (csid - 64) as u8);
        assert((fmt * 64) as u8 / 64 == fmt);
        assert((fmt * 64) as u8 % 64 == 0);
        assert((input[1] + 64) as u32 == csid);
    } else {
        assert(input[0] == (fmt * 64 + 1) as u8);
        assert(input[1] == ((csid - 64) / 0x100) as u8);
        assert(input[2] == ((csid - 64) % 0x100) as u8);
        assert((fmt * 64 + 1) as u8 / 64 == fmt);
        assert((fmt * 64 + 1) as u8 % 64 == 1);
        assert(input.subrange(1, 3) =~= seq![((csid - 64) / 0x100) as u8, ((csid - 64)
            % 0x100) as u8]);
        assert(be16(input.subrange(1, 3)) == csid - 64);
        assert((be16(input.subrange(1, 3)) + 64) as u32 == csid);
    }
    assert(input.skip(bh.len() as int) =~= rest);
}

/// Setting a key makes it the one found.
proof fn lemma_assoc_find_set(entries: Seq<(u32, SpecEntry)>, csid: u32, e: SpecEntry)
    ensures
        assoc_find(assoc_set(entries, csid, e), csid) == Some(e),
    decreases entries.len(),
{
    if entries.len() == 0 {
    } else if entries[0].0 == csid {
        assert(assoc_set(entries, csid, e)[0] == (csid, e));
    } else {
        lemma_assoc_find_set(entries.skip(1), csid, e);
        assert(assoc_set(entries, csid, e)[0] == entries[0]);
        assert(assoc_set(entries, csid, e).skip(1) =~= assoc_set(entries.skip(1), csid, e));
    }
}

/// A full message header written by the encoder parses back to the same
/// fields, whatever entry the decoder may hold.
proof fn lemma_message_header_round_trip(
    prev: Option<SpecEntry>,
    timestamp: u32,
    msg_length: u32,
    msg_type_id: u8,
    msg_stream_id: u32,
    rest: Seq<u8>,
)
    requires
        msg_length < 0x1000000,
    ensures
        ({
            let mh = spec_message_header_type0(timestamp, msg_length, msg_type_id, msg_stream_id);
            &&& spec_parse_message_header(0, prev, mh + rest) == (SpecHeaderStep::Parsed {
                timestamp,
                msg_length,
                msg_type_id,
                msg_stream_id,
                ext: timestamp >= EXTENDED_TIMESTAMP,
                consumed: mh.len() as int,
            })
            &&& (mh + rest).skip(mh.len() as int) =~= rest
            &&& mh.len() == (if timestamp >= EXTENDED_TIMESTAMP {
                15int
            } else {
                11int
            })
        }),
{
    reveal(spec_parse_message_header);
    let mh = spec_message_header_type0(timestamp, msg_length, msg_type_id, msg_stream_id);
    let input = mh + rest;
    lemma_be24_round_trip(msg_length);
    if timestamp >= EXTENDED_TIMESTAMP {
        assert(mh =~= u24_to_be(EXTENDED_TIMESTAMP) + u24_to_be(msg_length) + seq![msg_type_id]
            + u32_to_le(msg_stream_id) + u32_to_be(timestamp));
        assert(mh.len() == 15);
        assert(input.subrange(0, 3) =~= u24_to_be(EXTENDED_TIMESTAMP));
        assert(input.subrange(3, 6) =~= u24_to_be(msg_length));
        assert(input[6] == msg_type_id);
        assert(input.subrange(7, 11) =~= u32_to_le(msg_stream_id));
        assert(input.subrange(11, 15) =~= u32_to_be(timestamp));
        lemma_be24_round_trip(EXTENDED_TIMESTAMP);
        lemma_be32_round_trip(timestamp);
        lemma_le32_round_trip(msg_stream_id);
    } else {
        assert(mh =~= u24_to_be(timestamp) + u24_to_be(msg_length) + seq![msg_type_id]
            + u32_to_le(msg_stream_id));
        assert(mh.len() == 11);
        assert(input.subrange(0, 3) =~= u24_to_be(timestamp));
        assert(input.subrange(3, 6) =~= u24_to_be(msg_length));
        assert(input[6] == msg_type_id);
        assert(input.subrange(7, 11) =~= u32_to_le(msg_stream_id));
        lemma_be24_round_trip(timestamp);
        lemma_le32_round_trip(msg_stream_id);
    }
    assert(input.skip(mh.len() as int) =~= rest);
}

/// Continuation chunks carrying the tail of a message are read back and
/// appended until the cached message completes.
/// What one read step does once its headers parse: it consumes the
/// headers and one fragment, and either caches the grown partial payload
/// or emits the completed message.
#[verifier::rlimit(100)]
#[verifier::spinoff_prover]
proof fn lemma_step_characterize(
    max: int,
    entries: Seq<(u32, SpecEntry)>,
    input: Seq<u8>,
    fmt: u8,
    csid: u32,
    bh_n: int,
    timestamp: u32,
    msg_length: u32,
    msg_type_id: u8,
    msg_stream_id: u32,
    ext: bool,
    mh_n: int,
)
    requires
        spec_parse_basic_header(input) == Some((fmt, csid, bh_n)),
        spec_parse_message_header(fmt, assoc_find(entries, csid), input.skip(bh_n)) == (
        SpecHeaderStep::Parsed { timestamp, msg_length, msg_type_id, msg_stream_id, ext, consumed: mh_n }),
    ensures
        ({
            let partial = match assoc_find(entries, csid) {
                Some(p) => p.partial,
                None => Seq::<u8>::empty(),
            };
            let remaining: int = if msg_length > partial.len() {
                msg_length - partial.len()
            } else {
                0
            };
            let take: int = if remaining <= max {
                remaining
            } else {
                max
            };
            &&& input.len() < bh_n + mh_n + take ==> spec_read_chunk_step(max, entries, input)
                is NeedMore
            &&& input.len() >= bh_n + mh_n + take ==> ({
                let fragment = input.subrange(bh_n + mh_n, bh_n + mh_n + take);
                let np = partial + fragment;
                spec_read_chunk_step(max, entries, input) == (SpecChunkStep::Step {
                    consumed: bh_n + mh_n + take,
                    entries: assoc_set(
                        entries,
                        csid,
                        SpecEntry {
                            timestamp,
                            msg_length,
                            msg_type_id,
                            msg_stream_id,
                            ext,
                            partial: if np.len() >= msg_length {
                                Seq::<u8>::empty()
                            } else {
                                np
                            },
                        },
                    ),
                    emitted: if np.len() >= msg_length {
                        Some(
                            crate::chunk_decoder::SpecChunk {
                                format: fmt,
                                csid,
                                timestamp,
                                msg_length,
                                msg_type_id,
                                msg_stream_id,
                                ext,
                                payload: np,
                            },
                        )
                    } else {
                        None
                    },
                })
            })
        }),
{
    reveal(spec_parse_message_header);
    reveal(spec_read_chunk_step);
}

/// A continuation header inherits every field, reading back the 4-byte
/// extension when the cached timestamp has one.
proof fn lemma_fmt3_header_parse(p: SpecEntry, tail: Seq<u8>)
    requires
        p.ext ==> tail.len() >= 4 && tail.subrange(0, 4) == u32_to_be(p.timestamp),
    ensures
        spec_parse_message_header(3, Some(p), tail) == (SpecHeaderStep::Parsed {
            timestamp: p.timestamp,
            msg_length: p.msg_length,
            msg_type_id: p.msg_type_id,
            msg_stream_id: p.msg_stream_id,
            ext: p.ext,
            consumed: if p.ext {
                4int
            } else {
                0int
            },
        }),
{
    reveal(spec_parse_message_header);
    if p.ext {
        lemma_be32_round_trip(p.timestamp);
    }
}

/// One continuation chunk that finishes the message: the step consumes it
/// and emits the reassembled payload.
#[verifier::rlimit(100)]
#[verifier::spinoff_prover]
proof fn lemma_tail_step_last(
    max: int,
    entries: Seq<(u32, SpecEntry)>,
    csid: u32,
    timestamp: u32,
    msg_length: u32,
    msg_type_id: u8,
    msg_stream_id: u32,
    ext: bool,
    done: Seq<u8>,
    rest_p: Seq<u8>,
    suffix: Seq<u8>,
)
    requires
        1 <= max,
        MIN_CHUNK_STREAM_ID <= csid < CHUNK_STREAM_ID_LIMIT,
        done.len() + rest_p.len() == msg_length,
        1 <= rest_p.len() <= max,
        ext == (timestamp >= EXTENDED_TIMESTAMP),
        assoc_find(entries, csid) == Some(
            SpecEntry { timestamp, msg_length, msg_type_id, msg_stream_id, ext, partial: done },
        ),
    ensures
        ({
            let bh_n = spec_basic_header(3, csid).len() as int;
            let mh_n: int = if ext {
                4
            } else {
                0
            };
            let input = spec_basic_header(3, csid) + ext_bytes(ext, timestamp) + spec_chunk_body(
                csid,
                ext,
                timestamp,
                rest_p,
                max,
            ) + suffix;
            let consumed = bh_n + mh_n + rest_p.len() as int;
            &&& spec_read_chunk_step(max, entries, input) == (SpecChunkStep::Step {
                consumed,
                entries: assoc_set(
                    entries,
                    csid,
                    SpecEntry {
                        timestamp,
                        msg_length,
                        msg_type_id,
                        msg_stream_id,
                        ext,
                        partial: Seq::<u8>::empty(),
                    },
                ),
                emitted: Some(
                    crate::chunk_decoder::SpecChunk {
                        format: 3,
                        csid,
                        timestamp,
                        msg_length,
                        msg_type_id,
                        msg_stream_id,
                        ext,
                        payload: done + rest_p,
                    },
                ),
            })
            &&& input.skip(consumed) == suffix
            &&& 1 <= consumed <= input.len()
        }),
{
    let bh = spec_basic_header(3, csid);
    let eb = ext_bytes(ext, timestamp);
    let body = spec_chunk_body(csid, ext, timestamp, rest_p, max);
    let input = bh + eb + body + suffix;
    let tail = eb + body + suffix;
    assert(input =~= bh + tail);
    lemma_basic_header_round_trip(3, csid, tail);
    assert(input.skip(bh.len() as int) =~= tail);
    let prev = SpecEntry { timestamp, msg_length, msg_type_id, msg_stream_id, ext, partial: done };
    if ext {
        assert(tail.subrange(0, 4) =~= u32_to_be(timestamp));
    }
    let mh_n: int = if ext {
        4
    } else {
        0
    };
    lemma_fmt3_header_parse(prev, tail);
    lemma_step_characterize(
        max,
        entries,
        input,
        3,
        csid,
        bh.len() as int,
        timestamp,
        msg_length,
        msg_type_id,
        msg_stream_id,
        ext,
        mh_n,
    );
    assert(body == rest_p);
    let after_h = input.skip(bh.len() + mh_n);
    assert(after_h =~= body + suffix) by {
        assert(tail.skip(mh_n) =~= body + suffix);
        assert(input.skip(bh.len() as int).skip(mh_n) =~= input.skip(bh.len() + mh_n));
    }
    assert(input.subrange(bh.len() + mh_n, bh.len() + mh_n + rest_p.len() as int) =~= rest_p) by {
        assert(after_h.take(rest_p.len() as int) =~= rest_p);
        assert(input.subrange(bh.len() + mh_n, bh.len() + mh_n + rest_p.len() as int)
            =~= after_h.take(rest_p.len() as int));
    }
    assert(input.skip(bh.len() + mh_n + rest_p.len() as int) =~= suffix) by {
        assert(after_h.skip(rest_p.len() as int) =~= suffix);
        assert(input.skip(bh.len() + mh_n).skip(rest_p.len() as int) =~= input.skip(
            bh.len() + mh_n + rest_p.len() as int,
        ));
    }
}

/// One continuation chunk with more to follow: the step consumes a full
/// fragment and caches the grown partial payload.
#[verifier::rlimit(100)]
#[verifier::spinoff_prover]
proof fn lemma_tail_step_more(
    max: int,
    entries: Seq<(u32, SpecEntry)>,
    csid: u32,
    timestamp: u32,
    msg_length: u32,
    msg_type_id: u8,
    msg_stream_id: u32,
    ext: bool,
    done: Seq<u8>,
    rest_p: Seq<u8>,
    suffix: Seq<u8>,
)
    requires
        1 <= max,
        MIN_CHUNK_STREAM_ID <= csid < CHUNK_STREAM_ID_LIMIT,
        done.len() + rest_p.len() == msg_length,
        rest_p.len() > max,
        ext == (timestamp >= EXTENDED_TIMESTAMP),
        assoc_find(entries, csid) == Some(
            SpecEntry { timestamp, msg_length, msg_type_id, msg_stream_id, ext, partial: done },
        ),
    ensures
        ({
            let bh_n = spec_basic_header(3, csid).len() as int;
            let mh_n: int = if ext {
                4
            } else {
                0
            };
            let input = spec_basic_header(3, csid) + ext_bytes(ext, timestamp) + spec_chunk_body(
                csid,
                ext,
                timestamp,
                rest_p,
                max,
            ) + suffix;
            let consumed = bh_n + mh_n + max;
            &&& spec_read_chunk_step(max, entries, input) == (SpecChunkStep::Step {
                consumed,
                entries: assoc_set(
                    entries,
                    csid,
                    SpecEntry {
                        timestamp,
                        msg_length,
                        msg_type_id,
                        msg_stream_id,
                        ext,
                        partial: done + rest_p.take(max),
                    },
                ),
                emitted: None,
            })
            &&& input.skip(consumed) == spec_basic_header(3, csid) + ext_bytes(ext, timestamp)
                + spec_chunk_body(csid, ext, timestamp, rest_p.skip(max), max) + suffix
            &&& 1 <= consumed <= input.len()
        }),
{
    let bh = spec_basic_header(3, csid);
    let eb = ext_bytes(ext, timestamp);
    let body = spec_chunk_body(csid, ext, timestamp, rest_p, max);
    let input = bh + eb + body + suffix;
    let tail = eb + body + suffix;
    assert(input =~= bh + tail);
    lemma_basic_header_round_trip(3, csid, tail);
    assert(input.skip(bh.len() as int) =~= tail);
    let prev = SpecEntry { timestamp, msg_length, msg_type_id, msg_stream_id, ext, partial: done };
    if ext {
        assert(tail.subrange(0, 4) =~= u32_to_be(timestamp));
    }
    let mh_n: int = if ext {
        4
    } else {
        0
    };
    lemma_fmt3_header_parse(prev, tail);
    lemma_step_characterize(
        max,
        entries,
        input,
        3,
        csid,
        bh.len() as int,
        timestamp,
        msg_length,
        msg_type_id,
        msg_stream_id,
        ext,
        mh_n,
    );
    let frag = rest_p.take(max);
    let nxt = spec_chunk_body(csid, ext, timestamp, rest_p.skip(max), max);
    assert(body == frag + spec_basic_header(3, csid) + ext_bytes(ext, timestamp) + nxt);
    let after_h = input.skip(bh.len() + mh_n);
    assert(after_h =~= body + suffix) by {
        assert(tail.skip(mh_n) =~= body + suffix);
        assert(input.skip(bh.len() as int).skip(mh_n) =~= input.skip(bh.len() + mh_n));
    }
    assert(input.subrange(bh.len() + mh_n, bh.len() + mh_n + max) =~= frag) by {
        assert(after_h.take(max) =~= frag);
        assert(input.subrange(bh.len() + mh_n, bh.len() + mh_n + max) =~= after_h.take(max));
    }
    assert(input.skip(bh.len() + mh_n + max) =~= spec_basic_header(3, csid) + ext_bytes(
        ext,
        timestamp,
    ) + nxt + suffix) by {
        assert(after_h.skip(max) =~= spec_basic_header(3, csid) + ext_bytes(ext, timestamp) + nxt
            + suffix);
        assert(input.skip(bh.len() + mh_n).skip(max) =~= input.skip(bh.len() + mh_n + max));
    }
}

/// Continuation chunks carrying the tail of a message are read back and
/// appended until the cached message completes.
proof fn lemma_decode_tail(
    max: int,
    entries: Seq<(u32, SpecEntry)>,
    csid: u32,
    timestamp: u32,
    msg_length: u32,
    msg_type_id: u8,
    msg_stream_id: u32,
    ext: bool,
    done: Seq<u8>,
    rest_p: Seq<u8>,
    suffix: Seq<u8>,
)
    requires
        1 <= max,
        MIN_CHUNK_STREAM_ID <= csid < CHUNK_STREAM_ID_LIMIT,
        done.len() + rest_p.len() == msg_length,
        1 <= rest_p.len(),
        ext == (timestamp >= EXTENDED_TIMESTAMP),
        assoc_find(entries, csid) == Some(
            SpecEntry { timestamp, msg_length, msg_type_id, msg_stream_id, ext, partial: done },
        ),
    ensures
        spec_read_message(
            max,
            entries,
            spec_basic_header(3, csid) + ext_bytes(ext, timestamp) + spec_chunk_body(
                csid,
                ext,
                timestamp,
                rest_p,
                max,
            ) + suffix,
        ) == (SpecReadOutcome::Msg {
            entries: assoc_set(
                entries,
                csid,
                SpecEntry {
                    timestamp,
                    msg_length,
                    msg_type_id,
                    msg_stream_id,
                    ext,
                    partial: Seq::<u8>::empty(),
                },
            ),
            rest: suffix,
            chunk: crate::chunk_decoder::SpecChunk {
                format: 3,
                csid,
                timestamp,
                msg_length,
                msg_type_id,
                msg_stream_id,
                ext,
                payload: done + rest_p,
            },
        }),
    decreases rest_p.len(),
{
    if rest_p.len() <= max {
        lemma_tail_step_last(
            max,
            entries,
            csid,
            timestamp,
            msg_length,
            msg_type_id,
            msg_stream_id,
            ext,
            done,
            rest_p,
            suffix,
        );
    } else {
        lemma_tail_step_more(
            max,
            entries,
            csid,
            timestamp,
            msg_length,
            msg_type_id,
            msg_stream_id,
            ext,
            done,
            rest_p,
            suffix,
        );
        let e2 = assoc_set(
            entries,
            csid,
            SpecEntry {
                timestamp,
                msg_length,
                msg_type_id,
                msg_stream_id,
                ext,
                partial: done + rest_p.take(max),
            },
        );
        lemma_assoc_find_set(
            entries,
            csid,
            SpecEntry {
                timestamp,
                msg_length,
                msg_type_id,
                msg_stream_id,
                ext,
                partial: done + rest_p.take(max),
            },
        );
        lemma_decode_tail(
            max,
            e2,
            csid,
            timestamp,
            msg_length,
            msg_type_id,
            msg_stream_id,
            ext,
            done + rest_p.take(max),
            rest_p.skip(max),
            suffix,
        );
        assert((done + rest_p.take(max)) + rest_p.skip(max) =~= done + rest_p);
        lemma_assoc_set_set(entries, csid);
    }
}

/// Setting a key twice keeps only the second value.
proof fn lemma_assoc_set_set(entries: Seq<(u32, SpecEntry)>, csid: u32)
    ensures
        forall|e1: SpecEntry, e2: SpecEntry| #[trigger] assoc_set(
            assoc_set(entries, csid, e1),
            csid,
            e2,
        ) == assoc_set(entries, csid, e2),
    decreases entries.len(),
{
    assert forall|e1: SpecEntry, e2: SpecEntry| #[trigger] assoc_set(
        assoc_set(entries, csid, e1),
        csid,
        e2,
    ) == assoc_set(entries, csid, e2) by {
        lemma_assoc_set_set_one(entries, csid, e1, e2);
    }
}

/// Setting a key twice keeps only the second value, for one pair of
/// values.
proof fn lemma_assoc_set_set_one(entries: Seq<(u32, SpecEntry)>, csid: u32, e1: SpecEntry, e2: SpecEntry)
    ensures
        assoc_set(assoc_set(entries, csid, e1), csid, e2) == assoc_set(entries, csid, e2),
    decreases entries.len(),
{
    if entries.len() == 0 {
        assert(assoc_set(assoc_set(entries, csid, e1), csid, e2) =~= assoc_set(entries, csid, e2));
    } else if entries[0].0 == csid {
        assert(assoc_set(entries, csid, e1)[0] == (csid, e1));
        assert(assoc_set(entries, csid, e1).skip(1) =~= entries.skip(1));
        assert(assoc_set(assoc_set(entries, csid, e1), csid, e2) =~= assoc_set(entries, csid, e2));
    } else {
        lemma_assoc_set_set_one(entries.skip(1), csid, e1, e2);
        assert(assoc_set(entries, csid, e1)[0] == entries[0]);
        assert(assoc_set(entries, csid, e1).skip(1) =~= assoc_set(entries.skip(1), csid, e1));
        assert(assoc_set(assoc_set(entries, csid, e1), csid, e2) =~= assoc_set(entries, csid, e2));
    }
}

/// Round trip: a message framed by the encoder at chunk size `cs` is read
/// back whole by a decoder at the same negotiated size, on any chunk stream
/// with no message in progress, with the same chunk stream id, timestamp,
/// message type, message stream id, and payload bytes, and with the 4-byte
/// timestamp extension exactly when the timestamp does not fit 3 bytes.
/// The first chunk of a fragmented message: the step consumes the full
/// header and one fragment of `cs` bytes and caches it.
#[verifier::rlimit(100)]
#[verifier::spinoff_prover]
proof fn lemma_first_step_more(
    cs: int,
    entries: Seq<(u32, SpecEntry)>,
    csid: u32,
    timestamp: u32,
    msg_type_id: u8,
    msg_stream_id: u32,
    payload: Seq<u8>,
    suffix: Seq<u8>,
)
    requires
        1 <= cs,
        MIN_CHUNK_STREAM_ID <= csid < CHUNK_STREAM_ID_LIMIT,
        cs < payload.len() < 0x1000000,
        stream_idle(entries, csid),
    ensures
        ({
            let ext = timestamp >= EXTENDED_TIMESTAMP;
            let bh_n = spec_basic_header(0, csid).len() as int;
            let mh_n = spec_message_header_type0(
                timestamp,
                payload.len() as u32,
                msg_type_id,
                msg_stream_id,
            ).len() as int;
            let input = spec_encode_chunk(csid, timestamp, msg_type_id, msg_stream_id, payload, cs)
                + suffix;
            let consumed = bh_n + mh_n + cs;
            &&& spec_read_chunk_step(cs, entries, input) == (SpecChunkStep::Step {
                consumed,
                entries: assoc_set(
                    entries,
                    csid,
                    SpecEntry {
                        timestamp,
                        msg_length: payload.len() as u32,
                        msg_type_id,
                        msg_stream_id,
                        ext,
                        partial: payload.take(cs),
                    },
                ),
                emitted: None,
            })
            &&& input.skip(consumed) == spec_basic_header(3, csid) + ext_bytes(ext, timestamp)
                + spec_chunk_body(csid, ext, timestamp, payload.skip(cs), cs) + suffix
            &&& 1 <= consumed <= input.len()
        }),
{
    let ext = timestamp >= EXTENDED_TIMESTAMP;
    let bh = spec_basic_header(0, csid);
    let mh = spec_message_header_type0(
        timestamp,
        payload.len() as u32,
        msg_type_id,
        msg_stream_id,
    );
    let body = spec_chunk_body(csid, ext, timestamp, payload, cs);
    let enc = spec_encode_chunk(csid, timestamp, msg_type_id, msg_stream_id, payload, cs);
    let input = enc + suffix;
    assert(input =~= bh + (mh + (body + suffix)));
    lemma_basic_header_round_trip(0, csid, mh + (body + suffix));
    assert(input.skip(bh.len() as int) =~= mh + (body + suffix));
    let prev = assoc_find(entries, csid);
    lemma_message_header_round_trip(
        prev,
        timestamp,
        payload.len() as u32,
        msg_type_id,
        msg_stream_id,
        body + suffix,
    );
    let mh_n = mh.len() as int;
    assert((mh + (body + suffix)).skip(mh_n) =~= body + suffix);
    lemma_step_characterize(
        cs,
        entries,
        input,
        0,
        csid,
        bh.len() as int,
        timestamp,
        payload.len() as u32,
        msg_type_id,
        msg_stream_id,
        ext,
        mh_n,
    );
    let partial = match prev {
        Some(p) => p.partial,
        None => Seq::<u8>::empty(),
    };
    assert(partial =~= Seq::<u8>::empty());
    let frag = payload.take(cs);
    let nxt = spec_chunk_body(csid, ext, timestamp, payload.skip(cs), cs);
    assert(body == frag + spec_basic_header(3, csid) + ext_bytes(ext, timestamp) + nxt);
    let after_h = input.skip(bh.len() + mh_n);
    assert(after_h =~= body + suffix) by {
        assert((mh + (body + suffix)).skip(mh_n) =~= body + suffix);
        assert(input.skip(bh.len() as int).skip(mh_n) =~= input.skip(bh.len() + mh_n));
    }
    assert(input.subrange(bh.len() + mh_n, bh.len() + mh_n + cs) =~= frag) by {
        assert(after_h.take(cs) =~= frag);
        assert(input.subrange(bh.len() + mh_n, bh.len() + mh_n + cs) =~= after_h.take(cs));
    }
    assert(partial + frag =~= frag);
    assert(input.skip(bh.len() + mh_n + cs) =~= spec_basic_header(3, csid) + ext_bytes(
        ext,
        timestamp,
    ) + nxt + suffix) by {
        assert(after_h.skip(cs) =~= spec_basic_header(3, csid) + ext_bytes(ext, timestamp) + nxt
            + suffix);
        assert(input.skip(bh.len() + mh_n).skip(cs) =~= input.skip(bh.len() + mh_n + cs));
    }
}

/// Round trip: a message framed by the encoder at chunk size `cs` is read
/// back whole by a decoder at the same negotiated size, on any chunk stream
/// with no message in progress, with the same chunk stream id, timestamp,
/// message type, message stream id, and payload bytes, and with the 4-byte
/// timestamp extension exactly when the timestamp does not fit 3 bytes.
pub proof fn lemma_chunk_round_trip(
    cs: int,
    entries: Seq<(u32, SpecEntry)>,
    csid: u32,
    timestamp: u32,
    msg_type_id: u8,
    msg_stream_id: u32,
    payload: Seq<u8>,
    suffix: Seq<u8>,
)
    requires
        1 <= cs,
        MIN_CHUNK_STREAM_ID <= csid < CHUNK_STREAM_ID_LIMIT,
        payload.len() < 0x1000000,
        stream_idle(entries, csid),
    ensures
        spec_read_message(
            cs,
            entries,
            spec_encode_chunk(csid, timestamp, msg_type_id, msg_stream_id, payload, cs) + suffix,
        ) matches SpecReadOutcome::Msg { entries: e2, rest, chunk } && rest == suffix
            && chunk.csid == csid && chunk.timestamp == timestamp && chunk.msg_type_id
            == msg_type_id && chunk.msg_stream_id == msg_stream_id && chunk.payload == payload
            && chunk.msg_length == payload.len() && chunk.ext == (timestamp
            >= EXTENDED_TIMESTAMP) && stream_idle(e2, csid),
{
    let ext = timestamp >= EXTENDED_TIMESTAMP;
    let msg_length = payload.len() as u32;
    if payload.len() <= cs {
        lemma_single_chunk_round_trip(
            cs,
            cs,
            entries,
            csid,
            timestamp,
            msg_type_id,
            msg_stream_id,
            payload,
            suffix,
        );
    } else {
        lemma_first_step_more(
            cs,
            entries,
            csid,
            timestamp,
            msg_type_id,
            msg_stream_id,
            payload,
            suffix,
        );
        let e2 = assoc_set(
            entries,
            csid,
            SpecEntry {
                timestamp,
                msg_length,
                msg_type_id,
                msg_stream_id,
                ext,
                partial: payload.take(cs),
            },
        );
        lemma_assoc_find_set(
            entries,
            csid,
            SpecEntry {
                timestamp,
                msg_length,
                msg_type_id,
                msg_stream_id,
                ext,
                partial: payload.take(cs),
            },
        );
        lemma_decode_tail(
            cs,
            e2,
            csid,
            timestamp,
            msg_length,
            msg_type_id,
            msg_stream_id,
            ext,
            payload.take(cs),
            payload.skip(cs),
            suffix,
        );
        assert(payload.take(cs) + payload.skip(cs) =~= payload);
        lemma_assoc_set_set(entries, csid);
        let entry_done = SpecEntry {
            timestamp,
            msg_length,
            msg_type_id,
            msg_stream_id,
            ext,
            partial: Seq::<u8>::empty(),
        };
        lemma_assoc_find_set(entries, csid, entry_done);
    }
}

/// Round trip across different chunk sizes: a message that fits a single
/// chunk on the writing side is read back whole by a decoder at any
/// negotiated size at least the payload length.
#[verifier::rlimit(100)]
#[verifier::spinoff_prover]
pub proof fn lemma_single_chunk_round_trip(
    cs: int,
    max: int,
    entries: Seq<(u32, SpecEntry)>,
    csid: u32,
    timestamp: u32,
    msg_type_id: u8,
    msg_stream_id: u32,
    payload: Seq<u8>,
    suffix: Seq<u8>,
)
    requires
        1 <= cs,
        payload.len() <= cs,
        payload.len() <= max,
        MIN_CHUNK_STREAM_ID <= csid < CHUNK_STREAM_ID_LIMIT,
        payload.len() < 0x1000000,
        stream_idle(entries, csid),
    ensures
        spec_read_message(
            max,
            entries,
            spec_encode_chunk(csid, timestamp, msg_type_id, msg_stream_id, payload, cs) + suffix,
        ) matches SpecReadOutcome::Msg { entries: e2, rest, chunk } && rest == suffix
            && chunk.csid == csid && chunk.timestamp == timestamp && chunk.msg_type_id
            == msg_type_id && chunk.msg_stream_id == msg_stream_id && chunk.payload == payload
            && chunk.msg_length == payload.len() && chunk.ext == (timestamp
            >= EXTENDED_TIMESTAMP) && stream_idle(e2, csid),
{
    let ext = timestamp >= EXTENDED_TIMESTAMP;
    let bh = spec_basic_header(0, csid);
    let mh = spec_message_header_type0(
        timestamp,
        payload.len() as u32,
        msg_type_id,
        msg_stream_id,
    );
    let body = spec_chunk_body(csid, ext, timestamp, payload, cs);
    let enc = spec_encode_chunk(csid, timestamp, msg_type_id, msg_stream_id, payload, cs);
    let input = enc + suffix;
    assert(input =~= bh + (mh + (body + suffix)));
    lemma_basic_header_round_trip(0, csid, mh + (body + suffix));
    assert(input.skip(bh.len() as int) =~= mh + (body + suffix));
    let prev = assoc_find(entries, csid);
    lemma_message_header_round_trip(
        prev,
        timestamp,
        payload.len() as u32,
        msg_type_id,
        msg_stream_id,
        body + suffix,
    );
    let mh_n = mh.len() as int;
    assert((mh + (body + suffix)).skip(mh_n) =~= body + suffix);
    let partial = match prev {
        Some(p) => p.partial,
        None => Seq::<u8>::empty(),
    };
    assert(partial =~= Seq::<u8>::empty());
    let msg_length = payload.len() as u32;
    let entry_done = SpecEntry {
        timestamp,
        msg_length,
        msg_type_id,
        msg_stream_id,
        ext,
        partial: Seq::<u8>::empty(),
    };
    lemma_step_characterize(
        max,
        entries,
        input,
        0,
        csid,
        bh.len() as int,
        timestamp,
        msg_length,
        msg_type_id,
        msg_stream_id,
        ext,
        mh_n,
    );
    assert(body == payload);
    let after_h = input.skip(bh.len() + mh_n);
    assert(after_h =~= body + suffix) by {
        assert((mh + (body + suffix)).skip(mh_n) =~= body + suffix);
        assert(input.skip(bh.len() as int).skip(mh_n) =~= input.skip(bh.len() + mh_n));
    }
    assert(input.subrange(bh.len() + mh_n, bh.len() + mh_n + payload.len() as int) =~= payload)
        by {
        assert(after_h.take(payload.len() as int) =~= payload);
        assert(input.subrange(bh.len() + mh_n, bh.len() + mh_n + payload.len() as int)
            =~= after_h.take(payload.len() as int));
    }
    assert(partial + payload =~= payload);
    assert(input.skip(bh.len() + mh_n + payload.len() as int) =~= suffix) by {
        assert(after_h.skip(payload.len() as int) =~= suffix);
        assert(input.skip(bh.len() + mh_n).skip(payload.len() as int) =~= input.skip(
            bh.len() + mh_n + payload.len() as int,
        ));
    }
    lemma_assoc_find_set(entries, csid, entry_done);
}

} // verus!
