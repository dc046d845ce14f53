//! The chunk decoder: reconstructs logical messages from a stream of
//! header-compressed chunks.
//!
//! The decoder keeps one entry per chunk stream: the last resolved message
//! header, whether its timestamp was extended, and the partial payload of a
//! message still being reassembled. Compressed headers inherit their
//! omitted fields from that entry.

use vstd::prelude::*;

use crate::bytes_util::be16;
use crate::bytes_util::be24;
use crate::bytes_util::be32;
use crate::bytes_util::le32;
use crate::bytes_util::get_be_u16;
use crate::bytes_util::get_be_u24;
use crate::bytes_util::get_be_u32;
use crate::bytes_util::get_le_u32;
use crate::bytes_util::push_slice_range;
use crate::chunk::Chunk;
use crate::chunk::ChunkBasicHeader;
use crate::chunk::ChunkMessageHeader;
use crate::chunk::ChunkType;
use crate::chunk::EXTENDED_TIMESTAMP;
use crate::chunk::INIT_CHUNK_SIZE;
use crate::chunk::MAX_CHUNK_SIZE;

verus! {

broadcast use Seq::add_empty_left, Seq::add_empty_right;

/// An error from reading chunks.
#[derive(Debug, Clone, Copy, PartialEq, Eq, Structural)]
pub enum ChunkDecodeError {
    /// A compressed header named a chunk stream with no prior full header.
    MissingPreviousChunkHeader(u32),
}

/// The cached state of one chunk stream, over mathematical sequences.
pub struct SpecEntry {
    /// The resolved timestamp of the last message header.
    pub timestamp: u32,
    /// The message length of the last message header.
    pub msg_length: u32,
    /// The message type byte of the last message header.
    pub msg_type_id: u8,
    /// The message stream id of the last message header.
    pub msg_stream_id: u32,
    /// Whether the last timestamp was carried in the 4-byte extension.
    pub ext: bool,
    /// The payload collected so far of a message in progress.
    pub partial: Seq<u8>,
}

/// One reassembled chunk, over mathematical sequences.
pub struct SpecChunk {
    /// The format bits of the chunk that completed the message.
    pub format: u8,
    /// The chunk stream id.
    pub csid: u32,
    /// The resolved timestamp.
    pub timestamp: u32,
    /// The declared message length.
    pub msg_length: u32,
    /// The message type byte.
    pub msg_type_id: u8,
    /// The message stream id.
    pub msg_stream_id: u32,
    /// Whether the timestamp was carried in the 4-byte extension.
    pub ext: bool,
    /// The reassembled payload.
    pub payload: Seq<u8>,
}

/// The first entry under a chunk stream id, when there is one.
pub open spec fn assoc_find(entries: Seq<(u32, SpecEntry)>, csid: u32) -> Option<SpecEntry>
    decreases entries.len(),
{
    if entries.len() == 0 {
        None
    } else if entries[0].0 == csid {
        Some(entries[0].1)
    } else {
        assoc_find(entries.skip(1), csid)
    }
}

/// The entry list with the first entry under `csid` replaced, or a new
/// entry appended when there was none.
pub open spec fn assoc_set(entries: Seq<(u32, SpecEntry)>, csid: u32, e: SpecEntry) -> Seq<
    (u32, SpecEntry),
>
    decreases entries.len(),
{
    if entries.len() == 0 {
        seq![(csid, e)]
    } else if entries[0].0 == csid {
        seq![(csid, e)] + entries.skip(1)
    } else {
        seq![entries[0]] + assoc_set(entries.skip(1), csid, e)
    }
}

/// A 32-bit timestamp advanced by a delta, wrapping around.
pub open spec fn wrap_add_u32(a: u32, b: int) -> u32 {
    ((a + b) % 0x100000000) as u32
}

/// The outcome of parsing one basic header: the format bits, the chunk
/// stream id, and the bytes consumed; `None` when more bytes are needed.
pub open spec fn spec_parse_basic_header(input: Seq<u8>) -> Option<(u8, u32, int)> {
    if input.len() < 1 {
        None
    } else {
        let fmt = (input[0] / 64) as u8;
        let id0 = input[0] % 64;
        if id0 == 0 {
            if input.len() < 2 {
                None
            } else {
                Some((fmt, (input[1] + 64) as u32, 2))
            }
        } else if id0 == 1 {
            if input.len() < 3 {
                None
            } else {
                Some((fmt, (be16(input.subrange(1, 3)) + 64) as u32, 3))
            }
        } else {
            Some((fmt, id0 as u32, 1))
        }
    }
}

/// The outcome of parsing one message header.
pub enum SpecHeaderStep {
    /// More bytes are needed.
    NeedMore,
    /// The header inherits from a chunk stream that has no cached header.
    MissingPrev,
    /// A resolved header and the bytes it took.
    Parsed {
        /// The resolved timestamp.
        timestamp: u32,
        /// The message length.
        msg_length: u32,
        /// The message type byte.
        msg_type_id: u8,
        /// The message stream id.
        msg_stream_id: u32,
        /// Whether a 4-byte extension carried the timestamp.
        ext: bool,
        /// The bytes the header took.
        consumed: int,
    },
}

/// Parses the message header for format `fmt`, inheriting omitted fields
/// from `prev`; `input` starts after the basic header.
#[verifier::opaque]
pub open spec fn spec_parse_message_header(
    fmt: u8,
    prev: Option<SpecEntry>,
    input: Seq<u8>,
) -> SpecHeaderStep {
    if fmt == 0 {
        if input.len() < 11 {
            SpecHeaderStep::NeedMore
        } else {
            let ts24 = be24(input.subrange(0, 3));
            let msg_length = be24(input.subrange(3, 6)) as u32;
            let msg_type_id = input[6];
            let msg_stream_id = le32(input.subrange(7, 11)) as u32;
            if ts24 == EXTENDED_TIMESTAMP {
                if input.len() < 15 {
                    SpecHeaderStep::NeedMore
                } else {
                    SpecHeaderStep::Parsed {
                        timestamp: be32(input.subrange(11, 15)) as u32,
                        msg_length,
                        msg_type_id,
                        msg_stream_id,
                        ext: true,
                        consumed: 15,
                    }
                }
            } else {
                SpecHeaderStep::Parsed {
                    timestamp: ts24 as u32,
                    msg_length,
                    msg_type_id,
                    msg_stream_id,
                    ext: false,
                    consumed: 11,
                }
            }
        }
    } else if fmt == 1 {
        match prev {
            None => SpecHeaderStep::MissingPrev,
            Some(p) => {
                if input.len() < 7 {
                    SpecHeaderStep::NeedMore
                } else {
                    let d24 = be24(input.subrange(0, 3));
                    let msg_length = be24(input.subrange(3, 6)) as u32;
                    let msg_type_id = input[6];
                    if d24 == EXTENDED_TIMESTAMP {
                        if input.len() < 11 {
                            SpecHeaderStep::NeedMore
                        } else {
                            SpecHeaderStep::Parsed {
                                timestamp: wrap_add_u32(p.timestamp, be32(input.subrange(7, 11))),
                                msg_length,
                                msg_type_id,
                                msg_stream_id: p.msg_stream_id,
                                ext: true,
                                consumed: 11,
                            }
                        }
                    } else {
                        SpecHeaderStep::Parsed {
                            timestamp: wrap_add_u32(p.timestamp, d24),
                            msg_length,
                            msg_type_id,
                            msg_stream_id: p.msg_stream_id,
                            ext: false,
                            consumed: 7,
                        }
                    }
                }
            },
        }
    } else if fmt == 2 {
        match prev {
            None => SpecHeaderStep::MissingPrev,
            Some(p) => {
                if input.len() < 3 {
                    SpecHeaderStep::NeedMore
                } else {
                    let d24 = be24(input.subrange(0, 3));
                    if d24 == EXTENDED_TIMESTAMP {
                        if input.len() < 7 {
                            SpecHeaderStep::NeedMore
                        } else {
                            SpecHeaderStep::Parsed {
                                timestamp: wrap_add_u32(p.timestamp, be32(input.subrange(3, 7))),
                                msg_length: p.msg_length,
                                msg_type_id: p.msg_type_id,
                                msg_stream_id: p.msg_stream_id,
                                ext: true,
                                consumed: 7,
                            }
                        }
                    } else {
                        SpecHeaderStep::Parsed {
                            timestamp: wrap_add_u32(p.timestamp, d24),
                            msg_length: p.msg_length,
                            msg_type_id: p.msg_type_id,
                            msg_stream_id: p.msg_stream_id,
                            ext: false,
                            consumed: 3,
                        }
                    }
                }
            },
        }
    } else {
        match prev {
            None => SpecHeaderStep::MissingPrev,
            Some(p) => {
                if p.ext {
                    if input.len() < 4 {
                        SpecHeaderStep::NeedMore
                    } else {
                        SpecHeaderStep::Parsed {
                            timestamp: be32(input.subrange(0, 4)) as u32,
                            msg_length: p.msg_length,
                            msg_type_id: p.msg_type_id,
                            msg_stream_id: p.msg_stream_id,
                            ext: true,
                            consumed: 4,
                        }
                    }
                } else {
                    SpecHeaderStep::Parsed {
                        timestamp: p.timestamp,
                        msg_length: p.msg_length,
                        msg_type_id: p.msg_type_id,
                        msg_stream_id: p.msg_stream_id,
                        ext: false,
                        consumed: 0,
                    }
                }
            },
        }
    }
}

/// The outcome of one attempt to read a chunk from the front of the input.
pub enum SpecChunkStep {
    /// More bytes are needed; nothing was consumed.
    NeedMore,
    /// The input is not acceptable.
    Failed(ChunkDecodeError),
    /// One chunk was consumed.
    Step {
        /// The bytes consumed.
        consumed: int,
        /// The entry list afterwards.
        entries: Seq<(u32, SpecEntry)>,
        /// The completed message, when the chunk completed one.
        emitted: Option<SpecChunk>,
    },
}

/// Reads one chunk from the front of `input` against the cached entries:
/// parses its headers, takes one payload fragment of at most
/// `min(remaining, max)` bytes, and either stores the grown partial payload
/// or emits the completed message.
#[verifier::opaque]
pub open spec fn spec_read_chunk_step(
    max: int,
    entries: Seq<(u32, SpecEntry)>,
    input: Seq<u8>,
) -> SpecChunkStep {
    match spec_parse_basic_header(input) {
        None => SpecChunkStep::NeedMore,
        Some((fmt, csid, bh_n)) => {
            let prev = assoc_find(entries, csid);
            match spec_parse_message_header(fmt, prev, input.skip(bh_n)) {
                SpecHeaderStep::NeedMore => SpecChunkStep::NeedMore,
                SpecHeaderStep::MissingPrev => SpecChunkStep::Failed(
                    ChunkDecodeError::MissingPreviousChunkHeader(csid),
                ),
                SpecHeaderStep::Parsed {
                    timestamp,
                    msg_length,
                    msg_type_id,
                    msg_stream_id,
                    ext,
                    consumed: mh_n,
                } => {
                    let partial = match prev {
                        Some(p) => p.partial,
                        None => Seq::<u8>::empty(),
                    };
                    let remaining = if msg_length > partial.len() {
                        msg_length - partial.len()
                    } else {
                        0
                    };
                    let take = if remaining <= max {
                        remaining
                    } else {
                        max
                    };
                    if input.len() < bh_n + mh_n + take {
                        SpecChunkStep::NeedMore
                    } else {
                        let fragment = input.subrange(bh_n + mh_n, bh_n + mh_n + take);
                        let new_partial = partial + fragment;
                        if new_partial.len() >= msg_length {
                            SpecChunkStep::Step {
                                consumed: bh_n + mh_n + take,
                                entries: assoc_set(
                                    entries,
                                    csid,
                                    SpecEntry {
                                        timestamp,
                                        msg_length,
                                        msg_type_id,
                                        msg_stream_id,
                                        ext,
                                        partial: Seq::<u8>::empty(),
                                    },
                                ),
                                emitted: Some(
                                    SpecChunk {
                                        format: fmt,
                                        csid,
                                        timestamp,
                                        msg_length,
                                        msg_type_id,
                                        msg_stream_id,
                                        ext,
                                        payload: new_partial,
                                    },
                                ),
                            }
                        } else {
                            SpecChunkStep::Step {
                                consumed: bh_n + mh_n + take,
                                entries: assoc_set(
                                    entries,
                                    csid,
                                    SpecEntry {
                                        timestamp,
                                        msg_length,
                                        msg_type_id,
                                        msg_stream_id,
                                        ext,
                                        partial: new_partial,
                                    },
                                ),
                                emitted: None,
                            }
                        }
                    }
                },
            }
        },
    }
}

/// The outcome of reading chunks until a message completes.
pub enum SpecReadOutcome {
    /// More bytes are needed; fragments read so far are cached.
    NeedMore {
        /// The entry list afterwards.
        entries: Seq<(u32, SpecEntry)>,
        /// The input left unconsumed.
        rest: Seq<u8>,
    },
    /// The input is not acceptable.
    Failed {
        /// The error.
        err: ChunkDecodeError,
    },
    /// A message completed.
    Msg {
        /// The entry list afterwards.
        entries: Seq<(u32, SpecEntry)>,
        /// The input left unconsumed.
        rest: Seq<u8>,
        /// The completed message.
        chunk: SpecChunk,
    },
}

/// Reads chunks from the front of `input` until one completes a message,
/// the input runs short, or the input is rejected.
pub open spec fn spec_read_message(
    max: int,
    entries: Seq<(u32, SpecEntry)>,
    input: Seq<u8>,
) -> SpecReadOutcome
    decreases input.len(),
{
    match spec_read_chunk_step(max, entries, input) {
        SpecChunkStep::NeedMore => SpecReadOutcome::NeedMore { entries, rest: input },
        SpecChunkStep::Failed(e) => SpecReadOutcome::Failed { err: e },
        SpecChunkStep::Step { consumed, entries: e2, emitted } => {
            if 1 <= consumed <= input.len() {
                let rest = input.skip(consumed);
                match emitted {
                    Some(c) => SpecReadOutcome::Msg { entries: e2, rest, chunk: c },
                    None => spec_read_message(max, e2, rest),
                }
            } else {
                SpecReadOutcome::NeedMore { entries, rest: input }
            }
        },
    }
}

/// Reading a message consumes at least one byte; falling short consumes at
/// most the input.
pub proof fn lemma_read_message_progress(
    max: int,
    entries: Seq<(u32, SpecEntry)>,
    input: Seq<u8>,
)
    ensures
        spec_read_message(max, entries, input) matches SpecReadOutcome::Msg { rest, .. }
            ==> rest.len() < input.len(),
        spec_read_message(max, entries, input) matches SpecReadOutcome::NeedMore { rest, .. }
            ==> rest.len() <= input.len(),
    decreases input.len(),
{
    match spec_read_chunk_step(max, entries, input) {
        SpecChunkStep::NeedMore => {},
        SpecChunkStep::Failed(_) => {},
        SpecChunkStep::Step { consumed, entries: e2, emitted } => {
            if 1 <= consumed <= input.len() {
                match emitted {
                    Some(_) => {},
                    None => {
                        lemma_read_message_progress(max, e2, input.skip(consumed));
                    },
                }
            }
        },
    }
}

/// The cached state of one chunk stream.
#[derive(Debug, Clone)]
pub struct ChunkStreamEntry {
    /// The chunk stream id this entry belongs to.
    pub csid: u32,
    /// The resolved timestamp of the last message header.
    pub timestamp: u32,
    /// The message length of the last message header.
    pub msg_length: u32,
    /// The message type byte of the last message header.
    pub msg_type_id: u8,
    /// The message stream id of the last message header.
    pub msg_stream_id: u32,
    /// Whether the last timestamp was carried in the 4-byte extension.
    pub ext: bool,
    /// The payload collected so far of a message in progress.
    pub partial: Vec<u8>,
}

impl View for ChunkStreamEntry {
    type V = (u32, SpecEntry);

    open spec fn view(&self) -> (u32, SpecEntry) {
        (
            self.csid,
            SpecEntry {
                timestamp: self.timestamp,
                msg_length: self.msg_length,
                msg_type_id: self.msg_type_id,
                msg_stream_id: self.msg_stream_id,
                ext: self.ext,
                partial: self.partial@,
            },
        )
    }
}

/// The view of an entry vector: each entry's view, in order.
pub open spec fn entries_view(entries: Seq<ChunkStreamEntry>) -> Seq<(u32, SpecEntry)> {
    Seq::new(entries.len(), |i: int| entries[i]@)
}

/// Reconstructs logical messages from buffered chunk bytes.
#[derive(Debug)]
pub struct ChunkDecoder {
    /// The negotiated chunk size fragments are read at.
    pub max_chunk_size: usize,
    /// The per-chunk-stream cache.
    pub entries: Vec<ChunkStreamEntry>,
}

impl Default for ChunkDecoder {
    /// A decoder at the initial chunk size with an empty cache.
    fn default() -> (r: Self)
        ensures
            r.max_chunk_size == INIT_CHUNK_SIZE,
            entries_view(r.entries@) =~= Seq::<(u32, SpecEntry)>::empty(),
    {
        ChunkDecoder { max_chunk_size: INIT_CHUNK_SIZE, entries: Vec::new() }
    }
}

impl ChunkDecoder {
    /// Creates a decoder at the initial chunk size with an empty cache.
    pub fn new() -> (r: Self)
        ensures
            r.max_chunk_size == INIT_CHUNK_SIZE,
            entries_view(r.entries@) =~= Seq::<(u32, SpecEntry)>::empty(),
    {
        ChunkDecoder { max_chunk_size: INIT_CHUNK_SIZE, entries: Vec::new() }
    }

    /// Adopts a peer-requested chunk size when it is within the hard cap;
    /// reports whether it was accepted.
    pub fn update_max_chunk_size(&mut self, chunk_size: usize) -> (r: bool)
        ensures
            r == (chunk_size <= MAX_CHUNK_SIZE),
            chunk_size <= MAX_CHUNK_SIZE ==> final(self).max_chunk_size == chunk_size,
            chunk_size > MAX_CHUNK_SIZE ==> final(self).max_chunk_size == old(
                self,
            ).max_chunk_size,
            final(self).entries == old(self).entries,
    {
        if chunk_size > MAX_CHUNK_SIZE {
            false
        } else {
            self.max_chunk_size = chunk_size;
            true
        }
    }

    /// Finds the cache index of a chunk stream id.
    fn find_entry(&self, csid: u32) -> (r: Option<usize>)
        ensures
            match r {
                Some(i) => i < self.entries@.len() && self.entries@[i as int]@.0 == csid
                    && assoc_find(entries_view(self.entries@), csid) == Some(
                    self.entries@[i as int]@.1,
                ) && (forall|j: int| 0 <= j < i ==> entries_view(self.entries@)[j].0 != csid),
                None => assoc_find(entries_view(self.entries@), csid) is None,
            },
    {
        let ghost eview = entries_view(self.entries@);
        let mut i: usize = 0;
        proof {
            assert(eview.skip(0) =~= eview);
        }
        loop
            invariant
                i <= self.entries@.len(),
                eview == entries_view(self.entries@),
                assoc_find(eview, csid) == assoc_find(eview.skip(i as int), csid),
                forall|j: int| 0 <= j < i ==> eview[j].0 != csid,
            decreases self.entries@.len() - i,
        {
            if i >= self.entries.len() {
                proof {
                    assert(eview.skip(i as int) =~= Seq::<(u32, SpecEntry)>::empty());
                }
                return None;
            }
            proof {
                assert(eview.skip(i as int)[0] == eview[i as int]);
            }
            if self.entries[i].csid == csid {
                return Some(i);
            }
            proof {
                assert(eview.skip(i as int).skip(1) =~= eview.skip(i + 1));
            }
            i = i + 1;
        }
    }
}

/// An exec chunk carries the same fields as a spec chunk.
pub open spec fn chunk_matches(chunk: Chunk, c: SpecChunk) -> bool {
    &&& chunk.basic_header.format.spec_u8() == c.format
    &&& chunk.basic_header.chunk_stream_id == c.csid
    &&& chunk.message_header.timestamp == c.timestamp
    &&& chunk.message_header.msg_length == c.msg_length
    &&& chunk.message_header.msg_type_id == c.msg_type_id
    &&& chunk.message_header.msg_stream_id == c.msg_stream_id
    &&& chunk.message_header.was_extended_timestamp == c.ext
    &&& chunk.payload@ == c.payload
}

/// What one attempt to read a chunk did.
enum FragmentOutcome {
    /// More bytes are needed; nothing was consumed.
    NeedMore,
    /// A chunk was read and its fragment cached; the bytes it took.
    Stored(usize),
    /// A chunk was read and completed a message; the bytes it took and the
    /// message.
    Complete(usize, Chunk),
}

impl ChunkDecoder {
    /// Writes an entry back into the cache: replacing the found index, or
    /// appending when the chunk stream is new.
    fn store_entry(&mut self, idx: Option<usize>, entry: ChunkStreamEntry)
        requires
            match idx {
                Some(i) => i < old(self).entries@.len() && entries_view(old(self).entries@)[
                    i as int
                ].0 == entry@.0 && (forall|j: int|
                    0 <= j < i ==> entries_view(old(self).entries@)[j].0 != entry@.0),
                None => assoc_find(entries_view(old(self).entries@), entry@.0) is None,
            },
        ensures
            final(self).max_chunk_size == old(self).max_chunk_size,
            entries_view(final(self).entries@) == assoc_set(
                entries_view(old(self).entries@),
                entry@.0,
                entry@.1,
            ),
    {
        let ghost e0 = entries_view(self.entries@);
        let ghost ev = entry@;
        match idx {
            Some(i) => {
                self.entries.set(i, entry);
                proof {
                    lemma_assoc_set_update(e0, ev.0, ev.1, i as int);
                    assert(entries_view(self.entries@) =~= e0.update(i as int, (ev.0, ev.1)));
                    assert((ev.0, ev.1) == ev);
                }
            },
            None => {
                self.entries.push(entry);
                proof {
                    lemma_assoc_set_append(e0, ev.0, ev.1);
                    assert(entries_view(self.entries@) =~= e0.push((ev.0, ev.1)));
                    assert((ev.0, ev.1) == ev);
                }
            },
        }
    }

    /// Attempts to read one chunk from the front of `buf`, caching or
    /// completing the message it belongs to. Consumes nothing from `buf`;
    /// the outcome reports the bytes the chunk took.
    #[verifier::rlimit(100)]
    #[verifier::spinoff_prover]
    fn read_fragment(&mut self, buf: &Vec<u8>) -> (r: Result<FragmentOutcome, ChunkDecodeError>)
        ensures
            final(self).max_chunk_size == old(self).max_chunk_size,
            ({
                let step = spec_read_chunk_step(
                    old(self).max_chunk_size as int,
                    entries_view(old(self).entries@),
                    buf@,
                );
                match r {
                    Ok(FragmentOutcome::NeedMore) => step is NeedMore && *final(self) == *old(
                        self,
                    ),
                    Ok(FragmentOutcome::Stored(n)) => step matches SpecChunkStep::Step {
                        consumed,
                        entries,
                        emitted: None,
                    } && n == consumed && entries_view(final(self).entries@) == entries && 1 <= n
                        <= buf@.len(),
                    Ok(FragmentOutcome::Complete(n, chunk)) => step matches SpecChunkStep::Step {
                        consumed,
                        entries,
                        emitted: Some(c),
                    } && n == consumed && entries_view(final(self).entries@) == entries && 1 <= n
                        <= buf@.len() && chunk_matches(chunk, c),
                    Err(e) => step == SpecChunkStep::Failed(e) && *final(self) == *old(self),
                }
            }),
    {
        proof {
            reveal(spec_parse_message_header);
            reveal(spec_read_chunk_step);
        }
        let ghost s = buf@;
        let ghost e0 = entries_view(self.entries@);
        let ghost max = self.max_chunk_size as int;
        // Basic header.
        if buf.len() < 1 {
            return Ok(FragmentOutcome::NeedMore);
        }
        let b0 = buf[0];
        let fmt = b0 / 64;
        let id0 = b0 % 64;
        let csid: u32;
        let bh_n: usize;
        if id0 == 0 {
            if buf.len() < 2 {
                return Ok(FragmentOutcome::NeedMore);
            }
            csid = buf[1] as u32 + 64;
            bh_n = 2;
        } else if id0 == 1 {
            if buf.len() < 3 {
                return Ok(FragmentOutcome::NeedMore);
            }
            proof {
                assert(s.subrange(1, 3) =~= buf@.subrange(1, 3));
            }
            csid = get_be_u16(buf, 1) as u32 + 64;
            bh_n = 3;
        } else {
            csid = id0 as u32;
            bh_n = 1;
        }
        proof {
            assert(spec_parse_basic_header(s) == Some((fmt, csid, bh_n as int)));
        }
        // Message header, inheriting from the cache.
        let idx = self.find_entry(csid);
        let ghost prev = assoc_find(e0, csid);
        let ghost h = s.skip(bh_n as int);
        if idx.is_none() && fmt != 0 {
            return Err(ChunkDecodeError::MissingPreviousChunkHeader(csid));
        }
        let timestamp: u32;
        let msg_length: u32;
        let msg_type_id: u8;
        let msg_stream_id: u32;
        let ext: bool;
        let mh_n: usize;
        if fmt == 0 {
            if buf.len() - bh_n < 11 {
                return Ok(FragmentOutcome::NeedMore);
            }
            proof {
                assert(h.subrange(0, 3) =~= buf@.subrange(bh_n as int, bh_n + 3));
                assert(h.subrange(3, 6) =~= buf@.subrange(bh_n + 3, bh_n + 6));
                assert(h[6] == buf@[bh_n + 6]);
                assert(h.subrange(7, 11) =~= buf@.subrange(bh_n + 7, bh_n + 11));
            }
            let ts24 = get_be_u24(buf, bh_n);
            msg_length = get_be_u24(buf, bh_n + 3);
            msg_type_id = buf[bh_n + 6];
            msg_stream_id = get_le_u32(buf, bh_n + 7);
            if ts24 == EXTENDED_TIMESTAMP {
                if buf.len() - bh_n < 15 {
                    return Ok(FragmentOutcome::NeedMore);
                }
                proof {
                    assert(h.subrange(11, 15) =~= buf@.subrange(bh_n + 11, bh_n + 15));
                }
                timestamp = get_be_u32(buf, bh_n + 11);
                ext = true;
                mh_n = 15;
            } else {
                timestamp = ts24;
                ext = false;
                mh_n = 11;
            }
        } else {
            let i = idx.unwrap();
            let p_timestamp = self.entries[i].timestamp;
            let p_msg_length = self.entries[i].msg_length;
            let p_msg_type_id = self.entries[i].msg_type_id;
            let p_msg_stream_id = self.entries[i].msg_stream_id;
            let p_ext = self.entries[i].ext;
            proof {
                assert(prev == Some(self.entries@[i as int]@.1));
            }
            if fmt == 1 {
                if buf.len() - bh_n < 7 {
                    return Ok(FragmentOutcome::NeedMore);
                }
                proof {
                    assert(h.subrange(0, 3) =~= buf@.subrange(bh_n as int, bh_n + 3));
                    assert(h.subrange(3, 6) =~= buf@.subrange(bh_n + 3, bh_n + 6));
                    assert(h[6] == buf@[bh_n + 6]);
                }
                let d24 = get_be_u24(buf, bh_n);
                msg_length = get_be_u24(buf, bh_n + 3);
                msg_type_id = buf[bh_n + 6];
                msg_stream_id = p_msg_stream_id;
                if d24 == EXTENDED_TIMESTAMP {
                    if buf.len() - bh_n < 11 {
                        return Ok(FragmentOutcome::NeedMore);
                    }
                    proof {
                        assert(h.subrange(7, 11) =~= buf@.subrange(bh_n + 7, bh_n + 11));
                    }
                    let d32 = get_be_u32(buf, bh_n + 7);
                    timestamp = (((p_timestamp as u64) + (d32 as u64)) % 0x100000000) as u32;
                    ext = true;
                    mh_n = 11;
                } else {
                    timestamp = (((p_timestamp as u64) + (d24 as u64)) % 0x100000000) as u32;
                    ext = false;
                    mh_n = 7;
                }
            } else if fmt == 2 {
                if buf.len() - bh_n < 3 {
                    return Ok(FragmentOutcome::NeedMore);
                }
                proof {
                    assert(h.subrange(0, 3) =~= buf@.subrange(bh_n as int, bh_n + 3));
                }
                let d24 = get_be_u24(buf, bh_n);
                msg_length = p_msg_length;
                msg_type_id = p_msg_type_id;
                msg_stream_id = p_msg_stream_id;
                if d24 == EXTENDED_TIMESTAMP {
                    if buf.len() - bh_n < 7 {
                        return Ok(FragmentOutcome::NeedMore);
                    }
                    proof {
                        assert(h.subrange(3, 7) =~= buf@.subrange(bh_n + 3, bh_n + 7));
                    }
                    let d32 = get_be_u32(buf, bh_n + 3);
                    timestamp = (((p_timestamp as u64) + (d32 as u64)) % 0x100000000) as u32;
                    ext = true;
                    mh_n = 7;
                } else {
                    timestamp = (((p_timestamp as u64) + (d24 as u64)) % 0x100000000) as u32;
                    ext = false;
                    mh_n = 3;
                }
            } else {
                msg_length = p_msg_length;
                msg_type_id = p_msg_type_id;
                msg_stream_id = p_msg_stream_id;
                if p_ext {
                    if buf.len() - bh_n < 4 {
                        return Ok(FragmentOutcome::NeedMore);
                    }
                    proof {
                        assert(h.subrange(0, 4) =~= buf@.subrange(bh_n as int, bh_n + 4));
                    }
                    timestamp = get_be_u32(buf, bh_n);
                    ext = true;
                    mh_n = 4;
                } else {
                    timestamp = p_timestamp;
                    ext = false;
                    mh_n = 0;
                }
            }
        }
        proof {
            assert(spec_parse_message_header(fmt, prev, h) == SpecHeaderStep::Parsed {
                timestamp,
                msg_length,
                msg_type_id,
                msg_stream_id,
                ext,
                consumed: mh_n as int,
            });
        }
        // Payload fragment.
        let partial_len: usize = match idx {
            Some(i) => self.entries[i].partial.len(),
            None => 0,
        };
        let remaining: usize = if msg_length as usize > partial_len {
            msg_length as usize - partial_len
        } else {
            0
        };
        let take: usize = if remaining <= self.max_chunk_size {
            remaining
        } else {
            self.max_chunk_size
        };
        if buf.len() - bh_n - mh_n < take {
            return Ok(FragmentOutcome::NeedMore);
        }
        let mut new_partial: Vec<u8> = Vec::new();
        match idx {
            Some(i) => {
                let plen = self.entries[i].partial.len();
                push_slice_range(&mut new_partial, &self.entries[i].partial, 0, plen);
                proof {
                    assert(self.entries@[i as int].partial@.subrange(
                        0,
                        self.entries@[i as int].partial@.len() as int,
                    ) =~= self.entries@[i as int].partial@);
                }
            },
            None => {},
        }
        push_slice_range(&mut new_partial, buf, bh_n + mh_n, bh_n + mh_n + take);
        let ghost spec_partial = match prev {
            Some(p) => p.partial,
            None => Seq::<u8>::empty(),
        };
        proof {
            assert(new_partial@ =~= spec_partial + s.subrange(
                bh_n + mh_n,
                bh_n + mh_n + take as int,
            ));
        }
        let consumed = bh_n + mh_n + take;
        let completed = new_partial.len() >= msg_length as usize;
        let format = if fmt == 0 {
            ChunkType::Type0
        } else if fmt == 1 {
            ChunkType::Type1
        } else if fmt == 2 {
            ChunkType::Type2
        } else {
            ChunkType::Type3
        };
        if completed {
            let entry = ChunkStreamEntry {
                csid,
                timestamp,
                msg_length,
                msg_type_id,
                msg_stream_id,
                ext,
                partial: Vec::new(),
            };
            self.store_entry(idx, entry);
            let chunk = Chunk {
                basic_header: ChunkBasicHeader { format, chunk_stream_id: csid },
                message_header: ChunkMessageHeader {
                    timestamp,
                    msg_length,
                    msg_type_id,
                    msg_stream_id,
                    was_extended_timestamp: ext,
                },
                payload: new_partial,
            };
            Ok(FragmentOutcome::Complete(consumed, chunk))
        } else {
            let entry = ChunkStreamEntry {
                csid,
                timestamp,
                msg_length,
                msg_type_id,
                msg_stream_id,
                ext,
                partial: new_partial,
            };
            self.store_entry(idx, entry);
            Ok(FragmentOutcome::Stored(consumed))
        }
    }

    /// Attempts to read one complete message from the front of `buf`.
    /// Consumed bytes are removed from `buf`; `Ok(None)` asks the caller to
    /// buffer more input and try again.
    pub fn read_chunk(&mut self, buf: &mut Vec<u8>) -> (r: Result<Option<Chunk>, ChunkDecodeError>)
        ensures
            final(self).max_chunk_size == old(self).max_chunk_size,
            ({
                let outcome = spec_read_message(
                    old(self).max_chunk_size as int,
                    entries_view(old(self).entries@),
                    old(buf)@,
                );
                match r {
                    Ok(None) => outcome matches SpecReadOutcome::NeedMore { entries, rest }
                        && entries_view(final(self).entries@) == entries && final(buf)@ == rest,
                    Ok(Some(chunk)) => outcome matches SpecReadOutcome::Msg {
                        entries,
                        rest,
                        chunk: c,
                    } && entries_view(final(self).entries@) == entries && final(buf)@ == rest
                        && chunk_matches(chunk, c),
                    Err(e) => outcome == (SpecReadOutcome::Failed { err: e }),
                }
            }),
    {
        loop
            invariant
                self.max_chunk_size == old(self).max_chunk_size,
                spec_read_message(
                    self.max_chunk_size as int,
                    entries_view(self.entries@),
                    buf@,
                ) == spec_read_message(
                    old(self).max_chunk_size as int,
                    entries_view(old(self).entries@),
                    old(buf)@,
                ),
            decreases buf@.len(),
        {
            let ghost pre_entries = entries_view(self.entries@);
            let ghost pre_buf = buf@;
            match self.read_fragment(buf) {
                Err(e) => {
                    return Err(e);
                },
                Ok(FragmentOutcome::NeedMore) => {
                    return Ok(None);
                },
                Ok(FragmentOutcome::Stored(n)) => {
                    let rest = buf.split_off(n);
                    *buf = rest;
                    proof {
                        assert(buf@ =~= pre_buf.skip(n as int));
                    }
                },
                Ok(FragmentOutcome::Complete(n, chunk)) => {
                    let rest = buf.split_off(n);
                    *buf = rest;
                    proof {
                        assert(buf@ =~= pre_buf.skip(n as int));
                    }
                    return Ok(Some(chunk));
                },
            }
        }
    }
}

/// Replacing the first entry under a key equals an index update at its
/// first position.
proof fn lemma_assoc_set_update(s: Seq<(u32, SpecEntry)>, csid: u32, e: SpecEntry, i: int)
    requires
        0 <= i < s.len(),
        s[i].0 == csid,
        forall|j: int| 0 <= j < i ==> s[j].0 != csid,
    ensures
        assoc_set(s, csid, e) == s.update(i, (csid, e)),
    decreases i,
{
    if i == 0 {
        assert(assoc_set(s, csid, e) =~= s.update(0, (csid, e)));
    } else {
        lemma_assoc_set_update(s.skip(1), csid, e, i - 1);
        assert(s.skip(1)[i - 1] == s[i]);
        assert(forall|j: int| 0 <= j < i - 1 ==> s.skip(1)[j] == s[j + 1]);
        assert(assoc_set(s, csid, e) == seq![s[0]] + assoc_set(s.skip(1), csid, e));
        assert(seq![s[0]] + s.skip(1).update(i - 1, (csid, e)) =~= s.update(i, (csid, e)));
    }
}

/// Setting an absent key appends the new entry.
proof fn lemma_assoc_set_append(s: Seq<(u32, SpecEntry)>, csid: u32, e: SpecEntry)
    requires
        assoc_find(s, csid) is None,
    ensures
        assoc_set(s, csid, e) == s.push((csid, e)),
    decreases s.len(),
{
    if s.len() == 0 {
        assert(assoc_set(s, csid, e) =~= s.push((csid, e)));
    } else {
        lemma_assoc_set_append(s.skip(1), csid, e);
        assert(seq![s[0]] + s.skip(1).push((csid, e)) =~= s.push((csid, e)));
    }
}

} // verus!
