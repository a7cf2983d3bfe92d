//! Streaming decoder for one frame header.
//!
//! The receiver reads a connection field by field, never buffering a whole
//! transfer: one byte of type tag, two bytes of path length, the path, and,
//! for a file, eight bytes of payload size — after which the payload itself
//! is streamed straight to disk. [`HeaderDecoder`] holds that position and
//! says how many bytes to read next; the reader feeds each field back whole.
//! At a frame boundary the stream may instead end cleanly, which is the only
//! legitimate end of a transfer. [`lemma_header_run_round_trip`] proves that
//! feeding an encoded header, chunk by chunk as the decoder asks, reproduces
//! the entry that was encoded.

use crate::codec::lemma_u16_be_round_trip;
use crate::codec::lemma_u64_be_round_trip;
use crate::codec::spec_u16_be;
use crate::codec::spec_u16_from_be;
use crate::codec::spec_u64_be;
use crate::codec::spec_u64_from_be;
use crate::codec::tag_is_file;
use crate::codec::u16_from_be_bytes;
use crate::codec::u64_from_be_bytes;
use crate::codec::TYPE_FILE;
use crate::entry::entry_wf;
use crate::entry::EntryKind;
use crate::entry::EntryModel;
use crate::entry::TransferEntry;
use crate::wire::spec_encode_header;
use crate::wire::spec_tag;
use vstd::prelude::*;

verus! {

/// Where the decoder stands inside a frame header.
#[derive(Clone, Copy, PartialEq, Eq, Structural, Debug)]
pub enum DecodePhase {
    /// Before a frame: the next byte is a type tag, or the stream ends
    /// cleanly here.
    Tag,
    /// After the tag: the next two bytes are the path length, big-endian.
    PathLen,
    /// After the length: the next `path_len` bytes are the path.
    Path,
    /// After a file's path: the next eight bytes are the payload size,
    /// big-endian.
    Size,
}

/// Incremental decoder for frame headers: feed it each field as it asks,
/// and it hands back one decoded entry per frame header.
#[derive(Debug)]
pub struct HeaderDecoder {
    pub phase: DecodePhase,
    pub is_file: bool,
    pub path_len: u16,
    pub path: Vec<u8>,
}

/// Mathematical model of a [`HeaderDecoder`].
#[verifier::ext_equal]
pub struct DecoderModel {
    pub phase: DecodePhase,
    pub is_file: bool,
    pub path_len: u16,
    pub path: Seq<u8>,
}

impl View for HeaderDecoder {
    type V = DecoderModel;

    open spec fn view(&self) -> DecoderModel {
        DecoderModel {
            phase: self.phase,
            is_file: self.is_file,
            path_len: self.path_len,
            path: self.path@,
        }
    }
}

/// A decoder at a frame boundary, with nothing carried over.
pub open spec fn spec_initial_decoder() -> DecoderModel {
    DecoderModel {
        phase: DecodePhase::Tag,
        is_file: false,
        path_len: 0,
        path: Seq::<u8>::empty(),
    }
}

/// How many bytes the decoder needs next.
pub open spec fn spec_needed(m: DecoderModel) -> int {
    match m.phase {
        DecodePhase::Tag => 1,
        DecodePhase::PathLen => 2,
        DecodePhase::Path => m.path_len as int,
        DecodePhase::Size => 8,
    }
}

/// The decoder's state after one field is fed to it.
pub open spec fn spec_step(m: DecoderModel, chunk: Seq<u8>) -> DecoderModel {
    match m.phase {
        DecodePhase::Tag => DecoderModel {
            phase: DecodePhase::PathLen,
            is_file: chunk[0] == TYPE_FILE,
            ..m
        },
        DecodePhase::PathLen => DecoderModel {
            phase: DecodePhase::Path,
            path_len: spec_u16_from_be(chunk[0], chunk[1]),
            ..m
        },
        DecodePhase::Path => if m.is_file {
            DecoderModel { phase: DecodePhase::Size, path: chunk, ..m }
        } else {
            spec_initial_decoder()
        },
        DecodePhase::Size => spec_initial_decoder(),
    }
}

/// The entry a fed field completes, if it is the header's last field: the
/// path of a directory frame, or the size of a file frame.
pub open spec fn spec_emit(m: DecoderModel, chunk: Seq<u8>) -> Option<EntryModel> {
    match m.phase {
        DecodePhase::Tag => None,
        DecodePhase::PathLen => None,
        DecodePhase::Path => if m.is_file {
            None
        } else {
            Some(EntryModel { kind: EntryKind::Directory, path: chunk, size: 0 })
        },
        DecodePhase::Size => Some(
            EntryModel { kind: EntryKind::File, path: m.path, size: spec_u64_from_be(chunk) },
        ),
    }
}

impl HeaderDecoder {
    /// A decoder ready for the first frame of a connection.
    pub fn new() -> (r: HeaderDecoder)
        ensures
            r@ == spec_initial_decoder(),
    {
        let r = HeaderDecoder {
            phase: DecodePhase::Tag,
            is_file: false,
            path_len: 0,
            path: Vec::new(),
        };
        proof {
            assert(r@ =~= spec_initial_decoder());
        }
        r
    }

    /// Whether the decoder stands at a frame boundary, where the peer
    /// closing the connection is the legitimate end of the transfer rather
    /// than a protocol violation.
    pub fn at_frame_boundary(&self) -> (r: bool)
        ensures
            r == (self@.phase is Tag),
    {
        matches!(self.phase, DecodePhase::Tag)
    }

    /// How many bytes to read next. A short read of them mid-frame is a
    /// protocol violation.
    pub fn needed(&self) -> (n: usize)
        ensures
            n == spec_needed(self@),
    {
        match self.phase {
            DecodePhase::Tag => 1,
            DecodePhase::PathLen => 2,
            DecodePhase::Path => self.path_len as usize,
            DecodePhase::Size => 8,
        }
    }

    /// Consumes one field, read whole, and hands back the decoded entry
    /// when the field was the header's last. After emitting an entry the
    /// decoder stands at the next frame boundary.
    pub fn feed(&mut self, chunk: &[u8]) -> (emitted: Option<TransferEntry>)
        requires
            chunk@.len() == spec_needed(old(self)@),
        ensures
            final(self)@ == spec_step(old(self)@, chunk@),
            (match spec_emit(old(self)@, chunk@) {
                Some(e) => emitted matches Some(t) && t@ == e,
                None => emitted is None,
            }),
    {
        match self.phase {
            DecodePhase::Tag => {
                self.is_file = tag_is_file(chunk[0]);
                self.phase = DecodePhase::PathLen;
                None
            },
            DecodePhase::PathLen => {
                self.path_len = u16_from_be_bytes(chunk[0], chunk[1]);
                self.phase = DecodePhase::Path;
                None
            },
            DecodePhase::Path => {
                if self.is_file {
                    self.path = vstd::slice::slice_to_vec(chunk);
                    self.phase = DecodePhase::Size;
                    None
                } else {
                    let entry = TransferEntry {
                        kind: EntryKind::Directory,
                        path: vstd::slice::slice_to_vec(chunk),
                        size: 0,
                    };
                    self.phase = DecodePhase::Tag;
                    self.is_file = false;
                    self.path_len = 0;
                    self.path = Vec::new();
                    proof {
                        assert(self@ =~= spec_initial_decoder());
                    }
                    Some(entry)
                }
            },
            DecodePhase::Size => {
                let size = u64_from_be_bytes(chunk);
                let mut path: Vec<u8> = Vec::new();
                core::mem::swap(&mut path, &mut self.path);
                self.phase = DecodePhase::Tag;
                self.is_file = false;
                self.path_len = 0;
                proof {
                    assert(self@ =~= spec_initial_decoder());
                }
                Some(TransferEntry { kind: EntryKind::File, path, size })
            },
        }
    }
}

/// How many fields are still to come: a measure that shrinks with every
/// step that does not finish the header.
pub open spec fn spec_phase_rank(p: DecodePhase) -> nat {
    match p {
        DecodePhase::Tag => 3,
        DecodePhase::PathLen => 2,
        DecodePhase::Path => 1,
        DecodePhase::Size => 0,
    }
}

/// Runs the decoder over a byte sequence, feeding it field by field as it
/// asks: `Some` exactly when the bytes are one whole header, decoded to
/// this entry.
pub open spec fn spec_run_header(m: DecoderModel, data: Seq<u8>) -> Option<EntryModel>
    decreases spec_phase_rank(m.phase),
{
    let n = spec_needed(m);
    if data.len() < n {
        None
    } else {
        let chunk = data.subrange(0, n);
        let rest = data.subrange(n, data.len() as int);
        match spec_emit(m, chunk) {
            Some(e) => if rest.len() == 0 {
                Some(e)
            } else {
                None
            },
            None => spec_run_header(spec_step(m, chunk), rest),
        }
    }
}

/// Round trip of the streaming receiver: feeding a well-formed entry's
/// encoded header to a fresh decoder, field by field as the decoder asks,
/// reproduces the entry exactly.
pub proof fn lemma_header_run_round_trip(e: EntryModel)
    requires
        entry_wf(e),
    ensures
        spec_run_header(spec_initial_decoder(), spec_encode_header(e)) == Some(e),
{
    let h = spec_encode_header(e);
    let plen = e.path.len() as int;
    lemma_u16_be_round_trip(e.path.len() as u16);
    let m0 = spec_initial_decoder();
    let c0 = h.subrange(0, 1);
    let r0 = h.subrange(1, h.len() as int);
    let m1 = spec_step(m0, c0);
    let c1 = r0.subrange(0, 2);
    let r1 = r0.subrange(2, r0.len() as int);
    let m2 = spec_step(m1, c1);
    match e.kind {
        EntryKind::File => {
            assert(h =~= seq![spec_tag(e.kind)] + spec_u16_be(e.path.len() as u16) + e.path
                + spec_u64_be(e.size));
            assert(c0[0] == TYPE_FILE);
            assert(c1[0] == spec_u16_be(e.path.len() as u16)[0]);
            assert(c1[1] == spec_u16_be(e.path.len() as u16)[1]);
            assert(m2.path_len == e.path.len() as u16);
            let c2 = r1.subrange(0, plen);
            let r2 = r1.subrange(plen, r1.len() as int);
            assert(c2 =~= e.path);
            let m3 = spec_step(m2, c2);
            assert(m3.phase is Size && m3.path == c2);
            let c3 = r2.subrange(0, 8);
            let r3 = r2.subrange(8, r2.len() as int);
            assert(c3 =~= spec_u64_be(e.size));
            lemma_u64_be_round_trip(e.size);
            assert(r3.len() == 0);
            let parsed = EntryModel { kind: EntryKind::File, path: m3.path, size: e.size };
            assert(parsed =~= e);
            assert(spec_run_header(m3, r2) == Some(e));
            assert(spec_run_header(m2, r1) == Some(e));
            assert(spec_run_header(m1, r0) == Some(e));
            assert(spec_run_header(m0, h) == Some(e));
        },
        EntryKind::Directory => {
            assert(h =~= seq![spec_tag(e.kind)] + spec_u16_be(e.path.len() as u16) + e.path);
            assert(c0[0] != TYPE_FILE);
            assert(c1[0] == spec_u16_be(e.path.len() as u16)[0]);
            assert(c1[1] == spec_u16_be(e.path.len() as u16)[1]);
            assert(m2.path_len == e.path.len() as u16);
            assert(!m2.is_file);
            let c2 = r1.subrange(0, plen);
            let r2 = r1.subrange(plen, r1.len() as int);
            assert(c2 =~= e.path);
            assert(r2.len() == 0);
            let parsed = EntryModel { kind: EntryKind::Directory, path: c2, size: 0 };
            assert(parsed =~= e);
            assert(spec_run_header(m2, r1) == Some(e));
            assert(spec_run_header(m1, r0) == Some(e));
            assert(spec_run_header(m0, h) == Some(e));
        },
    }
}

} // verus!
