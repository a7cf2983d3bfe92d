//! The framing format of the wire protocol, its encoder and its decoder.
//!
//! A transfer is the concatenation of frames, one per filesystem entry,
//! repeated until the sender closes the connection; there is no end-of-
//! transfer marker. Each frame is
//!
//! ```text
//! frame      := type_tag path_entry [file_body]
//! type_tag   := 1 byte: 0 = file, 1 = directory
//! path_entry := path_len (2 bytes, big-endian) ++ path bytes (UTF-8)
//! file_body  := size (8 bytes, big-endian) ++ payload (size bytes)
//! ```
//!
//! and `file_body` is present only for files. [`spec_encode_frames`] and
//! [`spec_decode_frames`] are the mathematical sender and receiver;
//! [`lemma_frames_round_trip`] proves that decoding undoes encoding for every
//! well-formed sequence of frames. The executable [`encode_header`],
//! [`encode_frames`] and [`decode_frames`] are proved against those specs.

use crate::codec::spec_u16_be;
use crate::codec::spec_u16_from_be;
use crate::codec::spec_u64_be;
use crate::codec::spec_u64_from_be;
use crate::codec::lemma_u16_be_round_trip;
use crate::codec::lemma_u64_be_round_trip;
use crate::codec::tag_is_file;
use crate::codec::u16_from_be_bytes;
use crate::codec::u16_to_be_bytes;
use crate::codec::u64_from_be_bytes;
use crate::codec::u64_to_be_bytes;
use crate::codec::TYPE_DIR;
use crate::codec::TYPE_FILE;
use crate::entry::frame_wf;
use crate::entry::frames_view;
use crate::entry::EntryKind;
use crate::entry::EntryModel;
use crate::entry::Frame;
use crate::entry::FrameModel;
use crate::entry::TransferEntry;
use crate::entry::MAX_PATH_BYTES;
use crate::error::TransferError;
use vstd::prelude::*;

verus! {

/// The type tag a frame carries for this kind of entry.
pub open spec fn spec_tag(kind: EntryKind) -> u8 {
    match kind {
        EntryKind::File => TYPE_FILE,
        EntryKind::Directory => TYPE_DIR,
    }
}

/// The kind an incoming tag byte is read as: the tag for a file means a
/// file, every other byte a directory.
pub open spec fn spec_kind_of_tag(tag: u8) -> EntryKind {
    if tag == TYPE_FILE {
        EntryKind::File
    } else {
        EntryKind::Directory
    }
}

/// The header bytes of one frame: tag, path length, path, and, for a file,
/// the payload size.
pub open spec fn spec_encode_header(e: EntryModel) -> Seq<u8> {
    seq![spec_tag(e.kind)] + spec_u16_be(e.path.len() as u16) + e.path + if e.kind is File {
        spec_u64_be(e.size)
    } else {
        Seq::<u8>::empty()
    }
}

/// The bytes of one whole frame: its header followed by its payload. A
/// well-formed directory frame has an empty payload, so its frame is its
/// header alone.
pub open spec fn spec_encode_frame(f: FrameModel) -> Seq<u8> {
    spec_encode_header(f.entry) + f.payload
}

/// The whole byte stream of a transfer: each frame's bytes in order.
pub open spec fn spec_encode_frames(fs: Seq<FrameModel>) -> Seq<u8>
    decreases fs.len(),
{
    if fs.len() == 0 {
        Seq::<u8>::empty()
    } else {
        spec_encode_frame(fs[0]) + spec_encode_frames(fs.drop_first())
    }
}

/// The frames read back from a complete byte stream. `None` means the stream
/// ends in the middle of a frame, which is a protocol violation: the only
/// legitimate end of stream is at a frame boundary.
pub open spec fn spec_decode_frames(data: Seq<u8>) -> Option<Seq<FrameModel>>
    decreases data.len(),
{
    if data.len() == 0 {
        Some(Seq::<FrameModel>::empty())
    } else if data.len() < 3 {
        None
    } else {
        let kind = spec_kind_of_tag(data[0]);
        let plen = spec_u16_from_be(data[1], data[2]) as int;
        if data.len() < 3 + plen {
            None
        } else {
            let path = data.subrange(3, 3 + plen);
            if kind is File {
                if data.len() < 3 + plen + 8 {
                    None
                } else {
                    let size = spec_u64_from_be(data.subrange(3 + plen, 3 + plen + 8));
                    if data.len() < 3 + plen + 8 + size {
                        None
                    } else {
                        let payload = data.subrange(3 + plen + 8, 3 + plen + 8 + size);
                        let rest = data.subrange(3 + plen + 8 + size, data.len() as int);
                        match spec_decode_frames(rest) {
                            Some(fs) => Some(
                                seq![
                                    FrameModel {
                                        entry: EntryModel { kind, path, size },
                                        payload,
                                    },
                                ] + fs,
                            ),
                            None => None,
                        }
                    }
                }
            } else {
                let rest = data.subrange(3 + plen, data.len() as int);
                match spec_decode_frames(rest) {
                    Some(fs) => Some(
                        seq![
                            FrameModel {
                                entry: EntryModel { kind, path, size: 0 },
                                payload: Seq::<u8>::empty(),
                            },
                        ] + fs,
                    ),
                    None => None,
                }
            }
        }
    }
}

/// Decoding a stream that starts with one well-formed frame's bytes peels
/// exactly that frame off and goes on with the remainder.
pub proof fn lemma_decode_one_frame(f: FrameModel, rest: Seq<u8>)
    requires
        frame_wf(f),
    ensures
        spec_decode_frames(spec_encode_frame(f) + rest) == (match spec_decode_frames(rest) {
            Some(fs) => Some(seq![f] + fs),
            None => None::<Seq<FrameModel>>,
        }),
{
    let plen = f.entry.path.len() as int;
    let data = spec_encode_frame(f) + rest;
    lemma_u16_be_round_trip(f.entry.path.len() as u16);
    match f.entry.kind {
        EntryKind::File => {
            assert(data =~= seq![spec_tag(f.entry.kind)] + spec_u16_be(f.entry.path.len() as u16)
                + f.entry.path + spec_u64_be(f.entry.size) + f.payload + rest);
            assert(data.len() == 3 + plen + 8 + f.payload.len() + rest.len());
            assert(data[0] == TYPE_FILE);
            assert(spec_kind_of_tag(data[0]) is File);
            assert(data[1] == spec_u16_be(f.entry.path.len() as u16)[0]);
            assert(data[2] == spec_u16_be(f.entry.path.len() as u16)[1]);
            assert(spec_u16_from_be(data[1], data[2]) == f.entry.path.len() as u16);
            assert(data.subrange(3, 3 + plen) =~= f.entry.path);
            assert(data.subrange(3 + plen, 3 + plen + 8) =~= spec_u64_be(f.entry.size));
            lemma_u64_be_round_trip(f.entry.size);
            assert(spec_u64_from_be(data.subrange(3 + plen, 3 + plen + 8)) == f.entry.size);
            assert(data.len() >= 3 + plen + 8 + f.entry.size);
            assert(data.subrange(3 + plen + 8, 3 + plen + 8 + f.entry.size as int) =~= f.payload);
            assert(data.subrange(3 + plen + 8 + f.entry.size as int, data.len() as int) =~= rest);
            let parsed = FrameModel {
                entry: EntryModel {
                    kind: EntryKind::File,
                    path: data.subrange(3, 3 + plen),
                    size: f.entry.size,
                },
                payload: data.subrange(3 + plen + 8, 3 + plen + 8 + f.entry.size as int),
            };
            assert(parsed =~= f);
        },
        EntryKind::Directory => {
            assert(f.payload =~= Seq::<u8>::empty());
            assert(data =~= seq![spec_tag(f.entry.kind)] + spec_u16_be(f.entry.path.len() as u16)
                + f.entry.path + rest);
            assert(data.len() == 3 + plen + rest.len());
            assert(data[0] == TYPE_DIR);
            assert(!(spec_kind_of_tag(data[0]) is File));
            assert(data[1] == spec_u16_be(f.entry.path.len() as u16)[0]);
            assert(data[2] == spec_u16_be(f.entry.path.len() as u16)[1]);
            assert(spec_u16_from_be(data[1], data[2]) == f.entry.path.len() as u16);
            assert(data.subrange(3, 3 + plen) =~= f.entry.path);
            assert(data.subrange(3 + plen, data.len() as int) =~= rest);
            let parsed = FrameModel {
                entry: EntryModel {
                    kind: EntryKind::Directory,
                    path: data.subrange(3, 3 + plen),
                    size: 0,
                },
                payload: Seq::<u8>::empty(),
            };
            assert(parsed =~= f);
        },
    }
}

/// Round trip of the whole transfer: decoding the encoding of any sequence
/// of well-formed frames yields exactly those frames. This is the statement
/// that a receiver reproduces, entry for entry and byte for byte, what the
/// sender walked.
#[verifier::rlimit(50)]
pub proof fn lemma_frames_round_trip(fs: Seq<FrameModel>)
    requires
        forall|i: int| 0 <= i < fs.len() ==> frame_wf(#[trigger] fs[i]),
    ensures
        spec_decode_frames(spec_encode_frames(fs)) == Some(fs),
    decreases fs.len(),
{
    if fs.len() == 0 {
        assert(spec_encode_frames(fs) =~= Seq::<u8>::empty());
    } else {
        let rest = fs.drop_first();
        assert(forall|i: int| 0 <= i < rest.len() ==> frame_wf(#[trigger] rest[i]));
        lemma_frames_round_trip(rest);
        lemma_decode_one_frame(fs[0], spec_encode_frames(rest));
        assert(spec_encode_frames(fs) == spec_encode_frame(fs[0]) + spec_encode_frames(rest));
        assert(spec_decode_frames(spec_encode_frames(fs)) == Some(seq![fs[0]] + rest));
        assert(seq![fs[0]] + rest =~= fs);
    }
}

/// Encodes one frame's header. A path longer than the length field can carry
/// is rejected before any bytes are produced; everything else encodes.
pub fn encode_header(entry: &TransferEntry) -> (r: Result<Vec<u8>, TransferError>)
    ensures
        entry@.path.len() <= MAX_PATH_BYTES ==> (r matches Ok(v) && v@ == spec_encode_header(
            entry@,
        )),
        entry@.path.len() > MAX_PATH_BYTES ==> r matches Err(TransferError::PathTooLong),
{
    if entry.path.len() > MAX_PATH_BYTES {
        return Err(TransferError::PathTooLong);
    }
    let mut out: Vec<u8> = Vec::new();
    let tag: u8 = match entry.kind {
        EntryKind::File => TYPE_FILE,
        EntryKind::Directory => TYPE_DIR,
    };
    out.push(tag);
    let (len_hi, len_lo) = u16_to_be_bytes(entry.path.len() as u16);
    out.push(len_hi);
    out.push(len_lo);
    out.extend_from_slice(entry.path.as_slice());
    if matches!(entry.kind, EntryKind::File) {
        let mut size_bytes = u64_to_be_bytes(entry.size);
        out.append(&mut size_bytes);
    }
    proof {
        assert(out@ =~= spec_encode_header(entry@));
    }
    Ok(out)
}

/// Encodes one whole frame: its header followed by its payload.
pub fn encode_frame(frame: &Frame) -> (r: Result<Vec<u8>, TransferError>)
    ensures
        frame@.entry.path.len() <= MAX_PATH_BYTES ==> (r matches Ok(v) && v@ == spec_encode_frame(
            frame@,
        )),
        frame@.entry.path.len() > MAX_PATH_BYTES ==> r matches Err(TransferError::PathTooLong),
{
    let mut out = encode_header(&frame.entry)?;
    out.extend_from_slice(frame.payload.as_slice());
    proof {
        assert(out@ =~= spec_encode_frame(frame@));
    }
    Ok(out)
}

/// Appending one frame to a transfer appends its bytes to the stream.
pub proof fn lemma_encode_frames_push(fs: Seq<FrameModel>, f: FrameModel)
    ensures
        spec_encode_frames(fs.push(f)) == spec_encode_frames(fs) + spec_encode_frame(f),
    decreases fs.len(),
{
    if fs.len() == 0 {
        assert(fs.push(f)[0] == f);
        assert(fs.push(f).drop_first() =~= Seq::<FrameModel>::empty());
        assert(spec_encode_frames(Seq::<FrameModel>::empty()) == Seq::<u8>::empty());
        assert(spec_encode_frames(fs.push(f)) =~= spec_encode_frame(f));
        assert(spec_encode_frames(fs) + spec_encode_frame(f) =~= spec_encode_frame(f));
    } else {
        assert(fs.push(f)[0] == fs[0]);
        assert(fs.push(f).drop_first() =~= fs.drop_first().push(f));
        lemma_encode_frames_push(fs.drop_first(), f);
        assert(spec_encode_frames(fs.push(f)) == spec_encode_frame(fs[0]) + (spec_encode_frames(
            fs.drop_first(),
        ) + spec_encode_frame(f)));
        assert(spec_encode_frame(fs[0]) + (spec_encode_frames(fs.drop_first()) + spec_encode_frame(
            f,
        )) =~= (spec_encode_frame(fs[0]) + spec_encode_frames(fs.drop_first())) + spec_encode_frame(
            f,
        ));
    }
}

/// Encodes a whole transfer: every frame's bytes in order. Fails, producing
/// nothing, exactly when some frame's path is too long for the length field.
pub fn encode_frames(frames: &Vec<Frame>) -> (r: Result<Vec<u8>, TransferError>)
    ensures
        (forall|i: int|
            0 <= i < frames@.len() ==> #[trigger] frames@[i]@.entry.path.len()
                <= MAX_PATH_BYTES) ==> (r matches Ok(v) && v@ == spec_encode_frames(
            frames_view(frames@),
        )),
        (exists|i: int|
            0 <= i < frames@.len() && #[trigger] frames@[i]@.entry.path.len() > MAX_PATH_BYTES)
            ==> r matches Err(TransferError::PathTooLong),
{
    let mut out: Vec<u8> = Vec::new();
    let mut idx: usize = 0;
    proof {
        assert(frames_view(frames@.subrange(0, 0)) =~= Seq::<FrameModel>::empty());
    }
    while idx < frames.len()
        invariant
            idx <= frames@.len(),
            forall|i: int|
                0 <= i < idx ==> #[trigger] frames@[i]@.entry.path.len() <= MAX_PATH_BYTES,
            out@ == spec_encode_frames(frames_view(frames@.subrange(0, idx as int))),
        decreases frames@.len() - idx,
    {
        let frame_bytes = match encode_frame(&frames[idx]) {
            Ok(v) => v,
            Err(e) => {
                return Err(e);
            },
        };
        let mut frame_bytes = frame_bytes;
        out.append(&mut frame_bytes);
        proof {
            let prev = frames_view(frames@.subrange(0, idx as int));
            let cur = frames_view(frames@.subrange(0, idx + 1));
            assert(cur =~= prev.push(frames@[idx as int]@));
            lemma_encode_frames_push(prev, frames@[idx as int]@);
        }
        idx = idx + 1;
    }
    proof {
        assert(frames@.subrange(0, frames@.len() as int) =~= frames@);
    }
    Ok(out)
}

/// Decodes a complete byte stream back into its frames.
///
/// An empty stream is a completed transfer of zero frames; a stream that
/// ends in the middle of a frame is a protocol violation and yields exactly
/// `Err(TransferError::ProtocolViolation)`. On every input the result agrees
/// with [`spec_decode_frames`].
pub fn decode_frames(data: &Vec<u8>) -> (r: Result<Vec<Frame>, TransferError>)
    ensures
        (spec_decode_frames(data@) matches Some(fs) ==> (r matches Ok(v) && frames_view(v@)
            == fs)),
        spec_decode_frames(data@) is None ==> r matches Err(TransferError::ProtocolViolation),
{
    let mut out: Vec<Frame> = Vec::new();
    let mut offset: usize = 0;
    let len: usize = data.len();
    proof {
        assert(data@.subrange(0, data@.len() as int) =~= data@);
        assert(frames_view(out@) =~= Seq::<FrameModel>::empty());
    }
    while offset < len
        invariant
            offset <= len,
            len == data@.len(),
            (match spec_decode_frames(data@.subrange(offset as int, len as int)) {
                Some(fs) => spec_decode_frames(data@) == Some(frames_view(out@) + fs),
                None => spec_decode_frames(data@) is None,
            }),
        decreases len - offset,
    {
        let ghost sub = data@.subrange(offset as int, len as int);
        let remaining = len - offset;
        if remaining < 3 {
            return Err(TransferError::ProtocolViolation);
        }
        let is_file = tag_is_file(data[offset]);
        let plen = u16_from_be_bytes(data[offset + 1], data[offset + 2]) as usize;
        proof {
            assert(sub[0] == data@[offset as int]);
            assert(sub[1] == data@[offset + 1]);
            assert(sub[2] == data@[offset + 2]);
        }
        if remaining - 3 < plen {
            proof {
                assert(sub.len() < 3 + plen);
            }
            return Err(TransferError::ProtocolViolation);
        }
        let path = vstd::slice::slice_to_vec(
            vstd::slice::slice_subrange(data.as_slice(), offset + 3, offset + 3 + plen),
        );
        proof {
            assert(path@ =~= sub.subrange(3, 3 + plen as int));
        }
        let frame: Frame;
        if is_file {
            if remaining - 3 - plen < 8 {
                proof {
                    assert(sub.len() < 3 + plen + 8);
                }
                return Err(TransferError::ProtocolViolation);
            }
            let size_slice = vstd::slice::slice_subrange(
                data.as_slice(),
                offset + 3 + plen,
                offset + 3 + plen + 8,
            );
            let size = u64_from_be_bytes(size_slice);
            proof {
                assert(size_slice@ =~= sub.subrange(3 + plen as int, 3 + plen + 8));
            }
            let avail = remaining - 3 - plen - 8;
            if size > avail as u64 {
                proof {
                    assert(sub.len() < 3 + plen + 8 + size);
                }
                return Err(TransferError::ProtocolViolation);
            }
            let body_start = offset + 3 + plen + 8;
            let payload = vstd::slice::slice_to_vec(
                vstd::slice::slice_subrange(data.as_slice(), body_start, body_start + size as usize),
            );
            proof {
                assert(payload@ =~= sub.subrange(3 + plen + 8, 3 + plen + 8 + size as int));
            }
            frame = Frame {
                entry: TransferEntry { kind: EntryKind::File, path, size },
                payload,
            };
            offset = body_start + size as usize;
        } else {
            frame = Frame {
                entry: TransferEntry { kind: EntryKind::Directory, path, size: 0 },
                payload: Vec::new(),
            };
            offset = offset + 3 + plen;
        }
        proof {
            let new_sub = data@.subrange(offset as int, len as int);
            assert(new_sub =~= sub.subrange(sub.len() - new_sub.len(), sub.len() as int));
            if frame@.entry.kind is Directory {
                assert(frame@.payload =~= Seq::<u8>::empty());
            }
            assert(match spec_decode_frames(new_sub) {
                Some(fs) => spec_decode_frames(sub) == Some(seq![frame@] + fs),
                None => spec_decode_frames(sub) is None,
            });
        }
        out.push(frame);
        proof {
            let prev = out@.drop_last();
            assert(prev =~= out@.subrange(0, out@.len() - 1));
            assert(frames_view(out@) =~= frames_view(prev).push(out@.last()@));
        }
    }
    proof {
        assert(data@.subrange(len as int, len as int) =~= Seq::<u8>::empty());
        assert(frames_view(out@) + Seq::<FrameModel>::empty() =~= frames_view(out@));
    }
    Ok(out)
}

} // verus!
