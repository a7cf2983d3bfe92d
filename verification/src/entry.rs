//! Filesystem entries as they travel on the wire.
//!
//! A transfer is a sequence of frames, one per filesystem entry. An entry is
//! a file or a directory together with its path relative to the transfer
//! root, held here as the path's UTF-8 bytes; a file entry also carries its
//! byte size, and on the wire its frame carries that many payload bytes.
//! The wire format's length field limits a relative path to 65535 bytes.

use crate::error::TransferError;
use vstd::prelude::*;

verus! {

/// Longest relative path, in UTF-8 bytes, that the two-byte length field of
/// the wire format can carry.
pub const MAX_PATH_BYTES: usize = 65535;

/// Whether an entry is a regular file or a directory.
#[derive(Clone, Copy, PartialEq, Eq, Structural, Debug)]
pub enum EntryKind {
    File,
    Directory,
}

/// One filesystem entry of a transfer: its kind, its path relative to the
/// transfer root as UTF-8 bytes, and, for a file, its size in bytes.
#[derive(Debug)]
pub struct TransferEntry {
    pub kind: EntryKind,
    pub path: Vec<u8>,
    pub size: u64,
}

/// Mathematical model of a [`TransferEntry`].
#[verifier::ext_equal]
pub struct EntryModel {
    pub kind: EntryKind,
    pub path: Seq<u8>,
    pub size: u64,
}

impl View for TransferEntry {
    type V = EntryModel;

    open spec fn view(&self) -> EntryModel {
        EntryModel { kind: self.kind, path: self.path@, size: self.size }
    }
}

/// A well-formed entry: its path fits the length field, and a directory
/// carries no size.
pub open spec fn entry_wf(e: EntryModel) -> bool {
    &&& e.path.len() <= MAX_PATH_BYTES
    &&& (e.kind is Directory ==> e.size == 0)
}

/// One frame's worth of data: an entry and, for a file, its payload bytes.
/// A directory frame has an empty payload.
#[derive(Debug)]
pub struct Frame {
    pub entry: TransferEntry,
    pub payload: Vec<u8>,
}

/// Mathematical model of a [`Frame`].
#[verifier::ext_equal]
pub struct FrameModel {
    pub entry: EntryModel,
    pub payload: Seq<u8>,
}

impl View for Frame {
    type V = FrameModel;

    open spec fn view(&self) -> FrameModel {
        FrameModel { entry: self.entry@, payload: self.payload@ }
    }
}

/// A well-formed frame: a well-formed entry whose payload is exactly the
/// declared file size, or a directory with no payload.
pub open spec fn frame_wf(f: FrameModel) -> bool {
    &&& entry_wf(f.entry)
    &&& (f.entry.kind is File ==> f.payload.len() == f.entry.size)
    &&& (f.entry.kind is Directory ==> f.payload.len() == 0)
}

/// The models of a sequence of frames.
pub open spec fn frames_view(fs: Seq<Frame>) -> Seq<FrameModel> {
    fs.map_values(|f: Frame| f@)
}

impl TransferEntry {
    /// Builds the entry for a regular file of `size` bytes. Rejects a path
    /// longer than the wire format's length field can carry, before anything
    /// is written.
    pub fn new_file(path: Vec<u8>, size: u64) -> (r: Result<TransferEntry, TransferError>)
        ensures
            path@.len() <= MAX_PATH_BYTES ==> (r matches Ok(e) && e@ == (EntryModel {
                kind: EntryKind::File,
                path: path@,
                size: size,
            }) && entry_wf(e@)),
            path@.len() > MAX_PATH_BYTES ==> r matches Err(TransferError::PathTooLong),
    {
        if path.len() > MAX_PATH_BYTES {
            Err(TransferError::PathTooLong)
        } else {
            Ok(TransferEntry { kind: EntryKind::File, path, size })
        }
    }

    /// Builds the entry for a directory. Rejects a path longer than the wire
    /// format's length field can carry, before anything is written.
    pub fn new_directory(path: Vec<u8>) -> (r: Result<TransferEntry, TransferError>)
        ensures
            path@.len() <= MAX_PATH_BYTES ==> (r matches Ok(e) && e@ == (EntryModel {
                kind: EntryKind::Directory,
                path: path@,
                size: 0,
            }) && entry_wf(e@)),
            path@.len() > MAX_PATH_BYTES ==> r matches Err(TransferError::PathTooLong),
    {
        if path.len() > MAX_PATH_BYTES {
            Err(TransferError::PathTooLong)
        } else {
            Ok(TransferEntry { kind: EntryKind::Directory, path, size: 0 })
        }
    }
}

impl Frame {
    /// Builds a file frame whose declared size is exactly the payload's
    /// length, so the frame is well formed whenever the path fits.
    pub fn new_file(path: Vec<u8>, payload: Vec<u8>) -> (r: Result<Frame, TransferError>)
        ensures
            path@.len() <= MAX_PATH_BYTES ==> (r matches Ok(f) && f@ == (FrameModel {
                entry: EntryModel {
                    kind: EntryKind::File,
                    path: path@,
                    size: payload@.len() as u64,
                },
                payload: payload@,
            }) && frame_wf(f@)),
            path@.len() > MAX_PATH_BYTES ==> r matches Err(TransferError::PathTooLong),
    {
        let size = payload.len() as u64;
        let entry = TransferEntry::new_file(path, size)?;
        Ok(Frame { entry, payload })
    }

    /// Builds a directory frame, which carries no payload.
    pub fn new_directory(path: Vec<u8>) -> (r: Result<Frame, TransferError>)
        ensures
            path@.len() <= MAX_PATH_BYTES ==> (r matches Ok(f) && f@ == (FrameModel {
                entry: EntryModel { kind: EntryKind::Directory, path: path@, size: 0 },
                payload: Seq::<u8>::empty(),
            }) && frame_wf(f@)),
            path@.len() > MAX_PATH_BYTES ==> r matches Err(TransferError::PathTooLong),
    {
        let entry = TransferEntry::new_directory(path)?;
        let frame = Frame { entry, payload: Vec::new() };
        proof {
            assert(frame@.payload =~= Seq::<u8>::empty());
        }
        Ok(frame)
    }
}

} // verus!
