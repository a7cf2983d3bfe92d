//! Session decisions of the sender and the receiver.
//!
//! The I/O shell walks the filesystem, connects, accepts and spawns; what it
//! does at each step is decided here, on plain values. The sender's pre-scan
//! hands its walk results to [`sum_file_sizes`] to fix the transfer's total;
//! the receiver's accept loop asks [`accept_step`] what to do with each poll
//! outcome, which is what makes the stop flag observable within one poll
//! interval; and each received file frame is worth one log line, counted by
//! [`count_file_frames`].

use crate::entry::frames_view;
use crate::entry::Frame;
use crate::entry::FrameModel;
use vstd::prelude::*;

verus! {

/// How long the sender waits for a connection to be established before the
/// run fails, in milliseconds.
pub const CONNECT_TIMEOUT_MS: u64 = 3000;

/// How long the receiver sleeps after a would-block poll of its listening
/// socket: the longest the stop flag can go unobserved.
pub const POLL_INTERVAL_MS: u64 = 100;

/// One result of the pre-scan walk over the source tree: whether the entry
/// is a regular file, and its size in bytes. Directories and entries that
/// errored during the walk contribute nothing to the total.
#[derive(Clone, Copy, PartialEq, Eq, Structural, Debug)]
pub struct ScanEntry {
    pub is_file: bool,
    pub size: u64,
}

/// The transfer's total payload size: the sum of the sizes of the regular
/// files found by the pre-scan.
pub open spec fn spec_total_size(s: Seq<ScanEntry>) -> nat
    decreases s.len(),
{
    if s.len() == 0 {
        0
    } else {
        (if s[0].is_file {
            s[0].size as nat
        } else {
            0
        }) + spec_total_size(s.drop_first())
    }
}

/// One more scanned entry adds its file size, or nothing, to the total.
pub proof fn lemma_total_size_push(s: Seq<ScanEntry>, e: ScanEntry)
    ensures
        spec_total_size(s.push(e)) == spec_total_size(s) + (if e.is_file {
            e.size as nat
        } else {
            0
        }),
    decreases s.len(),
{
    if s.len() == 0 {
        assert(s.push(e)[0] == e);
        assert(s.push(e).drop_first() =~= Seq::<ScanEntry>::empty());
        assert(spec_total_size(Seq::<ScanEntry>::empty()) == 0);
    } else {
        assert(s.push(e)[0] == s[0]);
        assert(s.push(e).drop_first() =~= s.drop_first().push(e));
        lemma_total_size_push(s.drop_first(), e);
    }
}

/// Sums the sizes of the scanned regular files, saturating at the largest
/// 64-bit value.
pub fn sum_file_sizes(entries: &Vec<ScanEntry>) -> (r: u64)
    ensures
        spec_total_size(entries@) <= u64::MAX ==> r == spec_total_size(entries@),
        spec_total_size(entries@) > u64::MAX ==> r == u64::MAX,
{
    let mut total: u64 = 0;
    let mut idx: usize = 0;
    proof {
        assert(entries@.subrange(0, 0) =~= Seq::<ScanEntry>::empty());
    }
    while idx < entries.len()
        invariant
            idx <= entries@.len(),
            spec_total_size(entries@.subrange(0, idx as int)) <= u64::MAX ==> total
                == spec_total_size(entries@.subrange(0, idx as int)),
            spec_total_size(entries@.subrange(0, idx as int)) > u64::MAX ==> total == u64::MAX,
        decreases entries@.len() - idx,
    {
        let e = entries[idx];
        proof {
            assert(entries@.subrange(0, idx + 1) =~= entries@.subrange(0, idx as int).push(
                entries@[idx as int],
            ));
            lemma_total_size_push(entries@.subrange(0, idx as int), entries@[idx as int]);
        }
        if e.is_file {
            total = if e.size <= u64::MAX - total {
                total + e.size
            } else {
                u64::MAX
            };
        }
        idx = idx + 1;
    }
    proof {
        assert(entries@.subrange(0, entries@.len() as int) =~= entries@);
    }
    total
}

/// What one poll of the receiver's listening socket came back with.
#[derive(Clone, Copy, PartialEq, Eq, Structural, Debug)]
pub enum AcceptEvent {
    /// A connection was accepted.
    Connection,
    /// No connection is pending; the poll would block.
    WouldBlock,
    /// The poll failed with an error other than would-block.
    Error,
}

/// What the receiver's accept loop does next.
#[derive(Clone, Copy, PartialEq, Eq, Structural, Debug)]
pub enum AcceptAction {
    /// Spawn an independent handler for the accepted connection and go
    /// straight back to polling.
    Handle,
    /// Sleep one poll interval, then poll again.
    Wait,
    /// Leave the loop normally: the stop flag was cleared.
    Stop,
    /// Leave the loop with an error: the listening socket failed.
    Fail,
}

/// Decides one round of the receiver's accept loop from the stop flag and
/// the poll's outcome. The flag is read before every poll, so clearing it
/// stops the loop within one poll interval; an in-flight connection handler
/// is never interrupted by it.
pub fn accept_step(running: bool, event: AcceptEvent) -> (a: AcceptAction)
    ensures
        !running ==> a is Stop,
        running && event is Connection ==> a is Handle,
        running && event is WouldBlock ==> a is Wait,
        running && event is Error ==> a is Fail,
{
    if !running {
        AcceptAction::Stop
    } else {
        match event {
            AcceptEvent::Connection => AcceptAction::Handle,
            AcceptEvent::WouldBlock => AcceptAction::Wait,
            AcceptEvent::Error => AcceptAction::Fail,
        }
    }
}

/// How many of a transfer's frames carry files. The receiver logs one
/// "received" line per file frame and none per directory frame, so this is
/// the number of log lines a decoded transfer produces.
pub open spec fn spec_file_count(fs: Seq<FrameModel>) -> nat
    decreases fs.len(),
{
    if fs.len() == 0 {
        0
    } else {
        (if fs[0].entry.kind is File {
            1nat
        } else {
            0nat
        }) + spec_file_count(fs.drop_first())
    }
}

/// One more frame counts once if it carries a file.
pub proof fn lemma_file_count_push(fs: Seq<FrameModel>, f: FrameModel)
    ensures
        spec_file_count(fs.push(f)) == spec_file_count(fs) + (if f.entry.kind is File {
            1int
        } else {
            0int
        }),
    decreases fs.len(),
{
    if fs.len() == 0 {
        assert(fs.push(f)[0] == f);
        assert(fs.push(f).drop_first() =~= Seq::<FrameModel>::empty());
        assert(spec_file_count(Seq::<FrameModel>::empty()) == 0);
    } else {
        assert(fs.push(f)[0] == fs[0]);
        assert(fs.push(f).drop_first() =~= fs.drop_first().push(f));
        lemma_file_count_push(fs.drop_first(), f);
    }
}

/// Counts the file frames of a decoded transfer: the number of "received"
/// log lines it produces.
pub fn count_file_frames(frames: &Vec<Frame>) -> (r: usize)
    ensures
        r == spec_file_count(frames_view(frames@)),
{
    let mut count: usize = 0;
    let mut idx: usize = 0;
    proof {
        assert(frames_view(frames@.subrange(0, 0)) =~= Seq::<FrameModel>::empty());
    }
    while idx < frames.len()
        invariant
            idx <= frames@.len(),
            count <= idx,
            count == spec_file_count(frames_view(frames@.subrange(0, idx as int))),
        decreases frames@.len() - idx,
    {
        proof {
            assert(frames_view(frames@.subrange(0, idx + 1)) =~= frames_view(
                frames@.subrange(0, idx as int),
            ).push(frames@[idx as int]@));
            lemma_file_count_push(
                frames_view(frames@.subrange(0, idx as int)),
                frames@[idx as int]@,
            );
        }
        if matches!(frames[idx].entry.kind, crate::entry::EntryKind::File) {
            count = count + 1;
        }
        idx = idx + 1;
    }
    proof {
        assert(frames@.subrange(0, frames@.len() as int) =~= frames@);
    }
    count
}

} // verus!
