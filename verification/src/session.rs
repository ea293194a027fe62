//! The per-resource access discipline of one session.
//!
//! A session owns up to five backend sub-resources — the PTY pair, the child
//! process handle, the child-killer handle, and the writer and reader
//! streams — and a host guards each behind its own exclusive lock. Every
//! pull-mode operation acquires exactly one of those guards, performs its
//! single backend call, and releases; which guard an operation needs is the
//! table below. Acquiring at most one guard per operation rules out
//! lock-ordering deadlock by construction, and operations that need
//! different guards never exclude each other on the same session.

use vstd::prelude::*;

verus! {

/// One guarded backend sub-resource of a session.
#[derive(Clone, Copy, PartialEq, Eq, Structural, Debug)]
pub enum SubResource {
    /// The PTY pair; the master side answers `resize`.
    PtyPair,
    /// The child process handle; answers the exit-status poll.
    Child,
    /// The cloned child-killer handle; answers `kill`.
    ChildKiller,
    /// The backend input stream.
    Writer,
    /// The backend output stream.
    Reader,
}

/// One pull-mode operation on an already spawned session.
#[derive(Clone, Copy, PartialEq, Eq, Structural, Debug)]
pub enum PullOp {
    Write,
    Read,
    Resize,
    Kill,
    ExitStatus,
}

/// The one guard each pull-mode operation acquires for its backend call.
pub open spec fn guard_of(op: PullOp) -> SubResource {
    match op {
        PullOp::Write => SubResource::Writer,
        PullOp::Read => SubResource::Reader,
        PullOp::Resize => SubResource::PtyPair,
        PullOp::Kill => SubResource::ChildKiller,
        PullOp::ExitStatus => SubResource::Child,
    }
}

/// The guard a host must take before performing an operation's backend call:
/// exactly one, per the table of `guard_of`.
pub fn required_guard(op: PullOp) -> (r: SubResource)
    ensures
        r == guard_of(op),
{
    match op {
        PullOp::Write => SubResource::Writer,
        PullOp::Read => SubResource::Reader,
        PullOp::Resize => SubResource::PtyPair,
        PullOp::Kill => SubResource::ChildKiller,
        PullOp::ExitStatus => SubResource::Child,
    }
}

/// Distinct pull-mode operations acquire distinct guards, so on a backend
/// with independent sub-resources no two different operations on the same
/// session exclude each other — in particular, a write in progress never
/// blocks a read on the same session. Two calls of the same operation on one
/// session share its guard and serialize.
pub proof fn lemma_distinct_ops_do_not_contend(op1: PullOp, op2: PullOp)
    requires
        op1 != op2,
    ensures
        guard_of(op1) != guard_of(op2),
{
}

} // verus!
