//! Scripted, deterministic implementations of the two capabilities.
//!
//! Each follows a small script: report "not ready" a fixed number of times,
//! then yield a fixed outcome. Their transition relations pin every step
//! down exactly, and they record what was asked of them (how many calls,
//! on which target), so a caller can observe — and prove — precisely what a
//! connect operation did with them. They serve as reference implementations
//! and as collaborator doubles for tests.

use vstd::prelude::*;
use crate::addr::NetAddr;
use crate::service::{ConnectService, Duplicate, Resolve};
use crate::task::{PollTask, TaskPoll};

verus! {

/// `c` is `c0 + 1`, stopping at the top of `u64` rather than wrapping.
pub open spec fn counted_up(c0: u64, c: u64) -> bool {
    c == if c0 == u64::MAX {
        c0 as int
    } else {
        c0 + 1
    }
}

/// An in-flight scripted lookup: pending `delays` more times, then the fixed
/// outcome. A spent handle keeps reporting its outcome.
#[derive(PartialEq, Eq, Debug)]
pub struct ScriptLookup<E> {
    /// How many more polls report `Pending`.
    pub delays: u64,
    /// What the lookup finally yields.
    pub outcome: Result<NetAddr, E>,
}

impl<E: Copy> PollTask for ScriptLookup<E> {
    type Item = NetAddr;

    type Error = E;

    open spec fn poll_spec(pre: Self, post: Self, r: TaskPoll<NetAddr, E>) -> bool {
        if pre.delays > 0 {
            &&& post == ScriptLookup { delays: (pre.delays - 1) as u64, outcome: pre.outcome }
            &&& r is Pending
        } else {
            &&& post == pre
            &&& r == match pre.outcome {
                Ok(a) => TaskPoll::<NetAddr, E>::Ready(a),
                Err(e) => TaskPoll::<NetAddr, E>::Failed(e),
            }
        }
    }

    fn poll(&mut self) -> (r: TaskPoll<NetAddr, E>) {
        if self.delays > 0 {
            self.delays = self.delays - 1;
            TaskPoll::Pending
        } else {
            match self.outcome {
                Ok(a) => TaskPoll::Ready(a),
                Err(e) => TaskPoll::Failed(e),
            }
        }
    }
}

/// A scripted resolver: every lookup hands out the same scripted handle, and
/// the resolver counts the lookups and keeps the target most recently asked
/// of it.
pub struct ScriptResolver<Target, E> {
    /// The script of each handle it hands out: polls that report `Pending`.
    pub delays: u64,
    /// The script's final outcome.
    pub outcome: Result<NetAddr, E>,
    /// How many lookups were started, saturating at the top of `u64`.
    pub calls: u64,
    /// The target most recently looked up.
    pub last: Option<Target>,
}

impl<Target, E: Copy> Resolve<Target> for ScriptResolver<Target, E> {
    type Error = E;

    type Future = ScriptLookup<E>;

    open spec fn lookup_spec(
        pre: Self,
        post: Self,
        target: Target,
        fut: ScriptLookup<E>,
    ) -> bool {
        &&& fut == ScriptLookup { delays: pre.delays, outcome: pre.outcome }
        &&& post.delays == pre.delays
        &&& post.outcome == pre.outcome
        &&& counted_up(pre.calls, post.calls)
        &&& post.last == Some(target)
    }

    fn lookup(&mut self, target: Target) -> (fut: ScriptLookup<E>) {
        if self.calls < u64::MAX {
            self.calls = self.calls + 1;
        }
        self.last = Some(target);
        ScriptLookup { delays: self.delays, outcome: self.outcome }
    }
}

/// An in-flight scripted connection attempt: pending `delays` more times,
/// then the fixed outcome. A spent handle keeps reporting its outcome.
#[derive(PartialEq, Eq, Debug)]
pub struct ScriptConnect<T, E> {
    /// How many more polls report `Pending`.
    pub delays: u64,
    /// What the attempt finally yields.
    pub outcome: Result<T, E>,
}

impl<T: Copy, E: Copy> PollTask for ScriptConnect<T, E> {
    type Item = T;

    type Error = E;

    open spec fn poll_spec(pre: Self, post: Self, r: TaskPoll<T, E>) -> bool {
        if pre.delays > 0 {
            &&& post == ScriptConnect { delays: (pre.delays - 1) as u64, outcome: pre.outcome }
            &&& r is Pending
        } else {
            &&& post == pre
            &&& r == match pre.outcome {
                Ok(c) => TaskPoll::<T, E>::Ready(c),
                Err(e) => TaskPoll::<T, E>::Failed(e),
            }
        }
    }

    fn poll(&mut self) -> (r: TaskPoll<T, E>) {
        if self.delays > 0 {
            self.delays = self.delays - 1;
            TaskPoll::Pending
        } else {
            match self.outcome {
                Ok(c) => TaskPoll::Ready(c),
                Err(e) => TaskPoll::Failed(e),
            }
        }
    }
}

/// A scripted establisher: every connect call hands out the same scripted
/// attempt handle, and the establisher counts the calls and keeps the
/// address most recently connected to. Duplication copies it exactly, so a
/// copy's counters start where the original's stood and move independently.
#[derive(PartialEq, Eq, Debug)]
pub struct ScriptEstablisher<T, E> {
    /// The script of each handle it hands out: polls that report `Pending`.
    pub delays: u64,
    /// The script's final outcome.
    pub outcome: Result<T, E>,
    /// How many connection attempts were started, saturating at the top of
    /// `u64`.
    pub calls: u64,
    /// The address most recently connected to.
    pub last: Option<NetAddr>,
}

impl<T: Copy, E: Copy> ConnectService<NetAddr> for ScriptEstablisher<T, E> {
    type Response = T;

    type Error = E;

    type Future = ScriptConnect<T, E>;

    open spec fn connect_spec(
        pre: Self,
        post: Self,
        target: NetAddr,
        fut: ScriptConnect<T, E>,
    ) -> bool {
        &&& fut == ScriptConnect { delays: pre.delays, outcome: pre.outcome }
        &&& post.delays == pre.delays
        &&& post.outcome == pre.outcome
        &&& counted_up(pre.calls, post.calls)
        &&& post.last == Some(target)
    }

    fn connect(&mut self, target: NetAddr) -> (fut: ScriptConnect<T, E>) {
        if self.calls < u64::MAX {
            self.calls = self.calls + 1;
        }
        self.last = Some(target);
        ScriptConnect { delays: self.delays, outcome: self.outcome }
    }
}

impl<T: Copy, E: Copy> Duplicate for ScriptEstablisher<T, E> {
    open spec fn dup_spec(orig: Self, copy: Self) -> bool {
        copy == orig
    }

    fn duplicate(&self) -> (copy: Self) {
        ScriptEstablisher {
            delays: self.delays,
            outcome: self.outcome,
            calls: self.calls,
            last: self.last,
        }
    }
}

} // verus!
