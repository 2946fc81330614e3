//! Per-handle child bookkeeping.
//!
//! A handle owns the PTY pair and its streams outside this library; what the
//! wait, kill and close protocols decide on is the plain state mirrored
//! here: whether a child was spawned, its PID, and the once-set cached exit
//! code. The cache is write-once — after the first successful observation
//! every later wait answers from it — which is what makes repeated waits
//! deterministic even after the process has been reaped.

use vstd::prelude::*;

verus! {

/// The child-related state of one PTY handle.
#[derive(Clone, Copy, Debug, PartialEq, Eq, Structural)]
pub struct ChildState {
    /// Whether a child object is attached to the handle.
    pub has_child: bool,
    /// The child's PID, or -1 when none was recorded.
    pub child_pid: i32,
    /// The exit code cached by the first successful wait observation.
    pub cached_exit_code: Option<i32>,
}

impl ChildState {
    /// A recorded positive PID implies a child is attached: a handle that
    /// never spawned keeps `child_pid <= 0`.
    pub open spec fn wf(self) -> bool {
        self.child_pid > 0 ==> self.has_child
    }

    /// The state of a freshly opened handle: no child, no PID, no cache.
    pub fn new() -> (s: ChildState)
        ensures
            !s.has_child,
            s.child_pid == -1,
            s.cached_exit_code is None,
            s.wf(),
    {
        ChildState { has_child: false, child_pid: -1, cached_exit_code: None }
    }

    /// Record a successful spawn: the child is attached and its PID (or -1
    /// when the platform reported none) is fixed from here on.
    pub fn on_spawn(&mut self, pid: i32)
        ensures
            final(self).has_child,
            final(self).child_pid == pid,
            final(self).cached_exit_code == old(self).cached_exit_code,
            final(self).wf(),
    {
        self.has_child = true;
        self.child_pid = pid;
    }
}

/// The state after caching an observed exit code.
pub open spec fn with_cache(st: ChildState, c: i32) -> ChildState {
    ChildState { cached_exit_code: Some(c), ..st }
}

/// What closing a handle does before dropping it: release the registry slot
/// of a recorded PID, best-effort terminate and reap an attached child, and
/// finish with one direct non-blocking reap so no zombie lingers.
#[derive(Clone, Copy, Debug, PartialEq, Eq, Structural)]
pub struct ClosePlan {
    /// The PID to unregister, if one was recorded.
    pub unregister: Option<i32>,
    /// Whether an attached child should be killed and waited, errors ignored.
    pub reap_child: bool,
    /// The PID for the final non-blocking direct reap, if any.
    pub final_reap: Option<i32>,
}

/// The close decisions for a handle in state `st`.
pub fn close_plan(st: &ChildState) -> (p: ClosePlan)
    ensures
        p.unregister == (if st.child_pid > 0 {
            Some(st.child_pid)
        } else {
            None::<i32>
        }),
        p.reap_child == st.has_child,
        p.final_reap == (if st.has_child && st.child_pid > 0 {
            Some(st.child_pid)
        } else {
            None::<i32>
        }),
{
    ClosePlan {
        unregister: if st.child_pid > 0 {
            Some(st.child_pid)
        } else {
            None
        },
        reap_child: st.has_child,
        final_reap: if st.has_child && st.child_pid > 0 {
            Some(st.child_pid)
        } else {
            None
        },
    }
}

/// Extract the canonical-mode and echo bits from a terminal's local mode
/// word, given the platform's masks for them.
pub fn decode_mode_flags(lflag: u64, icanon_mask: u64, echo_mask: u64) -> (r: (bool, bool))
    ensures
        r.0 == (lflag & icanon_mask != 0),
        r.1 == (lflag & echo_mask != 0),
{
    (lflag & icanon_mask != 0, lflag & echo_mask != 0)
}

} // verus!
