//! The wait, kill and close decision protocol.
//!
//! A wait combines up to five sources of truth, first answer wins: the
//! handle's cached exit code, the PID registry, a direct `waitpid`, the
//! underlying PTY library's own wait, and — when the child was reaped behind
//! our back with nothing captured — a `kill(pid, 0)` liveness probe whose
//! `ESRCH` answer stands in for "exited, status lost" and reports exit code
//! 0 rather than hanging forever.
//!
//! The protocol runs as an explicit step machine: each step either settles
//! with a reply or names the one outside call to make next, and the caller
//! feeds the call's outcome back in as an event. Every decision between the
//! calls is verified; each step strictly descends a bounded rank, so a wait
//! settles after at most six steps whatever the events are.

use vstd::prelude::*;

verus! {

use crate::PortablePtyResult;
use crate::handle::{ChildState, with_cache};
use crate::status::{
    decode_exit_code,
    is_sentinel,
    spec_exit_code,
    spec_upstream_exit_code,
    upstream_exit_code,
};

/// The two flavours of wait: a non-blocking poll and a blocking wait.
#[derive(Clone, Copy, Debug, PartialEq, Eq, Structural)]
pub enum WaitKind {
    Poll,
    Block,
}

/// Where a wait in progress stands: which source of truth it consults next.
#[derive(Clone, Copy, Debug, PartialEq, Eq, Structural)]
pub enum WaitPhase {
    /// About to consult the registry for the first time.
    AtRegistryFirst,
    /// About to issue the pre-emptive non-blocking `waitpid` (poll only).
    AtWaitpidFirst,
    /// About to delegate to the underlying PTY library's wait.
    AtUpstream,
    /// Upstream failed: about to issue the fallback `waitpid`.
    AtWaitpidFallback,
    /// About to re-consult the registry after a failed reap.
    AtRegistryFallback,
    /// About to probe liveness with `kill(pid, 0)`.
    AtProbe,
    /// The wait has settled with a reply.
    Settled,
}

/// A wait in progress.
#[derive(Clone, Copy, Debug, PartialEq, Eq, Structural)]
pub struct WaitFlow {
    pub mode: WaitKind,
    pub phase: WaitPhase,
}

/// The settled answer of a wait.
#[derive(Clone, Copy, Debug, PartialEq, Eq, Structural)]
pub enum WaitReply {
    /// The child exited with this code, now cached on the handle.
    Exited(i32),
    /// No code to report: still running, never spawned, or unwaitable.
    NotExited(PortablePtyResult),
}

/// What the protocol asks of its caller next.
#[derive(Clone, Copy, Debug, PartialEq, Eq, Structural)]
pub enum WaitStep {
    /// The wait has settled; no further call.
    Done(WaitReply),
    /// Look the child's PID up in the registry and report its slot status.
    Registry,
    /// Issue `waitpid(pid, WNOHANG)` and report its return and status word.
    WaitpidNohang,
    /// Issue a blocking `waitpid(pid, 0)` and report its return and status.
    WaitpidBlocking,
    /// Ask the underlying PTY library: `try_wait` for a poll, `wait` for a
    /// blocking wait.
    Upstream,
    /// Probe liveness with `kill(pid, 0)` and report whether the process is
    /// gone (`ESRCH`) or still there.
    Probe,
}

/// The outcome of the one outside call a step requested.
#[derive(Clone, Copy, Debug, PartialEq, Eq, Structural)]
pub enum WaitEvent {
    /// The raw status word of the slot tracking the PID, or `None` when the
    /// PID is untracked.
    Registry(Option<i32>),
    /// The return value of `waitpid` and the status word it filled in.
    Waitpid(i32, i32),
    /// The underlying library reported the child exited with this raw code.
    UpstreamExited(u32),
    /// The underlying library reported the child still running.
    UpstreamRunning,
    /// The underlying library failed (typically `ECHILD`: reaped elsewhere).
    UpstreamFailed,
    /// `kill(pid, 0)` failed with `ESRCH`: the process no longer exists.
    ProbeGone,
    /// The process still exists (or the probe failed otherwise).
    ProbeAlive,
}

/// The error kind a failed wait of this flavour reports.
pub open spec fn wait_err(mode: WaitKind) -> PortablePtyResult {
    match mode {
        WaitKind::Poll => PortablePtyResult::ErrWait,
        WaitKind::Block => PortablePtyResult::ErrWaitBlocking,
    }
}

/// How many steps a wait in this phase can still take.
pub open spec fn phase_rank(p: WaitPhase) -> nat {
    match p {
        WaitPhase::AtRegistryFirst => 6,
        WaitPhase::AtWaitpidFirst => 5,
        WaitPhase::AtUpstream => 4,
        WaitPhase::AtWaitpidFallback => 3,
        WaitPhase::AtRegistryFallback => 2,
        WaitPhase::AtProbe => 1,
        WaitPhase::Settled => 0,
    }
}

/// Whether an event answers what the phase asked for.
pub open spec fn event_fits(p: WaitPhase, ev: WaitEvent) -> bool {
    match p {
        WaitPhase::AtRegistryFirst => ev is Registry,
        WaitPhase::AtWaitpidFirst => ev is Waitpid,
        WaitPhase::AtUpstream => ev is UpstreamExited || ev is UpstreamRunning
            || ev is UpstreamFailed,
        WaitPhase::AtWaitpidFallback => ev is Waitpid,
        WaitPhase::AtRegistryFallback => ev is Registry,
        WaitPhase::AtProbe => ev is ProbeGone || ev is ProbeAlive,
        WaitPhase::Settled => false,
    }
}

/// What holds of a wait in progress: the handle is well-formed, an unsettled
/// wait has no cached code and a spawned child, and every phase that issues
/// a PID-directed call has a positive PID to direct it at.
pub open spec fn flow_inv(flow: WaitFlow, st: ChildState) -> bool {
    &&& st.wf()
    &&& (flow.phase != WaitPhase::Settled ==> st.cached_exit_code is None && st.has_child)
    &&& (match flow.phase {
        WaitPhase::AtRegistryFirst | WaitPhase::AtWaitpidFirst | WaitPhase::AtWaitpidFallback
            | WaitPhase::AtRegistryFallback | WaitPhase::AtProbe => st.child_pid > 0,
        _ => true,
    })
}

/// A settled exit: cache the code and reply with it.
pub open spec fn settle_exit(st: ChildState, c: i32) -> (WaitPhase, ChildState, WaitStep) {
    (WaitPhase::Settled, with_cache(st, c), WaitStep::Done(WaitReply::Exited(c)))
}

/// A settled non-exit: the state is untouched.
pub open spec fn settle_err(st: ChildState, e: PortablePtyResult) -> (
    WaitPhase,
    ChildState,
    WaitStep,
) {
    (WaitPhase::Settled, st, WaitStep::Done(WaitReply::NotExited(e)))
}

/// Opening decision of a wait: answer from the cache, reject a handle that
/// never spawned, otherwise consult the registry — or go straight to the
/// underlying library when no PID was recorded.
pub open spec fn spec_wait_begin(st: ChildState, mode: WaitKind) -> (WaitPhase, WaitStep) {
    match st.cached_exit_code {
        Some(c) => (WaitPhase::Settled, WaitStep::Done(WaitReply::Exited(c))),
        None => if !st.has_child {
            (WaitPhase::Settled, WaitStep::Done(WaitReply::NotExited(PortablePtyResult::ErrWait)))
        } else if st.child_pid > 0 {
            (WaitPhase::AtRegistryFirst, WaitStep::Registry)
        } else {
            (WaitPhase::AtUpstream, WaitStep::Upstream)
        },
    }
}

/// After the first registry consultation: a concrete slot status settles the
/// wait; a miss sends a poll to the pre-emptive `waitpid` and a blocking
/// wait straight to the underlying library.
pub open spec fn spec_after_registry_first(mode: WaitKind, st: ChildState, slot: Option<i32>) -> (
    WaitPhase,
    ChildState,
    WaitStep,
) {
    match slot {
        Some(raw) => if !is_sentinel(raw) {
            settle_exit(st, spec_exit_code(raw))
        } else {
            spec_registry_first_miss(mode, st)
        },
        None => spec_registry_first_miss(mode, st),
    }
}

/// The registry had nothing: the next source of truth by wait flavour.
pub open spec fn spec_registry_first_miss(mode: WaitKind, st: ChildState) -> (
    WaitPhase,
    ChildState,
    WaitStep,
) {
    match mode {
        WaitKind::Poll => (WaitPhase::AtWaitpidFirst, st, WaitStep::WaitpidNohang),
        WaitKind::Block => (WaitPhase::AtUpstream, st, WaitStep::Upstream),
    }
}

/// After the pre-emptive `waitpid(pid, WNOHANG)`: reaping the child settles
/// the wait; anything else falls through to the underlying library.
pub open spec fn spec_after_waitpid_first(st: ChildState, ret: i32, status: i32) -> (
    WaitPhase,
    ChildState,
    WaitStep,
) {
    if ret == st.child_pid {
        settle_exit(st, spec_exit_code(status))
    } else {
        (WaitPhase::AtUpstream, st, WaitStep::Upstream)
    }
}

/// After the underlying library's wait: an exit settles; a running child
/// settles a poll with `ErrWait`; a failure (the child was reaped elsewhere)
/// enters the fallback chain, which without a recorded PID can only fail.
pub open spec fn spec_after_upstream(mode: WaitKind, st: ChildState, ev: WaitEvent) -> (
    WaitPhase,
    ChildState,
    WaitStep,
) {
    match ev {
        WaitEvent::UpstreamExited(raw) => settle_exit(st, spec_upstream_exit_code(raw)),
        WaitEvent::UpstreamRunning => if mode is Poll {
            settle_err(st, PortablePtyResult::ErrWait)
        } else {
            spec_upstream_failed(mode, st)
        },
        _ => spec_upstream_failed(mode, st),
    }
}

/// The underlying library could not report the child: fall back to a direct
/// `waitpid` when a PID was recorded, else give up.
pub open spec fn spec_upstream_failed(mode: WaitKind, st: ChildState) -> (
    WaitPhase,
    ChildState,
    WaitStep,
) {
    if st.child_pid <= 0 {
        settle_err(st, wait_err(mode))
    } else {
        match mode {
            WaitKind::Poll => (WaitPhase::AtWaitpidFallback, st, WaitStep::WaitpidNohang),
            WaitKind::Block => (WaitPhase::AtWaitpidFallback, st, WaitStep::WaitpidBlocking),
        }
    }
}

/// After the fallback `waitpid`: a reap settles the wait; a poll that finds
/// the child genuinely still running settles with `ErrWait`; a failure
/// (already reaped by someone else) re-consults the registry.
pub open spec fn spec_after_waitpid_fallback(
    mode: WaitKind,
    st: ChildState,
    ret: i32,
    status: i32,
) -> (WaitPhase, ChildState, WaitStep) {
    if ret == st.child_pid {
        settle_exit(st, spec_exit_code(status))
    } else if mode is Poll && ret == 0 {
        settle_err(st, PortablePtyResult::ErrWait)
    } else {
        (WaitPhase::AtRegistryFallback, st, WaitStep::Registry)
    }
}

/// After re-consulting the registry: the handler may have captured the exit
/// between the first consultation and the failed reap; otherwise the last
/// resort is the liveness probe.
pub open spec fn spec_after_registry_fallback(st: ChildState, slot: Option<i32>) -> (
    WaitPhase,
    ChildState,
    WaitStep,
) {
    match slot {
        Some(raw) => if !is_sentinel(raw) {
            settle_exit(st, spec_exit_code(raw))
        } else {
            (WaitPhase::AtProbe, st, WaitStep::Probe)
        },
        None => (WaitPhase::AtProbe, st, WaitStep::Probe),
    }
}

/// After the liveness probe: a process that no longer exists exited with its
/// status unobservable — report exit code 0 rather than an error, so the
/// death is never hidden behind an endless `ErrWait`. A process still there
/// settles with the flavour's error.
pub open spec fn spec_after_probe(mode: WaitKind, st: ChildState, ev: WaitEvent) -> (
    WaitPhase,
    ChildState,
    WaitStep,
) {
    if ev is ProbeGone {
        settle_exit(st, 0)
    } else {
        settle_err(st, wait_err(mode))
    }
}

/// The full transition: one step of the wait protocol.
pub open spec fn spec_wait_advance(flow: WaitFlow, st: ChildState, ev: WaitEvent) -> (
    WaitPhase,
    ChildState,
    WaitStep,
) {
    match flow.phase {
        WaitPhase::AtRegistryFirst => match ev {
            WaitEvent::Registry(slot) => spec_after_registry_first(flow.mode, st, slot),
            _ => settle_err(st, wait_err(flow.mode)),
        },
        WaitPhase::AtWaitpidFirst => match ev {
            WaitEvent::Waitpid(ret, status) => spec_after_waitpid_first(st, ret, status),
            _ => settle_err(st, wait_err(flow.mode)),
        },
        WaitPhase::AtUpstream => spec_after_upstream(flow.mode, st, ev),
        WaitPhase::AtWaitpidFallback => match ev {
            WaitEvent::Waitpid(ret, status) => spec_after_waitpid_fallback(
                flow.mode,
                st,
                ret,
                status,
            ),
            _ => settle_err(st, wait_err(flow.mode)),
        },
        WaitPhase::AtRegistryFallback => match ev {
            WaitEvent::Registry(slot) => spec_after_registry_fallback(st, slot),
            _ => settle_err(st, wait_err(flow.mode)),
        },
        WaitPhase::AtProbe => spec_after_probe(flow.mode, st, ev),
        WaitPhase::Settled => settle_err(st, wait_err(flow.mode)),
    }
}

/// Open a wait of the given flavour on a handle. Settles at once from the
/// cache or for a handle that never spawned; otherwise names the first
/// outside call to make.
pub fn wait_begin(st: &ChildState, mode: WaitKind) -> (r: (WaitFlow, WaitStep))
    requires
        st.wf(),
    ensures
        r.0.mode == mode,
        (r.0.phase, r.1) == spec_wait_begin(*st, mode),
        flow_inv(r.0, *st),
        r.1 is Done <==> r.0.phase is Settled,
        st.cached_exit_code matches Some(c) ==> r.1 == WaitStep::Done(WaitReply::Exited(c)),
{
    match st.cached_exit_code {
        Some(c) => (WaitFlow { mode, phase: WaitPhase::Settled }, WaitStep::Done(
            WaitReply::Exited(c),
        )),
        None => if !st.has_child {
            (WaitFlow { mode, phase: WaitPhase::Settled }, WaitStep::Done(
                WaitReply::NotExited(PortablePtyResult::ErrWait),
            ))
        } else if st.child_pid > 0 {
            (WaitFlow { mode, phase: WaitPhase::AtRegistryFirst }, WaitStep::Registry)
        } else {
            (WaitFlow { mode, phase: WaitPhase::AtUpstream }, WaitStep::Upstream)
        },
    }
}

/// Feed the outcome of the requested call into a wait in progress; returns
/// the next request, or the settled reply. Each step strictly lowers the
/// phase rank, the handle's identity never changes, and the cache is written
/// exactly once — by the settling step that reports an exit.
pub fn wait_advance(flow: &mut WaitFlow, st: &mut ChildState, ev: WaitEvent) -> (step: WaitStep)
    requires
        flow_inv(*old(flow), *old(st)),
        old(flow).phase != WaitPhase::Settled,
        event_fits(old(flow).phase, ev),
    ensures
        final(flow).mode == old(flow).mode,
        final(flow).phase == spec_wait_advance(*old(flow), *old(st), ev).0,
        *final(st) == spec_wait_advance(*old(flow), *old(st), ev).1,
        step == spec_wait_advance(*old(flow), *old(st), ev).2,
        flow_inv(*final(flow), *final(st)),
        phase_rank(final(flow).phase) < phase_rank(old(flow).phase),
        final(st).has_child == old(st).has_child,
        final(st).child_pid == old(st).child_pid,
        step is Done <==> final(flow).phase is Settled,
        step matches WaitStep::Done(WaitReply::Exited(c)) ==> final(st).cached_exit_code
            == Some(c),
        !(step matches WaitStep::Done(WaitReply::Exited(c))) ==> *final(st) == *old(st),
{
    let mode = flow.mode;
    let pid = st.child_pid;
    let step: WaitStep = match flow.phase {
        WaitPhase::AtRegistryFirst => match ev {
            WaitEvent::Registry(slot) => {
                let hit: Option<i32> = concrete_slot(slot);
                match hit {
                    Some(raw) => {
                        let c = decode_exit_code(raw);
                        st.cached_exit_code = Some(c);
                        flow.phase = WaitPhase::Settled;
                        WaitStep::Done(WaitReply::Exited(c))
                    },
                    None => match mode {
                        WaitKind::Poll => {
                            flow.phase = WaitPhase::AtWaitpidFirst;
                            WaitStep::WaitpidNohang
                        },
                        WaitKind::Block => {
                            flow.phase = WaitPhase::AtUpstream;
                            WaitStep::Upstream
                        },
                    },
                }
            },
            _ => {
                flow.phase = WaitPhase::Settled;
                WaitStep::Done(WaitReply::NotExited(err_kind(mode)))
            },
        },
        WaitPhase::AtWaitpidFirst => match ev {
            WaitEvent::Waitpid(ret, status) => {
                if ret == pid {
                    let c = decode_exit_code(status);
                    st.cached_exit_code = Some(c);
                    flow.phase = WaitPhase::Settled;
                    WaitStep::Done(WaitReply::Exited(c))
                } else {
                    flow.phase = WaitPhase::AtUpstream;
                    WaitStep::Upstream
                }
            },
            _ => {
                flow.phase = WaitPhase::Settled;
                WaitStep::Done(WaitReply::NotExited(err_kind(mode)))
            },
        },
        WaitPhase::AtUpstream => match ev {
            WaitEvent::UpstreamExited(raw) => {
                let c = upstream_exit_code(raw);
                st.cached_exit_code = Some(c);
                flow.phase = WaitPhase::Settled;
                WaitStep::Done(WaitReply::Exited(c))
            },
            WaitEvent::UpstreamRunning => {
                if matches!(mode, WaitKind::Poll) {
                    flow.phase = WaitPhase::Settled;
                    WaitStep::Done(WaitReply::NotExited(PortablePtyResult::ErrWait))
                } else if pid <= 0 {
                    flow.phase = WaitPhase::Settled;
                    WaitStep::Done(WaitReply::NotExited(err_kind(mode)))
                } else {
                    flow.phase = WaitPhase::AtWaitpidFallback;
                    WaitStep::WaitpidBlocking
                }
            },
            _ => {
                if pid <= 0 {
                    flow.phase = WaitPhase::Settled;
                    WaitStep::Done(WaitReply::NotExited(err_kind(mode)))
                } else {
                    flow.phase = WaitPhase::AtWaitpidFallback;
                    match mode {
                        WaitKind::Poll => WaitStep::WaitpidNohang,
                        WaitKind::Block => WaitStep::WaitpidBlocking,
                    }
                }
            },
        },
        WaitPhase::AtWaitpidFallback => match ev {
            WaitEvent::Waitpid(ret, status) => {
                if ret == pid {
                    let c = decode_exit_code(status);
                    st.cached_exit_code = Some(c);
                    flow.phase = WaitPhase::Settled;
                    WaitStep::Done(WaitReply::Exited(c))
                } else if matches!(mode, WaitKind::Poll) && ret == 0 {
                    flow.phase = WaitPhase::Settled;
                    WaitStep::Done(WaitReply::NotExited(PortablePtyResult::ErrWait))
                } else {
                    flow.phase = WaitPhase::AtRegistryFallback;
                    WaitStep::Registry
                }
            },
            _ => {
                flow.phase = WaitPhase::Settled;
                WaitStep::Done(WaitReply::NotExited(err_kind(mode)))
            },
        },
        WaitPhase::AtRegistryFallback => match ev {
            WaitEvent::Registry(slot) => {
                let hit: Option<i32> = concrete_slot(slot);
                match hit {
                    Some(raw) => {
                        let c = decode_exit_code(raw);
                        st.cached_exit_code = Some(c);
                        flow.phase = WaitPhase::Settled;
                        WaitStep::Done(WaitReply::Exited(c))
                    },
                    None => {
                        flow.phase = WaitPhase::AtProbe;
                        WaitStep::Probe
                    },
                }
            },
            _ => {
                flow.phase = WaitPhase::Settled;
                WaitStep::Done(WaitReply::NotExited(err_kind(mode)))
            },
        },
        WaitPhase::AtProbe => match ev {
            WaitEvent::ProbeGone => {
                st.cached_exit_code = Some(0);
                flow.phase = WaitPhase::Settled;
                WaitStep::Done(WaitReply::Exited(0))
            },
            _ => {
                flow.phase = WaitPhase::Settled;
                WaitStep::Done(WaitReply::NotExited(err_kind(mode)))
            },
        },
        WaitPhase::Settled => {
            flow.phase = WaitPhase::Settled;
            WaitStep::Done(WaitReply::NotExited(err_kind(mode)))
        },
    };
    step
}

/// The error kind a failed wait of this flavour reports.
fn err_kind(mode: WaitKind) -> (e: PortablePtyResult)
    ensures
        e == wait_err(mode),
{
    match mode {
        WaitKind::Poll => PortablePtyResult::ErrWait,
        WaitKind::Block => PortablePtyResult::ErrWaitBlocking,
    }
}

/// The slot status handed back by a registry lookup, kept only when it is a
/// concrete word rather than a sentinel.
fn concrete_slot(slot: Option<i32>) -> (r: Option<i32>)
    ensures
        r == (match slot {
            Some(raw) => if !is_sentinel(raw) {
                Some(raw)
            } else {
                None::<i32>
            },
            None => None::<i32>,
        }),
{
    match slot {
        Some(raw) => {
            if raw != crate::status::SLOT_RUNNING && raw != crate::status::SLOT_EMPTY {
                Some(raw)
            } else {
                None
            }
        },
        None => None,
    }
}

/// What the kill protocol asks of its caller next.
#[derive(Clone, Copy, Debug, PartialEq, Eq, Structural)]
pub enum KillStep {
    /// The kill has settled; no signal was sent.
    Done(PortablePtyResult),
    /// Look the child's PID up in the registry and report its slot status.
    Registry,
    /// Deliver the caller's signal with `kill(pid, signal)` and report how
    /// that went.
    SendSignal,
}

/// How delivering the signal went.
#[derive(Clone, Copy, Debug, PartialEq, Eq, Structural)]
pub enum SignalOutcome {
    /// `kill` returned 0.
    Delivered,
    /// `kill` failed with `ESRCH`: the child is already gone.
    NoSuchProcess,
    /// `kill` failed otherwise.
    Failed,
}

/// Opening decision of a kill: a child already observed dead makes the kill
/// a silent success; a live PID sends the protocol to the registry first; a
/// handle without a usable PID cannot be signalled.
pub open spec fn spec_kill_begin(st: ChildState) -> KillStep {
    if st.cached_exit_code is Some {
        KillStep::Done(PortablePtyResult::Okay)
    } else if st.child_pid > 0 {
        KillStep::Registry
    } else {
        KillStep::Done(PortablePtyResult::ErrKill)
    }
}

pub fn kill_begin(st: &ChildState) -> (step: KillStep)
    requires
        st.wf(),
    ensures
        step == spec_kill_begin(*st),
        st.cached_exit_code is Some ==> step == KillStep::Done(PortablePtyResult::Okay),
{
    match st.cached_exit_code {
        Some(_) => KillStep::Done(PortablePtyResult::Okay),
        None => {
            if st.child_pid > 0 {
                KillStep::Registry
            } else {
                KillStep::Done(PortablePtyResult::ErrKill)
            }
        },
    }
}

/// After the registry consultation of a kill: a concrete status means the
/// child already exited — cache it and succeed without sending anything;
/// otherwise the signal really is delivered.
pub open spec fn spec_kill_after_registry(st: ChildState, slot: Option<i32>) -> (
    ChildState,
    KillStep,
) {
    match slot {
        Some(raw) => if !is_sentinel(raw) {
            (with_cache(st, spec_exit_code(raw)), KillStep::Done(PortablePtyResult::Okay))
        } else {
            (st, KillStep::SendSignal)
        },
        None => (st, KillStep::SendSignal),
    }
}

pub fn kill_after_registry(st: &mut ChildState, slot: Option<i32>) -> (step: KillStep)
    requires
        old(st).wf(),
        old(st).cached_exit_code is None,
        old(st).child_pid > 0,
    ensures
        *final(st) == spec_kill_after_registry(*old(st), slot).0,
        step == spec_kill_after_registry(*old(st), slot).1,
        final(st).wf(),
        final(st).has_child == old(st).has_child,
        final(st).child_pid == old(st).child_pid,
        step is Done ==> step == KillStep::Done(PortablePtyResult::Okay)
            && final(st).cached_exit_code is Some,
        step is SendSignal ==> *final(st) == *old(st),
{
    let hit: Option<i32> = concrete_slot(slot);
    match hit {
        Some(raw) => {
            let c = decode_exit_code(raw);
            st.cached_exit_code = Some(c);
            KillStep::Done(PortablePtyResult::Okay)
        },
        None => KillStep::SendSignal,
    }
}

/// The settled result of a kill that sent the signal: failure to find the
/// process means the child already exited, which counts as success.
pub open spec fn spec_kill_finish(outcome: SignalOutcome) -> PortablePtyResult {
    match outcome {
        SignalOutcome::Delivered => PortablePtyResult::Okay,
        SignalOutcome::NoSuchProcess => PortablePtyResult::Okay,
        SignalOutcome::Failed => PortablePtyResult::ErrKill,
    }
}

pub fn kill_finish(outcome: SignalOutcome) -> (r: PortablePtyResult)
    ensures
        r == spec_kill_finish(outcome),
{
    match outcome {
        SignalOutcome::Delivered => PortablePtyResult::Okay,
        SignalOutcome::NoSuchProcess => PortablePtyResult::Okay,
        SignalOutcome::Failed => PortablePtyResult::ErrKill,
    }
}

/// A wait on a handle whose exit code is already cached settles at once
/// with that code, in either flavour: once one wait has succeeded, every
/// later wait or blocking wait returns the same code.
pub proof fn lemma_wait_after_exit(st: ChildState, mode: WaitKind, c: i32)
    requires
        st.cached_exit_code == Some(c),
    ensures
        spec_wait_begin(st, mode).1 == WaitStep::Done(WaitReply::Exited(c)),
        spec_wait_begin(st, mode).0 is Settled,
{
}

/// The step that settles a wait with an exit code also caches exactly that
/// code, so by the lemma above every subsequent wait of either flavour
/// repeats it: the first successful observation fixes the answer for good.
pub proof fn lemma_wait_code_stable(
    flow: WaitFlow,
    st: ChildState,
    ev: WaitEvent,
    mode2: WaitKind,
    c: i32,
)
    requires
        flow.phase != WaitPhase::Settled,
        event_fits(flow.phase, ev),
        spec_wait_advance(flow, st, ev).2 == WaitStep::Done(WaitReply::Exited(c)),
    ensures
        spec_wait_advance(flow, st, ev).1.cached_exit_code == Some(c),
        spec_wait_begin(spec_wait_advance(flow, st, ev).1, mode2).1 == WaitStep::Done(
            WaitReply::Exited(c),
        ),
{
}

/// A wait never runs in circles: every step strictly lowers the bounded
/// phase rank, so whatever the events report, a wait settles after at most
/// six steps — in particular it cannot poll the same source forever.
pub proof fn lemma_wait_progress(flow: WaitFlow, st: ChildState, ev: WaitEvent)
    requires
        flow.phase != WaitPhase::Settled,
        event_fits(flow.phase, ev),
    ensures
        phase_rank(spec_wait_advance(flow, st, ev).0) < phase_rank(flow.phase),
        phase_rank(flow.phase) <= 6,
{
}

/// A liveness probe that finds the process gone settles the wait with exit
/// code 0 and caches it — never with an error — so a child whose death was
/// unobservable is still reported dead rather than running forever.
pub proof fn lemma_probe_gone_settles(flow: WaitFlow, st: ChildState)
    requires
        flow.phase is AtProbe,
    ensures
        spec_wait_advance(flow, st, WaitEvent::ProbeGone).2 == WaitStep::Done(
            WaitReply::Exited(0),
        ),
        spec_wait_advance(flow, st, WaitEvent::ProbeGone).1.cached_exit_code == Some(0i32),
{
}

/// A kill that succeeded by observing the child's exit — from the cache or
/// the registry — leaves that exit code cached, and every subsequent wait of
/// either flavour settles at once with the same code rather than an error.
pub proof fn lemma_kill_observed_then_wait(
    st: ChildState,
    slot: Option<i32>,
    mode: WaitKind,
    c: i32,
)
    requires
        st.wf(),
        st.cached_exit_code is None,
        st.child_pid > 0,
        spec_kill_after_registry(st, slot).1 == KillStep::Done(PortablePtyResult::Okay),
        spec_kill_after_registry(st, slot).0.cached_exit_code == Some(c),
    ensures
        spec_wait_begin(spec_kill_after_registry(st, slot).0, mode).1 == WaitStep::Done(
            WaitReply::Exited(c),
        ),
{
}

} // verus!
