use ptycore::handle::{close_plan, decode_mode_flags, ChildState};
use ptycore::protocol::{
    kill_after_registry, kill_begin, kill_finish, wait_advance, wait_begin, KillStep,
    SignalOutcome, WaitEvent, WaitKind, WaitReply, WaitStep,
};
use ptycore::status::SLOT_RUNNING;
use ptycore::PortablePtyResult;

fn spawned(pid: i32) -> ChildState {
    let mut st = ChildState::new();
    st.on_spawn(pid);
    st
}

#[test]
fn wait_without_child_is_errwait() {
    let st = ChildState::new();
    let (_, step) = wait_begin(&st, WaitKind::Poll);
    assert_eq!(
        step,
        WaitStep::Done(WaitReply::NotExited(PortablePtyResult::ErrWait))
    );
    let (_, step) = wait_begin(&st, WaitKind::Block);
    assert_eq!(
        step,
        WaitStep::Done(WaitReply::NotExited(PortablePtyResult::ErrWait))
    );
}

#[test]
fn poll_still_running_reports_errwait() {
    let mut st = spawned(100);
    let (mut flow, step) = wait_begin(&st, WaitKind::Poll);
    assert_eq!(step, WaitStep::Registry);
    // The registry slot is still marked running.
    let step = wait_advance(&mut flow, &mut st, WaitEvent::Registry(Some(SLOT_RUNNING)));
    assert_eq!(step, WaitStep::WaitpidNohang);
    // waitpid(pid, WNOHANG) returns 0: genuinely still running.
    let step = wait_advance(&mut flow, &mut st, WaitEvent::Waitpid(0, 0));
    assert_eq!(step, WaitStep::Upstream);
    let step = wait_advance(&mut flow, &mut st, WaitEvent::UpstreamRunning);
    assert_eq!(
        step,
        WaitStep::Done(WaitReply::NotExited(PortablePtyResult::ErrWait))
    );
    assert_eq!(st.cached_exit_code, None);
}

#[test]
fn poll_reaps_via_waitpid() {
    let mut st = spawned(100);
    let (mut flow, _) = wait_begin(&st, WaitKind::Poll);
    let step = wait_advance(&mut flow, &mut st, WaitEvent::Registry(None));
    assert_eq!(step, WaitStep::WaitpidNohang);
    // waitpid reaps the child with a normal exit, code 7.
    let step = wait_advance(&mut flow, &mut st, WaitEvent::Waitpid(100, 7 << 8));
    assert_eq!(step, WaitStep::Done(WaitReply::Exited(7)));
    assert_eq!(st.cached_exit_code, Some(7));
}

#[test]
fn second_wait_returns_the_cached_code() {
    let mut st = spawned(100);
    let (mut flow, _) = wait_begin(&st, WaitKind::Poll);
    let _ = wait_advance(&mut flow, &mut st, WaitEvent::Registry(Some(7 << 8)));
    assert_eq!(st.cached_exit_code, Some(7));
    // Every subsequent wait, of either flavour, answers at once from the
    // cache with the identical code.
    let (_, step) = wait_begin(&st, WaitKind::Poll);
    assert_eq!(step, WaitStep::Done(WaitReply::Exited(7)));
    let (_, step) = wait_begin(&st, WaitKind::Block);
    assert_eq!(step, WaitStep::Done(WaitReply::Exited(7)));
}

#[test]
fn blocking_wait_happy_path() {
    let mut st = spawned(200);
    let (mut flow, step) = wait_begin(&st, WaitKind::Block);
    assert_eq!(step, WaitStep::Registry);
    let step = wait_advance(&mut flow, &mut st, WaitEvent::Registry(Some(SLOT_RUNNING)));
    assert_eq!(step, WaitStep::Upstream);
    // The underlying library's blocking wait reports exit code 0.
    let step = wait_advance(&mut flow, &mut st, WaitEvent::UpstreamExited(0));
    assert_eq!(step, WaitStep::Done(WaitReply::Exited(0)));
    assert_eq!(st.cached_exit_code, Some(0));
}

#[test]
fn blocking_wait_foreign_reaper_race() {
    // A foreign SIGCHLD handler reaped the child: upstream fails with
    // ECHILD, the direct waitpid fails too, but our handler captured the
    // exit (code 7) in the registry between the two consultations.
    let mut st = spawned(300);
    let (mut flow, _) = wait_begin(&st, WaitKind::Block);
    let step = wait_advance(&mut flow, &mut st, WaitEvent::Registry(Some(SLOT_RUNNING)));
    assert_eq!(step, WaitStep::Upstream);
    let step = wait_advance(&mut flow, &mut st, WaitEvent::UpstreamFailed);
    assert_eq!(step, WaitStep::WaitpidBlocking);
    let step = wait_advance(&mut flow, &mut st, WaitEvent::Waitpid(-1, 0));
    assert_eq!(step, WaitStep::Registry);
    let step = wait_advance(&mut flow, &mut st, WaitEvent::Registry(Some(7 << 8)));
    assert_eq!(step, WaitStep::Done(WaitReply::Exited(7)));
    assert_eq!(st.cached_exit_code, Some(7));
}

#[test]
fn blocking_wait_signal_termination() {
    // The child killed itself with SIGTERM; the handler synthesized the
    // status word and the wait reports 128 + 15.
    let mut st = spawned(310);
    let w = ptycore::status::synth_status(ptycore::status::CLD_KILLED, 15).unwrap();
    let (mut flow, _) = wait_begin(&st, WaitKind::Block);
    let step = wait_advance(&mut flow, &mut st, WaitEvent::Registry(Some(w)));
    assert_eq!(step, WaitStep::Done(WaitReply::Exited(143)));
}

#[test]
fn esrch_probe_reports_exit_zero() {
    // The child is gone and nothing captured its status: the liveness probe
    // turns ESRCH into a successful wait with exit code 0.
    let mut st = spawned(400);
    let (mut flow, _) = wait_begin(&st, WaitKind::Block);
    let _ = wait_advance(&mut flow, &mut st, WaitEvent::Registry(None));
    let _ = wait_advance(&mut flow, &mut st, WaitEvent::UpstreamFailed);
    let step = wait_advance(&mut flow, &mut st, WaitEvent::Waitpid(-1, 0));
    assert_eq!(step, WaitStep::Registry);
    let step = wait_advance(&mut flow, &mut st, WaitEvent::Registry(None));
    assert_eq!(step, WaitStep::Probe);
    let step = wait_advance(&mut flow, &mut st, WaitEvent::ProbeGone);
    assert_eq!(step, WaitStep::Done(WaitReply::Exited(0)));
    assert_eq!(st.cached_exit_code, Some(0));
}

#[test]
fn probe_alive_keeps_waiting() {
    let mut st = spawned(410);
    let (mut flow, _) = wait_begin(&st, WaitKind::Poll);
    let _ = wait_advance(&mut flow, &mut st, WaitEvent::Registry(None));
    let _ = wait_advance(&mut flow, &mut st, WaitEvent::Waitpid(-1, 0));
    let _ = wait_advance(&mut flow, &mut st, WaitEvent::UpstreamFailed);
    let _ = wait_advance(&mut flow, &mut st, WaitEvent::Waitpid(-1, 0));
    let step = wait_advance(&mut flow, &mut st, WaitEvent::Registry(None));
    assert_eq!(step, WaitStep::Probe);
    let step = wait_advance(&mut flow, &mut st, WaitEvent::ProbeAlive);
    assert_eq!(
        step,
        WaitStep::Done(WaitReply::NotExited(PortablePtyResult::ErrWait))
    );
    assert_eq!(st.cached_exit_code, None);
}

#[test]
fn kill_with_cached_code_is_silent_success() {
    let mut st = spawned(500);
    st.cached_exit_code = Some(0);
    assert_eq!(kill_begin(&st), KillStep::Done(PortablePtyResult::Okay));
}

#[test]
fn kill_after_exit_then_wait_agrees() {
    // Kill on a child that already exited (registry holds a normal exit,
    // code 0): the kill succeeds without a signal and the next wait returns
    // the same code.
    let mut st = spawned(510);
    assert_eq!(kill_begin(&st), KillStep::Registry);
    let step = kill_after_registry(&mut st, Some(0));
    assert_eq!(step, KillStep::Done(PortablePtyResult::Okay));
    assert_eq!(st.cached_exit_code, Some(0));
    let (_, step) = wait_begin(&st, WaitKind::Poll);
    assert_eq!(step, WaitStep::Done(WaitReply::Exited(0)));
}

#[test]
fn kill_send_signal_outcomes() {
    let mut st = spawned(520);
    assert_eq!(kill_begin(&st), KillStep::Registry);
    // Slot still running: the signal really goes out.
    let step = kill_after_registry(&mut st, Some(SLOT_RUNNING));
    assert_eq!(step, KillStep::SendSignal);
    assert_eq!(kill_finish(SignalOutcome::Delivered), PortablePtyResult::Okay);
    // A child already gone (ESRCH) still counts as success.
    assert_eq!(
        kill_finish(SignalOutcome::NoSuchProcess),
        PortablePtyResult::Okay
    );
    assert_eq!(kill_finish(SignalOutcome::Failed), PortablePtyResult::ErrKill);
}

#[test]
fn kill_without_child_fails() {
    let st = ChildState::new();
    assert_eq!(kill_begin(&st), KillStep::Done(PortablePtyResult::ErrKill));
}

#[test]
fn close_plan_reaps_and_unregisters() {
    let st = spawned(600);
    let p = close_plan(&st);
    assert_eq!(p.unregister, Some(600));
    assert!(p.reap_child);
    assert_eq!(p.final_reap, Some(600));

    let fresh = ChildState::new();
    let p = close_plan(&fresh);
    assert_eq!(p.unregister, None);
    assert!(!p.reap_child);
    assert_eq!(p.final_reap, None);
}

#[test]
fn mode_flags_extraction() {
    // Linux masks: ICANON = 0x2, ECHO = 0x8.
    assert_eq!(decode_mode_flags(0x2 | 0x8, 0x2, 0x8), (true, true));
    assert_eq!(decode_mode_flags(0x8, 0x2, 0x8), (false, true));
    assert_eq!(decode_mode_flags(0x2, 0x2, 0x8), (true, false));
    assert_eq!(decode_mode_flags(0, 0x2, 0x8), (false, false));
}

#[test]
fn fresh_handle_state() {
    let st = ChildState::new();
    assert!(!st.has_child);
    assert_eq!(st.child_pid, -1);
    assert_eq!(st.cached_exit_code, None);
    let st = spawned(42);
    assert!(st.has_child);
    assert_eq!(st.child_pid, 42);
    assert_eq!(st.cached_exit_code, None);
}
