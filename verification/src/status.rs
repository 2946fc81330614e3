//! Encoding and decoding of `waitpid` status words.
//!
//! A single `i32` word is the uniform carrier of a child's exit status: the
//! direct `waitpid` path stores the kernel's raw word, and the SIGCHLD
//! handler synthesizes an equivalent word from the `siginfo_t` fields, so
//! that one decoder serves both. Two sentinels, taken from the most negative
//! representable values so they cannot collide with any legal status word,
//! mark a registry slot that is unused or whose child is still running.

use vstd::prelude::*;

verus! {

/// Sentinel status: the slot is claimed and the child has not been observed
/// to exit yet.
pub const SLOT_RUNNING: i32 = i32::MIN;

/// Sentinel status: the slot is unused.
pub const SLOT_EMPTY: i32 = i32::MIN + 1;

/// `si_code` value: the child exited normally.
pub const CLD_EXITED: i32 = 1;

/// `si_code` value: the child was killed by a signal.
pub const CLD_KILLED: i32 = 2;

/// `si_code` value: the child was killed by a signal and dumped core.
pub const CLD_DUMPED: i32 = 3;

/// A word that is one of the two slot sentinels rather than a status.
pub open spec fn is_sentinel(w: i32) -> bool {
    w == SLOT_RUNNING || w == SLOT_EMPTY
}

/// The status word records a normal exit: the low seven bits are clear.
pub open spec fn exited_normally(w: i32) -> bool {
    w & 0x7f == 0
}

/// The status word records termination by a signal: the low seven bits hold
/// the signal number, which is neither zero nor the stop marker `0x7f`.
pub open spec fn killed_by_signal(w: i32) -> bool {
    w & 0x7f != 0 && w & 0x7f != 0x7f
}

/// The exit code that a status word denotes: the stored code for a normal
/// exit, `128 + signal` for death by a signal (the core-dump bit is
/// ignored), and `-1` for anything else.
pub open spec fn spec_exit_code(w: i32) -> i32 {
    if exited_normally(w) {
        (w >> 8) & 0xff
    } else if killed_by_signal(w) {
        ((w & 0x7f) + 128) as i32
    } else {
        -1i32
    }
}

/// Decode a raw `waitpid` status word into the caller-facing exit code.
pub fn decode_exit_code(w: i32) -> (code: i32)
    ensures
        code == spec_exit_code(w),
{
    let low = w & 0x7f;
    assert(0 <= w & 0x7f < 128) by (bit_vector);
    if low == 0 {
        (w >> 8) & 0xff
    } else if low != 0x7f {
        low + 128
    } else {
        -1
    }
}

/// The status word that the handler synthesizes from the `siginfo_t` fields,
/// or `None` when `si_code` reports something other than a termination.
pub open spec fn spec_synth_status(si_code: i32, si_status: i32) -> Option<i32> {
    if si_code == CLD_EXITED {
        Some((si_status & 0xff) << 8)
    } else if si_code == CLD_KILLED {
        Some(si_status & 0x7f)
    } else if si_code == CLD_DUMPED {
        Some((si_status & 0x7f) | 0x80)
    } else {
        None
    }
}

/// Synthesize a `waitpid`-style status word from the `si_code` and
/// `si_status` fields of a SIGCHLD delivery, so that the registry can decode
/// it uniformly. A synthesized word is never a sentinel.
pub fn synth_status(si_code: i32, si_status: i32) -> (r: Option<i32>)
    ensures
        r == spec_synth_status(si_code, si_status),
        r matches Some(w) ==> 0 <= w <= 0xff00,
{
    if si_code == CLD_EXITED {
        let masked = si_status & 0xff;
        assert(0 <= si_status & 0xff < 256) by (bit_vector);
        assert((si_status & 0xff) << 8 <= 0xff00 && (si_status & 0xff) << 8 >= 0) by (bit_vector);
        Some(masked << 8)
    } else if si_code == CLD_KILLED {
        assert(0 <= si_status & 0x7f < 128) by (bit_vector);
        Some(si_status & 0x7f)
    } else if si_code == CLD_DUMPED {
        assert(0 <= (si_status & 0x7f) | 0x80 <= 0xff) by (bit_vector);
        Some((si_status & 0x7f) | 0x80)
    } else {
        None
    }
}

/// The exit code reported for a child that the underlying PTY library
/// observed: its unsigned code when it fits an `i32`, and `-1` otherwise.
pub open spec fn spec_upstream_exit_code(raw: u32) -> i32 {
    if raw <= 0x7fff_ffff {
        raw as i32
    } else {
        -1i32
    }
}

/// Convert the unsigned exit code of the underlying PTY library into the
/// signed caller-facing code.
pub fn upstream_exit_code(raw: u32) -> (code: i32)
    ensures
        code == spec_upstream_exit_code(raw),
{
    if raw <= 0x7fff_ffff {
        raw as i32
    } else {
        -1
    }
}

/// A word synthesized for a normal exit decodes back to the child's own exit
/// code: the two halves of the codec agree on every `si_status`.
pub proof fn lemma_synth_exited_roundtrip(si_status: i32)
    ensures
        spec_synth_status(CLD_EXITED, si_status) matches Some(w) && spec_exit_code(w)
            == si_status & 0xff,
{
    assert(((si_status & 0xff) << 8) & 0x7f == 0 && (((si_status & 0xff) << 8) >> 8) & 0xff
        == si_status & 0xff) by (bit_vector);
}

/// A word synthesized for death by a real signal (one that is neither zero
/// nor the stop marker) decodes to `128 + signal`, with or without the
/// core-dump bit.
pub proof fn lemma_synth_signal_roundtrip(si_status: i32)
    requires
        0 < si_status & 0x7f < 0x7f,
    ensures
        spec_synth_status(CLD_KILLED, si_status) matches Some(w) && spec_exit_code(w)
            == (si_status & 0x7f) + 128,
        spec_synth_status(CLD_DUMPED, si_status) matches Some(w) && spec_exit_code(w)
            == (si_status & 0x7f) + 128,
{
    assert((si_status & 0x7f) & 0x7f == si_status & 0x7f) by (bit_vector);
    assert(((si_status & 0x7f) | 0x80) & 0x7f == si_status & 0x7f) by (bit_vector);
}

} // verus!
