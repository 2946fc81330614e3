use ptycore::status::{
    decode_exit_code, synth_status, upstream_exit_code, CLD_DUMPED, CLD_EXITED, CLD_KILLED,
    SLOT_EMPTY, SLOT_RUNNING,
};

#[test]
fn decode_normal_exit() {
    assert_eq!(decode_exit_code(0), 0);
    assert_eq!(decode_exit_code(7 << 8), 7);
    assert_eq!(decode_exit_code(0xff << 8), 0xff);
}

#[test]
fn decode_signal_termination() {
    // SIGTERM (15) follows the shell convention 128 + signal.
    assert_eq!(decode_exit_code(15), 143);
    // The core-dump bit is ignored for the exit-code value.
    assert_eq!(decode_exit_code(15 | 0x80), 143);
    assert_eq!(decode_exit_code(9), 137);
}

#[test]
fn decode_unknown_word() {
    // A stopped-child word (low bits 0x7f) decodes to -1.
    assert_eq!(decode_exit_code(0x7f), -1);
    assert_eq!(decode_exit_code(0x057f), -1);
}

#[test]
fn synth_normal_exit_roundtrip() {
    let w = synth_status(CLD_EXITED, 7).unwrap();
    assert_eq!(w, 7 << 8);
    assert_eq!(decode_exit_code(w), 7);
    let w0 = synth_status(CLD_EXITED, 0).unwrap();
    assert_eq!(decode_exit_code(w0), 0);
}

#[test]
fn synth_killed_roundtrip() {
    let w = synth_status(CLD_KILLED, 15).unwrap();
    assert_eq!(w, 15);
    assert_eq!(decode_exit_code(w), 143);
}

#[test]
fn synth_dumped_roundtrip() {
    let w = synth_status(CLD_DUMPED, 11).unwrap();
    assert_eq!(w, 11 | 0x80);
    assert_eq!(decode_exit_code(w), 128 + 11);
}

#[test]
fn synth_other_codes_rejected() {
    // CLD_TRAPPED, CLD_STOPPED, CLD_CONTINUED and the like synthesize nothing.
    assert_eq!(synth_status(4, 5), None);
    assert_eq!(synth_status(0, 0), None);
    assert_eq!(synth_status(-1, 3), None);
}

#[test]
fn synth_never_a_sentinel() {
    for code in [CLD_EXITED, CLD_KILLED, CLD_DUMPED] {
        for st in [0, 1, 15, 0x7f, 0xff, -1, i32::MIN, i32::MAX] {
            if let Some(w) = synth_status(code, st) {
                assert_ne!(w, SLOT_RUNNING);
                assert_ne!(w, SLOT_EMPTY);
            }
        }
    }
}

#[test]
fn upstream_code_conversion() {
    assert_eq!(upstream_exit_code(0), 0);
    assert_eq!(upstream_exit_code(7), 7);
    assert_eq!(upstream_exit_code(u32::MAX), -1);
    assert_eq!(upstream_exit_code(i32::MAX as u32), i32::MAX);
}

#[test]
fn sentinels_are_distinct_and_illegal() {
    assert_ne!(SLOT_RUNNING, SLOT_EMPTY);
    // The two most negative values cannot collide with any status word the
    // handler synthesizes or waitpid reports.
    assert!(SLOT_RUNNING < 0);
    assert!(SLOT_EMPTY < 0);
}
