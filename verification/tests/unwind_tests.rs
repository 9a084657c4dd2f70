use std::collections::HashMap;

use lrnprof::remote::ReadReply;
use lrnprof::task::registers_from_state;
use lrnprof::unwind::{unwind_remote, Unwinder, BACKTRACE_CAP, FRAME_READ_LENGTH};

fn frame_bytes(saved_fp: u64, saved_lr: u64) -> Vec<u8> {
    let mut v = Vec::new();
    v.extend_from_slice(&saved_fp.to_le_bytes());
    v.extend_from_slice(&saved_lr.to_le_bytes());
    v
}

/// Drives the unwinder against a synthetic remote stack: a map from
/// frame-pointer address to the 16 bytes stored there.
fn run_against(memory: &HashMap<u64, Vec<u8>>, initial_fp: u64, cap: usize) -> Unwinder {
    let mut u = Unwinder::begin(initial_fp, cap);
    while let Some(addr) = u.next_read() {
        match memory.get(&addr) {
            Some(bytes) => u.feed(ReadReply::Bytes(bytes.clone())),
            None => u.feed(ReadReply::Failed(1)),
        }
    }
    u
}

#[test]
fn chain_of_three_ends_at_zero_frame_pointer() {
    assert_eq!(FRAME_READ_LENGTH, 16);
    let mut memory = HashMap::new();
    memory.insert(0x1000, frame_bytes(0x2000, 0x111));
    memory.insert(0x2000, frame_bytes(0x3000, 0x222));
    memory.insert(0x3000, frame_bytes(0, 0x333));
    let u = run_against(&memory, 0x1000, BACKTRACE_CAP);
    assert!(u.finished());
    assert!(!u.truncated());
    assert_eq!(u.into_backtrace(), vec![0x111, 0x222, 0x333]);
}

#[test]
fn zero_initial_frame_pointer_is_empty_not_an_error() {
    let u = Unwinder::begin(0, BACKTRACE_CAP);
    assert!(u.finished());
    assert!(u.next_read().is_none());
    assert!(!u.truncated());
    assert_eq!(u.frame_count(), 0);
    assert!(u.into_backtrace().is_empty());
}

#[test]
fn cyclic_chain_stops_at_the_cap() {
    let mut memory = HashMap::new();
    memory.insert(0x1000, frame_bytes(0x2000, 0xaaa));
    memory.insert(0x2000, frame_bytes(0x1000, 0xbbb)); // cycle back
    let u = run_against(&memory, 0x1000, 8);
    assert!(u.finished());
    assert!(!u.truncated());
    assert_eq!(u.frame_count(), 8);
    assert_eq!(
        u.into_backtrace(),
        vec![0xaaa, 0xbbb, 0xaaa, 0xbbb, 0xaaa, 0xbbb, 0xaaa, 0xbbb]
    );
}

#[test]
fn failed_read_keeps_partial_backtrace_truncated() {
    let mut memory = HashMap::new();
    memory.insert(0x1000, frame_bytes(0x2000, 0x111));
    // nothing mapped at 0x2000: the read fails there
    let u = run_against(&memory, 0x1000, BACKTRACE_CAP);
    assert!(u.finished());
    assert!(u.truncated());
    assert_eq!(u.into_backtrace(), vec![0x111]);
}

#[test]
fn short_read_keeps_partial_backtrace_truncated() {
    let mut u = Unwinder::begin(0x1000, BACKTRACE_CAP);
    u.feed(ReadReply::Bytes(vec![0u8; 8]));
    assert!(u.finished());
    assert!(u.truncated());
    assert_eq!(u.frame_count(), 0);
}

#[test]
fn feeding_a_finished_walk_changes_nothing() {
    let mut u = Unwinder::begin(0x1000, BACKTRACE_CAP);
    u.feed(ReadReply::Bytes(frame_bytes(0, 0x42)));
    assert!(u.finished());
    u.feed(ReadReply::Bytes(frame_bytes(0x9000, 0x43)));
    u.feed(ReadReply::Failed(5));
    assert!(!u.truncated());
    assert_eq!(u.into_backtrace(), vec![0x42]);
}

#[test]
fn remote_unwind_from_zero_frame_pointer_is_empty() {
    // A zero seed asks for no read at all, whatever the process is.
    let u = unwind_remote(1, 0, BACKTRACE_CAP);
    assert!(u.finished());
    assert!(!u.truncated());
    assert!(u.into_backtrace().is_empty());
}

#[test]
fn remote_unwind_always_terminates_within_the_cap() {
    // No process has identifier zero, so the first remote read fails
    // and the walk ends at once, truncated; even if a platform let it
    // proceed, the cap would still bound it.
    let u = unwind_remote(0, 8, 4);
    assert!(u.finished());
    assert!(u.frame_count() <= 4);
}

#[test]
fn scenario_one_thread_three_frame_stack() {
    // End to end from the register snapshot: a thread whose frame
    // pointer chain is F2 -> F1 -> F0 -> 0 yields three return
    // addresses, innermost first.
    let mut state = vec![0u64; 129];
    state[29] = 0x7000; // frame pointer F2
    state[30] = 0x111; // link register
    state[31] = 0x6f00; // stack pointer
    state[32] = 0x4242; // program counter
    let regs = registers_from_state(0, 129, state).expect("register snapshot must decode");
    assert_eq!(regs.frame_pointer, 0x7000);
    assert_eq!(regs.program_counter, 0x4242);

    let mut memory = HashMap::new();
    memory.insert(0x7000, frame_bytes(0x7100, 0xf2f2)); // F2 -> F1
    memory.insert(0x7100, frame_bytes(0x7200, 0xf1f1)); // F1 -> F0
    memory.insert(0x7200, frame_bytes(0, 0xf0f0)); // F0 -> root
    let u = run_against(&memory, regs.frame_pointer, BACKTRACE_CAP);
    assert!(u.finished());
    assert!(!u.truncated());
    assert_eq!(u.into_backtrace(), vec![0xf2f2, 0xf1f1, 0xf0f0]);
}
