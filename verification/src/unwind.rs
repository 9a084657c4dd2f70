//! Stack unwinder: walks the saved-frame-pointer chain of a remote
//! thread into a backtrace of return addresses.
//!
//! The unwinder is a state machine. It is seeded with a thread's initial
//! frame pointer; while it is active, `next_read` names the address at
//! which the surrounding binary must read `FRAME_READ_LENGTH` bytes of
//! the remote stack (the saved frame pointer, then the saved link
//! register, both little-endian), and `feed` consumes the raw reply. The
//! walk ends at a zero saved frame pointer (the root of the call stack),
//! at the hard cap (which also cuts every cycle in a corrupt chain), or
//! at a failed or short read, in which case the partial backtrace
//! gathered so far is kept and marked truncated.
//!
//! The backtrace is ordered innermost first: its first entry is the
//! return address saved in the sampled thread's newest frame, and each
//! later entry belongs to a frame closer to the root.
//!
//! The design reserves no aborted state for internal invariant
//! violations: the state's validity (`UnwindModel::wf`) is proved to
//! hold across every transition, so such a violation cannot occur.
use vstd::prelude::*;

use vstd::bytes::spec_u64_from_le_bytes;
use vstd::bytes::u64_from_le_bytes;
use vstd::slice::slice_subrange;

use crate::remote::ReadReply;

verus! {

/// Bytes read per frame: 8 for the saved frame pointer, 8 for the saved
/// link register, per the target's calling convention.
pub const FRAME_READ_LENGTH: usize = 16;

/// Hard cap on the number of collected return addresses, guarding
/// against corrupt or cyclic frame chains.
pub const BACKTRACE_CAP: usize = 1024;

/// The unwinder's abstract state.
pub struct UnwindModel {
    /// The frame pointer the next read would chase.
    pub fp: u64,
    /// The return addresses collected so far, innermost first.
    pub frames: Seq<u64>,
    /// The hard cap on `frames`.
    pub cap: nat,
    /// Whether the walk still wants another read.
    pub active: bool,
    /// Whether the walk was cut short by a failed or short read.
    pub truncated: bool,
}

impl UnwindModel {
    /// Validity: the backtrace never exceeds the cap, and an active walk
    /// still has room and a nonzero frame pointer.
    pub open spec fn wf(self) -> bool {
        &&& self.frames.len() <= self.cap
        &&& self.active ==> self.frames.len() < self.cap && self.fp != 0
    }
}

/// The state a fresh unwinder starts in: no frames yet, walking exactly
/// when the seed frame pointer is nonzero and the cap leaves room. A
/// zero initial frame pointer means the thread has no walkable frame;
/// the result is an empty, complete backtrace, not an error.
pub open spec fn spec_begin(initial_fp: u64, cap: nat) -> UnwindModel {
    UnwindModel {
        fp: initial_fp,
        frames: Seq::empty(),
        cap,
        active: initial_fp != 0 && cap > 0,
        truncated: false,
    }
}

/// One successful step: append the saved link register, chase the saved
/// frame pointer. The walk stops at a zero saved frame pointer or on
/// reaching the cap. On an inactive state the step changes nothing.
pub open spec fn spec_feed_frame(m: UnwindModel, saved_fp: u64, saved_lr: u64) -> UnwindModel {
    if !m.active {
        m
    } else {
        UnwindModel {
            fp: saved_fp,
            frames: m.frames.push(saved_lr),
            cap: m.cap,
            active: saved_fp != 0 && m.frames.len() + 1 < m.cap,
            truncated: m.truncated,
        }
    }
}

/// A failed or short read: the walk stops where it is and the partial
/// backtrace is kept, marked truncated. On an inactive state nothing
/// changes.
pub open spec fn spec_feed_failure(m: UnwindModel) -> UnwindModel {
    if !m.active {
        m
    } else {
        UnwindModel { active: false, truncated: true, ..m }
    }
}

/// Stack unwinder over a remote thread's frame-pointer chain.
pub struct Unwinder {
    fp: u64,
    frames: Vec<u64>,
    cap: usize,
    active: bool,
    truncated: bool,
}

impl View for Unwinder {
    type V = UnwindModel;

    closed spec fn view(&self) -> UnwindModel {
        UnwindModel {
            fp: self.fp,
            frames: self.frames@,
            cap: self.cap as nat,
            active: self.active,
            truncated: self.truncated,
        }
    }
}

impl Unwinder {
    /// Seeds a walk with a thread's initial frame pointer and the hard
    /// cap on backtrace length.
    pub fn begin(initial_fp: u64, cap: usize) -> (u: Unwinder)
        ensures
            u@ == spec_begin(initial_fp, cap as nat),
            u@.wf(),
    {
        Unwinder {
            fp: initial_fp,
            frames: Vec::new(),
            cap,
            active: initial_fp != 0 && cap > 0,
            truncated: false,
        }
    }

    /// While the walk is active, the address at which the next
    /// `FRAME_READ_LENGTH` bytes of remote stack must be read; `None`
    /// once the walk is over.
    pub fn next_read(&self) -> (r: Option<u64>)
        ensures
            r is Some <==> self@.active,
            r matches Some(a) ==> a == self@.fp,
    {
        if self.active {
            Some(self.fp)
        } else {
            None
        }
    }

    /// Consumes the raw reply to the read that `next_read` asked for.
    /// A reply of exactly `FRAME_READ_LENGTH` bytes advances the walk by
    /// one frame; anything else — a kernel failure or a short read —
    /// ends it with the backtrace truncated.
    pub fn feed(&mut self, reply: ReadReply)
        requires
            old(self)@.wf(),
        ensures
            final(self)@.wf(),
            final(self)@.frames.len() >= old(self)@.frames.len(),
            match reply {
                ReadReply::Bytes(b) => final(self)@ == if b@.len() == FRAME_READ_LENGTH {
                    spec_feed_frame(
                        old(self)@,
                        spec_u64_from_le_bytes(b@.subrange(0, 8)),
                        spec_u64_from_le_bytes(b@.subrange(8, 16)),
                    )
                } else {
                    spec_feed_failure(old(self)@)
                },
                ReadReply::Failed(_) => final(self)@ == spec_feed_failure(old(self)@),
            },
    {
        if !self.active {
            return ;
        }
        match reply {
            ReadReply::Bytes(bytes) => {
                if bytes.len() == FRAME_READ_LENGTH {
                    let saved_fp = u64_from_le_bytes(slice_subrange(bytes.as_slice(), 0, 8));
                    let saved_lr = u64_from_le_bytes(slice_subrange(bytes.as_slice(), 8, 16));
                    self.frames.push(saved_lr);
                    self.fp = saved_fp;
                    self.active = saved_fp != 0 && self.frames.len() < self.cap;
                } else {
                    self.active = false;
                    self.truncated = true;
                }
            },
            ReadReply::Failed(_) => {
                self.active = false;
                self.truncated = true;
            },
        }
    }

    /// Whether the walk is over.
    pub fn finished(&self) -> (b: bool)
        ensures
            b == !self@.active,
    {
        !self.active
    }

    /// Whether the walk ended on a failed or short read, leaving a
    /// partial backtrace.
    pub fn truncated(&self) -> (b: bool)
        ensures
            b == self@.truncated,
    {
        self.truncated
    }

    /// How many return addresses were collected so far.
    pub fn frame_count(&self) -> (n: usize)
        ensures
            n == self@.frames.len(),
    {
        self.frames.len()
    }

    /// Hands out the collected backtrace, innermost frame first.
    pub fn into_backtrace(self) -> (v: Vec<u64>)
        ensures
            v@ == self@.frames,
    {
        self.frames
    }
}

/// Walks the live frame-pointer chain of process `pid` from a thread's
/// initial frame pointer, reading each frame out of the remote process.
///
/// The chain belongs to a running thread and may be mutated under the
/// walk, so nothing can be promised of the collected addresses
/// themselves; what is promised is that the walk always ends, with a
/// valid, finished unwinder whose backtrace is bounded by `cap`, and
/// how it ends: with no walkable frame (a zero seed, or a cap of
/// zero) the result is the fresh, empty, untruncated state, and an
/// untruncated walk stops only at the chain's root or exactly at the
/// cap — a truncated one stopped at a failed or short read.
pub fn unwind_remote(pid: i32, initial_fp: u64, cap: usize) -> (u: Unwinder)
    ensures
        u@.wf(),
        !u@.active,
        u@.cap == cap,
        initial_fp == 0 || cap == 0 ==> u@ == spec_begin(initial_fp, cap as nat),
        !u@.truncated ==> u@.fp == 0 || u@.frames.len() == cap,
{
    let mut u = Unwinder::begin(initial_fp, cap);
    loop
        invariant
            u@.wf(),
            u@.cap == cap,
            !spec_begin(initial_fp, cap as nat).active ==> u@ == spec_begin(
                initial_fp,
                cap as nat,
            ),
            u@.active || u@.truncated || u@.fp == 0 || u@.frames.len() == cap,
        ensures
            u@.wf(),
            u@.cap == cap,
            !u@.active,
            !spec_begin(initial_fp, cap as nat).active ==> u@ == spec_begin(
                initial_fp,
                cap as nat,
            ),
            u@.truncated || u@.fp == 0 || u@.frames.len() == cap,
        decreases u@.cap - u@.frames.len() + (if u@.active {
            1int
        } else {
            0int
        }),
    {
        let addr = match u.next_read() {
            Some(a) => a,
            None => {
                break ;
            },
        };
        let reply = crate::remote::read_process_address(pid, addr, FRAME_READ_LENGTH);
        u.feed(reply);
    }
    u
}

/// Folds a whole sequence of frame records — (saved frame pointer, saved
/// link register) pairs in the order the reads would return them — into
/// the unwinder's state.
pub open spec fn spec_run(m: UnwindModel, chain: Seq<(u64, u64)>) -> UnwindModel
    decreases chain.len(),
{
    if chain.len() == 0 {
        m
    } else {
        spec_run(
            spec_feed_frame(m, chain[0].0, chain[0].1),
            chain.subrange(1, chain.len() as int),
        )
    }
}

/// An inactive unwinder ignores every further frame.
pub proof fn lemma_run_inactive(m: UnwindModel, chain: Seq<(u64, u64)>)
    requires
        !m.active,
    ensures
        spec_run(m, chain) == m,
    decreases chain.len(),
{
    if chain.len() > 0 {
        lemma_run_inactive(m, chain.subrange(1, chain.len() as int));
    }
}

/// Law (complete chain): from any active, valid state with room for the
/// whole chain, a frame chain whose last saved frame pointer is zero and
/// whose earlier ones are nonzero adds exactly one return address per
/// frame, in chain order, and ends the walk without truncation beyond
/// what was already recorded.
pub proof fn lemma_run_chain(m: UnwindModel, chain: Seq<(u64, u64)>)
    requires
        m.wf(),
        m.active,
        1 <= chain.len(),
        m.frames.len() + chain.len() <= m.cap,
        forall|i: int| 0 <= i < chain.len() - 1 ==> (#[trigger] chain[i]).0 != 0,
        chain[chain.len() - 1].0 == 0,
    ensures
        spec_run(m, chain).frames =~= m.frames + chain.map_values(|p: (u64, u64)| p.1),
        !spec_run(m, chain).active,
        spec_run(m, chain).truncated == m.truncated,
    decreases chain.len(),
{
    let rest = chain.subrange(1, chain.len() as int);
    let stepped = spec_feed_frame(m, chain[0].0, chain[0].1);
    if chain.len() == 1 {
        assert(chain[0].0 == 0);
        lemma_run_inactive(stepped, rest);
        assert(stepped.frames =~= m.frames + chain.map_values(|p: (u64, u64)| p.1));
    } else {
        assert(chain[0].0 != 0);
        assert(stepped.active) by {
            assert(m.frames.len() + chain.len() <= m.cap);
            assert(chain.len() >= 2);
        }
        lemma_run_chain(stepped, rest);
        assert(rest[rest.len() - 1] == chain[chain.len() - 1]);
        assert(spec_run(m, chain).frames =~= m.frames + chain.map_values(|p: (u64, u64)| p.1))
            by {
            assert(spec_run(stepped, rest).frames =~= stepped.frames + rest.map_values(
                |p: (u64, u64)| p.1,
            ));
            assert forall|i: int|
                0 <= i < chain.len() implies (m.frames + chain.map_values(|p: (u64, u64)| p.1))[m.frames.len()
                + i] == chain[i].1 by {
                assert(chain.map_values(|p: (u64, u64)| p.1)[i] == chain[i].1);
            }
        }
    }
}

/// Law (cycle guard): from any active, valid state, a chain of nonzero
/// saved frame pointers long enough to fill the cap — in particular a
/// cyclic chain, which never ends on its own — stops the walk exactly at
/// the cap instead of looping forever.
pub proof fn lemma_run_hits_cap(m: UnwindModel, chain: Seq<(u64, u64)>)
    requires
        m.wf(),
        m.active,
        m.frames.len() + chain.len() >= m.cap,
        forall|i: int| 0 <= i < chain.len() ==> (#[trigger] chain[i]).0 != 0,
    ensures
        spec_run(m, chain).frames.len() == m.cap,
        !spec_run(m, chain).active,
        spec_run(m, chain).truncated == m.truncated,
    decreases chain.len(),
{
    let rest = chain.subrange(1, chain.len() as int);
    let stepped = spec_feed_frame(m, chain[0].0, chain[0].1);
    if m.frames.len() + 1 == m.cap {
        assert(!stepped.active);
        lemma_run_inactive(stepped, rest);
    } else {
        lemma_run_hits_cap(stepped, rest);
    }
}

} // verus!
