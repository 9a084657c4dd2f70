//! A single-shot sampling profiler for a native process: attach to a live
//! process, read per-thread CPU accounting and register state, walk the
//! saved-frame-pointer chain into a backtrace, parse the target's Mach-O
//! image, and resolve captured addresses to symbol names.
//!
//! Everything that decides or computes lives here, verified; the operating
//! system calls themselves (attaching, reading remote memory, listing
//! threads) are performed by the surrounding binary, which feeds their raw
//! results to the functions of this crate.
use vstd::prelude::*;

pub mod errors;
pub mod image;
pub mod locate;
pub mod parser;
pub mod remote;
pub mod symbolicate;
pub mod task;
pub mod unwind;

verus! {

/// Version string reported by the `version` command.
pub fn lrnprof_version() -> (r: String)
    ensures
        r@ == "lrnprof 0.1.0"@,
{
    "lrnprof 0.1.0".to_owned()
}

} // verus!
