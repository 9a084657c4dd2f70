//! Typed errors for every stage of the profiling pipeline.
//!
//! Low-level failures (kernel call results, bounds violations) are captured
//! with enough context to be reported: the operation's address or offset and
//! the underlying kernel code.
use vstd::prelude::*;

verus! {

/// Attaching to the target process failed: the identifier does not name a
/// live process, or the caller lacks the privilege to inspect it.
/// Fatal to the whole session.
#[derive(Debug, Clone, Copy, PartialEq, Eq, Structural)]
pub struct AttachError {
    pub kernel_code: i32,
}

/// Enumerating the threads of the attached task failed, for instance
/// because the task exited after attachment.
#[derive(Debug, Clone, Copy, PartialEq, Eq, Structural)]
pub struct ThreadEnumError {
    pub kernel_code: i32,
}

/// Querying CPU accounting of one thread failed, typically because that
/// thread exited between enumeration and the query. Per-thread: the caller
/// skips the thread and continues.
#[derive(Debug, Clone, Copy, PartialEq, Eq, Structural)]
pub struct InfoQueryError {
    pub kernel_code: i32,
}

/// Reading the register state of a thread failed, or the returned buffer
/// did not have the size that was requested, so no field of it may be
/// trusted.
#[derive(Debug, Clone, Copy, PartialEq, Eq, Structural)]
pub struct RegisterStateError {
    pub kernel_code: i32,
    pub expected_count: u32,
    pub actual_count: u32,
}

/// A remote memory read failed.
#[derive(Debug, Clone, Copy, PartialEq, Eq, Structural)]
pub enum ReadError {
    /// The underlying read reported a hard failure: unmapped page,
    /// protection fault, or any other kernel-level error.
    RemoteRead { address: u64, requested_length: usize, kernel_code: i32 },
    /// The read returned fewer (or more) bytes than requested; the buffer
    /// must not be reinterpreted as a fixed-size record.
    ShortRead { address: u64, requested_length: usize, actual_length: usize },
}

/// Locating the main image of the task, or the on-disk path of its
/// executable, failed.
#[derive(Debug, Clone, Copy, PartialEq, Eq, Structural)]
pub enum LocateError {
    /// Region enumeration or the read of the region's leading bytes failed.
    ImageLocate { kernel_code: i32 },
    /// The process has no file descriptor marked as its executable text
    /// segment (the backing file may have been deleted).
    PathNotFound,
}

/// Decoding the target's executable image failed.
///
/// All offset arithmetic is checked before use, so a malformed input is
/// reported through one of these variants rather than read out of bounds.
#[derive(Debug, Clone, Copy, PartialEq, Eq, Structural)]
pub enum ParseError {
    /// The object header's magic is not one of the two recognized values;
    /// the caller reports "not a supported binary" and skips symbolication.
    UnsupportedFormat { magic: u32 },
    /// A load command carries an impossible size — below the minimum, not
    /// a multiple of the word alignment, or above the sane ceiling — or
    /// stands at a misaligned offset (reported with size zero).
    MalformedCommand { offset: u64, size: u32 },
    /// An offset/length pair would read past the end of the given buffer.
    OutOfBoundsRead { offset: u64, length: u64 },
}

} // verus!
