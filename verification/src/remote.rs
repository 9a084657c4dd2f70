//! Remote memory reader: one read from another process's address
//! space, and the interpretation of its raw reply.
//!
//! The read itself is a blocking kernel call, performed through the
//! trusted `read_process_address`; the surrounding binary may also
//! read with the kernel's own primitives and hand the reply over.
//! Either way `check_read` decides whether the bytes may be trusted:
//! a fixed-size record must never be decoded from a buffer of the
//! wrong length, so a short read is its own error, distinct from a
//! hard failure.
use vstd::prelude::*;

use crate::errors::ReadError;

verus! {

/// The raw reply of one remote read: either the bytes the kernel copied,
/// or its error code.
pub enum ReadReply {
    Bytes(Vec<u8>),
    Failed(i32),
}

/// Relies on read_process_memory: opens a handle to `pid` and performs
/// one `copy_address` read of `length` bytes at `address`. On success
/// the returned buffer holds exactly `length` bytes — `copy_address`
/// fills a buffer allocated at that size. What the bytes hold depends
/// on the live process at that instant, so nothing more is promised;
/// any failure comes back with the underlying OS code.
#[verifier::external_body]
pub fn read_process_address(pid: i32, address: u64, length: usize) -> (r: ReadReply)
    ensures
        r matches ReadReply::Bytes(b) ==> b@.len() == length,
{
    let handle = match read_process_memory::ProcessHandle::try_from(pid) {
        Ok(h) => h,
        Err(e) => {
            return ReadReply::Failed(e.raw_os_error().unwrap_or(-1));
        },
    };
    match read_process_memory::copy_address(address as usize, length, &handle) {
        Ok(bytes) => ReadReply::Bytes(bytes),
        Err(e) => ReadReply::Failed(e.raw_os_error().unwrap_or(-1)),
    }
}

/// Validates the reply to a read of `requested_length` bytes at
/// `address`: a kernel failure becomes `RemoteRead`, a buffer of any
/// other length than the requested one becomes `ShortRead`, and only a
/// buffer of exactly the requested length is handed on.
pub fn check_read(address: u64, requested_length: usize, reply: ReadReply) -> (r: Result<
    Vec<u8>,
    ReadError,
>)
    ensures
        match reply {
            ReadReply::Failed(kernel_code) => r == Err::<Vec<u8>, ReadError>(
                ReadError::RemoteRead { address, requested_length, kernel_code },
            ),
            ReadReply::Bytes(b) => if b@.len() == requested_length {
                r matches Ok(out) && out@ == b@
            } else {
                r == Err::<Vec<u8>, ReadError>(
                    ReadError::ShortRead {
                        address,
                        requested_length,
                        actual_length: b@.len() as usize,
                    },
                )
            },
        },
{
    match reply {
        ReadReply::Failed(kernel_code) => Err(
            ReadError::RemoteRead { address, requested_length, kernel_code },
        ),
        ReadReply::Bytes(bytes) => {
            if bytes.len() == requested_length {
                Ok(bytes)
            } else {
                Err(
                    ReadError::ShortRead {
                        address,
                        requested_length,
                        actual_length: bytes.len(),
                    },
                )
            }
        },
    }
}

} // verus!
