//! Image locator: decides where the target's main executable lives.
//!
//! The kernel's region query and the external process-listing tool run
//! in the surrounding binary; the functions here interpret what they
//! hand back. Taking the first region as the main image is a
//! best-effort heuristic of this design.
use vstd::prelude::*;

use crate::errors::LocateError;
use crate::errors::ReadError;
use crate::remote::ReadReply;
use crate::remote::check_read;
use crate::task::KERN_SUCCESS;

verus! {

/// Interprets the kernel's reply to the region query: on success, the
/// base address the kernel wrote; on failure, `ImageLocate` with the
/// kernel's code.
pub fn base_from_region_reply(kernel_code: i32, address: u64) -> (r: Result<u64, LocateError>)
    ensures
        r is Ok <==> kernel_code == KERN_SUCCESS,
        r matches Ok(base) ==> base == address,
        r matches Err(e) ==> e == (LocateError::ImageLocate { kernel_code }),
{
    if kernel_code == KERN_SUCCESS {
        Ok(address)
    } else {
        Err(LocateError::ImageLocate { kernel_code })
    }
}

/// Interprets the read of the located region's leading bytes — the
/// window at `address` used subsequently as the object header. A
/// failed read fails the locate stage: `ImageLocate` with the kernel's
/// code. A short read fails it too, carrying the success code: the
/// kernel reported success, yet the window cannot be used as a header.
pub fn leading_bytes_from_reply(address: u64, requested_length: usize, reply: ReadReply) -> (r:
    Result<Vec<u8>, LocateError>)
    ensures
        match reply {
            ReadReply::Failed(kernel_code) => r == Err::<Vec<u8>, LocateError>(
                LocateError::ImageLocate { kernel_code },
            ),
            ReadReply::Bytes(b) => if b@.len() == requested_length {
                r matches Ok(out) && out@ == b@
            } else {
                r == Err::<Vec<u8>, LocateError>(
                    LocateError::ImageLocate { kernel_code: KERN_SUCCESS },
                )
            },
        },
{
    match check_read(address, requested_length, reply) {
        Ok(bytes) => Ok(bytes),
        Err(ReadError::RemoteRead { kernel_code, .. }) => Err(
            LocateError::ImageLocate { kernel_code },
        ),
        Err(ReadError::ShortRead { .. }) => Err(
            LocateError::ImageLocate { kernel_code: KERN_SUCCESS },
        ),
    }
}

/// Length of the first line of a byte listing: the number of bytes
/// before the first newline, or the whole length if none occurs.
pub open spec fn spec_line_len(s: Seq<u8>) -> nat
    decreases s.len(),
{
    if s.len() == 0 || s[0] == 10 {
        0
    } else {
        1 + spec_line_len(s.drop_first())
    }
}

/// The first line of a byte listing.
pub open spec fn spec_first_line(s: Seq<u8>) -> Seq<u8> {
    s.take(spec_line_len(s) as int)
}

/// Any position with no newline before it that sits on a newline or at
/// the end is exactly `spec_line_len`.
proof fn lemma_line_len_is(s: Seq<u8>, n: int)
    requires
        0 <= n <= s.len(),
        forall|j: int| 0 <= j < n ==> s[j] != 10,
        n < s.len() ==> s[n] == 10,
    ensures
        spec_line_len(s) == n,
    decreases s.len(),
{
    if s.len() == 0 || s[0] == 10 {
    } else {
        assert(n > 0) by {
            assert(s[0] != 10);
        }
        lemma_line_len_is(s.drop_first(), n - 1);
    }
}

/// Picks the executable's path out of the listing that the external
/// process-listing collaborator produced: its first line, the path of
/// the descriptor marked as the executable text segment. An empty
/// first line means the process has no backing file: `PathNotFound`.
pub fn executable_path_from_listing(listing: &Vec<u8>) -> (r: Result<Vec<u8>, LocateError>)
    ensures
        spec_first_line(listing@).len() == 0 ==> r == Err::<Vec<u8>, LocateError>(
            LocateError::PathNotFound,
        ),
        spec_first_line(listing@).len() > 0 ==> (r matches Ok(path) && path@ == spec_first_line(
            listing@,
        )),
{
    let mut i: usize = 0;
    while i < listing.len() && *vstd::slice::slice_index_get(listing.as_slice(), i) != 10
        invariant
            i <= listing@.len(),
            forall|j: int| 0 <= j < i ==> listing@[j] != 10,
        decreases listing@.len() - i,
    {
        i = i + 1;
    }
    proof {
        lemma_line_len_is(listing@, i as int);
    }
    if i == 0 {
        return Err(LocateError::PathNotFound);
    }
    let path = vstd::slice::slice_to_vec(
        vstd::slice::slice_subrange(listing.as_slice(), 0, i),
    );
    proof {
        assert(listing@.subrange(0, i as int) =~= spec_first_line(listing@));
    }
    Ok(path)
}

/// The leading 32-bit word of a buffer, widened: what a quick look at
/// an image's first bytes shows of its format. `None` when the buffer
/// is too short to hold one.
pub fn leading_magic(bytes: &Vec<u8>) -> (r: Option<u64>)
    ensures
        bytes@.len() >= 4 ==> r == Some(crate::image::spec_u32_at(bytes@, 0) as u64),
        bytes@.len() < 4 ==> r is None,
{
    if bytes.len() < 4 {
        None
    } else {
        Some(crate::image::u32_at(bytes, 0) as u64)
    }
}

} // verus!
