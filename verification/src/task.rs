//! Attachment to the target process and per-thread inspection.
//!
//! The kernel calls themselves (attach, thread enumeration, the accounting
//! and register-state queries) are performed by the surrounding binary;
//! the functions here interpret their raw replies, so that every decision
//! about a reply is verified.
use vstd::prelude::*;

use crate::errors::{AttachError, InfoQueryError, RegisterStateError, ThreadEnumError};

verus! {

/// The kernel's "call succeeded" return code.
pub const KERN_SUCCESS: i32 = 0;

/// Number of 64-bit slots requested for one thread's register state.
pub const EXPECTED_STATE_COUNT: u32 = 129;

/// Index of the frame pointer in the raw register vector.
pub const REG_FRAME_POINTER: usize = 29;

/// Index of the link register (return address) in the raw register vector.
pub const REG_LINK_REGISTER: usize = 30;

/// Index of the stack pointer in the raw register vector.
pub const REG_STACK_POINTER: usize = 31;

/// Index of the program counter in the raw register vector.
pub const REG_PROGRAM_COUNTER: usize = 32;

/// Handle to the attached process's execution context.
///
/// Exclusively owned by the profiling session. `release` must be called
/// when the session ends; it says whether the caller still has to
/// deallocate the underlying port, and is safe to call more than once.
pub struct TaskHandle {
    port: u32,
    released: bool,
}

impl TaskHandle {
    /// The kernel port this handle wraps.
    pub closed spec fn spec_port(&self) -> u32 {
        self.port
    }

    /// Whether the handle was already released.
    pub closed spec fn spec_released(&self) -> bool {
        self.released
    }

    /// Interprets the kernel's reply to the attach call: `kernel_code` is
    /// its return value and `port` the task port it wrote. Attachment
    /// succeeds exactly when the kernel reported success; failures
    /// (no such process, insufficient privilege) are not retried.
    pub fn from_attach_reply(kernel_code: i32, port: u32) -> (r: Result<TaskHandle, AttachError>)
        ensures
            r is Ok <==> kernel_code == KERN_SUCCESS,
            r matches Ok(t) ==> t.spec_port() == port && !t.spec_released(),
            r matches Err(e) ==> e == (AttachError { kernel_code }),
    {
        if kernel_code == KERN_SUCCESS {
            Ok(TaskHandle { port, released: false })
        } else {
            Err(AttachError { kernel_code })
        }
    }

    /// Whether the handle was already released.
    pub fn is_released(&self) -> (b: bool)
        ensures
            b == self.spec_released(),
    {
        self.released
    }

    /// The port, for handing to a kernel call. A released handle no longer
    /// names a valid execution context, so it has no port to give out.
    pub fn port(&self) -> (r: u32)
        requires
            !self.spec_released(),
        ensures
            r == self.spec_port(),
    {
        self.port
    }

    /// Marks the handle released and reports whether the caller must
    /// deallocate the underlying port now: true on the first call, false
    /// on every later one, so releasing twice deallocates only once and
    /// never fails.
    pub fn release(&mut self) -> (deallocate: bool)
        ensures
            final(self).spec_released(),
            final(self).spec_port() == old(self).spec_port(),
            deallocate == !old(self).spec_released(),
    {
        let first = !self.released;
        self.released = true;
        first
    }
}

/// Interprets the kernel's reply to the thread-enumeration call: on
/// success the enumerated thread ports are returned as they came, in the
/// kernel's own (unstable) order; on failure, the typed error.
pub fn threads_from_reply(kernel_code: i32, threads: Vec<u32>) -> (r: Result<
    Vec<u32>,
    ThreadEnumError,
>)
    ensures
        r is Ok <==> kernel_code == KERN_SUCCESS,
        r matches Ok(list) ==> list == threads,
        r matches Err(e) ==> e == (ThreadEnumError { kernel_code }),
{
    if kernel_code == KERN_SUCCESS {
        Ok(threads)
    } else {
        Err(ThreadEnumError { kernel_code })
    }
}

/// One thread's CPU accounting: an immutable snapshot of the kernel's
/// basic-info record. Times are (seconds, microseconds) pairs; the CPU
/// usage is the kernel's scaled integer, in tenths of a percent.
#[derive(Debug, Clone, Copy, PartialEq, Eq, Structural)]
pub struct CpuAccounting {
    pub user_time_seconds: i32,
    pub user_time_microseconds: i32,
    pub system_time_seconds: i32,
    pub system_time_microseconds: i32,
    pub cpu_usage_tenths: i32,
}

/// What `cpu_accounting_from_info` returns for a given kernel reply.
pub open spec fn spec_cpu_accounting(kernel_code: i32, info: Seq<i32>) -> Result<
    CpuAccounting,
    InfoQueryError,
> {
    if kernel_code == KERN_SUCCESS {
        Ok(
            CpuAccounting {
                user_time_seconds: info[0],
                user_time_microseconds: info[1],
                system_time_seconds: info[2],
                system_time_microseconds: info[3],
                cpu_usage_tenths: info[4],
            },
        )
    } else {
        Err(InfoQueryError { kernel_code })
    }
}

/// Interprets the kernel's reply to one thread's accounting query. The
/// query fails exactly when the kernel reported failure — the expected
/// race when the thread exited between enumeration and query; the caller
/// skips that thread and continues with the others.
pub fn cpu_accounting_from_info(kernel_code: i32, info: &Vec<i32>) -> (r: Result<
    CpuAccounting,
    InfoQueryError,
>)
    requires
        kernel_code == KERN_SUCCESS ==> info@.len() >= 5,
    ensures
        r == spec_cpu_accounting(kernel_code, info@),
        r is Ok <==> kernel_code == KERN_SUCCESS,
{
    if kernel_code == KERN_SUCCESS {
        Ok(
            CpuAccounting {
                user_time_seconds: info[0],
                user_time_microseconds: info[1],
                system_time_seconds: info[2],
                system_time_microseconds: info[3],
                cpu_usage_tenths: info[4],
            },
        )
    } else {
        Err(InfoQueryError { kernel_code })
    }
}

/// Folds the accounting replies of all enumerated threads. A failed query
/// yields that thread's `InfoQueryError` in place, while every other
/// thread's accounting is still returned: one dead thread never aborts
/// the whole run.
pub fn account_threads(replies: &Vec<(i32, Vec<i32>)>) -> (r: Vec<
    Result<CpuAccounting, InfoQueryError>,
>)
    requires
        forall|i: int|
            0 <= i < replies@.len() && (#[trigger] replies@[i]).0 == KERN_SUCCESS
                ==> replies@[i].1@.len() >= 5,
    ensures
        r@.len() == replies@.len(),
        forall|i: int|
            0 <= i < replies@.len() ==> r@[i] == spec_cpu_accounting(
                replies@[i].0,
                replies@[i].1@,
            ),
{
    let mut out: Vec<Result<CpuAccounting, InfoQueryError>> = Vec::new();
    let mut idx: usize = 0;
    while idx < replies.len()
        invariant
            idx <= replies@.len(),
            out@.len() == idx,
            forall|i: int|
                0 <= i < replies@.len() && (#[trigger] replies@[i]).0 == KERN_SUCCESS
                    ==> replies@[i].1@.len() >= 5,
            forall|i: int|
                0 <= i < idx ==> out@[i] == spec_cpu_accounting(replies@[i].0, replies@[i].1@),
        decreases replies@.len() - idx,
    {
        let reply = &replies[idx];
        out.push(cpu_accounting_from_info(reply.0, &reply.1));
        idx = idx + 1;
    }
    out
}

/// One thread's register state at one instant. The values are stale the
/// moment the remote thread resumes; downstream use treats them as a
/// point-in-time snapshot, never as live state.
#[derive(Debug)]
pub struct RegisterState {
    pub frame_pointer: u64,
    pub link_register: u64,
    pub stack_pointer: u64,
    pub program_counter: u64,
    /// The full raw register vector as the kernel returned it.
    pub raw: Vec<u64>,
}

/// Interprets the kernel's reply to the register-state query. The reply
/// is trusted only if the kernel reported success and wrote exactly the
/// requested number of slots; otherwise no field of the buffer is read
/// and a `RegisterStateError` carries the mismatch.
///
/// Register roles follow the 64-bit RISC layout of the saved state: the
/// frame pointer, link register, stack pointer and program counter are
/// slots 29 to 32 of the raw vector.
pub fn registers_from_state(kernel_code: i32, reported_count: u32, state: Vec<u64>) -> (r: Result<
    RegisterState,
    RegisterStateError,
>)
    requires
        kernel_code == KERN_SUCCESS && reported_count == EXPECTED_STATE_COUNT ==> state@.len()
            > REG_PROGRAM_COUNTER,
    ensures
        r is Ok <==> kernel_code == KERN_SUCCESS && reported_count == EXPECTED_STATE_COUNT,
        r matches Ok(regs) ==> {
            &&& regs.frame_pointer == state@[REG_FRAME_POINTER as int]
            &&& regs.link_register == state@[REG_LINK_REGISTER as int]
            &&& regs.stack_pointer == state@[REG_STACK_POINTER as int]
            &&& regs.program_counter == state@[REG_PROGRAM_COUNTER as int]
            &&& regs.raw@ == state@
        },
        r matches Err(e) ==> e == (RegisterStateError {
            kernel_code,
            expected_count: EXPECTED_STATE_COUNT,
            actual_count: reported_count,
        }),
{
    if kernel_code == KERN_SUCCESS && reported_count == EXPECTED_STATE_COUNT {
        Ok(
            RegisterState {
                frame_pointer: state[REG_FRAME_POINTER],
                link_register: state[REG_LINK_REGISTER],
                stack_pointer: state[REG_STACK_POINTER],
                program_counter: state[REG_PROGRAM_COUNTER],
                raw: state,
            },
        )
    } else {
        Err(
            RegisterStateError {
                kernel_code,
                expected_count: EXPECTED_STATE_COUNT,
                actual_count: reported_count,
            },
        )
    }
}

} // verus!
