//! Where a stopped tracee's saved registers lie, and the requests that read
//! the number, the arguments and the return value of a system call from
//! them, under the calling convention of 64-bit x86 Linux.

use crate::launch::Tracee;
use crate::ptrace::{
    exec_ptrace, is_target, peek_user, ptrace_outcome, Command, PtraceError, PtraceRequest,
};
use vstd::prelude::*;

verus! {

/// Byte offsets into the saved register area.
pub const R10: u64 = 56;

pub const R9: u64 = 64;

pub const R8: u64 = 72;

pub const RAX: u64 = 80;

pub const RDX: u64 = 96;

pub const RSI: u64 = 104;

pub const RDI: u64 = 112;

/// The slot that keeps the number of the system call. `RAX` holds the number
/// only until the call returns, and the return value from then on.
pub const ORIG_RAX: u64 = 120;

/// The register that carries the argument at `reg`, counted from 0: the six
/// argument registers in the order of the calling convention.
pub open spec fn argument_offset(reg: u8) -> u64 {
    if reg == 0 {
        RDI
    } else if reg == 1 {
        RSI
    } else if reg == 2 {
        RDX
    } else if reg == 3 {
        R10
    } else if reg == 4 {
        R8
    } else {
        R9
    }
}

/// The request that reads the word at `offset` of the register area of
/// process `pid`.
pub open spec fn peek_at(pid: i32, offset: u64) -> Command {
    Command { request: PtraceRequest::PeekUser, pid, addr: offset, data: 0 }
}

/// The request that reads the argument at `reg` of the system call at which
/// the tracee stands.
pub fn get_arg(tracee: &Tracee, reg: u8) -> (c: Command)
    requires
        is_target(tracee.pid),
        tracee.is_stopped(),
        reg < 6,
    ensures
        c == peek_at(tracee.pid, argument_offset(reg)),
{
    let offset: u64 = match reg {
        0 => RDI,
        1 => RSI,
        2 => RDX,
        3 => R10,
        4 => R8,
        _ => R9,
    };
    peek_user(tracee.pid, offset)
}

/// The request that reads the number of the system call at which the tracee
/// stands.
pub fn get_syscall_num(tracee: &Tracee) -> (c: Command)
    requires
        is_target(tracee.pid),
        tracee.is_stopped(),
    ensures
        c == peek_at(tracee.pid, ORIG_RAX),
{
    peek_user(tracee.pid, ORIG_RAX)
}

/// The request that reads the value with which the system call came back,
/// once the tracee stands at its exit.
pub fn get_return_value(tracee: &Tracee) -> (c: Command)
    requires
        is_target(tracee.pid),
        tracee.is_stopped(),
    ensures
        c == peek_at(tracee.pid, RAX),
{
    peek_user(tracee.pid, RAX)
}

/// The register word that a peek's signed answer stands for: the same 64
/// bits, read as unsigned.
pub open spec fn word_of(value: i64) -> u64 {
    if value >= 0 {
        value as u64
    } else {
        (value + 0x1_0000_0000_0000_0000) as u64
    }
}

/// Reads a peek's signed answer as a register word.
pub fn register_word(value: i64) -> (word: u64)
    ensures
        word == word_of(value),
{
    if value >= 0 {
        value as u64
    } else {
        u64::MAX - ((-(value + 1)) as u64)
    }
}

/// What the answer to a peek of a register means: the word that was read, or
/// the rejection of the peek. An answer of `-1` is the word of all ones
/// unless the error code is set.
pub open spec fn peeked_word(pid: i32, ret: i64, errno: i32) -> Result<u64, PtraceError> {
    match ptrace_outcome(PtraceRequest::PeekUser, pid, ret, errno) {
        Ok(value) => Ok(word_of(value)),
        Err(error) => Err(error),
    }
}

/// Reads the answer `ret` to a peek of a register of the stopped tracee, with
/// `errno` the platform's error code right after the peek.
pub fn read_register(tracee: &Tracee, ret: i64, errno: i32) -> (r: Result<u64, PtraceError>)
    requires
        tracee.is_stopped(),
    ensures
        r == peeked_word(tracee.pid, ret, errno),
{
    match exec_ptrace(PtraceRequest::PeekUser, tracee.pid, ret, errno) {
        Ok(value) => Ok(register_word(value)),
        Err(error) => Err(error),
    }
}

/// The six argument registers are six different registers, and none of them
/// is the slot of the call number or of the return value.
pub proof fn lemma_argument_registers_differ(a: u8, b: u8)
    requires
        a < 6,
        b < 6,
        a != b,
    ensures
        argument_offset(a) != argument_offset(b),
        argument_offset(a) != ORIG_RAX,
        argument_offset(a) != RAX,
{
}

/// Different answers stand for different words.
pub proof fn lemma_word_of_is_injective(a: i64, b: i64)
    requires
        word_of(a) == word_of(b),
    ensures
        a == b,
{
}

} // verus!
