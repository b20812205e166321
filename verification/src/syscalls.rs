//! The system calls whose arguments the tracer knows how to read.

use crate::text::same_text;
use vstd::prelude::*;

verus! {

/// What an argument word of a system call means.
#[derive(Clone, Copy, Debug, PartialEq, Eq, Structural)]
pub enum ArgKind {
    /// A plain number.
    Integer,
    /// An address in the tracee.
    Pointer,
    /// A file descriptor.
    FileDescriptor,
    /// A set of flag bits.
    Flags,
    /// A register word of unknown meaning.
    Raw,
}

/// A system call as the tracer tells it apart by name. `Other` stands for
/// every call that has a name but no entry of its own here.
#[derive(Clone, Copy, Debug, PartialEq, Eq, Structural)]
pub enum Syscall {
    Read,
    Write,
    Open,
    Close,
    Stat,
    Fstat,
    Lstat,
    Other,
}

/// The largest number of arguments a system call takes.
pub const MAX_ARGS: u8 = 6;

impl Syscall {
    /// The call that goes by `name`.
    pub open spec fn spec_from_name(name: Seq<char>) -> Syscall {
        if name == "read"@ {
            Syscall::Read
        } else if name == "write"@ {
            Syscall::Write
        } else if name == "open"@ {
            Syscall::Open
        } else if name == "close"@ {
            Syscall::Close
        } else if name == "stat"@ {
            Syscall::Stat
        } else if name == "fstat"@ {
            Syscall::Fstat
        } else if name == "lstat"@ {
            Syscall::Lstat
        } else {
            Syscall::Other
        }
    }

    /// How many arguments the call declares. A call without an entry of its
    /// own keeps all six register words, so that nothing it was given is lost.
    pub open spec fn spec_arity(self) -> u8 {
        match self {
            Syscall::Read => 3,
            Syscall::Write => 3,
            Syscall::Open => 3,
            Syscall::Close => 1,
            Syscall::Stat => 2,
            Syscall::Fstat => 2,
            Syscall::Lstat => 2,
            Syscall::Other => 6,
        }
    }

    /// What the argument at `index` means.
    pub open spec fn spec_arg_kind(self, index: u8) -> ArgKind {
        match self {
            Syscall::Read | Syscall::Write => if index == 0 {
                ArgKind::FileDescriptor
            } else if index == 1 {
                ArgKind::Pointer
            } else {
                ArgKind::Integer
            },
            Syscall::Open => if index == 0 {
                ArgKind::Pointer
            } else if index == 1 {
                ArgKind::Flags
            } else {
                ArgKind::Integer
            },
            Syscall::Close => ArgKind::FileDescriptor,
            Syscall::Stat | Syscall::Lstat => ArgKind::Pointer,
            Syscall::Fstat => if index == 0 {
                ArgKind::FileDescriptor
            } else {
                ArgKind::Pointer
            },
            Syscall::Other => ArgKind::Raw,
        }
    }

    /// The meaning of each declared argument, in order.
    pub open spec fn kinds(self) -> Seq<ArgKind> {
        Seq::new(self.spec_arity() as nat, |i: int| self.spec_arg_kind(i as u8))
    }

    pub fn from_name(name: &str) -> (r: Syscall)
        ensures
            r == Syscall::spec_from_name(name@),
    {
        if same_text(name, "read") {
            Syscall::Read
        } else if same_text(name, "write") {
            Syscall::Write
        } else if same_text(name, "open") {
            Syscall::Open
        } else if same_text(name, "close") {
            Syscall::Close
        } else if same_text(name, "stat") {
            Syscall::Stat
        } else if same_text(name, "fstat") {
            Syscall::Fstat
        } else if same_text(name, "lstat") {
            Syscall::Lstat
        } else {
            Syscall::Other
        }
    }

    #[verifier::when_used_as_spec(spec_arity)]
    pub fn arity(self) -> (n: u8)
        ensures
            n == self.spec_arity(),
            n <= MAX_ARGS,
    {
        match self {
            Syscall::Read => 3,
            Syscall::Write => 3,
            Syscall::Open => 3,
            Syscall::Close => 1,
            Syscall::Stat => 2,
            Syscall::Fstat => 2,
            Syscall::Lstat => 2,
            Syscall::Other => 6,
        }
    }

    #[verifier::when_used_as_spec(spec_arg_kind)]
    pub fn arg_kind(self, index: u8) -> (k: ArgKind)
        requires
            index < self.spec_arity(),
        ensures
            k == self.spec_arg_kind(index),
            k == self.kinds()[index as int],
    {
        match self {
            Syscall::Read | Syscall::Write => if index == 0 {
                ArgKind::FileDescriptor
            } else if index == 1 {
                ArgKind::Pointer
            } else {
                ArgKind::Integer
            },
            Syscall::Open => if index == 0 {
                ArgKind::Pointer
            } else if index == 1 {
                ArgKind::Flags
            } else {
                ArgKind::Integer
            },
            Syscall::Close => ArgKind::FileDescriptor,
            Syscall::Stat | Syscall::Lstat => ArgKind::Pointer,
            Syscall::Fstat => if index == 0 {
                ArgKind::FileDescriptor
            } else {
                ArgKind::Pointer
            },
            Syscall::Other => ArgKind::Raw,
        }
    }
}

/// No call declares more than six arguments.
pub proof fn lemma_arity_at_most_six(call: Syscall)
    ensures
        call.spec_arity() <= MAX_ARGS,
        call.kinds().len() == call.spec_arity(),
{
}

} // verus!
