//! jtrace: the decision core of a system-call tracer for 64-bit x86 Linux.
//!
//! The crate never touches the kernel itself. It says which tracing request
//! to issue next, reads what the kernel answered, decodes stops and registers,
//! names system calls, and keeps the ordered record of what the traced
//! process did. A thin driver performs the requests and hands the answers
//! back as plain integers.
//!
//! - [`ptrace`]: the tracing requests and the reading of their raw answers.
//! - [`wait`]: the decoding of the status a wait reports.
//! - [`regs`]: where the number, the arguments and the return value of a
//!   call lie among the saved registers.
//! - [`launch`]: the decisions of bringing a program under supervision.
//! - [`syscalls`], [`table`], [`syscall`]: the calls known by name, the
//!   platform's table of call numbers, and the catalog and the record built
//!   on them.
//! - [`tracer`]: the trace loop, a state machine from replies to actions.
//! - [`session`]: one command from its launch to its report.
//! - [`output`], [`logger`], [`text`]: what is handed out, and the text it
//!   is made of.

pub mod launch;
pub mod logger;
pub mod output;
pub mod ptrace;
pub mod regs;
pub mod session;
pub mod syscall;
pub mod syscalls;
pub mod table;
pub mod text;
pub mod tracer;
pub mod wait;
