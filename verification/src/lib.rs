//! Policy core of a process sandbox: what a sandboxed process may touch, which
//! resource limits it runs under, which system calls it is refused, and how
//! the file descriptors it inherits are put in place.

pub mod bpf;
pub mod config;
pub mod diskquota;
pub mod env;
pub mod env_laws;
pub mod error;
pub mod ffi;
pub mod filter;
pub mod path;
pub mod platform;
pub mod policy;
pub mod process;
pub mod rlimit;
pub mod seccomp;
pub mod seccomp_laws;
pub mod stdtext;
pub mod syscall;
pub mod terminal;
pub mod text;
pub mod text_laws;
pub mod validate;
