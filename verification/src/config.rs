//! What a sandbox is asked for.

use vstd::prelude::*;

use crate::path::PathBuf;

verus! {

/// What a sandboxed process may use. A limit of 0 is no limit.
#[derive(Debug, PartialEq, Eq)]
pub struct Profile {
    /// Paths that can be read.
    pub read_paths: Vec<PathBuf>,
    /// Paths that can be read and written.
    pub write_paths: Vec<PathBuf>,
    /// Memory, in MB.
    pub max_memory_mb: u64,
    /// CPU time, in percent of one processor.
    pub max_cpu_pct: u32,
    /// Number of processes.
    pub max_pids: u32,
    /// Size of a file, in MB.
    pub max_file_size_mb: u64,
    /// Whether the process gets a network namespace of its own.
    pub use_netns: bool,
}

impl Profile {
    /// Whether a profile grants no path and sets no limit.
    pub open spec fn is_blank(self) -> bool {
        &&& self.read_paths@.len() == 0
        &&& self.write_paths@.len() == 0
        &&& self.max_memory_mb == 0
        &&& self.max_cpu_pct == 0
        &&& self.max_pids == 0
        &&& self.max_file_size_mb == 0
        &&& !self.use_netns
    }
}

impl Default for Profile {
    fn default() -> (profile: Profile)
        ensures
            profile.is_blank(),
    {
        Profile {
            read_paths: Vec::new(),
            write_paths: Vec::new(),
            max_memory_mb: 0,
            max_cpu_pct: 0,
            max_pids: 0,
            max_file_size_mb: 0,
            use_netns: false,
        }
    }
}

/// How to launch a sandboxed process.
#[derive(Debug, PartialEq, Eq)]
pub struct Config {
    pub profile: Profile,
    /// Where the control socket is; empty if there is none.
    pub socket_dir: PathBuf,
    pub task_id: String,
    /// Where the process starts, if not where its parent is.
    pub work_dir: Option<PathBuf>,
    /// Descriptor to use as standard input.
    pub stdin: Option<i32>,
    /// Descriptor to use as standard output.
    pub stdout: Option<i32>,
    /// Descriptor to use as standard error.
    pub stderr: Option<i32>,
    /// Descriptors that the process inherits, from 3 on.
    pub extra_fds: Vec<i32>,
    /// Socket of the network proxy.
    pub network_proxy_socket: Option<PathBuf>,
    /// Variables that the caller adds to the environment.
    pub env: Vec<(String, String)>,
}

/// A profile that grants no path and sets no limit is 0 or empty in every field.
pub proof fn law_blank_profile(profile: Profile)
    ensures
        profile.is_blank() <==> profile.read_paths@.len() == 0 && profile.write_paths@.len() == 0
            && profile.max_memory_mb == 0 && profile.max_cpu_pct == 0 && profile.max_pids == 0
            && profile.max_file_size_mb == 0 && !profile.use_netns,
{
}

} // verus!
