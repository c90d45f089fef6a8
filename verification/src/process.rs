//! Sandboxed processes that run.

use vstd::prelude::*;

use crate::error::{Error, ErrorView};
use crate::path::PathBuf;
use crate::text::joined;

verus! {

/// A running sandboxed process. `M` manages its cgroup.
#[derive(Debug)]
pub struct Process<M> {
    /// Process number.
    pub pid: u32,
    /// Directory that was made for the process, its home.
    pub tmp_dir: PathBuf,
    /// Cgroup of the process, if it has one.
    pub cgroup_path: Option<PathBuf>,
    /// Manager of the cgroup, if there is one.
    pub cgroup_mgr: Option<M>,
}

/// What is left to clean up after a process.
#[derive(Debug)]
pub struct Cleanup<M> {
    /// The cgroup to destroy, and its manager.
    pub destroy: Option<(M, PathBuf)>,
    /// The directory to remove.
    pub remove: Option<PathBuf>,
}

/// What a launch came to.
#[derive(Debug)]
pub enum Launched<M> {
    /// The process runs.
    Running(Process<M>),
    /// Nothing runs, for the given reason. The directory that was made for the process is
    /// to be removed.
    Failed { error: Error, remove: PathBuf },
}

impl<M> Process<M> {
    /// The cgroup of the process with its manager, if it has both.
    pub open spec fn managed_cgroup(self) -> Option<(M, PathBuf)> {
        match (self.cgroup_mgr, self.cgroup_path) {
            (Some(mgr), Some(path)) => Some((mgr, path)),
            _ => None,
        }
    }

    /// What the cgroup gave; `zero` without a cgroup.
    pub open spec fn usage_of<U>(self, read: U, zero: U) -> U {
        if self.managed_cgroup() is Some {
            read
        } else {
            zero
        }
    }

    /// The directory to remove once the process has ended, if it is still there.
    pub open spec fn dir_to_remove(self, tmp_dir_exists: bool) -> Option<PathBuf> {
        if tmp_dir_exists {
            Some(self.tmp_dir)
        } else {
            None
        }
    }

    /// The process number.
    pub fn pid(&self) -> (pid: u32)
        ensures
            pid == self.pid,
    {
        self.pid
    }

    /// The exit status of the process, from what waiting for it came to: the status, or the
    /// reason that it failed.
    pub fn wait<S>(&mut self, outcome: Result<S, &str>) -> (status: Result<S, Error>)
        ensures
            *final(self) == *old(self),
            outcome matches Ok(s) ==> status == Ok::<S, Error>(s),
            outcome matches Err(reason) ==> (status matches Err(error) && error@
                == ErrorView::Process("wait: "@ + reason@)),
    {
        match outcome {
            Ok(status) => Ok(status),
            Err(reason) => Err(Error::Process(joined("wait: ", reason))),
        }
    }

    /// Where the statistics of the process are read: its cgroup and the manager of it.
    /// Without either there are none.
    pub fn cgroup(&self) -> (found: Option<(&M, &PathBuf)>)
        ensures
            found == match self.managed_cgroup() {
                Some((mgr, path)) => Some((&mgr, &path)),
                None => None,
            },
    {
        match &self.cgroup_mgr {
            Some(mgr) => match &self.cgroup_path {
                Some(path) => Some((mgr, path)),
                None => None,
            },
            None => None,
        }
    }

    /// Resource usage of the process, from what its cgroup gave; `zero` without a cgroup.
    pub fn resource_stats<U>(&self, read: U, zero: U) -> (usage: U)
        ensures
            usage == self.usage_of(read, zero),
    {
        match self.cgroup() {
            Some(_) => read,
            None => zero,
        }
    }

    /// How often the process ran out of memory, from what its cgroup gave; 0 without a
    /// cgroup.
    pub fn oom_count(&self, read: u32) -> (count: u32)
        ensures
            count == self.usage_of(read, 0u32),
    {
        self.resource_stats(read, 0)
    }

    /// What to clean up once the process has ended: its cgroup, if it has one, and its
    /// directory, if that is still there.
    pub fn cleanup(self, tmp_dir_exists: bool) -> (cleanup: Cleanup<M>)
        ensures
            cleanup.destroy == self.managed_cgroup(),
            cleanup.remove == self.dir_to_remove(tmp_dir_exists),
    {
        let destroy = match (self.cgroup_mgr, self.cgroup_path) {
            (Some(mgr), Some(path)) => Some((mgr, path)),
            _ => None,
        };
        let remove = if tmp_dir_exists {
            Some(self.tmp_dir)
        } else {
            None
        };
        Cleanup { destroy, remove }
    }
}

/// A process is read from its cgroup, and its cgroup is destroyed in the end, exactly if it
/// has both a cgroup and a manager of it, whatever else there is of it.
pub proof fn law_cgroup_needs_both<M>(process: Process<M>, mgr: M, path: PathBuf)
    ensures
        process.cgroup_mgr == Some(mgr) && process.cgroup_path == Some(path)
            ==> process.managed_cgroup() == Some((mgr, path)),
        process.cgroup_mgr is None || process.cgroup_path is None
            ==> process.managed_cgroup() is None,
{
}

/// What is read of a process is what its cgroup gave, and without one it is zero.
pub proof fn law_usage_without_cgroup<M, U>(process: Process<M>, read: U, zero: U)
    ensures
        process.managed_cgroup() is Some ==> process.usage_of(read, zero) == read,
        process.managed_cgroup() is None ==> process.usage_of(read, zero) == zero,
{
}

/// The directory of a process is removed exactly if it is still there.
pub proof fn law_directory_removed<M>(process: Process<M>)
    ensures
        process.dir_to_remove(true) == Some(process.tmp_dir),
        process.dir_to_remove(false) is None,
{
}

} // verus!
