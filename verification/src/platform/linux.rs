//! Launching on Linux.

use vstd::prelude::*;

use crate::error::{Error, ErrorView};
use crate::process::Process;
use crate::text::joined;

verus! {

/// Linux sandbox. `M` manages cgroups.
#[derive(Debug)]
pub struct Linux<M> {
    pub cgroup_mgr: Option<M>,
}

impl<M> Linux<M> {
    /// Makes a sandbox from what probing for cgroups came to: a manager, none, or an error.
    pub fn new(probed: Result<Option<M>, Error>) -> (sandbox: Result<Linux<M>, Error>)
        ensures
            probed matches Ok(mgr) ==> sandbox == Ok::<Linux<M>, Error>(
                Linux { cgroup_mgr: mgr },
            ),
            probed matches Err(error) ==> sandbox == Err::<Linux<M>, Error>(error),
    {
        match probed {
            Ok(cgroup_mgr) => Ok(Linux { cgroup_mgr }),
            Err(error) => Err(error),
        }
    }

    /// Launches a process. There is no way to yet.
    pub fn launch(&self) -> (process: Result<Process<M>, Error>)
        ensures
            process matches Err(error) && error@ == ErrorView::Process("not yet implemented"@),
    {
        Err(Error::Process("not yet implemented".to_owned()))
    }

    /// Whether the sandbox works, from what running `unshare` came to: nothing, or the
    /// reason that it could not be run.
    pub fn available(&self, probed: Result<(), &str>) -> (available: Result<(), Error>)
        ensures
            probed is Ok ==> available is Ok,
            probed matches Err(reason) ==> (available matches Err(error) && error@
                == ErrorView::Process(
                "unshare not found: "@ + reason@
                    + " (required for network namespace isolation)"@,
            )),
    {
        match probed {
            Ok(_) => Ok(()),
            Err(reason) => Err(
                Error::Process(
                    joined(
                        joined("unshare not found: ", reason).as_str(),
                        " (required for network namespace isolation)",
                    ),
                ),
            ),
        }
    }

    /// Whether processes can get network namespaces of their own, which probing found out.
    pub fn netns_available(&self, probed: bool) -> (available: bool)
        ensures
            available == probed,
    {
        probed
    }

    /// Whether processes get cgroups.
    pub fn cgroups_available(&self) -> (available: bool)
        ensures
            available == self.cgroup_mgr is Some,
    {
        self.cgroup_mgr.is_some()
    }
}

} // verus!
