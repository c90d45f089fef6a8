//! Launching where no operating system support is known. Only the environment is hardened,
//! which is enough for development and no more.

use vstd::prelude::*;

use crate::config::Config;
use crate::env;
use crate::env::{make_tmp_dir, minimal_env, DirStep};
use crate::error::{Error, ErrorView};
use crate::path::PathBuf;
use crate::platform::command;
use crate::platform::command::{copied_dir, push_args, Command};
use crate::process::Process;
use crate::stdtext;
use crate::text;
use crate::text::joined;

verus! {

/// Sandbox without isolation by the operating system.
#[derive(Debug)]
pub struct Other;

/// What a launch does next. `M` manages cgroups, which a process launched here has none of.
#[derive(Debug)]
pub enum LaunchStep<M> {
    /// Take a step to make the directory of the task.
    Dir(DirStep),
    /// Start the command, whose home is the directory.
    Start(Command, PathBuf),
    /// Remove the directory: the command could not be started.
    Remove(PathBuf, Error),
    /// The launch failed, and nothing runs.
    Failed(Error),
    /// The process runs.
    Running(Process<M>),
}

/// Whether a command launches `cmd` for a task whose home is `tmp_dir`, in an environment
/// that holds nothing of the host's.
pub open spec fn launches(
    command: Command,
    cfg: Config,
    tmp_dir: Seq<u8>,
    cmd: Seq<char>,
    args: Seq<Seq<char>>,
) -> bool {
    &&& command.program@ == cmd
    &&& text::views(command.args@) == args
    &&& env::variables(command.env@) == env::minimal_variables(tmp_dir)
    &&& command::same_dir(command.work_dir, cfg.work_dir)
}

/// Whether a launch of `cmd` goes on from one step with another. `outcome` is what the first
/// step came to: the number of the process that it started, any number for another step, or
/// the reason that it failed.
pub open spec fn follows<M>(
    step: LaunchStep<M>,
    cfg: Config,
    cmd: Seq<char>,
    args: Seq<Seq<char>>,
    outcome: Result<u32, Seq<char>>,
    next: LaunchStep<M>,
) -> bool {
    match step {
        LaunchStep::Dir(dir_step) => match outcome {
            Err(reason) => next matches LaunchStep::Failed(error) && error@ == ErrorView::Io(
                reason,
            ),
            Ok(_) => match dir_step {
                DirStep::Create(dir) => next == LaunchStep::<M>::Dir(
                    DirStep::SetMode(dir, env::PRIVATE_MODE),
                ),
                DirStep::SetMode(dir, _) => next matches LaunchStep::Start(command, home) && home
                    == dir && launches(command, cfg, dir@, cmd, args),
                DirStep::Ready(dir) => next matches LaunchStep::Start(command, home) && home == dir
                    && launches(command, cfg, dir@, cmd, args),
            },
        },
        LaunchStep::Start(_, dir) => match outcome {
            Ok(pid) => next == LaunchStep::Running(
                Process { pid, tmp_dir: dir, cgroup_path: None, cgroup_mgr: None::<M> },
            ),
            Err(reason) => next matches LaunchStep::Remove(gone, error) && gone == dir && error@
                == ErrorView::Process("start process: "@ + reason),
        },
        LaunchStep::Remove(_, error) => next == LaunchStep::<M>::Failed(error),
        LaunchStep::Failed(_) => next == step,
        LaunchStep::Running(_) => next == step,
    }
}

impl Other {
    /// Begins a launch: the task gets its directory.
    pub fn begin<M>(&self, cfg: &Config, temp_dir: &PathBuf) -> (first: LaunchStep<M>)
        ensures
            first matches LaunchStep::Dir(DirStep::Create(dir)) && dir@ == env::tmp_dir_bytes(
                temp_dir@,
                cfg.task_id@,
            ),
    {
        LaunchStep::Dir(make_tmp_dir(temp_dir, cfg.task_id.as_str()))
    }

    /// Goes on with a launch of `cmd` after a step. `outcome` is what the step came to: the
    /// number of the process that it started, any number for another step, or the reason
    /// that it failed. Without its directory nothing is started, and a directory whose
    /// command could not be started is removed.
    pub fn after<M>(
        &self,
        step: LaunchStep<M>,
        cfg: &Config,
        cmd: &str,
        args: &[&str],
        outcome: Result<u32, &str>,
    ) -> (next: LaunchStep<M>)
        ensures
            follows(
                step,
                *cfg,
                cmd@,
                command::given_arguments(args@),
                text::outcome(outcome),
                next,
            ),
    {
        match step {
            LaunchStep::Dir(dir_step) => {
                let made = match outcome {
                    Ok(_) => Ok(()),
                    Err(reason) => Err(reason),
                };
                let dir = match dir_step {
                    DirStep::Ready(dir) => match made {
                        Ok(_) => dir,
                        Err(reason) => return LaunchStep::Failed(Error::Io(reason.to_owned())),
                    },
                    unfinished => match unfinished.after(made) {
                        Ok(DirStep::Ready(dir)) => dir,
                        Ok(further) => return LaunchStep::Dir(further),
                        Err(error) => return LaunchStep::Failed(error),
                    },
                };
                let command = self.launch(cfg, &dir, cmd, args);
                LaunchStep::Start(command, dir)
            },
            LaunchStep::Start(_, dir) => match outcome {
                Ok(pid) => LaunchStep::Running(
                    Process { pid, tmp_dir: dir, cgroup_path: None, cgroup_mgr: None },
                ),
                Err(reason) => LaunchStep::Remove(
                    dir,
                    Error::Process(joined("start process: ", reason)),
                ),
            },
            LaunchStep::Remove(_, error) => LaunchStep::Failed(error),
            LaunchStep::Failed(error) => LaunchStep::Failed(error),
            LaunchStep::Running(process) => LaunchStep::Running(process),
        }
    }

    /// The command that launches `cmd`, in an environment that holds nothing of the host's.
    pub fn launch(
        &self,
        cfg: &Config,
        tmp_dir: &PathBuf,
        cmd: &str,
        args: &[&str],
    ) -> (command: Command)
        ensures
            launches(command, *cfg, tmp_dir@, cmd@, command::given_arguments(args@)),
    {
        let mut list: Vec<String> = Vec::new();
        push_args(&mut list, args);
        assert(text::views(list@) =~= command::given_arguments(args@));
        Command {
            program: cmd.to_owned(),
            args: list,
            env: minimal_env(tmp_dir),
            work_dir: copied_dir(&cfg.work_dir),
        }
    }

    /// Says that the sandbox does not isolate on the operating system `os`.
    pub fn available(&self, os: &str) -> (available: Result<(), Error>)
        ensures
            available matches Err(error) && error@ == ErrorView::Process(
                "platform "@ + os@ + " has degraded sandbox security (development only)"@,
            ),
    {
        Err(
            Error::Process(
                joined(
                    joined("platform ", os).as_str(),
                    " has degraded sandbox security (development only)",
                ),
            ),
        )
    }

    /// Processes get no network namespaces.
    pub fn netns_available(&self) -> (available: bool)
        ensures
            !available,
    {
        false
    }

    /// Processes get no cgroups.
    pub fn cgroups_available(&self) -> (available: bool)
        ensures
            !available,
    {
        false
    }
}

/// Whether `steps` are those of a launch of `cmd`, with what all but the last came to.
pub open spec fn is_launch<M>(
    cfg: Config,
    cmd: Seq<char>,
    args: Seq<Seq<char>>,
    steps: Seq<LaunchStep<M>>,
    outcomes: Seq<Result<u32, Seq<char>>>,
) -> bool {
    &&& steps.len() == outcomes.len() + 1
    &&& forall|i: int|
        0 <= i < outcomes.len() ==> follows(
            #[trigger] steps[i],
            cfg,
            cmd,
            args,
            outcomes[i],
            steps[i + 1],
        )
}

/// A launch either makes the directory of the task, makes it private and starts the command,
/// and then the process has that directory and no cgroup; or it fails with the error of the
/// first of the three that failed. Where that is one of the first two, no command is
/// started. Where it is the last, the directory is removed before the launch ends.
pub proof fn law_launch<M>(
    cfg: Config,
    dir: PathBuf,
    cmd: Seq<char>,
    args: Seq<Seq<char>>,
    steps: Seq<LaunchStep<M>>,
    outcomes: Seq<Result<u32, Seq<char>>>,
)
    requires
        is_launch(cfg, cmd, args, steps, outcomes),
        steps[0] == LaunchStep::<M>::Dir(DirStep::Create(dir)),
    ensures
        steps.last() matches LaunchStep::Running(process) ==> {
            &&& outcomes.len() >= 3
            &&& outcomes[0] is Ok && outcomes[1] is Ok
            &&& outcomes[2] == Ok::<u32, Seq<char>>(process.pid)
            &&& process.tmp_dir == dir && process.cgroup_path is None && process.cgroup_mgr is None
            &&& steps[2] matches LaunchStep::Start(command, home) && home == dir && launches(
                command,
                cfg,
                dir@,
                cmd,
                args,
            )
        },
        steps.last() matches LaunchStep::Failed(error) ==> {
            ||| {
                &&& exists|i: int|
                    0 <= i < 2 && i < outcomes.len() && (#[trigger] outcomes[i] matches Err(reason)
                        && error@ == ErrorView::Io(reason))
                &&& forall|i: int| 0 <= i < steps.len() ==> !(#[trigger] steps[i] is Start)
            }
            ||| {
                &&& outcomes.len() >= 4
                &&& outcomes[0] is Ok && outcomes[1] is Ok
                &&& outcomes[2] matches Err(reason) && error@ == ErrorView::Process(
                    "start process: "@ + reason,
                )
                &&& steps[3] matches LaunchStep::Remove(gone, _) && gone == dir
            }
        },
{
    lemma_launch(cfg, dir, cmd, args, steps, outcomes, outcomes.len());
}

/// Where a launch is after `k` steps.
proof fn lemma_launch<M>(
    cfg: Config,
    dir: PathBuf,
    cmd: Seq<char>,
    args: Seq<Seq<char>>,
    steps: Seq<LaunchStep<M>>,
    outcomes: Seq<Result<u32, Seq<char>>>,
    k: nat,
)
    requires
        is_launch(cfg, cmd, args, steps, outcomes),
        steps[0] == LaunchStep::<M>::Dir(DirStep::Create(dir)),
        k <= outcomes.len(),
    ensures
        match steps[k as int] {
            LaunchStep::Dir(step) => {
                ||| k == 0 && step == DirStep::Create(dir)
                ||| k == 1 && step == DirStep::SetMode(dir, env::PRIVATE_MODE) && outcomes[0] is Ok
            },
            LaunchStep::Start(command, home) => k == 2 && home == dir && outcomes[0] is Ok
                && outcomes[1] is Ok && launches(command, cfg, dir@, cmd, args),
            LaunchStep::Remove(gone, error) => k == 3 && gone == dir && outcomes[0] is Ok
                && outcomes[1] is Ok && (outcomes[2] matches Err(reason) && error@
                == ErrorView::Process("start process: "@ + reason)),
            LaunchStep::Failed(error) => {
                ||| (k >= 1 && (outcomes[0] matches Err(reason) && error@ == ErrorView::Io(
                    reason,
                )) || k >= 2 && (outcomes[1] matches Err(reason) && error@ == ErrorView::Io(
                    reason,
                ))) && (forall|i: int| 0 <= i <= k ==> !(#[trigger] steps[i] is Start))
                ||| k >= 4 && outcomes[0] is Ok && outcomes[1] is Ok && (
                outcomes[2] matches Err(reason) && error@ == ErrorView::Process(
                    "start process: "@ + reason,
                )) && (steps[3] matches LaunchStep::Remove(gone, _) && gone == dir)
            },
            LaunchStep::Running(process) => k >= 3 && outcomes[0] is Ok && outcomes[1] is Ok
                && outcomes[2] == Ok::<u32, Seq<char>>(process.pid) && process.tmp_dir == dir
                && process.cgroup_path is None && process.cgroup_mgr is None && (
            steps[2] matches LaunchStep::Start(command, home) && home == dir && launches(
                command,
                cfg,
                dir@,
                cmd,
                args,
            )),
        },
    decreases k,
{
    if k > 0 {
        lemma_launch(cfg, dir, cmd, args, steps, outcomes, (k - 1) as nat);
        assert(follows(steps[k - 1], cfg, cmd, args, outcomes[k - 1], steps[k as int]));
    }
}

/// A command launches just what it is asked to, with four variables and no other, where the
/// configuration says.
pub proof fn law_launched_command(
    command: Command,
    cfg: Config,
    tmp_dir: Seq<u8>,
    cmd: Seq<char>,
    args: Seq<Seq<char>>,
)
    requires
        launches(command, cfg, tmp_dir, cmd, args),
    ensures
        command.program@ == cmd,
        command.args@.len() == args.len(),
        forall|i: int| 0 <= i < args.len() ==> (#[trigger] command.args@[i])@ == args[i],
        command.env@.len() == 4,
        command.env@[0].0@ == "HOME"@ && command.env@[0].1@ == stdtext::utf8_lossy(tmp_dir),
        command.env@[1].0@ == "TMPDIR"@ && command.env@[1].1@ == stdtext::utf8_lossy(tmp_dir),
        command.env@[2].0@ == "PATH"@ && command.env@[2].1@
            == "/usr/local/bin:/usr/bin:/bin:/usr/local/sbin:/usr/sbin:/sbin"@,
        command.env@[3].0@ == "LANG"@ && command.env@[3].1@ == "C.UTF-8"@,
        command.work_dir is Some <==> cfg.work_dir is Some,
        command.work_dir is Some ==> command.work_dir->0.bytes@ == cfg.work_dir->0.bytes@,
{
    let list = text::views(command.args@);
    assert forall|i: int| 0 <= i < args.len() implies (#[trigger] command.args@[i])@ == args[i] by {
        assert(list[i] == command.args@[i]@);
    }
    let vars = env::variables(command.env@);
    assert(vars.len() == command.env@.len());
    assert(vars[0] == (command.env@[0].0@, command.env@[0].1@));
    assert(vars[1] == (command.env@[1].0@, command.env@[1].1@));
    assert(vars[2] == (command.env@[2].0@, command.env@[2].1@));
    assert(vars[3] == (command.env@[3].0@, command.env@[3].1@));
}

/// A launch whose steps all succeed runs after three of them: the directory is created, then
/// given to its owner alone, and then the command is started.
pub proof fn law_launch_succeeds<M>(
    cfg: Config,
    dir: PathBuf,
    cmd: Seq<char>,
    args: Seq<Seq<char>>,
    steps: Seq<LaunchStep<M>>,
    outcomes: Seq<Result<u32, Seq<char>>>,
)
    requires
        is_launch(cfg, cmd, args, steps, outcomes),
        steps[0] == LaunchStep::<M>::Dir(DirStep::Create(dir)),
        outcomes.len() == 3,
        forall|i: int| 0 <= i < 3 ==> #[trigger] outcomes[i] is Ok,
    ensures
        steps[1] == LaunchStep::<M>::Dir(DirStep::SetMode(dir, 0o700)),
        steps[2] matches LaunchStep::Start(_, home) && home == dir,
        steps[3] matches LaunchStep::Running(process) && Ok::<u32, Seq<char>>(process.pid)
            == outcomes[2],
{
    assert(follows(steps[0], cfg, cmd, args, outcomes[0], steps[1]));
    assert(follows(steps[1], cfg, cmd, args, outcomes[1], steps[2]));
    assert(follows(steps[2], cfg, cmd, args, outcomes[2], steps[3]));
}

/// A launch goes on after every failure: without its directory it has failed at once, and
/// where the command could not be started it has failed once the directory is removed,
/// whether that worked or not. What has failed, or runs, stays so.
pub proof fn law_launch_fails<M>(
    cfg: Config,
    dir_step: DirStep,
    command: Command,
    dir: PathBuf,
    error: Error,
    process: Process<M>,
    cmd: Seq<char>,
    args: Seq<Seq<char>>,
    reason: Seq<char>,
    outcome: Result<u32, Seq<char>>,
    next: LaunchStep<M>,
)
    ensures
        follows(LaunchStep::<M>::Dir(dir_step), cfg, cmd, args, Err(reason), next) ==> (
        next matches LaunchStep::Failed(e) && e@ == ErrorView::Io(reason)),
        follows(LaunchStep::<M>::Start(command, dir), cfg, cmd, args, Err(reason), next) ==> (
        next matches LaunchStep::Remove(gone, e) && gone == dir && e@ == ErrorView::Process(
            "start process: "@ + reason,
        )),
        follows(LaunchStep::<M>::Remove(dir, error), cfg, cmd, args, outcome, next) ==> next
            == LaunchStep::<M>::Failed(error),
        follows(LaunchStep::<M>::Failed(error), cfg, cmd, args, outcome, next) ==> next
            == LaunchStep::<M>::Failed(error),
        follows(LaunchStep::Running(process), cfg, cmd, args, outcome, next) ==> next
            == LaunchStep::Running(process),
{
}

} // verus!
