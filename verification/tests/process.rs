use arapuca::config::{Config, Profile};
use arapuca::env::DirStep;
use arapuca::error::Error;
use arapuca::path::PathBuf;
use arapuca::platform::linux::Linux;
use arapuca::platform::other::{LaunchStep, Other};
use arapuca::process::Process;

fn process(cgroup_path: Option<&str>, cgroup_mgr: Option<u8>) -> Process<u8> {
    Process {
        pid: 42,
        tmp_dir: PathBuf::from("/tmp/arapuca-t"),
        cgroup_path: cgroup_path.map(PathBuf::from),
        cgroup_mgr,
    }
}

#[test]
fn waiting_for_a_process() {
    let mut p = process(None, None);
    assert_eq!(p.pid(), 42);
    assert_eq!(p.wait(Ok(3)), Ok(3));
    assert_eq!(
        p.wait::<i32>(Err("No child processes")),
        Err(Error::Process("wait: No child processes".to_string()))
    );
}

#[test]
fn statistics_need_a_cgroup_and_its_manager() {
    let with = process(Some("/sys/fs/cgroup/a"), Some(9));
    assert_eq!(with.cgroup(), Some((&9, &PathBuf::from("/sys/fs/cgroup/a"))));
    assert_eq!(with.resource_stats(5, 0), 5);
    assert_eq!(with.oom_count(2), 2);
    for without in [process(Some("/c"), None), process(None, Some(9)), process(None, None)] {
        assert_eq!(without.cgroup(), None);
        assert_eq!(without.resource_stats(5, 0), 0);
        assert_eq!(without.oom_count(2), 0);
    }
}

#[test]
fn cleaning_up_after_a_process() {
    let cleanup = process(Some("/c"), Some(9)).cleanup(true);
    assert_eq!(cleanup.destroy, Some((9, PathBuf::from("/c"))));
    assert_eq!(cleanup.remove, Some(PathBuf::from("/tmp/arapuca-t")));
    let cleanup = process(Some("/c"), None).cleanup(false);
    assert_eq!(cleanup.destroy, None);
    assert_eq!(cleanup.remove, None);
}

#[test]
fn the_linux_sandbox() {
    let sandbox = Linux::new(Ok(Some(9))).unwrap();
    assert!(sandbox.cgroups_available());
    assert!(sandbox.netns_available(true));
    assert!(!sandbox.netns_available(false));
    assert!(sandbox.available(Ok(())).is_ok());
    assert_eq!(
        sandbox.available(Err("os error 2")).unwrap_err(),
        Error::Process(
            "unshare not found: os error 2 (required for network namespace isolation)".to_string()
        )
    );
    assert_eq!(
        sandbox.launch().unwrap_err(),
        Error::Process("not yet implemented".to_string())
    );
    assert!(!Linux::<u8>::new(Ok(None)).unwrap().cgroups_available());
    assert_eq!(
        Linux::<u8>::new(Err(Error::Process("x".to_string()))).unwrap_err(),
        Error::Process("x".to_string())
    );
}

fn config() -> Config {
    Config {
        profile: Profile::default(),
        socket_dir: PathBuf::from(""),
        task_id: "t".to_string(),
        work_dir: Some(PathBuf::from("/w")),
        stdin: None,
        stdout: None,
        stderr: None,
        extra_fds: vec![],
        network_proxy_socket: None,
        env: vec![("SECRET".to_string(), "x".to_string())],
    }
}

/// Launches without isolation, with steps that come to `outcomes`. Gives the end, and the
/// names of the steps.
fn launch(outcomes: &[Result<u32, &str>]) -> (LaunchStep<u8>, Vec<&'static str>) {
    let cfg = config();
    let mut step = Other.begin(&cfg, &PathBuf::from("/tmp"));
    let mut names = vec![];
    for outcome in outcomes {
        names.push(match &step {
            LaunchStep::Dir(DirStep::Create(dir)) => {
                assert_eq!(*dir, PathBuf::from("/tmp/arapuca-t"));
                "create"
            }
            LaunchStep::Dir(_) => "set mode",
            LaunchStep::Start(command, dir) => {
                assert_eq!(*dir, PathBuf::from("/tmp/arapuca-t"));
                assert_eq!(*command, Other.launch(&cfg, dir, "/bin/echo", &["a"]));
                "start"
            }
            LaunchStep::Remove(dir, _) => {
                assert_eq!(*dir, PathBuf::from("/tmp/arapuca-t"));
                "remove"
            }
            LaunchStep::Failed(_) | LaunchStep::Running(_) => "end",
        });
        step = Other.after(step, &cfg, "/bin/echo", &["a"], *outcome);
    }
    (step, names)
}

#[test]
fn a_launch_without_isolation() {
    let (end, names) = launch(&[Ok(0), Ok(0), Ok(77)]);
    assert_eq!(names, ["create", "set mode", "start"]);
    match end {
        LaunchStep::Running(process) => {
            assert_eq!(process.pid(), 77);
            assert_eq!(process.tmp_dir, PathBuf::from("/tmp/arapuca-t"));
            assert_eq!(process.cgroup(), None);
        }
        other => panic!("{other:?}"),
    }
}

#[test]
fn a_launch_without_isolation_that_fails() {
    let failed = |outcomes: &[Result<u32, &str>]| match launch(outcomes) {
        (LaunchStep::Failed(error), names) => (error, names),
        (other, _) => panic!("{other:?}"),
    };
    let (error, names) = failed(&[Err("full")]);
    assert_eq!((error, names), (Error::Io("full".to_string()), vec!["create"]));
    let (error, names) = failed(&[Ok(0), Err("denied")]);
    assert_eq!(error, Error::Io("denied".to_string()));
    assert_eq!(names, ["create", "set mode"]);
    // The directory is removed, whether or not that works.
    for removed in [Ok(0), Err("busy")] {
        let (error, names) = failed(&[Ok(0), Ok(0), Err("os error 2"), removed]);
        assert_eq!(error, Error::Process("start process: os error 2".to_string()));
        assert_eq!(names, ["create", "set mode", "start", "remove"]);
    }
}

#[test]
fn the_sandbox_without_isolation() {
    let cfg = config();
    let command = Other.launch(&cfg, &PathBuf::from("/tmp/h"), "/bin/echo", &["a", ""]);
    assert_eq!(command.program, "/bin/echo");
    assert_eq!(command.args, vec!["a".to_string(), String::new()]);
    assert_eq!(command.env.len(), 4);
    assert_eq!(command.env[0], ("HOME".to_string(), "/tmp/h".to_string()));
    assert_eq!(command.work_dir, Some(PathBuf::from("/w")));
    assert_eq!(
        Other.available("plan9").unwrap_err(),
        Error::Process(
            "platform plan9 has degraded sandbox security (development only)".to_string()
        )
    );
    assert!(!Other.netns_available());
    assert!(!Other.cgroups_available());
}
