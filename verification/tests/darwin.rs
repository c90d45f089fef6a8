use arapuca::config::{Config, Profile};
use arapuca::env::{DirStep, Resolution};
use arapuca::error::Error;
use arapuca::path::PathBuf;
use arapuca::platform::command::Command;
use arapuca::platform::darwin::{
    exec_paths, parse_rss_kb, sandbox_exec_candidates, which_sandbox_exec, Candidate, Darwin, Host,
    LaunchPaths, Poll,
};
use arapuca::platform::remap::Remap;
use arapuca::process::Launched;

#[test]
fn cpu_pct_to_seconds_basic() {
    // 200% for 30 min = 3600 seconds.
    assert_eq!(Darwin::cpu_pct_to_seconds(200, 30), 3600);
    // 100% for 30 min = 1800 seconds.
    assert_eq!(Darwin::cpu_pct_to_seconds(100, 30), 1800);
    // 0% = no limit.
    assert_eq!(Darwin::cpu_pct_to_seconds(0, 30), 0);
    // 0 duration = no limit.
    assert_eq!(Darwin::cpu_pct_to_seconds(200, 0), 0);
}

fn test_config_with_extra_fds(fds: Vec<i32>) -> Config {
    Config {
        profile: Profile::default(),
        socket_dir: PathBuf::from(""),
        task_id: "test".into(),
        work_dir: None,
        stdin: None,
        stdout: None,
        stderr: None,
        extra_fds: fds,
        network_proxy_socket: None,
        env: vec![],
    }
}

fn host() -> Host {
    Host {
        sandbox_exec: Some("/usr/bin/sandbox-exec".to_string()),
        stdio_problem: None,
        profile_path: PathBuf::from("/tmp/h/profile.sb"),
        wrapper: None,
        wrapper_env: vec![],
        caller_env: vec![],
    }
}

/// Launches with nothing resolved.
fn launch(cfg: &Config, cmd: &str, args: &[&str]) -> Result<Command, Error> {
    let paths = Darwin::launch_paths(cfg, &PathBuf::from("/tmp/h"), cmd, None);
    Darwin.launch(cfg, &host(), &paths, args)
}

#[test]
fn darwin_extra_fds_rejects_stdin() {
    let cfg = test_config_with_extra_fds(vec![0]);
    let err = match launch(&cfg, "/bin/true", &[]) {
        Err(e) => e.message().to_string(),
        Ok(_) => panic!("expected error for FD 0"),
    };
    assert!(err.contains("stdin/stdout/stderr"), "got: {err}");
}

#[test]
fn darwin_extra_fds_rejects_duplicates() {
    let cfg = test_config_with_extra_fds(vec![5, 5]);
    let err = match launch(&cfg, "/bin/true", &[]) {
        Err(e) => e.message().to_string(),
        Ok(_) => panic!("expected error for duplicate FDs"),
    };
    assert!(err.contains("duplicate FD"), "got: {err}");
}

#[test]
fn darwin_extra_fds_rejects_too_many() {
    let fds: Vec<i32> = (3..20).collect();
    let cfg = test_config_with_extra_fds(fds);
    let err = match launch(&cfg, "/bin/true", &[]) {
        Err(e) => e.message().to_string(),
        Ok(_) => panic!("expected error for too many FDs"),
    };
    assert!(err.contains("too many FDs"), "got: {err}");
}

#[test]
fn cpu_budgets_are_the_exact_share() {
    assert_eq!(Darwin::cpu_pct_to_seconds(113, 30), 2034);
    assert_eq!(Darwin::cpu_pct_to_seconds(1, 1), 0);
    assert_eq!(Darwin::cpu_pct_to_seconds(7, 25), 105);
    for pct in 0..1500u32 {
        for minutes in [0u64, 1, 7, 30, 1440, 525_600] {
            assert_eq!(
                Darwin::cpu_pct_to_seconds(pct, minutes),
                u64::from(pct) * minutes * 60 / 100
            );
        }
    }
}

#[test]
fn cpu_budgets_stop_at_what_fits() {
    let minutes = u64::MAX / 60;
    assert_eq!(Darwin::cpu_pct_to_seconds(100, minutes), minutes * 60);
    assert_eq!(Darwin::cpu_pct_to_seconds(101, minutes), u64::MAX);
    assert_eq!(Darwin::cpu_pct_to_seconds(0, u64::MAX), 0);
    assert_eq!(Darwin::cpu_pct_to_seconds(u32::MAX, minutes), u64::MAX);
}

#[test]
fn cpu_budgets_of_whole_processors() {
    for processors in [1u32, 2, 3, 7, 64, 1000, 42_949_672] {
        for minutes in [1u64, 7, 30, 1440] {
            assert_eq!(
                Darwin::cpu_pct_to_seconds(processors * 100, minutes),
                u64::from(processors) * minutes * 60
            );
        }
    }
}

#[test]
fn cpu_budgets_grow_with_share_and_duration() {
    let shares = [0u32, 1, 33, 99, 100, 101, 113, 5000, u32::MAX];
    let durations = [0u64, 1, 2, 30, 31, 1 << 40, u64::MAX / 60];
    for pair in shares.windows(2) {
        for minutes in durations {
            let less = Darwin::cpu_pct_to_seconds(pair[0], minutes);
            assert!(less <= Darwin::cpu_pct_to_seconds(pair[1], minutes));
        }
    }
    for pair in durations.windows(2) {
        for pct in shares {
            let less = Darwin::cpu_pct_to_seconds(pct, pair[0]);
            assert!(less <= Darwin::cpu_pct_to_seconds(pct, pair[1]));
        }
    }
}

#[test]
fn a_launch_begins_with_a_task_id() {
    let mut cfg = test_config_with_extra_fds(vec![]);
    assert_eq!(
        Darwin.begin(&cfg, &PathBuf::from("/tmp")),
        Ok(DirStep::Create(PathBuf::from("/tmp/arapuca-test")))
    );
    cfg.task_id = "../escape".to_string();
    assert_eq!(
        Darwin.begin(&cfg, &PathBuf::from("/tmp")),
        Err(Error::Validation(
            "task ID contains invalid characters: \"../escape\"".to_string()
        ))
    );
}

fn strings(texts: &[&str]) -> Vec<String> {
    texts.iter().map(|t| t.to_string()).collect()
}

fn vars(pairs: &[(&str, &str)]) -> Vec<(String, String)> {
    pairs.iter().map(|(k, v)| (k.to_string(), v.to_string())).collect()
}

const DARWIN_PATH: &str =
    "/opt/homebrew/bin:/usr/local/bin:/usr/bin:/bin:/usr/local/sbin:/usr/sbin:/sbin";

#[test]
fn the_command_without_a_wrapper() {
    let mut cfg = test_config_with_extra_fds(vec![7]);
    cfg.work_dir = Some(PathBuf::from("/w"));
    cfg.profile.max_cpu_pct = 200;
    let command = launch(&cfg, "/bin/echo", &["a", "b"]).unwrap();
    assert_eq!(command.program, "/usr/bin/sandbox-exec");
    assert_eq!(
        command.args,
        strings(&["-f", "/tmp/h/profile.sb", "--", "/bin/echo", "a", "b"])
    );
    assert_eq!(
        command.env,
        vars(&[
            ("HOME", "/tmp/h"),
            ("TMPDIR", "/tmp/h"),
            ("PATH", DARWIN_PATH),
            ("LANG", "C.UTF-8"),
        ])
    );
    assert_eq!(command.work_dir, Some(PathBuf::from("/w")));
    assert_eq!(Darwin.inherit(&cfg), Ok(Remap::new(vec![7])));
}

#[test]
fn the_command_with_a_wrapper() {
    let mut cfg = test_config_with_extra_fds(vec![]);
    cfg.profile.max_cpu_pct = 200;
    cfg.network_proxy_socket = Some(PathBuf::from("/s/proxy.sock"));
    let mut host = host();
    host.wrapper = Some(PathBuf::from("/opt/arapuca"));
    host.wrapper_env = vars(&[("ARAPUCA_RLIMIT_AS", "1")]);
    host.caller_env = vars(&[("MINE", "x")]);
    let mut paths = Darwin::launch_paths(&cfg, &PathBuf::from("/tmp/h"), "python3", None);
    paths.cmd.canonical = Some(PathBuf::from("/usr/bin/python3.12"));
    let command = Darwin.launch(&cfg, &host, &paths, &["-V"]).unwrap();
    assert_eq!(command.program, "/opt/arapuca");
    assert_eq!(
        command.args,
        strings(&[
            "--",
            "/usr/bin/sandbox-exec",
            "-f",
            "/tmp/h/profile.sb",
            "--",
            "/usr/bin/python3.12",
            "-V",
        ])
    );
    assert_eq!(
        command.env,
        vars(&[
            ("HOME", "/tmp/h"),
            ("TMPDIR", "/tmp/h"),
            ("PATH", DARWIN_PATH),
            ("LANG", "C.UTF-8"),
            ("ARAPUCA_RLIMIT_AS", "1"),
            ("ARAPUCA_RLIMIT_CPU", "3600"),
            ("AGENT_NETWORK_PROXY", "/s/proxy.sock"),
            ("MINE", "x"),
        ])
    );
    // Without a share of CPU time there is no CPU limit.
    cfg.profile.max_cpu_pct = 0;
    cfg.network_proxy_socket = None;
    let command = Darwin.launch(&cfg, &host, &paths, &[]).unwrap();
    assert_eq!(command.env.len(), 6);
}

#[test]
fn no_command_without_sandbox_exec() {
    let cfg = test_config_with_extra_fds(vec![]);
    let paths = Darwin::launch_paths(&cfg, &PathBuf::from("/tmp/h"), "/bin/true", None);
    let mut host = host();
    host.sandbox_exec = None;
    let missing = Err(Error::Process("sandbox-exec not found in PATH".to_string()));
    assert_eq!(Darwin.launch(&cfg, &host, &paths, &[]), missing);
    // This comes before what is wrong with the standard streams, and that before what is
    // wrong with other descriptors.
    let cfg = test_config_with_extra_fds(vec![0]);
    host.stdio_problem = Some("stdin: Bad file descriptor".to_string());
    assert_eq!(Darwin.launch(&cfg, &host, &paths, &[]), missing);
    host.sandbox_exec = Some("/usr/bin/sandbox-exec".to_string());
    assert_eq!(
        Darwin.launch(&cfg, &host, &paths, &[]),
        Err(Error::Process("stdin: Bad file descriptor".to_string()))
    );
}

#[test]
fn a_launch_and_its_descriptors_are_refused_alike() {
    for fds in [vec![0], vec![-1], vec![5, 5], (3..20).collect(), vec![], vec![3, 9]] {
        let cfg = test_config_with_extra_fds(fds);
        let refused = launch(&cfg, "/bin/true", &[]).err();
        assert_eq!(Darwin.inherit(&cfg).err(), refused);
    }
}

fn open(path: &str) -> Resolution {
    Resolution { path: PathBuf::from(path), canonical: None }
}

#[test]
fn paths_of_a_launch() {
    let mut cfg = test_config_with_extra_fds(vec![]);
    cfg.profile.read_paths = vec![PathBuf::from("/r1"), PathBuf::from("/r2")];
    cfg.profile.write_paths = vec![PathBuf::from("/w1")];
    let tmp = PathBuf::from("/tmp/h");
    let paths = Darwin::launch_paths(&cfg, &tmp, "cmd", None);
    assert_eq!(paths.read, vec![open("/r1"), open("/r2")]);
    assert_eq!(paths.write, vec![open("/w1")]);
    assert_eq!(paths.socket_dir, None);
    assert_eq!(paths.control_socket, None);
    assert_eq!(paths.uv_cache, None);
    assert_eq!(paths.cmd, open("cmd"));
    assert_eq!(paths.proxy, None);
    assert_eq!(paths.tmp_dir, tmp);

    cfg.socket_dir = PathBuf::from("/s");
    cfg.network_proxy_socket = Some(PathBuf::from("/p"));
    let paths = Darwin::launch_paths(&cfg, &tmp, "cmd", Some("/Users/me"));
    assert_eq!(paths.socket_dir, Some(open("/s")));
    assert_eq!(paths.control_socket, Some(open("/s/control.sock")));
    assert_eq!(paths.uv_cache, Some(open("/Users/me/Library/Caches/uv")));
    assert_eq!(paths.proxy, Some(open("/p")));
}

#[test]
fn what_a_profile_is_made_of() {
    let to = |path: &str, target: &str| Resolution {
        path: PathBuf::from(path),
        canonical: Some(PathBuf::from(target)),
    };
    let mut paths = LaunchPaths {
        read: vec![to("/r", "/private/r"), open("/gone")],
        write: vec![open("/w")],
        socket_dir: Some(to("/tmp/s", "/private/tmp/s")),
        control_socket: Some(open("/tmp/s/control.sock")),
        uv_cache: Some(to("/u", "/private/u")),
        cmd: to("python3", "/usr/bin/python3.12"),
        proxy: Some(to("/p", "/private/p")),
        tmp_dir: PathBuf::from("/private/tmp/h"),
    };
    let data = Darwin::profile_data(&paths);
    assert_eq!(data.read_paths, strings(&["/private/r", "/gone", "/private/tmp/s", "/private/u"]));
    assert_eq!(data.write_paths, strings(&["/w", "/private/tmp/h"]));
    assert_eq!(data.exec_paths, strings(&["/usr/bin"]));
    assert_eq!(data.control_socket.as_deref(), Some("/tmp/s/control.sock"));
    assert_eq!(data.llm_socket.as_deref(), Some("/private/p"));

    paths.socket_dir = None;
    paths.control_socket = None;
    // A cache that does not exist does not count.
    paths.uv_cache = Some(open("/u"));
    paths.proxy = None;
    let data = Darwin::profile_data(&paths);
    assert_eq!(data.read_paths, strings(&["/private/r", "/gone"]));
    assert_eq!(data.control_socket, None);
    assert_eq!(data.llm_socket, None);
}

#[test]
fn the_home_of_a_process() {
    let resolved = Resolution {
        path: PathBuf::from("/tmp/h"),
        canonical: Some(PathBuf::from("/private/tmp/h")),
    };
    assert_eq!(Darwin.home_dir(resolved), PathBuf::from("/private/tmp/h"));
    assert_eq!(Darwin.home_dir(open("/tmp/h")), PathBuf::from("/tmp/h"));
}

#[test]
fn the_end_of_a_launch() {
    match Darwin.finish::<u8>(PathBuf::from("/tmp/h"), Ok(77)) {
        Launched::Running(process) => {
            assert_eq!(process.pid(), 77);
            assert_eq!(process.tmp_dir, PathBuf::from("/tmp/h"));
            assert_eq!(process.cgroup(), None);
        }
        other => panic!("{other:?}"),
    }
    match Darwin.finish::<u8>(PathBuf::from("/tmp/h"), Err(Darwin.start_error("x"))) {
        Launched::Failed { error, remove } => {
            assert_eq!(error, Error::Process("start sandboxed process: x".to_string()));
            assert_eq!(remove, PathBuf::from("/tmp/h"));
        }
        other => panic!("{other:?}"),
    }
}

#[test]
fn the_directory_of_a_program() {
    let cases: [(&str, &[&str]); 9] = [
        ("/usr/bin/env", &["/usr/bin"]),
        ("/env", &["/"]),
        ("env", &[]),
        ("", &[]),
        ("/", &[]),
        ("a/b", &["a"]),
        ("/a/../b", &["/a/.."]),
        ("/a/b/", &["/a"]),
        ("/a//b", &["/a"]),
    ];
    for (cmd, dirs) in cases {
        let cfg = test_config_with_extra_fds(vec![]);
        let paths = Darwin::launch_paths(&cfg, &PathBuf::from("/t"), cmd, None);
        assert_eq!(Darwin::profile_data(&paths).exec_paths, strings(dirs), "{cmd}");
    }
}

#[test]
fn places_of_sandbox_exec() {
    let below = |list: Option<&str>, current_dir: Option<&PathBuf>| -> Vec<String> {
        let places = sandbox_exec_candidates(list, current_dir);
        places.iter().map(|p| p.to_string_lossy()).collect()
    };
    let shown = |list: Option<&str>| below(list, None);
    assert_eq!(
        shown(Some("/bin:/opt/bin/")),
        strings(&["/usr/bin/sandbox-exec", "/bin/sandbox-exec", "/opt/bin/sandbox-exec"])
    );
    assert_eq!(shown(None), strings(&["/usr/bin/sandbox-exec"]));
    assert_eq!(shown(Some("")), shown(None));
    // A directory that is not absolute is one below the current directory.
    let current_dir = PathBuf::from("/c");
    assert_eq!(
        below(Some(":bin:/z"), Some(&current_dir)),
        strings(&[
            "/usr/bin/sandbox-exec",
            "/c/sandbox-exec",
            "/c/bin/sandbox-exec",
            "/z/sandbox-exec",
        ])
    );
    assert_eq!(below(Some("bin"), Some(&PathBuf::from("c"))), shown(None));
    // Without one it is left out.
    assert_eq!(
        shown(Some(":bin:/:./x: /y:/z")),
        strings(&["/usr/bin/sandbox-exec", "/sandbox-exec", "/z/sandbox-exec"])
    );
}

#[test]
fn the_first_sandbox_exec_is_taken() {
    let candidate = |path: &str, is_file| Candidate { path: PathBuf::from(path), is_file };
    assert_eq!(
        which_sandbox_exec(&[candidate("/a", false), candidate("/b", true), candidate("/c", true)]),
        Some("/b".to_string())
    );
    assert_eq!(which_sandbox_exec(&[candidate("/a", false)]), None);
    assert_eq!(which_sandbox_exec(&[]), None);
}

#[test]
fn memory_that_ps_prints() {
    assert_eq!(parse_rss_kb(" 12345\n"), 12345);
    assert_eq!(parse_rss_kb("18446744073709551615"), u64::MAX);
    assert_eq!(parse_rss_kb("18446744073709551616"), 0);
    assert_eq!(parse_rss_kb("RSS"), 0);
    assert_eq!(exec_paths(Some("/bin".to_string())), strings(&["/bin"]));
    assert_eq!(exec_paths(Some(String::new())), strings(&[]));
    assert_eq!(exec_paths(None), strings(&[]));
}

#[test]
fn watching_memory() {
    assert_eq!(Darwin::memory_limit_kb(0), None);
    assert_eq!(Darwin::memory_limit_kb(3), Some(3072));
    let poll = |out: &[u8]| Darwin::memory_poll(true, Some(out), 100);
    assert_eq!(poll(b"  101\n"), Poll::Kill);
    assert_eq!(poll(b"  100\n"), Poll::Again);
    assert_eq!(poll(b""), Poll::Again);
    assert_eq!(poll(b"101 102"), Poll::Again);
    assert_eq!(poll(b"\xff101"), Poll::Again);
    assert_eq!(poll(b"99999999999999999999"), Poll::Again);
    assert_eq!(Darwin::memory_poll(true, None, 100), Poll::Again);
    assert_eq!(Darwin::memory_poll(false, Some(b"101"), 100), Poll::Stop);
}

#[test]
fn watching_the_parent() {
    assert_eq!(Darwin::watchdog_poll(10, 10, true), Poll::Again);
    assert_eq!(Darwin::watchdog_poll(10, 10, false), Poll::Stop);
    assert_eq!(Darwin::watchdog_poll(10, 1, true), Poll::Kill);
    assert_eq!(Darwin::watchdog_poll(10, 1, false), Poll::Kill);
}

#[test]
fn availability() {
    let sandbox = Darwin::new().unwrap();
    assert!(sandbox.available(Ok(())).is_ok());
    assert_eq!(
        sandbox.available(Err("os error 2")),
        Err(Error::Process(
            "sandbox-exec not found: os error 2 (required for macOS sandbox)".to_string()
        ))
    );
    assert_eq!(
        sandbox.start_error("os error 2"),
        Error::Process("start sandboxed process: os error 2".to_string())
    );
    assert!(!sandbox.netns_available());
    assert!(!sandbox.cgroups_available());
    assert_eq!(
        Darwin::uv_cache_path(Some("/h")),
        Some(PathBuf::from("/h/Library/Caches/uv"))
    );
    assert_eq!(Darwin::uv_cache_path(None), None);
}
