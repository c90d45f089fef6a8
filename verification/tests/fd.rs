use arapuca::config::{Config, Profile};
use arapuca::path::PathBuf;
use arapuca::platform::fd::{validate_extra_fds, MAX_EXTRA_FDS};
use arapuca::platform::remap::{FdCall, Remap, FD_CLOEXEC};

fn test_config() -> Config {
    Config {
        profile: Profile::default(),
        socket_dir: PathBuf::from("/tmp"),
        task_id: "test".into(),
        work_dir: None,
        stdin: None,
        stdout: None,
        stderr: None,
        extra_fds: vec![],
        network_proxy_socket: None,
        env: vec![],
    }
}

#[test]
fn validate_empty() {
    assert!(validate_extra_fds(&[], &test_config()).is_ok());
}

#[test]
fn validate_valid_fds() {
    assert!(validate_extra_fds(&[5, 10, 20], &test_config()).is_ok());
}

#[test]
fn validate_fd_three_ok() {
    assert!(validate_extra_fds(&[3], &test_config()).is_ok());
}

#[test]
fn validate_negative_fd() {
    let err = validate_extra_fds(&[-1], &test_config()).unwrap_err();
    assert!(err.message().contains("negative FD"));
}

#[test]
fn validate_fd_zero() {
    let err = validate_extra_fds(&[0], &test_config()).unwrap_err();
    assert!(err.message().contains("stdin/stdout/stderr"));
}

#[test]
fn validate_fd_one() {
    let err = validate_extra_fds(&[1], &test_config()).unwrap_err();
    assert!(err.message().contains("stdin/stdout/stderr"));
}

#[test]
fn validate_fd_two() {
    let err = validate_extra_fds(&[2], &test_config()).unwrap_err();
    assert!(err.message().contains("stdin/stdout/stderr"));
}

#[test]
fn validate_duplicate() {
    let err = validate_extra_fds(&[5, 5], &test_config()).unwrap_err();
    assert!(err.message().contains("duplicate FD 5"));
}

#[test]
fn validate_stdio_overlap() {
    let mut cfg = test_config();
    cfg.stdin = Some(7);
    let err = validate_extra_fds(&[7], &cfg).unwrap_err();
    assert!(err.message().contains("overlaps with stdio"));
}

#[test]
fn validate_too_many() {
    let fds: Vec<i32> = (3..3 + MAX_EXTRA_FDS as i32 + 1).collect();
    let err = validate_extra_fds(&fds, &test_config()).unwrap_err();
    assert!(err.message().contains("too many FDs"));
}

#[test]
fn validate_exactly_max() {
    let fds: Vec<i32> = (3..3 + MAX_EXTRA_FDS as i32).collect();
    assert!(validate_extra_fds(&fds, &test_config()).is_ok());
}

#[test]
fn messages_of_refused_descriptors() {
    let mut cfg = test_config();
    cfg.stderr = Some(9);
    let refused = |fds: &[i32]| validate_extra_fds(fds, &cfg).unwrap_err().message().to_string();
    assert_eq!(refused(&[4, -7, 0]), "extra_fds[1]: negative FD -7");
    assert_eq!(
        refused(&[4, 5, 2]),
        "extra_fds[2]: FD 2 is stdin/stdout/stderr (use cfg.stdin/stdout/stderr instead)"
    );
    assert_eq!(refused(&[4, 5, 4]), "extra_fds[2]: duplicate FD 4");
    assert_eq!(refused(&[9]), "extra_fds[0]: FD 9 overlaps with stdio config");
    assert_eq!(refused(&[0; 17]), "extra_fds: too many FDs (17, max 16)");
}

/// Descriptors of a process: what each stands for, and whether it is closed on exec.
type Table = Vec<Option<(u32, bool)>>;

/// Makes one call on a table of descriptors.
fn perform(table: &mut Table, call: FdCall) -> i32 {
    match call {
        FdCall::DupAbove { fd, floor } => {
            let Some((file, _)) = table[fd as usize] else { return -1 };
            let free = (floor as usize..table.len()).find(|&i| table[i].is_none());
            match free {
                Some(high) => {
                    table[high] = Some((file, true));
                    high as i32
                }
                None => -1,
            }
        }
        FdCall::Close { fd } => {
            table[fd as usize] = None;
            0
        }
        FdCall::Dup2 { fd, target } => {
            let Some((file, _)) = table[fd as usize] else { return -1 };
            table[target as usize] = Some((file, false));
            target
        }
        FdCall::GetFlags { fd } => match table[fd as usize] {
            Some((_, cloexec)) => i32::from(cloexec) * FD_CLOEXEC,
            None => -1,
        },
        FdCall::SetFlags { fd, flags } => match table[fd as usize] {
            Some((file, _)) => {
                table[fd as usize] = Some((file, flags & FD_CLOEXEC != 0));
                0
            }
            None => -1,
        },
    }
}

/// Runs a move, and gives whether it worked and how many calls it took.
fn run(table: &mut Table, fds: &[i32]) -> (bool, usize) {
    let mut remap = Remap::new(fds.to_vec());
    let mut calls = 0;
    while let Some(call) = remap.call() {
        let ret = perform(table, call);
        remap.resume(ret);
        calls += 1;
    }
    (!remap.failed(), calls)
}

/// A table in which descriptor `fd` stands for file `1000 + fd`, for every open one.
fn table(open: &[i32]) -> Table {
    let mut table: Table = vec![None; 64];
    for fd in open {
        table[*fd as usize] = Some((1000 + *fd as u32, true));
    }
    table
}

#[test]
fn descriptors_are_moved_to_their_places() {
    let cases: Vec<Vec<i32>> = vec![
        vec![],
        vec![3],
        vec![7],
        vec![4, 3],
        vec![3, 4, 5],
        vec![5, 3, 4],
        vec![5, 4, 3],
        vec![20, 3, 30, 4],
        vec![4, 10, 3, 6, 5],
        (3..19).rev().collect(),
    ];
    for fds in cases {
        let mut open = fds.clone();
        open.extend([0, 1, 2, 40]);
        let mut now = table(&open);
        let (worked, calls) = run(&mut now, &fds);
        assert!(worked, "{fds:?}");
        assert!(calls <= 6 * fds.len(), "{fds:?}");
        for (i, fd) in fds.iter().enumerate() {
            assert_eq!(now[3 + i], Some((1000 + *fd as u32, false)), "{fds:?}");
        }
        for (fd, entry) in now.iter().enumerate() {
            // Beside the places, only what was open and is no source is open.
            if fd < 3 || fd >= 3 + fds.len() {
                let expected = if [0, 1, 2, 40].contains(&fd) {
                    Some((1000 + fd as u32, true))
                } else {
                    None
                };
                assert_eq!(*entry, expected, "{fds:?} {fd}");
            }
        }
    }
}

#[test]
fn a_move_takes_as_few_calls_as_it_can() {
    let mut now = table(&[3]);
    // Out of the way, to its place again, and its flag cleared.
    assert_eq!(run(&mut now, &[3]), (true, 6));
    let mut now = table(&[9]);
    assert_eq!(run(&mut now, &[9]), (true, 4));
    assert_eq!(run(&mut table(&[]), &[]), (true, 0));
}

#[test]
fn a_move_stops_at_the_first_failure() {
    let mut now = table(&[0, 1, 2]);
    assert_eq!(run(&mut now, &[9]), (false, 1));
    assert_eq!(now, table(&[0, 1, 2]));
    let mut remap = Remap::new(vec![4, 3]);
    assert_eq!(remap.call(), Some(FdCall::DupAbove { fd: 4, floor: 5 }));
    remap.resume(-1);
    assert!(remap.failed());
    assert_eq!(remap.call(), None);
}

#[test]
fn the_flag_is_that_of_the_system() {
    assert_eq!(FD_CLOEXEC, libc::FD_CLOEXEC);
}
