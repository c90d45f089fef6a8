use arapuca::ffi::{
    arapuca_apply, arapuca_landlock_abi_version, arapuca_last_error, arapuca_netns_available,
    arapuca_profile_add_read_path, arapuca_profile_add_write_path, arapuca_profile_free,
    arapuca_profile_new, arapuca_profile_set_cpu_pct, arapuca_profile_set_max_file_size_mb,
    arapuca_profile_set_max_pids, arapuca_profile_set_memory_mb, arapuca_profile_set_netns,
    clear_error, set_error, ApplyStep, LastError,
};
use arapuca::path::PathBuf;

#[test]
fn profile_create_and_free() {
    let mut errors = LastError::new();
    let mut p = arapuca_profile_new(&mut errors);
    assert!(p.inner.is_some());
    arapuca_profile_free(Some(&mut p));
    assert!(p.inner.is_none());
}

#[test]
fn profile_double_free_is_safe() {
    let mut errors = LastError::new();
    let mut p = arapuca_profile_new(&mut errors);
    arapuca_profile_free(Some(&mut p));
    arapuca_profile_free(Some(&mut p));
    assert!(p.inner.is_none());
}

#[test]
fn null_profile_free_is_safe() {
    arapuca_profile_free(None);
}

#[test]
fn error_lifecycle() {
    let mut errors = LastError::new();
    clear_error(&mut errors);
    assert!(arapuca_last_error(&errors).is_none());

    set_error(&mut errors, "test error");
    let err = arapuca_last_error(&errors);
    assert!(err.is_some());
    let msg = err.unwrap();
    assert_eq!(msg, "test error");

    clear_error(&mut errors);
    assert!(arapuca_last_error(&errors).is_none());
}

#[test]
fn landlock_abi_version_probe() {
    let v = arapuca_landlock_abi_version(true, 4);
    println!("FFI landlock ABI: {v}");
    assert_eq!(v, 4);
    assert_eq!(arapuca_landlock_abi_version(false, 4), 0);
    assert!(arapuca_netns_available(true, true));
    assert!(!arapuca_netns_available(true, false));
    assert!(!arapuca_netns_available(false, true));
}

#[test]
fn a_message_with_a_nul_is_not_kept() {
    let mut errors = LastError::new();
    set_error(&mut errors, "kept");
    set_error(&mut errors, "a\0b");
    assert_eq!(arapuca_last_error(&errors), None);
}

#[test]
fn paths_are_added_in_order() {
    let mut errors = LastError::new();
    let mut p = arapuca_profile_new(&mut errors);
    set_error(&mut errors, "stale");
    assert_eq!(arapuca_profile_add_read_path(&mut errors, Some(&mut p), Some(b"/usr")), 0);
    assert_eq!(arapuca_last_error(&errors), None);
    assert_eq!(
        arapuca_profile_add_read_path(&mut errors, Some(&mut p), Some("/\u{e9}".as_bytes())),
        0
    );
    assert_eq!(arapuca_profile_add_write_path(&mut errors, Some(&mut p), Some(b"")), 0);
    let inner = p.inner.unwrap();
    assert_eq!(inner.read_paths, vec![PathBuf::from("/usr"), PathBuf::from("/\u{e9}")]);
    assert_eq!(inner.write_paths, vec![PathBuf::from("")]);
}

#[test]
fn refused_paths_leave_an_error_and_no_trace() {
    let mut errors = LastError::new();
    let mut p = arapuca_profile_new(&mut errors);
    let invalid = b"/a\xff";
    let reason = std::str::from_utf8(invalid).unwrap_err();
    assert_eq!(arapuca_profile_add_read_path(&mut errors, Some(&mut p), Some(invalid)), -1);
    let expected = format!("invalid UTF-8: {reason}");
    assert_eq!(arapuca_last_error(&errors), Some(expected.as_str()));
    assert_eq!(arapuca_profile_add_write_path(&mut errors, Some(&mut p), None), -1);
    assert_eq!(arapuca_last_error(&errors), Some("null string pointer"));
    assert_eq!(arapuca_profile_add_write_path(&mut errors, None, None), -1);
    assert_eq!(arapuca_last_error(&errors), Some("null profile pointer"));
    assert!(p.inner.as_ref().unwrap().read_paths.is_empty());
    assert!(p.inner.as_ref().unwrap().write_paths.is_empty());
    arapuca_profile_free(Some(&mut p));
    assert_eq!(arapuca_profile_add_read_path(&mut errors, Some(&mut p), Some(b"/usr")), -1);
    assert_eq!(arapuca_last_error(&errors), Some("profile already freed"));
}

#[test]
fn limits_are_set_until_the_profile_is_freed() {
    let mut errors = LastError::new();
    let mut p = arapuca_profile_new(&mut errors);
    set_error(&mut errors, "not touched");
    arapuca_profile_set_memory_mb(Some(&mut p), 1);
    arapuca_profile_set_cpu_pct(Some(&mut p), 2);
    arapuca_profile_set_max_pids(Some(&mut p), 3);
    arapuca_profile_set_max_file_size_mb(Some(&mut p), 4);
    arapuca_profile_set_netns(Some(&mut p), true);
    let inner = p.inner.as_ref().unwrap();
    assert_eq!(
        (inner.max_memory_mb, inner.max_cpu_pct, inner.max_pids, inner.max_file_size_mb),
        (1, 2, 3, 4)
    );
    assert!(inner.use_netns);
    arapuca_profile_free(Some(&mut p));
    arapuca_profile_set_memory_mb(Some(&mut p), 9);
    arapuca_profile_set_cpu_pct(None, 9);
    arapuca_profile_set_max_pids(None, 9);
    arapuca_profile_set_max_file_size_mb(None, 9);
    arapuca_profile_set_netns(None, false);
    assert!(p.inner.is_none());
    assert_eq!(arapuca_last_error(&errors), Some("not touched"));
}

/// Applies a profile with steps that come to `outcomes`, and gives the status, the steps
/// and the error.
fn apply(linux: bool, outcomes: &[Result<(), &str>]) -> (i32, Vec<ApplyStep>, Option<String>) {
    let mut errors = LastError::new();
    let profile = arapuca_profile_new(&mut errors);
    let mut steps = vec![];
    let mut step = arapuca_apply(&mut errors, Some(&profile), linux);
    for outcome in outcomes {
        if let ApplyStep::Finished(_) = step {
            break;
        }
        steps.push(step);
        step = step.after(&mut errors, *outcome);
    }
    match step {
        ApplyStep::Finished(status) => {
            (status, steps, arapuca_last_error(&errors).map(String::from))
        }
        _ => panic!("not finished"),
    }
}

#[test]
fn applying_a_profile() {
    let ok = Ok(());
    let all = vec![ApplyStep::Landlock, ApplyStep::Seccomp, ApplyStep::Rlimit];
    assert_eq!(apply(true, &[ok, ok, ok]), (0, all.clone(), None));
    assert_eq!(apply(false, &[ok]), (0, vec![ApplyStep::Rlimit], None));
}

#[test]
fn applying_a_profile_fails_closed() {
    let ok = Ok(());
    let (status, steps, error) = apply(true, &[Err("a"), ok, ok]);
    assert_eq!((status, steps.len(), error.as_deref()), (-1, 1, Some("landlock: a")));
    let (status, steps, error) = apply(true, &[ok, Err("b"), ok]);
    assert_eq!((status, steps.len(), error.as_deref()), (-1, 2, Some("seccomp: b")));
    let (status, steps, error) = apply(true, &[ok, ok, Err("c")]);
    assert_eq!((status, steps.len(), error.as_deref()), (-1, 3, Some("rlimit: c")));
    let (status, _, error) = apply(false, &[Err("c")]);
    assert_eq!((status, error.as_deref()), (-1, Some("rlimit: c")));
}

#[test]
fn applying_no_profile() {
    let mut errors = LastError::new();
    assert_eq!(arapuca_apply(&mut errors, None, true), ApplyStep::Finished(-1));
    assert_eq!(arapuca_last_error(&errors), Some("null profile pointer"));
    let mut p = arapuca_profile_new(&mut errors);
    arapuca_profile_free(Some(&mut p));
    assert_eq!(arapuca_apply(&mut errors, Some(&p), true), ApplyStep::Finished(-1));
    assert_eq!(arapuca_last_error(&errors), Some("profile already freed"));
}
