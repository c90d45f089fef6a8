use arapuca::env::{
    canonicalize_paths, make_socket_dir, make_tmp_dir, minimal_env, parse_paths, DirStep,
    Resolution, PRIVATE_MODE,
};
use arapuca::error::Error;
use arapuca::path::PathBuf;

#[test]
fn minimal_env_contains_essentials() {
    let env = minimal_env(&PathBuf::from("/tmp/test"));
    let keys: Vec<&str> = env.iter().map(|(k, _)| k.as_str()).collect();
    assert!(keys.contains(&"HOME"));
    assert!(keys.contains(&"TMPDIR"));
    assert!(keys.contains(&"PATH"));
    assert!(keys.contains(&"LANG"));
    assert_eq!(env.len(), 4);
}

#[test]
fn parse_paths_empty() {
    assert!(parse_paths("").is_empty());
}

#[test]
fn parse_paths_single() {
    let paths = parse_paths("/usr/lib");
    assert_eq!(paths, vec![PathBuf::from("/usr/lib")]);
}

#[test]
fn parse_paths_multiple() {
    let paths = parse_paths("/usr:/lib:/etc");
    assert_eq!(
        paths,
        vec![
            PathBuf::from("/usr"),
            PathBuf::from("/lib"),
            PathBuf::from("/etc"),
        ]
    );
}

#[test]
fn parse_paths_trims_whitespace() {
    let paths = parse_paths(" /usr : /lib ");
    assert_eq!(paths, vec![PathBuf::from("/usr"), PathBuf::from("/lib")]);
}

#[test]
fn canonicalize_existing_paths() {
    let paths = vec![
        Resolution { path: PathBuf::from("/usr"), canonical: Some(PathBuf::from("/usr")) },
        Resolution { path: PathBuf::from("/nonexistent-xyz"), canonical: None },
    ];
    let result = canonicalize_paths(&paths);
    assert!(result.contains(&PathBuf::from("/usr")));
    assert!(
        !result
            .iter()
            .any(|p| p.to_string_lossy().contains("nonexistent"))
    );
}

#[test]
fn canonical_paths_keep_their_order() {
    let resolved = vec![
        Resolution { path: PathBuf::from("/a"), canonical: Some(PathBuf::from("/x")) },
        Resolution { path: PathBuf::from("/b"), canonical: None },
        Resolution { path: PathBuf::from("/c"), canonical: Some(PathBuf::from("/y")) },
    ];
    assert_eq!(
        canonicalize_paths(&resolved),
        vec![PathBuf::from("/x"), PathBuf::from("/y")]
    );
}

#[test]
fn minimal_env_values() {
    let env = minimal_env(&PathBuf { bytes: b"/tmp/\xffx".to_vec() });
    let expected = [
        ("HOME", "/tmp/\u{fffd}x"),
        ("TMPDIR", "/tmp/\u{fffd}x"),
        ("PATH", "/usr/local/bin:/usr/bin:/bin:/usr/local/sbin:/usr/sbin:/sbin"),
        ("LANG", "C.UTF-8"),
    ];
    for (found, wanted) in env.iter().zip(expected.iter()) {
        assert_eq!((found.0.as_str(), found.1.as_str()), *wanted);
    }
}

#[test]
fn parse_paths_drops_empty_places() {
    assert_eq!(
        parse_paths("::/usr: \t :\u{a0}/lib\u{3000}:"),
        vec![PathBuf::from("/usr"), PathBuf::from("/lib")]
    );
}

#[test]
fn a_list_of_paths_reads_back() {
    let listed = ["/usr", "relative/dir", "/with space/inside", "/\u{e9}"];
    let paths = parse_paths(&listed.join(":"));
    let back: Vec<PathBuf> = listed.iter().map(|p| PathBuf::from(p)).collect();
    assert_eq!(paths, back);
}

#[test]
fn a_task_directory_is_created_and_then_made_private() {
    let dir = PathBuf::from("/tmp/arapuca-task-1");
    let step = make_tmp_dir(&PathBuf::from("/tmp"), "task-1");
    assert_eq!(step, DirStep::Create(dir.copied()));
    let step = step.after(Ok(())).unwrap();
    assert_eq!(step, DirStep::SetMode(dir.copied(), PRIVATE_MODE));
    let step = step.after(Ok(())).unwrap();
    assert_eq!(step, DirStep::Ready(dir));
    assert_eq!(PRIVATE_MODE, 0o700);
}

#[test]
fn a_directory_that_cannot_be_made_is_an_error() {
    let step = make_tmp_dir(&PathBuf::from("/tmp/"), "t");
    assert_eq!(step, DirStep::Create(PathBuf::from("/tmp/arapuca-t")));
    assert_eq!(
        step.after(Err("Permission denied")).unwrap_err(),
        Error::Io("Permission denied".to_string())
    );
    let step = make_tmp_dir(&PathBuf::from("/tmp"), "t").after(Ok(())).unwrap();
    assert_eq!(step.after(Err("no")).unwrap_err(), Error::Io("no".to_string()));
}

#[test]
fn the_socket_directory_is_named_by_the_process() {
    assert_eq!(
        make_socket_dir(&PathBuf::from("/tmp"), 4_294_967_295),
        DirStep::Create(PathBuf::from("/tmp/arapuca-sock-4294967295"))
    );
    assert_eq!(
        make_socket_dir(&PathBuf::from("/var/tmp"), 7),
        DirStep::Create(PathBuf::from("/var/tmp/arapuca-sock-7"))
    );
}

#[test]
fn task_directories_differ() {
    let temp = PathBuf::from("/tmp");
    assert_ne!(make_tmp_dir(&temp, "a"), make_tmp_dir(&temp, "b"));
    assert_ne!(make_tmp_dir(&temp, "a"), make_tmp_dir(&temp, "a-a"));
}

#[test]
fn joining_paths() {
    assert_eq!(PathBuf::from("").join("a"), PathBuf::from("a"));
    assert_eq!(PathBuf::from("/").join("a"), PathBuf::from("/a"));
    assert_eq!(PathBuf::from("/x").join("/a"), PathBuf::from("/a"));
    assert_eq!(PathBuf::from("x").join("a"), PathBuf::from("x/a"));
    assert_eq!(PathBuf::from("x").join(""), PathBuf::from("x/"));
    for (base, part) in [("", "a"), ("/", "a"), ("/x", "/a"), ("x", "a"), ("x", ""), ("", "")] {
        let joined = std::path::Path::new(base).join(part);
        assert_eq!(
            PathBuf::from(base).join(part).to_string_lossy(),
            joined.to_string_lossy()
        );
    }
}
