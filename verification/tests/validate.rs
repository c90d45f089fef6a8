use arapuca::error::Error;
use arapuca::path::PathBuf;
use arapuca::validate::{reject_cgroup_path, reject_cgroup_paths, sanitize_task_id, MAX_TASK_ID_LEN};

#[test]
fn valid_task_ids() {
    assert!(sanitize_task_id("abc-123").is_ok());
    assert!(sanitize_task_id("A").is_ok());
    assert!(sanitize_task_id("task-with-dashes-42").is_ok());
}

#[test]
fn empty_task_id() {
    assert!(sanitize_task_id("").is_err());
}

#[test]
fn task_id_too_long() {
    let long = "a".repeat(MAX_TASK_ID_LEN + 1);
    assert!(sanitize_task_id(&long).is_err());
}

#[test]
fn task_id_max_length_ok() {
    let max = "a".repeat(MAX_TASK_ID_LEN);
    assert!(sanitize_task_id(&max).is_ok());
}

#[test]
fn task_id_bad_chars() {
    assert!(sanitize_task_id("../escape").is_err());
    assert!(sanitize_task_id("has space").is_err());
    assert!(sanitize_task_id("has/slash").is_err());
    assert!(sanitize_task_id("has_underscore").is_err());
    assert!(sanitize_task_id("has.dot").is_err());
}

#[test]
fn cgroup_path_rejected() {
    let paths = vec![PathBuf::from("/sys/fs/cgroup/user.slice")];
    assert!(reject_cgroup_paths(&paths).is_err());
}

#[test]
fn cgroup_exact_path_rejected() {
    let paths = vec![PathBuf::from("/sys/fs/cgroup")];
    assert!(reject_cgroup_paths(&paths).is_err());
}

#[test]
fn normal_paths_ok() {
    let paths = vec![
        PathBuf::from("/usr/lib"),
        PathBuf::from("/tmp/agent-123"),
        PathBuf::from("/home/user/project"),
    ];
    assert!(reject_cgroup_paths(&paths).is_ok());
}

#[test]
fn empty_paths_ok() {
    assert!(reject_cgroup_paths(&[]).is_ok());
}

#[test]
fn task_id_comes_back_unchanged() {
    assert_eq!(sanitize_task_id("Task-7").unwrap(), "Task-7");
}

#[test]
fn task_id_messages() {
    assert_eq!(
        sanitize_task_id("").unwrap_err(),
        Error::Validation("empty task ID".to_string())
    );
    assert_eq!(
        sanitize_task_id(&"a".repeat(129)).unwrap_err(),
        Error::Validation("task ID too long (129 chars, max 128)".to_string())
    );
    assert_eq!(
        sanitize_task_id("a\"b\n").unwrap_err(),
        Error::Validation("task ID contains invalid characters: \"a\\\"b\\n\"".to_string())
    );
}

#[test]
fn task_id_length_counts_bytes() {
    // 65 characters of two bytes each.
    assert_eq!(
        sanitize_task_id(&"\u{e9}".repeat(65)).unwrap_err(),
        Error::Validation("task ID too long (130 chars, max 128)".to_string())
    );
}

#[test]
fn cgroup_message_names_the_first_path() {
    let paths = vec![
        PathBuf::from("/usr"),
        PathBuf::from("/sys/fs/cgroup2"),
        PathBuf::from("/sys/fs/cgroup/a"),
    ];
    assert_eq!(
        reject_cgroup_paths(&paths).unwrap_err(),
        Error::Validation("path must not include /sys/fs/cgroup: /sys/fs/cgroup2".to_string())
    );
    assert!(reject_cgroup_path("/sys/fs/cgroup").is_err());
    assert!(reject_cgroup_path("/sys/fs/cgrou").is_ok());
    // What is no text is shown with replacement characters.
    let odd = PathBuf { bytes: b"/sys/fs/cgroup/\xff".to_vec() };
    assert_eq!(
        reject_cgroup_paths(&[odd]).unwrap_err().message(),
        "path must not include /sys/fs/cgroup: /sys/fs/cgroup/\u{fffd}"
    );
}
