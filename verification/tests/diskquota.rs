use arapuca::diskquota::{
    dir_size_bytes, usage_mb, watch, DirEntry, DirTree, WatchAction, WatchEvent,
    DEFAULT_INTERVAL_SECS,
};
use arapuca::path::PathBuf;

fn tree(path: &str, entries: Option<Vec<DirEntry>>) -> DirTree {
    DirTree { path: PathBuf::from(path), entries }
}

#[test]
fn usage_mb_empty_dir() {
    let dir = tree("/tmp/arapuca-diskquota-test-empty", Some(vec![]));
    assert_eq!(usage_mb(&dir), 0);
}

#[test]
fn usage_mb_with_files() {
    // A 1KB file is less than 1 MB.
    let dir = tree(
        "/tmp/arapuca-diskquota-test-files",
        Some(vec![DirEntry::File(Some(1024))]),
    );
    assert_eq!(usage_mb(&dir), 0);
}

#[test]
fn usage_mb_nonexistent() {
    assert_eq!(usage_mb(&tree("/nonexistent-xyz-123", None)), 0);
}

#[test]
fn usage_adds_up_over_a_tree() {
    let mb: u64 = 1024 * 1024;
    let inner = tree(
        "/w/inner",
        Some(vec![DirEntry::File(Some(mb)), DirEntry::Other, DirEntry::File(None)]),
    );
    let unreadable = tree("/w/secret", None);
    let dir = tree(
        "/w",
        Some(vec![
            DirEntry::File(Some(mb - 1)),
            DirEntry::Dir(inner),
            DirEntry::Dir(unreadable),
            DirEntry::File(Some(1)),
        ]),
    );
    assert_eq!(dir_size_bytes(&dir), Some(2 * mb));
    assert_eq!(usage_mb(&dir), 2);
}

#[test]
fn usage_that_does_not_fit_has_no_number() {
    let dir = tree(
        "/w",
        Some(vec![DirEntry::File(Some(u64::MAX)), DirEntry::File(Some(1))]),
    );
    assert_eq!(dir_size_bytes(&dir), None);
}

#[test]
fn usage_grows_with_files() {
    let mb: u64 = 1024 * 1024;
    let mut last = 0;
    for n in 0..5usize {
        let entries = (0..n).map(|_| DirEntry::File(Some(mb))).collect();
        let now = usage_mb(&tree("/w", Some(entries)));
        assert!(now >= last);
        last = now;
    }
    assert_eq!(last, 4);
}

#[test]
fn a_watch_reports_only_over_the_limit() {
    let measured = |usage_mb| watch(WatchEvent::Measured { usage_mb }, 10);
    assert_eq!(measured(9), WatchAction::Sleep);
    assert_eq!(measured(10), WatchAction::Sleep);
    assert_eq!(measured(11), WatchAction::Report { usage_mb: 11 });
    assert_eq!(watch(WatchEvent::Reported, 10), WatchAction::Sleep);
    assert_eq!(watch(WatchEvent::Awake { stopped: false }, 10), WatchAction::Measure);
    assert_eq!(watch(WatchEvent::Awake { stopped: true }, 10), WatchAction::End);
    assert_eq!(DEFAULT_INTERVAL_SECS, 30);
}
