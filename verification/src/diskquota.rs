//! Disk usage of sandboxed processes.
//!
//! A limit on file size stops single large files; watching a directory catches what many
//! files add up to.

use vstd::prelude::*;

use crate::path::PathBuf;

verus! {

/// Seconds between two looks at a directory.
pub const DEFAULT_INTERVAL_SECS: u64 = 30;

/// Bytes in a MB.
pub const BYTES_PER_MB: u64 = 1_048_576;

/// What a walk found in a directory.
#[derive(Debug, PartialEq, Eq)]
pub struct DirTree {
    pub path: PathBuf,
    /// What is in it; nothing if it could not be listed.
    pub entries: Option<Vec<DirEntry>>,
}

/// What a walk found at one place in a directory.
#[derive(Debug, PartialEq, Eq)]
pub enum DirEntry {
    /// A file, with its size in bytes if it could be read.
    File(Option<u64>),
    /// A directory.
    Dir(DirTree),
    /// Neither, or something that could not be looked at.
    Other,
}

/// Sizes of all files in a tree, added up. What could not be read counts nothing.
pub open spec fn tree_bytes(tree: DirTree) -> nat
    decreases tree,
{
    match tree.entries {
        Some(entries) => entries_bytes(entries@),
        None => 0,
    }
}

/// Sizes of all files in and below some entries.
pub open spec fn entries_bytes(entries: Seq<DirEntry>) -> nat
    decreases entries,
{
    if entries.len() == 0 {
        0
    } else {
        entries_bytes(entries.drop_last()) + entry_bytes(entries.last())
    }
}

/// Sizes of all files at and below an entry.
pub open spec fn entry_bytes(entry: DirEntry) -> nat
    decreases entry,
{
    match entry {
        DirEntry::File(Some(len)) => len as nat,
        DirEntry::File(None) => 0,
        DirEntry::Dir(tree) => tree_bytes(tree),
        DirEntry::Other => 0,
    }
}

/// More entries add up to no less.
proof fn lemma_entries_monotonic(entries: Seq<DirEntry>, k: int)
    requires
        0 <= k <= entries.len(),
    ensures
        entries_bytes(entries.take(k)) <= entries_bytes(entries),
    decreases entries.len(),
{
    if k == entries.len() {
        assert(entries.take(k) == entries);
    } else {
        lemma_entries_monotonic(entries.drop_last(), k);
        assert(entries.drop_last().take(k) == entries.take(k));
    }
}

/// Adds up the sizes of all files in a tree; nothing where 64 bits do not hold the sum.
pub fn dir_size_bytes(tree: &DirTree) -> (total: Option<u64>)
    ensures
        total is Some <==> tree_bytes(*tree) <= u64::MAX,
        total matches Some(bytes) ==> bytes == tree_bytes(*tree),
    decreases tree,
{
    match &tree.entries {
        None => Some(0),
        Some(entries) => {
            let mut total: u64 = 0;
            let mut i: usize = 0;
            while i < entries.len()
                invariant
                    i <= entries@.len(),
                    tree.entries == Some(*entries),
                    total == entries_bytes(entries@.take(i as int)),
                decreases entries@.len() - i,
            {
                let ghost upto = entries@.take(i + 1);
                proof {
                    assert(upto.drop_last() == entries@.take(i as int));
                    assert(upto.last() == entries@[i as int]);
                    assert(entries_bytes(upto) == total + entry_bytes(entries@[i as int]));
                    lemma_entries_monotonic(entries@, i + 1);
                    assert(decreases_to!(tree => tree.entries));
                    assert(decreases_to!(tree.entries => tree.entries->0));
                    assert(decreases_to!(entries => entries@));
                    assert(decreases_to!(entries@ => entries@[i as int]));
                    assert(tree_bytes(*tree) == entries_bytes(entries@));
                }
                let size = match &entries[i] {
                    DirEntry::File(Some(len)) => Some(*len),
                    DirEntry::File(None) => Some(0),
                    DirEntry::Dir(below) => {
                        assert(decreases_to!(entries@[i as int] => entries@[i as int]->Dir_0));
                        dir_size_bytes(below)
                    },
                    DirEntry::Other => Some(0),
                };
                match size {
                    None => {
                        return None;
                    },
                    Some(bytes) => match total.checked_add(bytes) {
                        None => {
                            return None;
                        },
                        Some(sum) => {
                            total = sum;
                        },
                    },
                }
                i = i + 1;
            }
            assert(entries@.take(entries@.len() as int) == entries@);
            Some(total)
        },
    }
}

/// Disk usage of a directory in whole MB. A directory that does not exist or cannot be
/// listed uses nothing.
pub fn usage_mb(tree: &DirTree) -> (mb: u64)
    requires
        tree_bytes(*tree) <= u64::MAX,
    ensures
        mb == tree_bytes(*tree) / BYTES_PER_MB as nat,
        mb * 1_048_576 <= tree_bytes(*tree) < (mb + 1) * 1_048_576,
{
    match dir_size_bytes(tree) {
        Some(bytes) => bytes / BYTES_PER_MB,
        None => 0,
    }
}

/// What happened last to a watch of a directory.
#[derive(Clone, Copy, Debug, PartialEq, Eq, Structural)]
pub enum WatchEvent {
    /// It starts, or wakes up; `stopped` says whether its handle is gone.
    Awake { stopped: bool },
    /// It measured the usage of the directory.
    Measured { usage_mb: u64 },
    /// It reported that the limit is exceeded.
    Reported,
}

/// What a watch of a directory does next.
#[derive(Clone, Copy, Debug, PartialEq, Eq, Structural)]
pub enum WatchAction {
    /// Measure the usage of the directory.
    Measure,
    /// Report that the limit is exceeded, with the usage.
    Report { usage_mb: u64 },
    /// Sleep for the interval.
    Sleep,
    /// End.
    End,
}

/// What a watch does after an event: until it is stopped it measures, reports a usage over
/// the limit and nothing else, and sleeps.
pub open spec fn watch_action(event: WatchEvent, limit_mb: u64) -> WatchAction {
    match event {
        WatchEvent::Awake { stopped } => if stopped {
            WatchAction::End
        } else {
            WatchAction::Measure
        },
        WatchEvent::Measured { usage_mb } => if usage_mb > limit_mb {
            WatchAction::Report { usage_mb }
        } else {
            WatchAction::Sleep
        },
        WatchEvent::Reported => WatchAction::Sleep,
    }
}

/// Decides what a watch does: until it is stopped it measures, reports a usage over the
/// limit and nothing else, and sleeps.
pub fn watch(event: WatchEvent, limit_mb: u64) -> (action: WatchAction)
    ensures
        action == watch_action(event, limit_mb),
{
    match event {
        WatchEvent::Awake { stopped } => {
            if stopped {
                WatchAction::End
            } else {
                WatchAction::Measure
            }
        },
        WatchEvent::Measured { usage_mb } => {
            if usage_mb > limit_mb {
                WatchAction::Report { usage_mb }
            } else {
                WatchAction::Sleep
            }
        },
        WatchEvent::Reported => WatchAction::Sleep,
    }
}

/// Sizes add up over two lists of entries: what an entry counts does not depend on what
/// stands beside it.
pub proof fn law_sizes_add_up(a: Seq<DirEntry>, b: Seq<DirEntry>)
    ensures
        entries_bytes(a + b) == entries_bytes(a) + entries_bytes(b),
        entries_bytes(a + b) == entries_bytes(b + a),
{
    lemma_sizes_add_up(a, b);
    lemma_sizes_add_up(b, a);
}

/// Sizes add up over two lists of entries.
proof fn lemma_sizes_add_up(a: Seq<DirEntry>, b: Seq<DirEntry>)
    ensures
        entries_bytes(a + b) == entries_bytes(a) + entries_bytes(b),
    decreases b.len(),
{
    if b.len() == 0 {
        assert(a + b == a);
    } else {
        lemma_sizes_add_up(a, b.drop_last());
        assert((a + b).drop_last() == a + b.drop_last());
        assert((a + b).last() == b.last());
    }
}

/// A file counts its length, a directory what is in it, and everything else, or what could
/// not be read, nothing.
pub proof fn law_sizes_of_entries(len: u64, path: PathBuf, entries: Vec<DirEntry>)
    ensures
        entries_bytes(seq![DirEntry::File(Some(len))]) == len,
        entries_bytes(seq![DirEntry::File(None)]) == 0,
        entries_bytes(seq![DirEntry::Other]) == 0,
        entries_bytes(seq![DirEntry::Dir(DirTree { path, entries: Some(entries) })])
            == entries_bytes(entries@),
        entries_bytes(seq![DirEntry::Dir(DirTree { path, entries: None })]) == 0,
        entries_bytes(seq![]) == 0,
        tree_bytes(DirTree { path, entries: Some(entries) }) == entries_bytes(entries@),
        tree_bytes(DirTree { path, entries: None }) == 0,
{
    lemma_size_of_entry(DirEntry::File(Some(len)));
    lemma_size_of_entry(DirEntry::File(None));
    lemma_size_of_entry(DirEntry::Other);
    lemma_size_of_entry(DirEntry::Dir(DirTree { path, entries: Some(entries) }));
    lemma_size_of_entry(DirEntry::Dir(DirTree { path, entries: None }));
}

/// One entry counts what it counts alone.
proof fn lemma_size_of_entry(entry: DirEntry)
    ensures
        entries_bytes(seq![entry]) == entry_bytes(entry),
{
    assert(seq![entry].drop_last() =~= Seq::<DirEntry>::empty());
    assert(entries_bytes(seq![entry].drop_last()) == 0);
    assert(seq![entry].last() == entry);
}

/// The usage of a tree does not shrink when an entry is added to it.
pub proof fn law_usage_grows(entries: Seq<DirEntry>, added: DirEntry)
    ensures
        entries_bytes(entries) / BYTES_PER_MB as nat <= entries_bytes(entries.push(added))
            / BYTES_PER_MB as nat,
{
    assert(entries.push(added).drop_last() == entries);
}

/// A watch reports exactly the usages over its limit, as they were measured. It ends exactly
/// when it wakes up stopped, and measures whenever it wakes up else; after a measurement that
/// it does not report, and after a report, it sleeps.
pub proof fn law_watch(event: WatchEvent, limit_mb: u64, usage_mb: u64)
    ensures
        watch_action(event, limit_mb) == (WatchAction::Report { usage_mb }) <==> usage_mb > limit_mb
            && event == (WatchEvent::Measured { usage_mb }),
        watch_action(event, limit_mb) == WatchAction::End <==> event == (WatchEvent::Awake {
            stopped: true,
        }),
        watch_action(event, limit_mb) == WatchAction::Measure <==> event == (WatchEvent::Awake {
            stopped: false,
        }),
        usage_mb <= limit_mb ==> watch_action(WatchEvent::Measured { usage_mb }, limit_mb)
            == WatchAction::Sleep,
        watch_action(WatchEvent::Reported, limit_mb) == WatchAction::Sleep,
{
}

} // verus!
