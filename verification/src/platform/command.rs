//! Commands to launch.

use vstd::prelude::*;

use crate::path::PathBuf;
use crate::text;

verus! {

/// A program to run.
#[derive(Debug, PartialEq, Eq)]
pub struct Command {
    pub program: String,
    pub args: Vec<String>,
    /// The whole environment.
    pub env: Vec<(String, String)>,
    /// Where it starts, if not where its parent is.
    pub work_dir: Option<PathBuf>,
}

/// The given arguments, over their characters.
pub open spec fn given_arguments(args: Seq<&str>) -> Seq<Seq<char>> {
    args.map_values(|a: &str| a@)
}

/// The same directory, if there is one.
pub open spec fn same_dir(a: Option<PathBuf>, b: Option<PathBuf>) -> bool {
    match (a, b) {
        (Some(x), Some(y)) => x@ == y@,
        (None, None) => true,
        _ => false,
    }
}

/// A directory again, if there is one.
pub(crate) fn copied_dir(dir: &Option<PathBuf>) -> (copy: Option<PathBuf>)
    ensures
        same_dir(copy, *dir),
{
    match dir {
        Some(path) => Some(path.copied()),
        None => None,
    }
}

/// Appends arguments to a list of them.
pub(crate) fn push_args(list: &mut Vec<String>, args: &[&str])
    ensures
        text::views(final(list)@) == text::views(old(list)@) + given_arguments(args@),
{
    assert(text::views(list@) =~= text::views(old(list)@) + given_arguments(args@.take(0)));
    for i in 0..args.len()
        invariant
            text::views(list@) == text::views(old(list)@) + given_arguments(args@.take(i as int)),
    {
        let ghost before = list@;
        list.push(args[i].to_owned());
        assert(text::views(list@) =~= text::views(before).push(args@[i as int]@));
        assert(given_arguments(args@.take(i + 1)) =~= given_arguments(args@.take(i as int)).push(
            args@[i as int]@,
        ));
    }
    assert(args@.take(args@.len() as int) == args@);
}

} // verus!
