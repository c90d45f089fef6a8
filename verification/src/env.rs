//! Environments and directories of sandboxed processes, and lists of paths.

use vstd::prelude::*;

use crate::error::{Error, ErrorView};
use crate::path;
use crate::path::PathBuf;
use crate::stdtext;
use crate::text;
use crate::text::{chars_of, joined, pieces, push_decimal, trim_range};

verus! {

/// Directories to search for programs.
pub open spec fn default_path() -> Seq<char> {
    "/usr/local/bin:/usr/bin:/bin:/usr/local/sbin:/usr/sbin:/sbin"@
}

/// The variables of an environment, over their characters.
pub open spec fn variables(env: Seq<(String, String)>) -> Seq<(Seq<char>, Seq<char>)> {
    env.map_values(|v: (String, String)| (v.0@, v.1@))
}

/// The whole environment of a sandboxed process: its home and temporary directory, where
/// to look for programs, and the language. Nothing of the host's environment is in it.
pub open spec fn minimal_variables(tmp_dir: Seq<u8>) -> Seq<(Seq<char>, Seq<char>)> {
    seq![
        ("HOME"@, stdtext::utf8_lossy(tmp_dir)),
        ("TMPDIR"@, stdtext::utf8_lossy(tmp_dir)),
        ("PATH"@, default_path()),
        ("LANG"@, "C.UTF-8"@),
    ]
}

/// Makes the environment of a sandboxed process that lives in `tmp_dir`.
pub fn minimal_env(tmp_dir: &PathBuf) -> (env: Vec<(String, String)>)
    ensures
        variables(env@) == minimal_variables(tmp_dir@),
{
    let env = vec![
        ("HOME".to_owned(), tmp_dir.to_string_lossy()),
        ("TMPDIR".to_owned(), tmp_dir.to_string_lossy()),
        (
            "PATH".to_owned(),
            "/usr/local/bin:/usr/bin:/bin:/usr/local/sbin:/usr/sbin:/sbin".to_owned(),
        ),
        ("LANG".to_owned(), "C.UTF-8".to_owned()),
    ];
    assert(variables(env@) =~= minimal_variables(tmp_dir@));
    env
}

/// Appends variables to an environment.
pub(crate) fn push_variables(env: &mut Vec<(String, String)>, more: &Vec<(String, String)>)
    ensures
        variables(final(env)@) == variables(old(env)@) + variables(more@),
{
    assert(variables(env@) =~= variables(old(env)@) + variables(more@.take(0)));
    for i in 0..more.len()
        invariant
            variables(env@) == variables(old(env)@) + variables(more@.take(i as int)),
    {
        let ghost before = env@;
        let name = more[i].0.as_str().to_owned();
        let value = more[i].1.as_str().to_owned();
        env.push((name, value));
        assert(variables(env@) =~= variables(before).push((name@, value@)));
        assert(variables(more@.take(i + 1)) =~= variables(more@.take(i as int)).push(
            (name@, value@),
        ));
    }
    assert(more@.take(more@.len() as int) == more@);
}

/// Permissions of a directory that belongs to a sandbox: its owner's alone.
pub const PRIVATE_MODE: u32 = 0o700;

/// What to do next to make a private directory.
#[derive(Debug, PartialEq, Eq)]
pub enum DirStep {
    /// Create the directory, and those above it that are missing.
    Create(PathBuf),
    /// Give the directory these permissions.
    SetMode(PathBuf, u32),
    /// The directory is there and private.
    Ready(PathBuf),
}

/// Where a task's directory lies: in the system's temporary directory, by the name that
/// the task gives it.
pub open spec fn tmp_dir_bytes(temp_dir: Seq<u8>, task_id: Seq<char>) -> Seq<u8> {
    path::join_bytes(temp_dir, vstd::utf8::encode_utf8("arapuca-"@ + task_id))
}

/// Starts making the temporary directory of a task.
pub fn make_tmp_dir(temp_dir: &PathBuf, task_id: &str) -> (first: DirStep)
    ensures
        first matches DirStep::Create(dir) && dir@ == tmp_dir_bytes(temp_dir@, task_id@),
{
    DirStep::Create(temp_dir.join(joined("arapuca-", task_id).as_str()))
}

/// Where a process keeps its sockets: in the system's temporary directory, by the name
/// that its process number gives it.
pub open spec fn socket_dir_bytes(temp_dir: Seq<u8>, pid: nat) -> Seq<u8> {
    path::join_bytes(
        temp_dir,
        vstd::utf8::encode_utf8("arapuca-sock"@ + "-"@ + text::decimal(pid)),
    )
}

/// Starts making the directory for the control and proxy sockets of process `pid`.
pub fn make_socket_dir(temp_dir: &PathBuf, pid: u32) -> (first: DirStep)
    ensures
        first matches DirStep::Create(dir) && dir@ == socket_dir_bytes(temp_dir@, pid as nat),
{
    tempfile_dir(temp_dir, "arapuca-sock", pid)
}

/// Starts making a temporary directory with a given prefix.
fn tempfile_dir(temp_dir: &PathBuf, prefix: &str, pid: u32) -> (first: DirStep)
    ensures
        first matches DirStep::Create(dir) && dir@ == path::join_bytes(
            temp_dir@,
            vstd::utf8::encode_utf8(prefix@ + "-"@ + text::decimal(pid as nat)),
        ),
{
    let mut name = joined(prefix, "-");
    push_decimal(&mut name, pid as u64);
    DirStep::Create(temp_dir.join(name.as_str()))
}

impl DirStep {
    /// What comes after a step that succeeded.
    pub open spec fn next(self) -> DirStep {
        match self {
            DirStep::Create(dir) => DirStep::SetMode(dir, PRIVATE_MODE),
            DirStep::SetMode(dir, _) => DirStep::Ready(dir),
            DirStep::Ready(dir) => DirStep::Ready(dir),
        }
    }

    /// Goes on after a step. `outcome` is what the step came to: nothing, or the reason it
    /// failed, which ends the attempt. A directory is ready once it was created and then
    /// made private.
    pub fn after(self, outcome: Result<(), &str>) -> (next: Result<DirStep, Error>)
        requires
            self !is Ready,
        ensures
            outcome matches Err(reason) ==> (next matches Err(error) && error@ == ErrorView::Io(
                reason@,
            )),
            outcome is Ok ==> (next matches Ok(step) && step == self.next()),
    {
        match outcome {
            Err(reason) => Err(Error::Io(reason.to_owned())),
            Ok(_) => Ok(
                match self {
                    DirStep::Create(dir) => DirStep::SetMode(dir, PRIVATE_MODE),
                    DirStep::SetMode(dir, _) => DirStep::Ready(dir),
                    DirStep::Ready(dir) => DirStep::Ready(dir),
                },
            ),
        }
    }
}

/// What the file system says of a path.
#[derive(Debug, PartialEq, Eq)]
pub struct Resolution {
    /// The path that was asked for.
    pub path: PathBuf,
    /// Where it leads, absolute and without symbolic links; nothing if it does not exist.
    pub canonical: Option<PathBuf>,
}

/// Where the paths that exist lead, in their order.
pub open spec fn existing(resolved: Seq<Resolution>) -> Seq<Seq<u8>>
    decreases resolved.len(),
{
    if resolved.len() == 0 {
        seq![]
    } else {
        match resolved.last().canonical {
            Some(target) => existing(resolved.drop_last()).push(target@),
            None => existing(resolved.drop_last()),
        }
    }
}

/// Replaces paths by where they lead, and drops those that lead nowhere: no rule can be
/// made for them. With links resolved, a link below a writable path grants nothing outside.
pub fn canonicalize_paths(resolved: &[Resolution]) -> (paths: Vec<PathBuf>)
    ensures
        path::path_bytes(paths@) == existing(resolved@),
{
    let mut paths: Vec<PathBuf> = Vec::new();
    assert(path::path_bytes(paths@) =~= existing(resolved@.take(0)));
    for i in 0..resolved.len()
        invariant
            path::path_bytes(paths@) == existing(resolved@.take(i as int)),
    {
        let ghost before = paths@;
        assert(resolved@.take(i + 1).drop_last() == resolved@.take(i as int));
        if let Some(target) = &resolved[i].canonical {
            let target = target.copied();
            paths.push(target);
            assert(path::path_bytes(paths@) =~= path::path_bytes(before).push(target@));
        }
    }
    assert(resolved@.take(resolved@.len() as int) == resolved@);
    paths
}

/// What stands between the colons of a list of paths, trimmed, without what is then empty.
pub open spec fn parsed(pieces: Seq<Seq<char>>) -> Seq<Seq<char>>
    decreases pieces.len(),
{
    if pieces.len() == 0 {
        seq![]
    } else {
        let piece = text::trim(pieces.last());
        if piece.len() == 0 {
            parsed(pieces.drop_last())
        } else {
            parsed(pieces.drop_last()).push(piece)
        }
    }
}

/// The paths of a colon-separated list, as text.
pub open spec fn listed_paths(list: Seq<char>) -> Seq<Seq<char>> {
    parsed(text::split(list, ':'))
}

/// The bytes of some texts.
pub open spec fn encoded(texts: Seq<Seq<char>>) -> Seq<Seq<u8>> {
    texts.map_values(|t: Seq<char>| vstd::utf8::encode_utf8(t))
}

/// Parses a colon-separated list of paths. White space around a path does not count, and
/// neither do empty places.
pub fn parse_paths(list: &str) -> (paths: Vec<PathBuf>)
    ensures
        path::path_bytes(paths@) == encoded(listed_paths(list@)),
{
    let found = pieces(list, ':');
    let mut paths: Vec<PathBuf> = Vec::new();
    assert(path::path_bytes(paths@) =~= encoded(parsed(text::views(found@).take(0))));
    for i in 0..found.len()
        invariant
            path::path_bytes(paths@) == encoded(parsed(text::views(found@).take(i as int))),
    {
        let ghost all = text::views(found@);
        let ghost before = paths@;
        let piece = found[i].as_str();
        let chars = chars_of(piece);
        let (a, b) = trim_range(&chars, 0, chars.len());
        assert(chars@.subrange(0, chars@.len() as int) == piece@);
        assert(all.take(i + 1).drop_last() == all.take(i as int));
        if a < b {
            paths.push(PathBuf::from(piece.substring_char(a, b)));
            proof {
                let name = vstd::utf8::encode_utf8(text::trim(piece@));
                assert(path::path_bytes(paths@) =~= path::path_bytes(before).push(name));
                assert(encoded(parsed(all.take(i + 1))) =~= encoded(
                    parsed(all.take(i as int)),
                ).push(name));
            }
        }
    }
    assert(text::views(found@).take(found@.len() as int) == text::views(found@));
    paths
}

/// A directory is created, then given to its owner alone, and then ready, and stays the same
/// directory all along.
pub proof fn law_private_dir(dir: PathBuf, mode: u32)
    ensures
        DirStep::Create(dir).next() == DirStep::SetMode(dir, 0o700),
        DirStep::SetMode(dir, mode).next() == DirStep::Ready(dir),
        DirStep::Ready(dir).next() == DirStep::Ready(dir),
{
}

} // verus!
