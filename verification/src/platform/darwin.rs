//! Launching on macOS, under `sandbox-exec` with a profile of what the process may touch.
//!
//! Memory is limited by looking at the process every so often, and a watchdog takes the
//! place of a signal on the parent's death. The arapuca wrapper, where it is installed,
//! applies the resource limits.

use vstd::prelude::*;

use crate::config::Config;
use crate::env;
use crate::env::{make_tmp_dir, minimal_env, push_variables, DirStep, Resolution};
use crate::error::{Error, ErrorView};
use crate::path;
use crate::path::PathBuf;
use crate::platform::command;
use crate::platform::command::{copied_dir, push_args, Command};
use crate::platform::cpu;
use crate::platform::cpu::cpu_pct_to_seconds;
use crate::platform::fd;
use crate::platform::fd::validate_extra_fds;
use crate::platform::remap;
use crate::platform::remap::Remap;
use crate::process::{Launched, Process};
use crate::stdtext;
use crate::stdtext::{lossy_text, parent_text, parse_u64};
use crate::text;
use crate::text::{chars_of, joined, pieces, push_decimal, trim_range};
use crate::validate;
use crate::validate::sanitize_task_id;

verus! {

/// How long a process is taken to run when its CPU limit is computed, in minutes.
pub const MAX_DURATION_MINUTES: u64 = 30;

/// macOS sandbox.
#[derive(Debug)]
pub struct Darwin;

/// What a watching thread does next.
#[derive(Clone, Copy, Debug, PartialEq, Eq, Structural)]
pub enum Poll {
    /// Look again later.
    Again,
    /// Stop watching.
    Stop,
    /// Kill the process group, and stop watching.
    Kill,
}

/// Resident memory that `ps` printed, in KB; 0 where it printed no number.
pub open spec fn printed_rss_kb(shown: Seq<char>) -> nat {
    match stdtext::number_of(text::trim(shown)) {
        Some(n) => if n <= u64::MAX {
            n
        } else {
            0
        },
        None => 0,
    }
}

/// What the memory watch does: a process that uses more than it may is killed.
pub open spec fn memory_decision(alive: bool, shown: Option<Seq<char>>, limit_kb: u64) -> Poll {
    if !alive {
        Poll::Stop
    } else {
        match shown {
            Some(printed) => if printed_rss_kb(printed) > limit_kb {
                Poll::Kill
            } else {
                Poll::Again
            },
            None => Poll::Again,
        }
    }
}

/// What the watchdog does: a process whose parent changed is killed.
pub open spec fn watchdog_decision(original_ppid: u32, current_ppid: u32, alive: bool) -> Poll {
    if current_ppid != original_ppid {
        Poll::Kill
    } else if !alive {
        Poll::Stop
    } else {
        Poll::Again
    }
}

/// Reads the resident memory that `ps` printed, in KB; 0 where it printed no number.
pub fn parse_rss_kb(shown: &str) -> (rss_kb: u64)
    ensures
        rss_kb == printed_rss_kb(shown@),
{
    let chars = chars_of(shown);
    let (a, b) = trim_range(&chars, 0, chars.len());
    assert(chars@.subrange(0, chars@.len() as int) == chars@);
    match parse_u64(shown.substring_char(a, b)) {
        Ok(n) => n,
        Err(_) => 0,
    }
}

/// The arguments of `sandbox-exec`.
pub open spec fn sandbox_args(
    profile_path: Seq<u8>,
    cmd: Seq<char>,
    args: Seq<Seq<char>>,
) -> Seq<Seq<char>> {
    seq!["-f"@, stdtext::utf8_lossy(profile_path), "--"@, cmd] + args
}

/// Directories to search for programs, with those of Homebrew.
pub open spec fn darwin_path() -> Seq<char> {
    "/opt/homebrew/bin:/usr/local/bin:/usr/bin:/bin:/usr/local/sbin:/usr/sbin:/sbin"@
}

/// A path as it stands in a profile: where it leads, or as it is if that is not known.
pub open spec fn canon_text(resolved: Resolution) -> Seq<char> {
    stdtext::utf8_lossy(
        match resolved.canonical {
            Some(canonical) => canonical@,
            None => resolved.path@,
        },
    )
}

/// Paths as they stand in a profile.
pub open spec fn canon_texts(resolved: Seq<Resolution>) -> Seq<Seq<char>> {
    resolved.map_values(|r: Resolution| canon_text(r))
}

/// A path as it stands in a profile, if there is one: one place or none.
pub open spec fn canon_optional(resolved: Option<Resolution>) -> Seq<Seq<char>> {
    match resolved {
        Some(r) => seq![canon_text(r)],
        None => seq![],
    }
}

/// A path as it stands in a profile, if there is one and it exists: one place or none.
pub open spec fn canon_existing(resolved: Option<Resolution>) -> Seq<Seq<char>> {
    match resolved {
        Some(r) => if r.canonical is Some {
            seq![canon_text(r)]
        } else {
            seq![]
        },
        None => seq![],
    }
}

/// A path as it stands in a profile.
fn canon(resolved: &Resolution) -> (text: String)
    ensures
        text@ == canon_text(*resolved),
{
    match &resolved.canonical {
        Some(canonical) => canonical.to_string_lossy(),
        None => resolved.path.to_string_lossy(),
    }
}

/// Paths as they stand in a profile.
fn canon_all(resolved: &Vec<Resolution>) -> (texts: Vec<String>)
    ensures
        text::views(texts@) == canon_texts(resolved@),
{
    let mut texts: Vec<String> = Vec::new();
    assert(text::views(texts@) =~= canon_texts(resolved@.take(0)));
    for i in 0..resolved.len()
        invariant
            text::views(texts@) == canon_texts(resolved@.take(i as int)),
    {
        let ghost before = texts@;
        texts.push(canon(&resolved[i]));
        assert(text::views(texts@) =~= text::views(before).push(
            canon_text(resolved@[i as int]),
        ));
        assert(canon_texts(resolved@.take(i + 1)) =~= canon_texts(resolved@.take(i as int)).push(
            canon_text(resolved@[i as int]),
        ));
    }
    assert(resolved@.take(resolved@.len() as int) == resolved@);
    texts
}

/// Appends a path as it stands in a profile, if there is one.
fn push_canon(texts: &mut Vec<String>, resolved: &Option<Resolution>)
    ensures
        text::views(final(texts)@) == text::views(old(texts)@) + canon_optional(
            *resolved,
        ),
{
    if let Some(r) = resolved {
        texts.push(canon(r));
    }
    assert(text::views(texts@) =~= text::views(old(texts)@) + canon_optional(
        *resolved,
    ));
}

/// Appends a path as it stands in a profile, if there is one and it exists.
fn push_existing(texts: &mut Vec<String>, resolved: &Option<Resolution>)
    ensures
        text::views(final(texts)@) == text::views(old(texts)@) + canon_existing(*resolved),
{
    if let Some(r) = resolved {
        if r.canonical.is_some() {
            texts.push(canon(r));
        }
    }
    assert(text::views(texts@) =~= text::views(old(texts)@) + canon_existing(*resolved));
}

/// The paths of a launch, each with where it leads.
///
/// The profile is matched against resolved paths, so whatever goes into it is resolved
/// first.
#[derive(Debug)]
pub struct LaunchPaths {
    /// Paths that can be read.
    pub read: Vec<Resolution>,
    /// Paths that can be written.
    pub write: Vec<Resolution>,
    /// Where the sockets are, if there are any.
    pub socket_dir: Option<Resolution>,
    /// The control socket, if there is one.
    pub control_socket: Option<Resolution>,
    /// The cache of `uv`, if there may be one.
    pub uv_cache: Option<Resolution>,
    /// The program.
    pub cmd: Resolution,
    /// The socket of the network proxy, if there is one.
    pub proxy: Option<Resolution>,
    /// The home of the process, resolved.
    pub tmp_dir: PathBuf,
}

/// What a profile is made of.
#[derive(Debug, PartialEq, Eq)]
pub struct ProfileData {
    pub read_paths: Vec<String>,
    pub write_paths: Vec<String>,
    pub exec_paths: Vec<String>,
    pub control_socket: Option<String>,
    pub llm_socket: Option<String>,
}

/// What there is on the machine to launch with.
#[derive(Debug)]
pub struct Host {
    /// Where `sandbox-exec` is, if anywhere.
    pub sandbox_exec: Option<String>,
    /// Why a standard stream could not be redirected, if one could not.
    pub stdio_problem: Option<String>,
    /// The file that holds the profile.
    pub profile_path: PathBuf,
    /// Where the arapuca wrapper is, if anywhere.
    pub wrapper: Option<PathBuf>,
    /// Variables that tell the wrapper its limits.
    pub wrapper_env: Vec<(String, String)>,
    /// What passes of the variables that the caller gives.
    pub caller_env: Vec<(String, String)>,
}

/// The CPU limit for the wrapper, as a variable: half an hour's share, if that is any.
pub open spec fn cpu_variable(max_cpu_pct: u32) -> Seq<(Seq<char>, Seq<char>)> {
    let seconds = cpu::cpu_seconds(max_cpu_pct, MAX_DURATION_MINUTES);
    if seconds > 0 {
        seq![("ARAPUCA_RLIMIT_CPU"@, text::decimal(seconds))]
    } else {
        seq![]
    }
}

/// The proxy's socket, as a variable, if there is one.
pub open spec fn proxy_variable(socket: Option<PathBuf>) -> Seq<(Seq<char>, Seq<char>)> {
    match socket {
        Some(path) => seq![("AGENT_NETWORK_PROXY"@, stdtext::utf8_lossy(path@))],
        None => seq![],
    }
}

/// The memory limit to watch for, in KB; none where there is no limit.
pub open spec fn watched_kb(limit_mb: u64) -> Option<u64> {
    if limit_mb == 0 {
        None
    } else {
        Some((limit_mb * 1024) as u64)
    }
}

/// The home of a launched process: where its directory leads, or the directory as it is if
/// that is not known.
pub open spec fn home_of(resolved: Resolution) -> PathBuf {
    match resolved.canonical {
        Some(canonical) => canonical,
        None => resolved.path,
    }
}

/// The directory of the sockets, if one is configured.
pub open spec fn socket_dir_place(socket_dir: Seq<u8>) -> Option<Seq<u8>> {
    if socket_dir.len() > 0 {
        Some(socket_dir)
    } else {
        None
    }
}

/// The control socket in the directory of the sockets, if one is configured.
pub open spec fn control_socket_place(socket_dir: Seq<u8>) -> Option<Seq<u8>> {
    if socket_dir.len() > 0 {
        Some(path::join_bytes(socket_dir, vstd::utf8::encode_utf8("control.sock"@)))
    } else {
        None
    }
}

/// A path as it stands in a profile, if there is one.
pub open spec fn canon_maybe(resolved: Option<Resolution>) -> Option<Seq<char>> {
    match resolved {
        Some(r) => Some(canon_text(r)),
        None => None,
    }
}

/// What a launched process can read: what the configuration allows, the directory of the
/// sockets, and the cache of `uv` if it exists.
pub open spec fn readable_texts(paths: LaunchPaths) -> Seq<Seq<char>> {
    canon_texts(paths.read@) + canon_optional(paths.socket_dir) + canon_existing(paths.uv_cache)
}

/// What a launched process can write: what the configuration allows, and its home.
pub open spec fn writable_texts(paths: LaunchPaths) -> Seq<Seq<char>> {
    canon_texts(paths.write@).push(stdtext::utf8_lossy(paths.tmp_dir@))
}

/// Whether an error says why there is no command to launch with.
pub open spec fn launch_refused(cfg: Config, host: Host, error: ErrorView) -> bool {
    if host.sandbox_exec is None {
        error == ErrorView::Process("sandbox-exec not found in PATH"@)
    } else if host.stdio_problem is Some {
        error == ErrorView::Process(host.stdio_problem->0@)
    } else {
        fd::refused(cfg.extra_fds@, cfg, error)
    }
}

/// What a launch came to that made the directory `tmp_dir`.
pub open spec fn launched<M>(tmp_dir: PathBuf, started: Result<u32, Error>) -> Launched<M> {
    match started {
        Ok(pid) => Launched::Running(
            Process { pid, tmp_dir, cgroup_path: None, cgroup_mgr: None::<M> },
        ),
        Err(error) => Launched::Failed { error, remove: tmp_dir },
    }
}

/// The whole environment of a launched process.
pub open spec fn launch_variables(cfg: Config, host: Host, tmp_dir: Seq<u8>) -> Seq<
    (Seq<char>, Seq<char>),
> {
    env::minimal_variables(tmp_dir).update(2, ("PATH"@, darwin_path())) + (if host.wrapper is Some {
        env::variables(host.wrapper_env@) + cpu_variable(cfg.profile.max_cpu_pct)
    } else {
        seq![]
    }) + proxy_variable(cfg.network_proxy_socket) + env::variables(host.caller_env@)
}

/// The program of a launched process and its arguments: `sandbox-exec` for the command,
/// in the wrapper where there is one.
pub open spec fn launch_line(
    host: Host,
    sandbox_exec: Seq<char>,
    cmd: Seq<char>,
    args: Seq<Seq<char>>,
) -> (Seq<char>, Seq<Seq<char>>) {
    let sandboxed = sandbox_args(host.profile_path@, cmd, args);
    match host.wrapper {
        Some(wrapper) => (
            stdtext::utf8_lossy(wrapper@),
            seq!["--"@, sandbox_exec] + sandboxed,
        ),
        None => (sandbox_exec, sandboxed),
    }
}

/// Some paths that nothing is known of yet.
pub open spec fn unresolved(resolved: Seq<Resolution>, paths: Seq<PathBuf>) -> bool {
    &&& resolved.len() == paths.len()
    &&& forall|i: int|
        0 <= i < paths.len() ==> (#[trigger] resolved[i]).path@ == paths[i]@
            && resolved[i].canonical is None
}

/// One path, or none, that nothing is known of yet.
pub open spec fn unresolved_path(resolved: Option<Resolution>, path: Option<Seq<u8>>) -> bool {
    match (resolved, path) {
        (Some(r), Some(p)) => r.path@ == p && r.canonical is None,
        (None, None) => true,
        _ => false,
    }
}

/// Copies of some paths that nothing is known of yet.
fn to_resolve(paths: &Vec<PathBuf>) -> (resolved: Vec<Resolution>)
    ensures
        unresolved(resolved@, paths@),
{
    let mut resolved: Vec<Resolution> = Vec::new();
    for i in 0..paths.len()
        invariant
            unresolved(resolved@, paths@.take(i as int)),
    {
        resolved.push(Resolution { path: paths[i].copied(), canonical: None });
    }
    assert(paths@.take(paths@.len() as int) == paths@);
    resolved
}

/// Where `uv` keeps its cache below a home directory.
pub open spec fn uv_cache_bytes(home: Seq<char>) -> Seq<u8> {
    path::join_bytes(
        vstd::utf8::encode_utf8(home),
        vstd::utf8::encode_utf8("Library/Caches/uv"@),
    )
}

/// The directories that a profile allows to execute programs of: the one that the program
/// lies in, if it has one.
pub open spec fn exec_texts(parent: Option<Seq<char>>) -> Seq<Seq<char>> {
    match parent {
        Some(parent) => if parent.len() > 0 {
            seq![parent]
        } else {
            seq![]
        },
        None => seq![],
    }
}

/// The directories that a profile allows to execute programs of.
pub fn exec_paths(parent: Option<String>) -> (paths: Vec<String>)
    ensures
        text::views(paths@) == exec_texts(stdtext::optional(parent)),
{
    let mut paths: Vec<String> = Vec::new();
    if let Some(dir) = parent {
        if !dir.as_str().is_empty() {
            paths.push(dir);
        }
    }
    assert(text::views(paths@) =~= exec_texts(stdtext::optional(parent)));
    paths
}

/// The program and arguments that launch `cmd`.
fn launch_arguments(
    host: &Host,
    sandbox_exec: String,
    cmd: String,
    args: &[&str],
) -> (line: (String, Vec<String>))
    ensures
        (line.0@, text::views(line.1@)) == launch_line(
            *host,
            sandbox_exec@,
            cmd@,
            command::given_arguments(args@),
        ),
{
    let mut list: Vec<String> = Vec::new();
    let ghost sandboxed = sandbox_args(
        host.profile_path@,
        cmd@,
        command::given_arguments(args@),
    );
    match &host.wrapper {
        Some(wrapper) => {
            list.push("--".to_owned());
            list.push(sandbox_exec);
            let ghost outer = list@;
            assert(text::views(outer) =~= seq!["--"@, sandbox_exec@]);
            push_sandboxed(&mut list, &host.profile_path, cmd, args);
            (wrapper.to_string_lossy(), list)
        },
        None => {
            push_sandboxed(&mut list, &host.profile_path, cmd, args);
            assert(text::views(list@) =~= sandboxed);
            (sandbox_exec, list)
        },
    }
}

/// Appends the arguments of `sandbox-exec`.
fn push_sandboxed(list: &mut Vec<String>, profile_path: &PathBuf, cmd: String, args: &[&str])
    ensures
        text::views(final(list)@) == text::views(old(list)@) + sandbox_args(
            profile_path@,
            cmd@,
            command::given_arguments(args@),
        ),
{
    let profile = profile_path.to_string_lossy();
    list.push("-f".to_owned());
    list.push(profile);
    list.push("--".to_owned());
    list.push(cmd);
    assert(text::views(list@) =~= text::views(old(list)@) + seq![
        "-f"@,
        profile@,
        "--"@,
        cmd@,
    ]);
    push_args(list, args);
}

/// The environment of a launched process.
fn launch_env(cfg: &Config, host: &Host, tmp_dir: &PathBuf) -> (variables: Vec<(String, String)>)
    ensures
        env::variables(variables@) == launch_variables(*cfg, *host, tmp_dir@),
{
    let mut vars = minimal_env(tmp_dir);
    assert(env::variables(vars@).len() == vars@.len());
    let path = "/opt/homebrew/bin:/usr/local/bin:/usr/bin:/bin:/usr/local/sbin:/usr/sbin:/sbin";
    vars.set(2, ("PATH".to_owned(), path.to_owned()));
    let ghost base = env::minimal_variables(tmp_dir@).update(2, ("PATH"@, darwin_path()));
    assert(env::variables(vars@) =~= base);
    let ghost mut more: Seq<(Seq<char>, Seq<char>)> = seq![];
    assert(base + more =~= base);
    if host.wrapper.is_some() {
        push_variables(&mut vars, &host.wrapper_env);
        let seconds = cpu_pct_to_seconds(cfg.profile.max_cpu_pct, MAX_DURATION_MINUTES);
        let ghost before = vars@;
        if seconds > 0 {
            let mut shown = "".to_owned();
            push_decimal(&mut shown, seconds);
            proof {
                reveal_strlit("");
            }
            assert(shown@ =~= text::decimal(seconds as nat));
            vars.push(("ARAPUCA_RLIMIT_CPU".to_owned(), shown));
        }
        proof {
            more = env::variables(host.wrapper_env@) + cpu_variable(cfg.profile.max_cpu_pct);
            assert(env::variables(vars@) =~= env::variables(before) + cpu_variable(
                cfg.profile.max_cpu_pct,
            ));
            assert(base + env::variables(host.wrapper_env@) + cpu_variable(cfg.profile.max_cpu_pct)
                =~= base + more);
        }
    }
    let ghost before = vars@;
    if let Some(socket) = &cfg.network_proxy_socket {
        vars.push(("AGENT_NETWORK_PROXY".to_owned(), socket.to_string_lossy()));
    }
    assert(env::variables(vars@) =~= env::variables(before) + proxy_variable(
        cfg.network_proxy_socket,
    ));
    push_variables(&mut vars, &host.caller_env);
    vars
}

/// A directory of `PATH`: below the current directory where it is not absolute.
pub open spec fn search_dir(dir: Seq<char>, current_dir: Option<Seq<u8>>) -> Seq<u8> {
    match current_dir {
        Some(base) => path::join_bytes(base, vstd::utf8::encode_utf8(dir)),
        None => vstd::utf8::encode_utf8(dir),
    }
}

/// `sandbox-exec` in each of some directories, in their order. A directory that cannot be
/// made absolute is left out.
pub open spec fn sandbox_exec_in(dirs: Seq<Seq<char>>, current_dir: Option<Seq<u8>>) -> Seq<
    Seq<u8>,
>
    decreases dirs.len(),
{
    if dirs.len() == 0 {
        seq![]
    } else {
        let before = sandbox_exec_in(dirs.drop_last(), current_dir);
        let dir = search_dir(dirs.last(), current_dir);
        if path::absolute(dir) {
            before.push(path::join_bytes(dir, vstd::utf8::encode_utf8("sandbox-exec"@)))
        } else {
            before
        }
    }
}

/// Where `sandbox-exec` may be: at its usual place, or in a directory of `PATH`.
pub open spec fn sandbox_exec_places(path_var: Seq<char>, current_dir: Option<Seq<u8>>) -> Seq<
    Seq<u8>,
> {
    seq![vstd::utf8::encode_utf8("/usr/bin/sandbox-exec"@)] + sandbox_exec_in(
        text::split(path_var, ':'),
        current_dir,
    )
}

/// The bytes of a directory, if there is one.
pub open spec fn dir_bytes(dir: Option<&PathBuf>) -> Option<Seq<u8>> {
    match dir {
        Some(path) => Some(path@),
        None => None,
    }
}

/// Lists where `sandbox-exec` may be, the places to look at first first. All of them are
/// absolute, since the wrapper does not search for what it runs: a directory of `PATH` that
/// is not absolute lies below `current_dir`, and is left out where that is not known.
/// `path_var` is the variable `PATH`; one that is not set counts as empty.
pub fn sandbox_exec_candidates(
    path_var: Option<&str>,
    current_dir: Option<&PathBuf>,
) -> (candidates: Vec<PathBuf>)
    ensures
        path::path_bytes(candidates@) == sandbox_exec_places(
            match path_var {
                Some(list) => list@,
                None => Seq::empty(),
            },
            dir_bytes(current_dir),
        ),
{
    proof {
        reveal_strlit("");
    }
    let list = match path_var {
        Some(list) => list,
        None => "",
    };
    assert(path_var is None ==> list@ =~= Seq::<char>::empty());
    let dirs = pieces(list, ':');
    let ghost all = text::views(dirs@);
    let ghost cwd = dir_bytes(current_dir);
    let mut candidates: Vec<PathBuf> = Vec::new();
    candidates.push(PathBuf::from("/usr/bin/sandbox-exec"));
    let ghost usual = seq![candidates@[0]@];
    assert(path::path_bytes(candidates@) =~= usual + sandbox_exec_in(all.take(0), cwd));
    for i in 0..dirs.len()
        invariant
            all == text::views(dirs@),
            cwd == dir_bytes(current_dir),
            path::path_bytes(candidates@) == usual + sandbox_exec_in(all.take(i as int), cwd),
    {
        let ghost before = candidates@;
        assert(all.take(i + 1).drop_last() == all.take(i as int));
        let dir = match current_dir {
            Some(base) => base.join(dirs[i].as_str()),
            None => PathBuf::from(dirs[i].as_str()),
        };
        if dir.is_absolute() {
            candidates.push(dir.join("sandbox-exec"));
            assert(path::path_bytes(candidates@) =~= path::path_bytes(before).push(
                candidates@.last()@,
            ));
        }
    }
    assert(all.take(dirs@.len() as int) == all);
    candidates
}

/// A place where a program may be.
#[derive(Debug, PartialEq, Eq)]
pub struct Candidate {
    pub path: PathBuf,
    /// Whether there is a file.
    pub is_file: bool,
}

/// Whether the candidate at place `i` is the first one with a file.
pub open spec fn first_file(candidates: Seq<Candidate>, i: int) -> bool {
    &&& 0 <= i < candidates.len()
    &&& candidates[i].is_file
    &&& forall|j: int| 0 <= j < i ==> !(#[trigger] candidates[j]).is_file
}

/// Picks the first place that holds a file.
pub fn which_sandbox_exec(candidates: &[Candidate]) -> (program: Option<String>)
    ensures
        program is Some <==> exists|i: int|
            0 <= i < candidates@.len() && (#[trigger] candidates@[i]).is_file,
        program matches Some(text) ==> exists|i: int| #[trigger]
            first_file(candidates@, i) && text@ == stdtext::utf8_lossy(candidates@[i].path@),
{
    for i in 0..candidates.len()
        invariant
            forall|j: int| 0 <= j < i ==> !(#[trigger] candidates@[j]).is_file,
    {
        if candidates[i].is_file {
            assert(first_file(candidates@, i as int));
            return Some(candidates[i].path.to_string_lossy());
        }
    }
    None
}

/// Every place to look for `sandbox-exec` at is an absolute path, as the wrapper needs it,
/// whatever `PATH` holds.
pub proof fn law_sandbox_exec_absolute(path_var: Seq<char>, current_dir: Option<Seq<u8>>, i: int)
    requires
        0 <= i < sandbox_exec_places(path_var, current_dir).len(),
    ensures
        path::absolute(sandbox_exec_places(path_var, current_dir)[i]),
{
    reveal_strlit("/usr/bin/sandbox-exec");
    if i == 0 {
        vstd::utf8::is_ascii_chars_encode_utf8("/usr/bin/sandbox-exec"@);
    } else {
        lemma_in_absolute(text::split(path_var, ':'), current_dir, i - 1);
    }
}

/// What is looked for in directories is looked for at absolute paths.
proof fn lemma_in_absolute(dirs: Seq<Seq<char>>, current_dir: Option<Seq<u8>>, i: int)
    requires
        0 <= i < sandbox_exec_in(dirs, current_dir).len(),
    ensures
        path::absolute(sandbox_exec_in(dirs, current_dir)[i]),
    decreases dirs.len(),
{
    if i < sandbox_exec_in(dirs.drop_last(), current_dir).len() {
        lemma_in_absolute(dirs.drop_last(), current_dir, i);
    }
}

impl Darwin {
    /// Makes a sandbox.
    pub fn new() -> (sandbox: Result<Darwin, Error>)
        ensures
            sandbox is Ok,
    {
        Ok(Darwin)
    }

    /// Where `uv` keeps its cache below the home directory.
    pub fn uv_cache_path(home: Option<&str>) -> (cache: Option<PathBuf>)
        ensures
            cache is Some <==> home is Some,
            cache matches Some(dir) ==> dir@ == uv_cache_bytes(home->0@),
    {
        match home {
            Some(home) => Some(PathBuf::from(home).join("Library/Caches/uv")),
            None => None,
        }
    }

    /// Seconds of CPU time that a percentage of some minutes come to.
    pub fn cpu_pct_to_seconds(cpu_pct: u32, duration_minutes: u64) -> (seconds: u64)
        requires
            cpu_pct == 0 || duration_minutes * 60 <= u64::MAX,
        ensures
            seconds == cpu::cpu_seconds(cpu_pct, duration_minutes),
    {
        cpu_pct_to_seconds(cpu_pct, duration_minutes)
    }

    /// The memory limit to watch for, in KB; none where there is no limit.
    pub fn memory_limit_kb(limit_mb: u64) -> (limit_kb: Option<u64>)
        requires
            limit_mb * 1024 <= u64::MAX,
        ensures
            limit_kb == watched_kb(limit_mb),
    {
        if limit_mb == 0 {
            None
        } else {
            Some(limit_mb * 1024)
        }
    }

    /// Begins a launch: a task with a proper ID gets its directory.
    pub fn begin(&self, cfg: &Config, temp_dir: &PathBuf) -> (first: Result<DirStep, Error>)
        ensures
            first is Ok <==> validate::is_task_id(cfg.task_id@),
            first matches Ok(step) ==> (step matches DirStep::Create(dir) && dir@
                == env::tmp_dir_bytes(temp_dir@, cfg.task_id@)),
            first matches Err(error) ==> error@ == ErrorView::Validation(
                validate::task_id_error(cfg.task_id@),
            ),
    {
        match sanitize_task_id(cfg.task_id.as_str()) {
            Ok(task_id) => Ok(make_tmp_dir(temp_dir, task_id)),
            Err(error) => Err(error),
        }
    }

    /// The home of a launched process: where its directory leads, or the directory as it is
    /// if that is not known.
    pub fn home_dir(&self, resolved: Resolution) -> (tmp_dir: PathBuf)
        ensures
            tmp_dir == home_of(resolved),
    {
        match resolved.canonical {
            Some(canonical) => canonical,
            None => resolved.path,
        }
    }

    /// The paths of a launch, which are to be resolved.
    pub fn launch_paths(
        cfg: &Config,
        tmp_dir: &PathBuf,
        cmd: &str,
        home: Option<&str>,
    ) -> (paths: LaunchPaths)
        ensures
            unresolved(paths.read@, cfg.profile.read_paths@),
            unresolved(paths.write@, cfg.profile.write_paths@),
            unresolved_path(paths.socket_dir, socket_dir_place(cfg.socket_dir@)),
            unresolved_path(paths.control_socket, control_socket_place(cfg.socket_dir@)),
            unresolved_path(
                paths.uv_cache,
                match text::given(home) {
                    Some(dir) => Some(uv_cache_bytes(dir)),
                    None => None,
                },
            ),
            unresolved_path(Some(paths.cmd), Some(vstd::utf8::encode_utf8(cmd@))),
            unresolved_path(
                paths.proxy,
                match cfg.network_proxy_socket {
                    Some(socket) => Some(socket@),
                    None => None,
                },
            ),
            paths.tmp_dir@ == tmp_dir@,
    {
        let (socket_dir, control_socket) = if cfg.socket_dir.is_empty() {
            (None, None)
        } else {
            let control = cfg.socket_dir.join("control.sock");
            (
                Some(Resolution { path: cfg.socket_dir.copied(), canonical: None }),
                Some(Resolution { path: control, canonical: None }),
            )
        };
        let uv_cache = match Darwin::uv_cache_path(home) {
            Some(dir) => Some(Resolution { path: dir, canonical: None }),
            None => None,
        };
        let proxy = match &cfg.network_proxy_socket {
            Some(socket) => Some(Resolution { path: socket.copied(), canonical: None }),
            None => None,
        };
        LaunchPaths {
            read: to_resolve(&cfg.profile.read_paths),
            write: to_resolve(&cfg.profile.write_paths),
            socket_dir,
            control_socket,
            uv_cache,
            cmd: Resolution { path: PathBuf::from(cmd), canonical: None },
            proxy,
            tmp_dir: tmp_dir.copied(),
        }
    }

    /// What the profile of a launch is made of: what the configuration allows, and what a
    /// process needs to find its sockets, its home and its program. The cache of `uv` counts
    /// only if it exists.
    pub fn profile_data(paths: &LaunchPaths) -> (data: ProfileData)
        ensures
            text::views(data.read_paths@) == readable_texts(*paths),
            text::views(data.write_paths@) == writable_texts(*paths),
            text::views(data.exec_paths@) == exec_texts(
                stdtext::parent_of(canon_text(paths.cmd)),
            ),
            stdtext::optional(data.control_socket) == canon_maybe(paths.control_socket),
            stdtext::optional(data.llm_socket) == canon_maybe(paths.proxy),
    {
        let mut read_paths = canon_all(&paths.read);
        push_canon(&mut read_paths, &paths.socket_dir);
        push_existing(&mut read_paths, &paths.uv_cache);
        let mut write_paths = canon_all(&paths.write);
        let tmp_dir = paths.tmp_dir.to_string_lossy();
        let ghost before = write_paths@;
        write_paths.push(tmp_dir);
        assert(text::views(write_paths@) =~= text::views(before).push(tmp_dir@));
        let cmd = canon(&paths.cmd);
        ProfileData {
            read_paths,
            write_paths,
            exec_paths: exec_paths(parent_text(cmd.as_str())),
            control_socket: match &paths.control_socket {
                Some(socket) => Some(canon(socket)),
                None => None,
            },
            llm_socket: match &paths.proxy {
                Some(socket) => Some(canon(socket)),
                None => None,
            },
        }
    }

    /// The command that launches a program in the sandbox. There is none where
    /// `sandbox-exec` is not found, where a standard stream could not be redirected, or where
    /// the process could not inherit the descriptors that it is to inherit.
    pub fn launch(
        &self,
        cfg: &Config,
        host: &Host,
        paths: &LaunchPaths,
        args: &[&str],
    ) -> (command: Result<Command, Error>)
        ensures
            command is Ok <==> host.sandbox_exec is Some && host.stdio_problem is None
                && fd::valid_extra_fds(cfg.extra_fds@, *cfg),
            command matches Err(error) ==> launch_refused(*cfg, *host, error@),
            command matches Ok(c) ==> {
                &&& (c.program@, text::views(c.args@)) == launch_line(
                    *host,
                    host.sandbox_exec->0@,
                    canon_text(paths.cmd),
                    command::given_arguments(args@),
                )
                &&& env::variables(c.env@) == launch_variables(*cfg, *host, paths.tmp_dir@)
                &&& command::same_dir(c.work_dir, cfg.work_dir)
            },
    {
        let sandbox_exec = match &host.sandbox_exec {
            Some(program) => program.as_str().to_owned(),
            None => return Err(Error::Process("sandbox-exec not found in PATH".to_owned())),
        };
        if let Some(problem) = &host.stdio_problem {
            return Err(Error::Process(problem.as_str().to_owned()));
        }
        if let Err(error) = validate_extra_fds(cfg.extra_fds.as_slice(), cfg) {
            return Err(error);
        }
        let cmd = canon(&paths.cmd);
        let (program, list) = launch_arguments(host, sandbox_exec, cmd, args);
        Ok(
            Command {
                program,
                args: list,
                env: launch_env(cfg, host, &paths.tmp_dir),
                work_dir: copied_dir(&cfg.work_dir),
            },
        )
    }

    /// The move of the descriptors that a launched process inherits. There is one for every
    /// launch that there is a command for.
    pub fn inherit(&self, cfg: &Config) -> (moved: Result<Remap, Error>)
        ensures
            moved is Ok <==> fd::valid_extra_fds(cfg.extra_fds@, *cfg),
            moved matches Ok(remap) ==> {
                &&& remap.wf()
                &&& remap.sources() == cfg.extra_fds@
                &&& remap.phase() == remap::evacuate_from(cfg.extra_fds@, 0)
            },
            moved matches Err(error) ==> fd::refused(cfg.extra_fds@, *cfg, error@),
    {
        match validate_extra_fds(cfg.extra_fds.as_slice(), cfg) {
            Ok(_) => {
                let fds = vstd::slice::slice_to_vec(cfg.extra_fds.as_slice());
                Ok(Remap::new(fds))
            },
            Err(error) => Err(error),
        }
    }

    /// Ends a launch that made the directory `tmp_dir`. `started` is the number of the process
    /// that was started, or the first error after the directory was made, whatever it is of.
    /// The process has the directory and no cgroup; without one the directory is removed.
    pub fn finish<M>(&self, tmp_dir: PathBuf, started: Result<u32, Error>) -> (end: Launched<M>)
        ensures
            end == launched::<M>(tmp_dir, started),
    {
        match started {
            Ok(pid) => Launched::Running(
                Process { pid, tmp_dir, cgroup_path: None, cgroup_mgr: None },
            ),
            Err(error) => Launched::Failed { error, remove: tmp_dir },
        }
    }

    /// The error of a process that could not be started.
    pub fn start_error(&self, reason: &str) -> (error: Error)
        ensures
            error@ == ErrorView::Process("start sandboxed process: "@ + reason@),
    {
        Error::Process(joined("start sandboxed process: ", reason))
    }

    /// Whether the sandbox can be used. `probed` is what running `sandbox-exec` came to:
    /// nothing, or the reason it could not be run.
    pub fn available(&self, probed: Result<(), &str>) -> (available: Result<(), Error>)
        ensures
            available is Ok <==> probed is Ok,
            available matches Err(error) ==> error@ == ErrorView::Process(
                "sandbox-exec not found: "@ + probed->Err_0@ + " (required for macOS sandbox)"@,
            ),
    {
        match probed {
            Ok(_) => Ok(()),
            Err(reason) => Err(
                Error::Process(
                    joined(
                        joined("sandbox-exec not found: ", reason).as_str(),
                        " (required for macOS sandbox)",
                    ),
                ),
            ),
        }
    }

    /// Processes get no network namespaces.
    pub fn netns_available(&self) -> (available: bool)
        ensures
            !available,
    {
        false
    }

    /// Processes get no cgroups.
    pub fn cgroups_available(&self) -> (available: bool)
        ensures
            !available,
    {
        false
    }

    /// Decides what the memory watch does. `stdout` is what `ps` printed of the resident
    /// memory of the process; nothing if `ps` could not be run.
    ///
    /// Between two looks a process can exceed its limit for a while.
    pub fn memory_poll(alive: bool, stdout: Option<&[u8]>, limit_kb: u64) -> (poll: Poll)
        ensures
            poll == memory_decision(
                alive,
                match stdout {
                    Some(printed) => Some(stdtext::utf8_lossy(printed@)),
                    None => None,
                },
                limit_kb,
            ),
    {
        if !alive {
            return Poll::Stop;
        }
        match stdout {
            Some(printed) => {
                if parse_rss_kb(lossy_text(printed).as_str()) > limit_kb {
                    Poll::Kill
                } else {
                    Poll::Again
                }
            },
            None => Poll::Again,
        }
    }

    /// Decides what the watchdog does: a process whose parent is no longer the one it
    /// started under is killed.
    pub fn watchdog_poll(original_ppid: u32, current_ppid: u32, alive: bool) -> (poll: Poll)
        ensures
            poll == watchdog_decision(original_ppid, current_ppid, alive),
    {
        if current_ppid != original_ppid {
            Poll::Kill
        } else if !alive {
            Poll::Stop
        } else {
            Poll::Again
        }
    }
}

} // verus!
