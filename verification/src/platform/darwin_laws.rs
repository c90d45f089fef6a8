//! What holds of launches on macOS.

use vstd::prelude::*;

use crate::config::Config;
use crate::env;
use crate::env::Resolution;
use crate::env_laws;
use crate::error::{Error, ErrorView};
use crate::path;
use crate::path::PathBuf;
use crate::platform::command;
use crate::platform::darwin;
use crate::platform::darwin::{Candidate, Host, LaunchPaths, Poll};
use crate::platform::fd;
use crate::process::Launched;
use crate::stdtext;
use crate::text;
use crate::text_laws;

verus! {

/// The variables that a launched process has for its proxy: one, where there is a proxy.
pub open spec fn proxy_part(cfg: Config) -> Seq<(Seq<char>, Seq<char>)> {
    match cfg.network_proxy_socket {
        Some(socket) => seq![("AGENT_NETWORK_PROXY"@, stdtext::utf8_lossy(socket.bytes@))],
        None => seq![],
    }
}

/// The variables that tell the wrapper its limits: those it is given, and the CPU time of
/// half an hour's share, where there is a share.
pub open spec fn wrapper_part(cfg: Config, host: Host) -> Seq<(Seq<char>, Seq<char>)> {
    if host.wrapper is None {
        seq![]
    } else if cfg.profile.max_cpu_pct == 0 {
        env::variables(host.wrapper_env@)
    } else {
        env::variables(host.wrapper_env@).push(
            ("ARAPUCA_RLIMIT_CPU"@, text::decimal((cfg.profile.max_cpu_pct * 18) as nat)),
        )
    }
}

/// The environment of a launched process starts with its own four variables, and ends with
/// those that the caller gives, all of them and in their order, whether there is a wrapper
/// or not. Only what tells the wrapper its limits depends on the wrapper, and it stands
/// between them, before the variable of the proxy.
pub proof fn law_launch_environment(cfg: Config, host: Host, tmp_dir: Seq<u8>)
    ensures
        ({
            let all = darwin::launch_variables(cfg, host, tmp_dir);
            let caller = env::variables(host.caller_env@);
            let first = all.len() - caller.len();
            &&& first >= 4
            &&& all[0] == ("HOME"@, stdtext::utf8_lossy(tmp_dir))
            &&& all[1] == ("TMPDIR"@, stdtext::utf8_lossy(tmp_dir))
            &&& all[2] == (
                "PATH"@,
                "/opt/homebrew/bin:/usr/local/bin:/usr/bin:/bin:/usr/local/sbin:/usr/sbin:/sbin"@,
            )
            &&& all[3] == ("LANG"@, "C.UTF-8"@)
            &&& all.subrange(4, first) == wrapper_part(cfg, host) + proxy_part(cfg)
            &&& all.skip(first) == caller
        }),
{
    let all = darwin::launch_variables(cfg, host, tmp_dir);
    let caller = env::variables(host.caller_env@);
    env_laws::law_minimal_environment(tmp_dir);
    let pct = cfg.profile.max_cpu_pct;
    assert((pct * (30 * 60)) as nat / 100 == pct * 18) by (nonlinear_arith);
    assert(darwin::cpu_variable(pct) =~= if pct == 0 {
        seq![]
    } else {
        seq![("ARAPUCA_RLIMIT_CPU"@, text::decimal((pct * 18) as nat))]
    });
    let own = env::minimal_variables(tmp_dir).update(2, ("PATH"@, darwin::darwin_path()));
    let middle = wrapper_part(cfg, host) + proxy_part(cfg);
    assert(proxy_part(cfg) =~= darwin::proxy_variable(cfg.network_proxy_socket));
    assert(all =~= own + middle + caller);
    let first = all.len() - caller.len();
    assert(all.subrange(4, first) =~= middle);
    assert(all.skip(first) =~= caller);
}

/// Variables that a caller adds are added at the end, and change nothing before them.
pub proof fn law_caller_variables(cfg: Config, host: Host, bare: Host, tmp_dir: Seq<u8>)
    requires
        bare.caller_env@.len() == 0,
        host == (Host { caller_env: host.caller_env, ..bare }),
    ensures
        darwin::launch_variables(cfg, host, tmp_dir) == darwin::launch_variables(cfg, bare, tmp_dir)
            + env::variables(host.caller_env@),
{
    assert(darwin::launch_variables(cfg, host, tmp_dir) =~= darwin::launch_variables(
        cfg,
        bare,
        tmp_dir,
    ) + env::variables(host.caller_env@));
}

/// Without a wrapper `sandbox-exec` is run, with the profile, and then the command and its
/// arguments, all of them and in their order. With a wrapper the wrapper is run, and runs
/// just that.
pub proof fn law_launch_line(
    host: Host,
    sandbox_exec: Seq<char>,
    cmd: Seq<char>,
    args: Seq<Seq<char>>,
)
    ensures
        ({
            let (program, list) = darwin::launch_line(host, sandbox_exec, cmd, args);
            let inner = if host.wrapper is Some {
                2int
            } else {
                0
            };
            &&& list.len() == inner + 4 + args.len()
            &&& list[inner] == "-f"@
            &&& list[inner + 1] == stdtext::utf8_lossy(host.profile_path.bytes@)
            &&& list[inner + 2] == "--"@
            &&& list[inner + 3] == cmd
            &&& list.skip(inner + 4) == args
            &&& host.wrapper matches Some(wrapper) ==> program == stdtext::utf8_lossy(
                wrapper.bytes@,
            ) && list[0] == "--"@ && list[1] == sandbox_exec
            &&& host.wrapper is None ==> program == sandbox_exec
        }),
{
    let (program, list) = darwin::launch_line(host, sandbox_exec, cmd, args);
    let inner = if host.wrapper is Some {
        2int
    } else {
        0
    };
    assert(list.skip(inner + 4) =~= args);
}

/// A path stands in a profile by where it leads, or as it is if that is not known.
pub proof fn law_canon(r: Resolution)
    ensures
        r.canonical matches Some(target) ==> darwin::canon_text(r) == stdtext::utf8_lossy(
            target.bytes@,
        ),
        r.canonical is None ==> darwin::canon_text(r) == stdtext::utf8_lossy(r.path.bytes@),
        darwin::canon_optional(Some(r)) == seq![darwin::canon_text(r)],
        darwin::canon_optional(None) == Seq::<Seq<char>>::empty(),
        r.canonical is Some ==> darwin::canon_existing(Some(r)) == seq![darwin::canon_text(r)],
        r.canonical is None ==> darwin::canon_existing(Some(r)) == Seq::<Seq<char>>::empty(),
        darwin::canon_existing(None) == Seq::<Seq<char>>::empty(),
{
}

/// Paths stand in a profile one by one, in their order.
pub proof fn law_canon_each(resolved: Seq<Resolution>, i: int)
    requires
        0 <= i < resolved.len(),
    ensures
        darwin::canon_texts(resolved).len() == resolved.len(),
        darwin::canon_texts(resolved)[i] == darwin::canon_text(resolved[i]),
{
}

/// A profile allows to execute what is in the directory of the program, if it has one.
pub proof fn law_exec_dir(dir: Seq<char>)
    ensures
        darwin::exec_texts(Some(dir)) == if dir.len() > 0 {
            seq![dir]
        } else {
            seq![]
        },
        darwin::exec_texts(None) == Seq::<Seq<char>>::empty(),
{
}

/// The cache of `uv` is at a fixed place below the home directory.
pub proof fn law_uv_cache(home: Seq<char>)
    ensures
        darwin::uv_cache_bytes(home) == path::join_bytes(
            vstd::utf8::encode_utf8(home),
            vstd::utf8::encode_utf8("Library/Caches/uv"@),
        ),
{
}

/// Paths that are to be resolved are those given, in their order, with nothing known of
/// where they lead.
pub proof fn law_unresolved(resolved: Seq<Resolution>, paths: Seq<PathBuf>, i: int)
    requires
        darwin::unresolved(resolved, paths),
    ensures
        resolved.len() == paths.len(),
        0 <= i < paths.len() ==> resolved[i].path.bytes@ == paths[i].bytes@
            && resolved[i].canonical is None,
{
}

/// A path that is to be resolved is the one given, if one is, with nothing known of where
/// it leads.
pub proof fn law_unresolved_path(resolved: Option<Resolution>, path: Option<Seq<u8>>)
    requires
        darwin::unresolved_path(resolved, path),
    ensures
        resolved is Some <==> path is Some,
        resolved matches Some(r) ==> r.path.bytes@ == path->0 && r.canonical is None,
{
}

/// `sandbox-exec` is looked for at its usual place first.
pub proof fn law_usual_place_first(path_var: Seq<char>, current_dir: Option<Seq<u8>>)
    ensures
        ({
            let places = darwin::sandbox_exec_places(path_var, current_dir);
            &&& places.len() > 0
            &&& places[0] == vstd::utf8::encode_utf8("/usr/bin/sandbox-exec"@)
            &&& places.drop_first() == darwin::sandbox_exec_in(
                text::split(path_var, ':'),
                current_dir,
            )
        }),
{
    let places = darwin::sandbox_exec_places(path_var, current_dir);
    assert(places.drop_first() =~= darwin::sandbox_exec_in(
        text::split(path_var, ':'),
        current_dir,
    ));
}

/// Directories are searched one by one: the places in two lists of directories are those in
/// the first and then those in the second.
pub proof fn law_search_concat(
    a: Seq<Seq<char>>,
    b: Seq<Seq<char>>,
    current_dir: Option<Seq<u8>>,
)
    ensures
        darwin::sandbox_exec_in(a + b, current_dir) == darwin::sandbox_exec_in(a, current_dir)
            + darwin::sandbox_exec_in(b, current_dir),
    decreases b.len(),
{
    if b.len() == 0 {
        assert(a + b == a);
        assert(darwin::sandbox_exec_in(a, current_dir) + darwin::sandbox_exec_in(b, current_dir)
            =~= darwin::sandbox_exec_in(a, current_dir));
    } else {
        law_search_concat(a, b.drop_last(), current_dir);
        assert((a + b).drop_last() == a + b.drop_last());
        assert((a + b).last() == b.last());
        assert(darwin::sandbox_exec_in(a + b, current_dir) =~= darwin::sandbox_exec_in(
            a,
            current_dir,
        ) + darwin::sandbox_exec_in(b, current_dir));
    }
}

/// A directory is searched below the current one, or as it is where it is absolute. Where
/// that makes no absolute path, it is not searched.
pub proof fn law_search_single(dir: Seq<char>, current_dir: Option<Seq<u8>>)
    ensures
        ({
            let bytes = vstd::utf8::encode_utf8(dir);
            let name = vstd::utf8::encode_utf8("sandbox-exec"@);
            let places = darwin::sandbox_exec_in(seq![dir], current_dir);
            &&& bytes.len() > 0 && bytes[0] == 0x2f ==> places == seq![
                path::join_bytes(bytes, name),
            ]
            &&& !(bytes.len() > 0 && bytes[0] == 0x2f) ==> {
                &&& current_dir matches Some(base) ==> places == if base.len() > 0 && base[0]
                    == 0x2f {
                    seq![path::join_bytes(path::join_bytes(base, bytes), name)]
                } else {
                    seq![]
                }
                &&& current_dir is None ==> places == Seq::<Seq<u8>>::empty()
            }
        }),
{
    let dirs = seq![dir];
    assert(dirs.drop_last() =~= Seq::<Seq<char>>::empty());
    assert(darwin::sandbox_exec_in(dirs.drop_last(), current_dir) == Seq::<Seq<u8>>::empty());
    assert(dirs.last() == dir);
    let found = darwin::search_dir(dir, current_dir);
    let name = vstd::utf8::encode_utf8("sandbox-exec"@);
    assert(darwin::sandbox_exec_in(dirs, current_dir) =~= if path::absolute(found) {
        seq![path::join_bytes(found, name)]
    } else {
        seq![]
    });
}

/// The candidate that is taken has a file, and none before it does; so there is one at most.
pub proof fn law_first_file(candidates: Seq<Candidate>, i: int, j: int)
    requires
        darwin::first_file(candidates, i),
    ensures
        0 <= i < candidates.len(),
        candidates[i].is_file,
        0 <= j < i ==> !candidates[j].is_file,
        darwin::first_file(candidates, j) ==> i == j,
{
}

/// Memory that is printed as a number, with white space around it or not, is that number of
/// KB; what does not fit counts as 0, and so does what is no number.
pub proof fn law_printed_memory(before: Seq<char>, n: nat, after: Seq<char>, shown: Seq<char>)
    requires
        text_laws::blank(before),
        text_laws::blank(after),
    ensures
        darwin::printed_rss_kb(before + text::decimal(n) + after) == if n <= u64::MAX {
            n
        } else {
            0
        },
        stdtext::number_of(text::trim(shown)) is None ==> darwin::printed_rss_kb(shown) == 0,
        stdtext::number_of(text::trim(shown)) matches Some(k) ==> (k <= u64::MAX
            ==> darwin::printed_rss_kb(shown) == k),
{
    text_laws::law_decimal(n);
    stdtext::law_decimal_reads_back(n);
    let digits = text::decimal(n);
    assert('0' <= digits[0] <= '9');
    assert('0' <= digits[digits.len() - 1] <= '9');
    text_laws::law_trim_around(before, digits, after);
}

/// A process is killed for its memory exactly if it is there and is seen to use more than
/// its limit, and the watch stops by itself exactly if it is not there.
pub proof fn law_memory_watch(alive: bool, shown: Option<Seq<char>>, limit_kb: u64)
    ensures
        darwin::memory_decision(alive, shown, limit_kb) == Poll::Kill <==> alive && shown is Some
            && darwin::printed_rss_kb(shown->0) > limit_kb,
        darwin::memory_decision(alive, shown, limit_kb) == Poll::Stop <==> !alive,
{
}

/// A process is killed for its parent exactly if the parent changed, and the watchdog stops
/// by itself exactly if it did not and the process is not there.
pub proof fn law_watchdog(original_ppid: u32, current_ppid: u32, alive: bool)
    ensures
        darwin::watchdog_decision(original_ppid, current_ppid, alive) == Poll::Kill
            <==> original_ppid != current_ppid,
        darwin::watchdog_decision(original_ppid, current_ppid, alive) == Poll::Stop
            <==> original_ppid == current_ppid && !alive,
{
}

/// The arguments of a command are those given, in their order.
pub proof fn law_given_arguments(args: Seq<&str>, i: int)
    requires
        0 <= i < args.len(),
    ensures
        command::given_arguments(args).len() == args.len(),
        command::given_arguments(args)[i] == args[i]@,
{
}

/// A command starts in the directory given, if one is.
pub proof fn law_same_dir(a: Option<PathBuf>, b: Option<PathBuf>)
    ensures
        command::same_dir(a, b) <==> (a is None && b is None) || (a is Some && b is Some
            && a->0.bytes@ == b->0.bytes@),
{
}

/// The memory limit to watch for is the limit in KB: none for 0, and 1024 KB for each MB.
pub proof fn law_watched_memory(limit_mb: u64)
    requires
        limit_mb * 1024 <= u64::MAX,
    ensures
        darwin::watched_kb(limit_mb) is None <==> limit_mb == 0,
        darwin::watched_kb(limit_mb) matches Some(kb) ==> kb == limit_mb * 1024,
{
}

/// The home of a process is where its directory leads, wherever that is known.
pub proof fn law_home(path: PathBuf, target: PathBuf)
    ensures
        darwin::home_of(Resolution { path, canonical: Some(target) }) == target,
        darwin::home_of(Resolution { path, canonical: None }) == path,
{
}

/// There is a directory of sockets exactly if there is a control socket in it, and there are
/// both exactly if a directory is configured.
pub proof fn law_sockets(socket_dir: Seq<u8>)
    ensures
        socket_dir.len() > 0 ==> darwin::socket_dir_place(socket_dir) == Some(socket_dir),
        socket_dir.len() > 0 ==> darwin::control_socket_place(socket_dir) == Some(
            (if socket_dir.last() != 0x2f {
                socket_dir.push(0x2f)
            } else {
                socket_dir
            }) + vstd::utf8::encode_utf8("control.sock"@),
        ),
        socket_dir.len() == 0 ==> darwin::socket_dir_place(socket_dir) is None
            && darwin::control_socket_place(socket_dir) is None,
{
    reveal_strlit("control.sock");
    vstd::utf8::is_ascii_chars_encode_utf8("control.sock"@);
    assert(!path::absolute(vstd::utf8::encode_utf8("control.sock"@)));
}

/// A process can read every path that the configuration lets it read, in their order; then
/// the directory of its sockets, if it has one; then the cache of `uv`, if that exists; and
/// nothing else.
pub proof fn law_readable(paths: LaunchPaths)
    ensures
        ({
            let all = darwin::readable_texts(paths);
            let n = paths.read@.len();
            let sockets = if paths.socket_dir is Some {
                1int
            } else {
                0
            };
            let cached = paths.uv_cache is Some && paths.uv_cache->0.canonical is Some;
            &&& all.len() == n + sockets + (if cached {
                1int
            } else {
                0
            })
            &&& forall|i: int|
                0 <= i < n ==> #[trigger] all[i] == darwin::canon_text(paths.read@[i])
            &&& paths.socket_dir matches Some(dir) ==> all[n as int] == darwin::canon_text(dir)
            &&& cached ==> all[n + sockets] == darwin::canon_text(paths.uv_cache->0)
        }),
{
}

/// A process can write every path that the configuration lets it write, in their order, and
/// then its home, and nothing else.
pub proof fn law_writable(paths: LaunchPaths)
    ensures
        ({
            let all = darwin::writable_texts(paths);
            let n = paths.write@.len();
            &&& all.len() == n + 1
            &&& forall|i: int|
                0 <= i < n ==> #[trigger] all[i] == darwin::canon_text(paths.write@[i])
            &&& all[n as int] == stdtext::utf8_lossy(paths.tmp_dir.bytes@)
        }),
{
}

/// A socket stands in a profile by where it leads, exactly if there is one.
pub proof fn law_socket_in_profile(r: Resolution)
    ensures
        darwin::canon_maybe(Some(r)) == Some(darwin::canon_text(r)),
        darwin::canon_maybe(None) is None,
{
}

/// What is said of a launch without a command: that `sandbox-exec` is not found, whatever else
/// is wrong; else why a standard stream could not be redirected; else why the descriptors
/// cannot be inherited.
pub proof fn law_launch_refusals(cfg: Config, host: Host, error: ErrorView)
    requires
        darwin::launch_refused(cfg, host, error),
    ensures
        host.sandbox_exec is None ==> error == ErrorView::Process(
            "sandbox-exec not found in PATH"@,
        ),
        host.sandbox_exec is Some ==> (host.stdio_problem matches Some(problem) ==> error
            == ErrorView::Process(problem@)),
        host.sandbox_exec is Some && host.stdio_problem is None ==> fd::refused(
            cfg.extra_fds@,
            cfg,
            error,
        ),
{
}

/// A process that was started has the number and the directory that it was started with, and
/// no cgroup. Where none was started, the error is kept and the directory is removed.
pub proof fn law_launch_ends<M>(tmp_dir: PathBuf, pid: u32, error: Error)
    ensures
        darwin::launched::<M>(tmp_dir, Ok(pid)) matches Launched::Running(process) && process.pid
            == pid && process.tmp_dir == tmp_dir && process.cgroup_path is None
            && process.cgroup_mgr is None,
        darwin::launched::<M>(tmp_dir, Err(error)) matches Launched::Failed { error: e, remove }
            && e == error && remove == tmp_dir,
{
}

/// The bytes of a directory, if there is one.
pub proof fn law_dir_bytes(dir: &PathBuf)
    ensures
        darwin::dir_bytes(Some(dir)) == Some(dir.bytes@),
        darwin::dir_bytes(None) is None,
{
}

} // verus!
