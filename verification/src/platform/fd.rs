//! Descriptors that a sandboxed process inherits: which ones can be, and how they are
//! moved to their places 3, 4 and so on.

use vstd::prelude::*;

use crate::config::Config;
use crate::error::{Error, ErrorView};
use crate::text;
use crate::text::{push_decimal, push_signed};

verus! {

/// How many descriptors can be inherited. It bounds the calls that are made between fork
/// and exec.
pub const MAX_EXTRA_FDS: usize = 16;

/// Whether `fd` is one of the descriptors that become standard input, output or error.
pub open spec fn is_stdio_of(fd: i32, cfg: Config) -> bool {
    cfg.stdin == Some(fd) || cfg.stdout == Some(fd) || cfg.stderr == Some(fd)
}

/// Whether a process can inherit `fds`: not too many, none of the first three, no
/// descriptor twice, and none that becomes standard input, output or error.
pub open spec fn valid_extra_fds(fds: Seq<i32>, cfg: Config) -> bool {
    &&& fds.len() <= MAX_EXTRA_FDS
    &&& forall|i: int| 0 <= i < fds.len() ==> #[trigger] fds[i] > 2 && !is_stdio_of(fds[i], cfg)
    &&& forall|i: int, j: int| 0 <= i < j < fds.len() ==> fds[i] != fds[j]
}

/// What is wrong with the descriptor at place `i`, if anything, given those before it.
pub open spec fn fd_problem(fds: Seq<i32>, cfg: Config, i: int) -> Option<Seq<char>> {
    let fd = fds[i];
    let place = "extra_fds["@ + text::decimal(i as nat) + "]: "@;
    let shown = text::signed_decimal(fd as int);
    if fd < 0 {
        Some(place + "negative FD "@ + shown)
    } else if fd <= 2 {
        Some(
            place + "FD "@ + shown
                + " is stdin/stdout/stderr (use cfg.stdin/stdout/stderr instead)"@,
        )
    } else if exists|j: int| 0 <= j < i && fds[j] == fd {
        Some(place + "duplicate FD "@ + shown)
    } else if is_stdio_of(fd, cfg) {
        Some(place + "FD "@ + shown + " overlaps with stdio config"@)
    } else {
        None
    }
}

/// Whether an error says why a process cannot inherit `fds`: that they are too many, or else
/// what is wrong with the first one that anything is wrong with.
pub open spec fn refused(fds: Seq<i32>, cfg: Config, error: ErrorView) -> bool {
    if fds.len() > MAX_EXTRA_FDS {
        error == ErrorView::Validation(
            "extra_fds: too many FDs ("@ + text::decimal(fds.len()) + ", max 16)"@,
        )
    } else {
        exists|i: int|
            0 <= i < fds.len() && (forall|j: int|
                0 <= j < i ==> #[trigger] fd_problem(fds, cfg, j) is None) && #[trigger] fd_problem(
                fds,
                cfg,
                i,
            ) is Some && error == ErrorView::Validation(fd_problem(fds, cfg, i)->0)
    }
}

/// The error for the descriptor at place `i`.
fn place_error(i: usize, before: &str, fd: i32, after: &str) -> (error: Error)
    ensures
        error@ == ErrorView::Validation(
            "extra_fds["@ + text::decimal(i as nat) + "]: "@ + before@ + text::signed_decimal(
                fd as int,
            ) + after@,
        ),
{
    let mut message = "extra_fds[".to_owned();
    push_decimal(&mut message, i as u64);
    message.append("]: ");
    message.append(before);
    push_signed(&mut message, fd);
    message.append(after);
    Error::Validation(message)
}

/// Whether `fd` is among the first `n` of `fds`.
fn seen_before(fds: &[i32], n: usize, fd: i32) -> (seen: bool)
    requires
        n <= fds@.len(),
    ensures
        seen == exists|j: int| 0 <= j < n && fds@[j] == fd,
{
    for j in 0..n
        invariant
            n <= fds@.len(),
            forall|k: int| 0 <= k < j ==> fds@[k] != fd,
    {
        if fds[j] == fd {
            return true;
        }
    }
    false
}

/// Whether a configured descriptor is `fd`.
fn is_fd(configured: Option<i32>, fd: i32) -> (same: bool)
    ensures
        same == (configured == Some(fd)),
{
    match configured {
        Some(other) => other == fd,
        None => false,
    }
}

/// Checks the descriptors that a process is to inherit, and says what is wrong with the
/// first one that it cannot.
pub fn validate_extra_fds(fds: &[i32], cfg: &Config) -> (checked: Result<(), Error>)
    ensures
        checked is Ok <==> valid_extra_fds(fds@, *cfg),
        checked matches Err(error) ==> refused(fds@, *cfg, error@),
{
    if fds.len() > MAX_EXTRA_FDS {
        let mut message = "extra_fds: too many FDs (".to_owned();
        push_decimal(&mut message, fds.len() as u64);
        message.append(", max 16)");
        return Err(Error::Validation(message));
    }
    for i in 0..fds.len()
        invariant
            fds@.len() <= MAX_EXTRA_FDS,
            forall|j: int| 0 <= j < i ==> #[trigger] fd_problem(fds@, *cfg, j) is None,
    {
        let fd = fds[i];
        let ghost problem = fd_problem(fds@, *cfg, i as int);
        if fd < 0 {
            proof {
                reveal_strlit("");
            }
            let error = place_error(i, "negative FD ", fd, "");
            assert(error@ == ErrorView::Validation(problem->0));
            return Err(error);
        }
        if fd <= 2 {
            let error = place_error(
                i,
                "FD ",
                fd,
                " is stdin/stdout/stderr (use cfg.stdin/stdout/stderr instead)",
            );
            assert(error@ == ErrorView::Validation(problem->0));
            return Err(error);
        }
        if seen_before(fds, i, fd) {
            proof {
                reveal_strlit("");
            }
            let error = place_error(i, "duplicate FD ", fd, "");
            assert(error@ == ErrorView::Validation(problem->0));
            return Err(error);
        }
        if is_fd(cfg.stdin, fd) || is_fd(cfg.stdout, fd) || is_fd(cfg.stderr, fd) {
            let error = place_error(i, "FD ", fd, " overlaps with stdio config");
            assert(error@ == ErrorView::Validation(problem->0));
            return Err(error);
        }
        assert(problem is None);
    }
    proof {
        assert forall|i: int| 0 <= i < fds@.len() implies #[trigger] fds@[i] > 2 && !is_stdio_of(
            fds@[i],
            *cfg,
        ) by {
            assert(fd_problem(fds@, *cfg, i) is None);
        }
        assert forall|i: int, j: int| 0 <= i < j < fds@.len() implies fds@[i] != fds@[j] by {
            assert(fd_problem(fds@, *cfg, j) is None);
        }
    }
    Ok(())
}

} // verus!
