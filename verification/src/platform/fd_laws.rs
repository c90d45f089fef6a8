//! Which descriptors a process can inherit, one by one.

use vstd::prelude::*;

use crate::config::Config;
use crate::error::ErrorView;
use crate::platform::fd;
use crate::text;

verus! {

/// A process can inherit no descriptors; and one more than those it can inherit, exactly if
/// these are fewer than 16 and it is none of the first three, none of these, and none that
/// becomes standard input, output or error.
pub proof fn law_one_more_fd(fds: Seq<i32>, fd: i32, cfg: Config)
    ensures
        fd::valid_extra_fds(Seq::empty(), cfg),
        fd::valid_extra_fds(fds.push(fd), cfg) <==> fd::valid_extra_fds(fds, cfg) && fds.len() < 16
            && fd > 2 && !fds.contains(fd) && cfg.stdin != Some(fd) && cfg.stdout != Some(fd)
            && cfg.stderr != Some(fd),
{
    let more = fds.push(fd);
    let n = fds.len() as int;
    assert(more[n] == fd);
    if fd::valid_extra_fds(more, cfg) {
        assert forall|i: int| 0 <= i < n implies #[trigger] fds[i] > 2 && !fd::is_stdio_of(
            fds[i],
            cfg,
        ) by {
            assert(more[i] == fds[i]);
        }
        assert forall|i: int, j: int| 0 <= i < j < n implies fds[i] != fds[j] by {
            assert(more[i] != more[j]);
        }
        assert forall|i: int| 0 <= i < n implies fds[i] != fd by {
            assert(more[i] != more[n]);
        }
    }
    if fd::valid_extra_fds(fds, cfg) && fds.len() < 16 && fd > 2 && !fds.contains(fd) && cfg.stdin
        != Some(fd) && cfg.stdout != Some(fd) && cfg.stderr != Some(fd) {
        assert forall|i: int, j: int| 0 <= i < j < more.len() implies more[i] != more[j] by {
            if j == n {
                assert(fds.contains(fds[i]));
            }
        }
    }
}

/// Descriptors are refused because they are more than 16, or else because of the first one
/// that cannot be inherited with those before it. The error says where it stands and what is
/// wrong with it: that it is negative, one of the first three, there before, or one that
/// becomes standard input, output or error.
pub proof fn law_refusals(fds: Seq<i32>, cfg: Config, error: ErrorView)
    requires
        fd::refused(fds, cfg, error),
    ensures
        fds.len() > 16 ==> error == ErrorView::Validation(
            "extra_fds: too many FDs ("@ + text::decimal(fds.len()) + ", max 16)"@,
        ),
        fds.len() <= 16 ==> exists|i: int|
            {
                &&& 0 <= i < fds.len()
                &&& fd::valid_extra_fds(#[trigger] fds.take(i), cfg)
                &&& !fd::valid_extra_fds(fds.take(i).push(fds[i]), cfg)
                &&& error == ErrorView::Validation(
                    "extra_fds["@ + text::decimal(i as nat) + "]: "@ + (if fds[i] < 0 {
                        "negative FD "@ + text::signed_decimal(fds[i] as int)
                    } else if fds[i] <= 2 {
                        "FD "@ + text::signed_decimal(fds[i] as int)
                            + " is stdin/stdout/stderr (use cfg.stdin/stdout/stderr instead)"@
                    } else if fds.take(i).contains(fds[i]) {
                        "duplicate FD "@ + text::signed_decimal(fds[i] as int)
                    } else {
                        "FD "@ + text::signed_decimal(fds[i] as int)
                            + " overlaps with stdio config"@
                    }),
                )
            },
{
    if fds.len() <= 16 {
        let i = choose|i: int|
            0 <= i < fds.len() && (forall|j: int|
                0 <= j < i ==> #[trigger] fd::fd_problem(fds, cfg, j) is None)
                && #[trigger] fd::fd_problem(fds, cfg, i) is Some && error
                == ErrorView::Validation(fd::fd_problem(fds, cfg, i)->0);
        lemma_valid_before(fds, cfg, i);
        let before = fds.take(i);
        let fd = fds[i];
        law_one_more_fd(before, fd, cfg);
        if before.contains(fd) {
            let j = choose|j: int| 0 <= j < i && before[j] == fd;
            assert(fds[j] == fd);
        }
        if exists|j: int| 0 <= j < i && fds[j] == fd {
            let j = choose|j: int| 0 <= j < i && fds[j] == fd;
            assert(before[j] == fd);
        }
        let place = "extra_fds["@ + text::decimal(i as nat) + "]: "@;
        let shown = text::signed_decimal(fd as int);
        let tail = if fd < 0 {
            "negative FD "@ + shown
        } else if fd <= 2 {
            "FD "@ + shown + " is stdin/stdout/stderr (use cfg.stdin/stdout/stderr instead)"@
        } else if before.contains(fd) {
            "duplicate FD "@ + shown
        } else {
            "FD "@ + shown + " overlaps with stdio config"@
        };
        assert(fd::fd_problem(fds, cfg, i)->0 =~= place + tail);
        assert(fd::valid_extra_fds(fds.take(i), cfg));
    }
}

/// Descriptors that nothing is wrong with can be inherited.
proof fn lemma_valid_before(fds: Seq<i32>, cfg: Config, i: int)
    requires
        0 <= i <= fds.len() <= 16,
        forall|j: int| 0 <= j < i ==> #[trigger] fd::fd_problem(fds, cfg, j) is None,
    ensures
        fd::valid_extra_fds(fds.take(i), cfg),
{
    let before = fds.take(i);
    assert forall|j: int| 0 <= j < i implies #[trigger] before[j] > 2 && !fd::is_stdio_of(
        before[j],
        cfg,
    ) by {
        assert(fd::fd_problem(fds, cfg, j) is None);
    }
    assert forall|j: int, k: int| 0 <= j < k < i implies before[j] != before[k] by {
        assert(fd::fd_problem(fds, cfg, k) is None);
        assert(fds[j] == before[j] && fds[k] == before[k]);
    }
}

} // verus!
