//! What the three filters together answer to a system call.

use vstd::prelude::*;

use crate::bpf;
use crate::bpf::Call;
use crate::filter;
use crate::filter::{Action, ArgLen, Rules};
use crate::seccomp;
use crate::seccomp::{
    FilterSet, AF_INET, AF_INET6, AT_EMPTY_PATH, CLONE_NEWCGROUP, CLONE_NEWIPC, CLONE_NEWNET,
    CLONE_NEWNS, CLONE_NEWPID, CLONE_NEWTIME, CLONE_NEWUSER, CLONE_NEWUTS, ENOSYS, EPERM,
    PR_SET_DUMPABLE, PR_SET_PDEATHSIG,
};
use crate::syscall::{Syscall, TargetArch};

verus! {

/// How restrictive an action is: allowing, then failing the call, then killing.
pub open spec fn rank(action: Action) -> int {
    match action {
        Action::Allow => 0,
        Action::Errno(_) => 1,
        Action::KillProcess => 2,
    }
}

/// The more restrictive of two answers; the first where they rank the same.
pub open spec fn stricter(first: Action, second: Action) -> Action {
    if rank(second) > rank(first) {
        second
    } else {
        first
    }
}

/// What one filter answers: its action where the call matches, else `Allow`.
pub open spec fn answer(rules: Rules, on_match: Action, nr: i64, args: Seq<u64>) -> Action {
    if filter::matches_rules(rules, nr, args) {
        on_match
    } else {
        Action::Allow
    }
}

/// What happens to a call under all three filters. The kernel asks the filter that was
/// installed last first, and keeps the most restrictive answer.
pub open spec fn verdict(arch: TargetArch, nr: i64, args: Seq<u64>) -> Action {
    stricter(
        stricter(
            answer(seccomp::kill_rules(arch), Action::KillProcess, nr, args),
            answer(seccomp::eperm_rules(arch), Action::Errno(EPERM), nr, args),
        ),
        answer(seccomp::enosys_rules(arch), Action::Errno(ENOSYS), nr, args),
    )
}

/// What the kernel answers to a call once the three programs are installed, the one that
/// kills last.
pub open spec fn kernel_answer(set: FilterSet, call: Call) -> Option<u32> {
    bpf::winner(
        bpf::winner(bpf::answer(set.kill@, call), bpf::answer(set.eperm@, call)),
        bpf::answer(set.enosys@, call),
    )
}

/// The installed programs enforce the policy: a call gets the verdict of the rules, and one
/// that is made for another architecture, where the numbers mean other calls, is killed.
pub proof fn law_programs_enforce(set: FilterSet, arch: TargetArch, call: Call)
    requires
        set.enforces(arch),
        call.args.len() == 6,
    ensures
        kernel_answer(set, call) == Some(
            bpf::code_of(
                if call.arch == bpf::audit_number(arch) {
                    verdict(arch, call.nr as i64, call.args)
                } else {
                    Action::KillProcess
                },
            ),
        ),
{
    assert(0x0005_0000u32 | (1u32 & 0xffff) == 0x0005_0001) by (bit_vector);
    assert(0x0005_0000u32 | (38u32 & 0xffff) == 0x0005_0026) by (bit_vector);
    assert(bpf::answer(set.kill@, call) is Some);
    assert(bpf::answer(set.eperm@, call) is Some);
    assert(bpf::answer(set.enosys@, call) is Some);
}

/// Calls that the `EPERM` filter looks at the arguments of.
pub open spec fn argument_filtered() -> Seq<Syscall> {
    seq![Syscall::Socket, Syscall::Prctl, Syscall::Execveat, Syscall::Clone]
}

/// Rules that match whatever the arguments are hold exactly the numbers they are made for.
proof fn lemma_unconditional(calls: Seq<i64>, nr: i64)
    ensures
        seccomp::unconditional(calls).contains_key(nr) <==> calls.contains(nr),
        calls.contains(nr) ==> seccomp::unconditional(calls)[nr].len() == 0,
    decreases calls.len(),
{
    if calls.len() > 0 {
        let init = calls.drop_last();
        lemma_unconditional(init, nr);
        if calls.contains(nr) {
            let i = choose|i: int| 0 <= i < calls.len() && calls[i] == nr;
            if i < init.len() {
                assert(init[i] == nr);
            }
        }
        if init.contains(nr) {
            let i = choose|i: int| 0 <= i < init.len() && init[i] == nr;
            assert(calls[i] == nr);
        }
        assert(calls[calls.len() - 1] == calls.last());
    }
}

/// Two calls that exist on an architecture have different numbers there.
pub proof fn law_numbers_distinct(a: Syscall, b: Syscall, arch: TargetArch)
    requires
        a.exists_on(arch),
        b.exists_on(arch),
        a.number_on(arch) == b.number_on(arch),
    ensures
        a == b,
{
}

/// A call of a list is known by its number.
proof fn lemma_number_listed(calls: Seq<Syscall>, call: Syscall, arch: TargetArch)
    requires
        call.exists_on(arch),
        forall|i: int| 0 <= i < calls.len() ==> (#[trigger] calls[i]).exists_on(arch),
    ensures
        seccomp::numbers(calls, arch).contains(call.number_on(arch)) <==> calls.contains(call),
{
    let nrs = seccomp::numbers(calls, arch);
    if nrs.contains(call.number_on(arch)) {
        let i = choose|i: int| 0 <= i < nrs.len() && nrs[i] == call.number_on(arch);
        law_numbers_distinct(calls[i], call, arch);
        assert(calls[i] == call);
    }
    if calls.contains(call) {
        let i = choose|i: int| 0 <= i < calls.len() && calls[i] == call;
        assert(nrs[i] == call.number_on(arch));
    }
}

/// No call is in two tiers.
pub proof fn law_tiers_disjoint(arch: TargetArch, nr: i64)
    ensures
        !(seccomp::kill_rules(arch).contains_key(nr) && seccomp::eperm_rules(arch).contains_key(
            nr,
        )),
        !(seccomp::kill_rules(arch).contains_key(nr) && seccomp::enosys_rules(arch).contains_key(
            nr,
        )),
        !(seccomp::eperm_rules(arch).contains_key(nr) && seccomp::enosys_rules(arch).contains_key(
            nr,
        )),
{
    let kill = seccomp::numbers(seccomp::tier1(), arch);
    let eperm = seccomp::numbers(seccomp::tier2(arch), arch);
    lemma_unconditional(kill, nr);
    lemma_unconditional(eperm, nr);
    if kill.contains(nr) {
        let i = choose|i: int| 0 <= i < kill.len() && kill[i] == nr;
        let call = seccomp::tier1()[i];
        assert(call.exists_on(arch) && call.number_on(arch) == nr);
        if eperm.contains(nr) {
            let j = choose|j: int| 0 <= j < eperm.len() && eperm[j] == nr;
            let other = seccomp::tier2(arch)[j];
            assert(other.exists_on(arch) && other.number_on(arch) == nr);
            law_numbers_distinct(call, other, arch);
        }
    }
}

/// A call of the first tier is answered by killing the process, whatever its arguments are.
pub proof fn law_tier1_killed(arch: TargetArch, call: Syscall, args: Seq<u64>)
    requires
        seccomp::tier1().contains(call),
    ensures
        verdict(arch, call.number_on(arch), args) == Action::KillProcess,
{
    let nr = call.number_on(arch);
    lemma_unconditional(seccomp::numbers(seccomp::tier1(), arch), nr);
    lemma_number_listed(seccomp::tier1(), call, arch);
}

/// A call of the second tier is answered with `EPERM`, whatever its arguments are.
pub proof fn law_tier2_refused(arch: TargetArch, call: Syscall, args: Seq<u64>)
    requires
        seccomp::tier2(arch).contains(call),
    ensures
        verdict(arch, call.number_on(arch), args) == Action::Errno(EPERM),
{
    let nr = call.number_on(arch);
    lemma_unconditional(seccomp::numbers(seccomp::tier2(arch), arch), nr);
    lemma_number_listed(seccomp::tier2(arch), call, arch);
    lemma_eperm_only(arch, nr);
    assert(forall|i: int|
        0 <= i < seccomp::tier2(arch).len() ==> !argument_filtered().contains(
            #[trigger] seccomp::tier2(arch)[i],
        ));
}

/// What the `EPERM` filter answers to one of its calls is what happens to the call.
proof fn lemma_eperm_only(arch: TargetArch, nr: i64)
    requires
        seccomp::eperm_rules(arch).contains_key(nr),
    ensures
        forall|args: Seq<u64>| #[trigger]
            verdict(arch, nr, args) == answer(
                seccomp::eperm_rules(arch),
                Action::Errno(EPERM),
                nr,
                args,
            ),
{
    law_tiers_disjoint(arch, nr);
}

/// `clone3` is answered with `ENOSYS`, whatever its arguments are.
pub proof fn law_clone3_unimplemented(arch: TargetArch, args: Seq<u64>)
    ensures
        verdict(arch, Syscall::Clone3.number_on(arch), args) == Action::Errno(ENOSYS),
{
    law_tiers_disjoint(arch, Syscall::Clone3.number_on(arch));
}

/// A call that no tier names is allowed, whatever its arguments are.
pub proof fn law_others_allowed(arch: TargetArch, nr: i64, args: Seq<u64>)
    requires
        !seccomp::numbers(seccomp::tier1(), arch).contains(nr),
        !seccomp::numbers(seccomp::tier2(arch), arch).contains(nr),
        !seccomp::numbers(argument_filtered(), arch).contains(nr),
        nr != Syscall::Clone3.number_on(arch),
    ensures
        verdict(arch, nr, args) == Action::Allow,
{
    lemma_unconditional(seccomp::numbers(seccomp::tier1(), arch), nr);
    lemma_unconditional(seccomp::numbers(seccomp::tier2(arch), arch), nr);
    let filtered = seccomp::numbers(argument_filtered(), arch);
    assert(filtered[0] != nr && filtered[1] != nr && filtered[2] != nr && filtered[3] != nr);
}

/// `socket` is answered with `EPERM` for the IPv4 and IPv6 domains, and allowed for every
/// other domain.
pub proof fn law_socket(arch: TargetArch, args: Seq<u64>)
    requires
        args.len() == 6,
    ensures
        verdict(arch, Syscall::Socket.number_on(arch), args) == if args[0] & 0xffff_ffff == AF_INET
            || args[0] & 0xffff_ffff == AF_INET6 {
            Action::Errno(EPERM)
        } else {
            Action::Allow
        },
{
    let nr = Syscall::Socket.number_on(arch);
    lemma_eperm_only(arch, nr);
    let rules = seccomp::eperm_rules(arch)[nr];
    assert(rules == seccomp::socket_rules());
    assert(2u64 & 0xffff_ffff == 2 && 10u64 & 0xffff_ffff == 10) by (bit_vector);
    assert(rules[0][0] == seccomp::dword_eq(0, AF_INET));
    assert(rules[1][0] == seccomp::dword_eq(0, AF_INET6));
    assert(filter::rule_holds(rules[0], args) <==> args[0] & 0xffff_ffff == AF_INET);
    assert(filter::rule_holds(rules[1], args) <==> args[0] & 0xffff_ffff == AF_INET6);
}

/// `prctl` is answered with `EPERM` when it clears the parent-death signal or makes the
/// process dumpable, and allowed for everything else.
pub proof fn law_prctl(arch: TargetArch, args: Seq<u64>)
    requires
        args.len() == 6,
    ensures
        verdict(arch, Syscall::Prctl.number_on(arch), args) == if (args[0] & 0xffff_ffff
            == PR_SET_PDEATHSIG && args[1] & 0xffff_ffff == 0) || (args[0] & 0xffff_ffff
            == PR_SET_DUMPABLE && args[1] & 0xffff_ffff == 1) {
            Action::Errno(EPERM)
        } else {
            Action::Allow
        },
{
    let nr = Syscall::Prctl.number_on(arch);
    lemma_eperm_only(arch, nr);
    let rules = seccomp::eperm_rules(arch)[nr];
    assert(rules == seccomp::prctl_rules());
    assert(0u64 & 0xffff_ffff == 0 && 1u64 & 0xffff_ffff == 1 && 4u64 & 0xffff_ffff == 4)
        by (bit_vector);
    assert(rules[0][0] == seccomp::dword_eq(0, PR_SET_PDEATHSIG));
    assert(rules[0][1] == seccomp::dword_eq(1, 0));
    assert(rules[1][0] == seccomp::dword_eq(0, PR_SET_DUMPABLE));
    assert(rules[1][1] == seccomp::dword_eq(1, 1));
    assert(filter::rule_holds(rules[0], args) <==> (args[0] & 0xffff_ffff == PR_SET_PDEATHSIG
        && args[1] & 0xffff_ffff == 0));
    assert(filter::rule_holds(rules[1], args) <==> (args[0] & 0xffff_ffff == PR_SET_DUMPABLE
        && args[1] & 0xffff_ffff == 1));
}

/// `execveat` is answered with `EPERM` when `AT_EMPTY_PATH` is among its flags, alone or
/// with others, and allowed without it.
pub proof fn law_execveat(arch: TargetArch, args: Seq<u64>)
    requires
        args.len() == 6,
    ensures
        verdict(arch, Syscall::Execveat.number_on(arch), args) == if args[4] & AT_EMPTY_PATH != 0 {
            Action::Errno(EPERM)
        } else {
            Action::Allow
        },
{
    let nr = Syscall::Execveat.number_on(arch);
    lemma_eperm_only(arch, nr);
    let rules = seccomp::eperm_rules(arch)[nr];
    assert(rules == seccomp::execveat_rules());
    let flags = args[4];
    assert(((flags & 0xffff_ffff) & 0x1000 == (0x1000u64 & 0xffff_ffff) & 0x1000) == (flags & 0x1000
        != 0)) by (bit_vector);
    assert(rules[0][0] == seccomp::has_flag(4, ArgLen::Dword, AT_EMPTY_PATH));
    assert(filter::rule_holds(rules[0], args) <==> args[4] & AT_EMPTY_PATH != 0);
}

/// `clone` is answered with `EPERM` when any flag that makes a namespace is among its
/// flags, alone or with others, and allowed without one.
pub proof fn law_clone(arch: TargetArch, args: Seq<u64>)
    requires
        args.len() == 6,
    ensures
        verdict(arch, Syscall::Clone.number_on(arch), args) == if exists|i: int|
            0 <= i < seccomp::namespace_flags().len() && args[0]
                & #[trigger] seccomp::namespace_flags()[i] != 0 {
            Action::Errno(EPERM)
        } else {
            Action::Allow
        },
{
    let nr = Syscall::Clone.number_on(arch);
    lemma_eperm_only(arch, nr);
    let rules = seccomp::eperm_rules(arch)[nr];
    assert(rules == seccomp::clone_rules());
    let flags = seccomp::namespace_flags();
    let given = args[0];
    assert forall|i: int| 0 <= i < flags.len() implies filter::rule_holds(#[trigger] rules[i], args)
        == (given & flags[i] != 0) by {
        let flag = flags[i];
        assert(rules[i] == seq![seccomp::has_flag(0, ArgLen::Qword, flag)]);
        assert(rules[i][0] == seccomp::has_flag(0, ArgLen::Qword, flag));
        assert(flag == CLONE_NEWNS || flag == CLONE_NEWCGROUP || flag == CLONE_NEWUTS || flag
            == CLONE_NEWIPC || flag == CLONE_NEWUSER || flag == CLONE_NEWPID || flag == CLONE_NEWNET
            || flag == CLONE_NEWTIME);
        assert((given & flag == flag & flag) == (given & flag != 0)) by (bit_vector)
            requires
                flag == 0x0002_0000u64 || flag == 0x0200_0000u64 || flag == 0x0400_0000u64 || flag
                    == 0x0800_0000u64 || flag == 0x1000_0000u64 || flag == 0x2000_0000u64 || flag
                    == 0x4000_0000u64 || flag == 0x80u64,
        ;
        assert(filter::rule_holds(rules[i], args) == (given & flag == flag & flag));
    }
    if exists|i: int| 0 <= i < flags.len() && given & #[trigger] flags[i] != 0 {
        let i = choose|i: int| 0 <= i < flags.len() && given & #[trigger] flags[i] != 0;
        assert(filter::rule_holds(rules[i], args));
    } else {
        assert forall|i: int| 0 <= i < rules.len() implies !filter::rule_holds(
            #[trigger] rules[i],
            args,
        ) by {
            assert(given & flags[i] == 0);
        }
    }
}

} // verus!
