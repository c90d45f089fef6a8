//! Which system calls a sandboxed process is refused, and how.
//!
//! Three tiers of response, over a default of allowing everything else:
//! - kill the process: calls with no legitimate use (ptrace, mount, namespaces,
//!   kernel modules and the like);
//! - `EPERM`: calls that libraries may probe (links, network sockets, clone with
//!   namespace flags and the like);
//! - `ENOSYS`: `clone3`, so that a runtime falls back to `clone`, whose flags are
//!   a plain argument.
//!
//! A filter has one action on a match, so each tier is a filter of its own. The
//! kernel runs all of them and takes the most restrictive answer.

use std::collections::BTreeMap;

use seccompiler::{SeccompCondition, SeccompRule};
use vstd::prelude::*;

use crate::error::{Error, ErrorView};
use crate::filter;
use crate::filter::{
    compile, new_condition, new_filter, new_rule, Action, ArgLen, CmpOp, Condition, Instruction,
    Rules,
};
use crate::syscall::{Syscall, TargetArch};
use crate::text::{joined, same_text};

verus! {

/// Operation not permitted.
pub const EPERM: u32 = 1;

/// Function not implemented.
pub const ENOSYS: u32 = 38;

/// Socket domain of IPv4.
pub const AF_INET: u64 = 2;

/// Socket domain of IPv6.
pub const AF_INET6: u64 = 10;

/// `prctl` operation that sets the signal sent on the parent's death.
pub const PR_SET_PDEATHSIG: u64 = 1;

/// `prctl` operation that makes a process dumpable or not.
pub const PR_SET_DUMPABLE: u64 = 4;

/// `execveat` flag that runs the file behind a descriptor.
pub const AT_EMPTY_PATH: u64 = 0x1000;

pub const CLONE_NEWNS: u64 = 0x0002_0000;

pub const CLONE_NEWCGROUP: u64 = 0x0200_0000;

pub const CLONE_NEWUTS: u64 = 0x0400_0000;

pub const CLONE_NEWIPC: u64 = 0x0800_0000;

pub const CLONE_NEWUSER: u64 = 0x1000_0000;

pub const CLONE_NEWPID: u64 = 0x2000_0000;

pub const CLONE_NEWNET: u64 = 0x4000_0000;

pub const CLONE_NEWTIME: u64 = 0x0000_0080;

/// Calls that kill the process.
pub open spec fn tier1() -> Seq<Syscall> {
    seq![
        Syscall::Ptrace,
        Syscall::Mount,
        Syscall::Umount2,
        Syscall::Reboot,
        Syscall::KexecLoad,
        Syscall::KexecFileLoad,
        Syscall::PivotRoot,
        Syscall::Chroot,
        Syscall::InitModule,
        Syscall::FinitModule,
        Syscall::DeleteModule,
        Syscall::Unshare,
        Syscall::Setns,
        Syscall::Personality,
        Syscall::MemfdCreate,
        Syscall::ProcessVmReadv,
        Syscall::ProcessVmWritev,
        Syscall::Userfaultfd,
        Syscall::Kcmp,
        Syscall::IoUringSetup,
        Syscall::IoUringEnter,
        Syscall::IoUringRegister,
        Syscall::Bpf,
        Syscall::MountSetattr,
        Syscall::MoveMount,
        Syscall::OpenTree,
        Syscall::Fsopen,
        Syscall::Fsconfig,
        Syscall::Fsmount,
        Syscall::Fspick,
        Syscall::PidfdOpen,
        Syscall::PidfdGetfd,
        Syscall::PidfdSendSignal,
        Syscall::ProcessMadvise,
        Syscall::MemfdSecret,
        Syscall::LandlockCreateRuleset,
        Syscall::LandlockAddRule,
        Syscall::LandlockRestrictSelf,
    ]
}

/// Calls that fail with `EPERM` whatever their arguments are.
pub open spec fn tier2(arch: TargetArch) -> Seq<Syscall> {
    let everywhere = seq![Syscall::Symlinkat, Syscall::Linkat, Syscall::PerfEventOpen];
    match arch {
        TargetArch::X86_64 => everywhere + seq![Syscall::Symlink, Syscall::Link],
        TargetArch::Aarch64 => everywhere,
    }
}

/// The numbers of some calls on `arch`.
pub open spec fn numbers(calls: Seq<Syscall>, arch: TargetArch) -> Seq<i64> {
    calls.map_values(|call: Syscall| call.number_on(arch))
}

/// The numbers of the calls that kill the process.
pub fn tier1_kill_syscalls(arch: TargetArch) -> (calls: Vec<i64>)
    ensures
        calls@ == numbers(tier1(), arch),
        forall|i: int| 0 <= i < calls@.len() ==> 0 <= #[trigger] calls@[i] < 448,
{
    let calls = vec![
        Syscall::Ptrace.number(arch),
        Syscall::Mount.number(arch),
        Syscall::Umount2.number(arch),
        Syscall::Reboot.number(arch),
        Syscall::KexecLoad.number(arch),
        Syscall::KexecFileLoad.number(arch),
        Syscall::PivotRoot.number(arch),
        Syscall::Chroot.number(arch),
        Syscall::InitModule.number(arch),
        Syscall::FinitModule.number(arch),
        Syscall::DeleteModule.number(arch),
        Syscall::Unshare.number(arch),
        Syscall::Setns.number(arch),
        Syscall::Personality.number(arch),
        Syscall::MemfdCreate.number(arch),
        Syscall::ProcessVmReadv.number(arch),
        Syscall::ProcessVmWritev.number(arch),
        Syscall::Userfaultfd.number(arch),
        Syscall::Kcmp.number(arch),
        Syscall::IoUringSetup.number(arch),
        Syscall::IoUringEnter.number(arch),
        Syscall::IoUringRegister.number(arch),
        Syscall::Bpf.number(arch),
        Syscall::MountSetattr.number(arch),
        Syscall::MoveMount.number(arch),
        Syscall::OpenTree.number(arch),
        Syscall::Fsopen.number(arch),
        Syscall::Fsconfig.number(arch),
        Syscall::Fsmount.number(arch),
        Syscall::Fspick.number(arch),
        Syscall::PidfdOpen.number(arch),
        Syscall::PidfdGetfd.number(arch),
        Syscall::PidfdSendSignal.number(arch),
        Syscall::ProcessMadvise.number(arch),
        Syscall::MemfdSecret.number(arch),
        Syscall::LandlockCreateRuleset.number(arch),
        Syscall::LandlockAddRule.number(arch),
        Syscall::LandlockRestrictSelf.number(arch),
    ];
    assert(calls@ == numbers(tier1(), arch));
    calls
}

/// The numbers of the calls that fail with `EPERM` whatever their arguments are.
pub fn tier2_eperm_syscalls(arch: TargetArch) -> (calls: Vec<i64>)
    ensures
        calls@ == numbers(tier2(arch), arch),
        forall|i: int| 0 <= i < calls@.len() ==> 0 <= #[trigger] calls@[i] < 448,
{
    let mut calls = vec![
        Syscall::Symlinkat.number(arch),
        Syscall::Linkat.number(arch),
        Syscall::PerfEventOpen.number(arch),
    ];
    if arch == TargetArch::X86_64 {
        calls.push(Syscall::Symlink.number(arch));
        calls.push(Syscall::Link.number(arch));
    }
    assert(calls@ == numbers(tier2(arch), arch));
    calls
}

/// The condition that the low half of an argument equals `value`.
pub open spec fn dword_eq(arg: u8, value: u64) -> Condition {
    Condition { arg, len: ArgLen::Dword, op: CmpOp::Eq, value }
}

/// The condition that every bit of `flag` is set in an argument.
pub open spec fn has_flag(arg: u8, len: ArgLen, flag: u64) -> Condition {
    Condition { arg, len, op: CmpOp::MaskedEq(flag), value: flag }
}

/// `socket` is refused for the two network domains.
pub open spec fn socket_rules() -> Seq<Seq<Condition>> {
    seq![seq![dword_eq(0, AF_INET)], seq![dword_eq(0, AF_INET6)]]
}

/// `prctl` is refused when it clears the parent-death signal or makes the process dumpable.
pub open spec fn prctl_rules() -> Seq<Seq<Condition>> {
    seq![
        seq![dword_eq(0, PR_SET_PDEATHSIG), dword_eq(1, 0)],
        seq![dword_eq(0, PR_SET_DUMPABLE), dword_eq(1, 1)],
    ]
}

/// `execveat` is refused when it runs the file behind a descriptor.
pub open spec fn execveat_rules() -> Seq<Seq<Condition>> {
    seq![seq![has_flag(4, ArgLen::Dword, AT_EMPTY_PATH)]]
}

/// The `clone` flags that make a namespace.
pub open spec fn namespace_flags() -> Seq<u64> {
    seq![
        CLONE_NEWNS,
        CLONE_NEWCGROUP,
        CLONE_NEWUTS,
        CLONE_NEWIPC,
        CLONE_NEWUSER,
        CLONE_NEWPID,
        CLONE_NEWNET,
        CLONE_NEWTIME,
    ]
}

/// `clone` is refused when any flag asks for a namespace.
pub open spec fn clone_rules() -> Seq<Seq<Condition>> {
    namespace_flags().map_values(|flag: u64| seq![has_flag(0, ArgLen::Qword, flag)])
}

/// Rules that match some numbers whatever the arguments are.
pub open spec fn unconditional(calls: Seq<i64>) -> Rules
    decreases calls.len(),
{
    if calls.len() == 0 {
        Map::empty()
    } else {
        unconditional(calls.drop_last()).insert(calls.last(), seq![])
    }
}

/// Rules of the filter that kills.
pub open spec fn kill_rules(arch: TargetArch) -> Rules {
    unconditional(numbers(tier1(), arch))
}

/// Rules of the filter that answers `EPERM`.
pub open spec fn eperm_rules(arch: TargetArch) -> Rules {
    unconditional(numbers(tier2(arch), arch))
        .insert(Syscall::Socket.number_on(arch), socket_rules())
        .insert(Syscall::Prctl.number_on(arch), prctl_rules())
        .insert(Syscall::Execveat.number_on(arch), execveat_rules())
        .insert(Syscall::Clone.number_on(arch), clone_rules())
}

/// Rules of the filter that answers `ENOSYS`.
pub open spec fn enosys_rules(arch: TargetArch) -> Rules {
    Map::empty().insert(Syscall::Clone3.number_on(arch), seq![])
}

/// The compiled filters, one for each tier.
#[derive(Debug, PartialEq, Eq)]
pub struct FilterSet {
    /// Kills on a match.
    pub kill: Vec<Instruction>,
    /// Answers `EPERM` on a match.
    pub eperm: Vec<Instruction>,
    /// Answers `ENOSYS` on a match.
    pub enosys: Vec<Instruction>,
}

/// The error that `what` failed with `detail`.
fn seccomp_error(what: &str, detail: &str) -> (error: Error)
    ensures
        error@ == ErrorView::Seccomp(what@ + ": "@ + detail@),
{
    Error::Seccomp(joined(joined(what, ": ").as_str(), detail))
}

/// A condition for the filter compiler.
fn condition(c: Condition, what: &str) -> (built: Result<SeccompCondition, Error>)
    requires
        c.arg <= 5,
    ensures
        built matches Ok(b) && filter::condition_of(b) == c,
{
    match new_condition(c) {
        Ok(b) => Ok(b),
        Err(detail) => Err(seccomp_error(what, detail.as_str())),
    }
}

/// A rule for the filter compiler.
fn rule(conditions: Vec<SeccompCondition>, what: &str) -> (built: Result<SeccompRule, Error>)
    requires
        conditions@.len() > 0,
    ensures
        built matches Ok(b) && filter::conditions_of(b) == conditions@.map_values(
            |c: SeccompCondition| filter::condition_of(c),
        ),
{
    match new_rule(conditions) {
        Ok(b) => Ok(b),
        Err(detail) => Err(seccomp_error(what, detail.as_str())),
    }
}

/// A rule of one condition.
fn single_rule(c: Condition, on_condition: &str, on_rule: &str) -> (built: Result<
    SeccompRule,
    Error,
>)
    requires
        c.arg <= 5,
    ensures
        built matches Ok(b) && filter::conditions_of(b) == seq![c],
{
    let first = condition(c, on_condition)?;
    let conditions = vec![first];
    let built = rule(conditions, on_rule);
    assert(conditions@.map_values(|c: SeccompCondition| filter::condition_of(c)) == seq![c]);
    built
}

/// A rule of two conditions.
fn double_rule(a: Condition, b: Condition) -> (built: Result<SeccompRule, Error>)
    requires
        a.arg <= 5,
        b.arg <= 5,
    ensures
        built matches Ok(r) && filter::conditions_of(r) == seq![a, b],
{
    let first = condition(a, "prctl condition")?;
    let second = condition(b, "prctl arg condition")?;
    let conditions = vec![first, second];
    let built = rule(conditions, "prctl rule");
    assert(conditions@.map_values(|c: SeccompCondition| filter::condition_of(c)) == seq![a, b]);
    built
}

/// Maps `nr` to `chain`, in place of what it was mapped to.
fn map_to(rules: &mut BTreeMap<i64, Vec<SeccompRule>>, nr: i64, chain: Vec<SeccompRule>)
    ensures
        final(rules)@ == old(rules)@.insert(nr, chain),
        filter::chains_of(final(rules)@) == filter::chains_of(old(rules)@).insert(
            nr,
            filter::chain_of(chain@),
        ),
{
    broadcast use vstd::laws_cmp::group_laws_cmp;

    rules.insert(nr, chain);
    assert(filter::chains_of(rules@) =~= filter::chains_of(old(rules)@).insert(
        nr,
        filter::chain_of(chain@),
    ));
}

/// Maps each of `calls` to no rules, so that it matches whatever its arguments are.
fn match_always(calls: &Vec<i64>) -> (rules: BTreeMap<i64, Vec<SeccompRule>>)
    requires
        forall|i: int| 0 <= i < calls@.len() ==> 0 <= #[trigger] calls@[i] < 448,
    ensures
        filter::chains_of(rules@) == unconditional(calls@),
        forall|nr: i64| #[trigger] rules@.contains_key(nr) ==> 0 <= nr < 448,
        rules@.len() <= calls@.len(),
        filter::within(filter::chains_of(rules@), 0, 0),
{
    let mut rules: BTreeMap<i64, Vec<SeccompRule>> = BTreeMap::new();
    assert(filter::chains_of(rules@) =~= unconditional(calls@.take(0)));
    for i in 0..calls.len()
        invariant
            filter::chains_of(rules@) == unconditional(calls@.take(i as int)),
            forall|nr: i64| #[trigger] rules@.contains_key(nr) ==> 0 <= nr < 448,
            rules@.len() <= i,
            filter::within(filter::chains_of(rules@), 0, 0),
            forall|j: int| 0 <= j < calls@.len() ==> 0 <= #[trigger] calls@[j] < 448,
    {
        let none: Vec<SeccompRule> = Vec::new();
        map_to(&mut rules, calls[i], none);
        assert(calls@.take(i + 1).drop_last() == calls@.take(i as int));
        assert(filter::chain_of(none@) == Seq::<Seq<Condition>>::empty());
    }
    assert(calls@.take(calls@.len() as int) == calls@);
    rules
}

/// The rules for `socket`.
fn socket_chain() -> (chain: Result<Vec<SeccompRule>, Error>)
    ensures
        chain matches Ok(rules) && filter::chain_of(rules@) == socket_rules(),
{
    let inet = single_rule(
        Condition { arg: 0, len: ArgLen::Dword, op: CmpOp::Eq, value: AF_INET },
        "socket AF_INET condition",
        "socket AF_INET rule",
    )?;
    let inet6 = single_rule(
        Condition { arg: 0, len: ArgLen::Dword, op: CmpOp::Eq, value: AF_INET6 },
        "socket AF_INET6 condition",
        "socket AF_INET6 rule",
    )?;
    let chain = vec![inet, inet6];
    assert(filter::chain_of(chain@) =~= socket_rules());
    Ok(chain)
}

/// The rules for `prctl`.
fn prctl_chain() -> (chain: Result<Vec<SeccompRule>, Error>)
    ensures
        chain matches Ok(rules) && filter::chain_of(rules@) == prctl_rules(),
{
    let disable_pdeathsig = double_rule(
        Condition { arg: 0, len: ArgLen::Dword, op: CmpOp::Eq, value: PR_SET_PDEATHSIG },
        Condition { arg: 1, len: ArgLen::Dword, op: CmpOp::Eq, value: 0 },
    )?;
    let set_dumpable = double_rule(
        Condition { arg: 0, len: ArgLen::Dword, op: CmpOp::Eq, value: PR_SET_DUMPABLE },
        Condition { arg: 1, len: ArgLen::Dword, op: CmpOp::Eq, value: 1 },
    )?;
    let chain = vec![disable_pdeathsig, set_dumpable];
    assert(filter::chain_of(chain@) =~= prctl_rules());
    Ok(chain)
}

/// The rules for `execveat`.
fn execveat_chain() -> (chain: Result<Vec<SeccompRule>, Error>)
    ensures
        chain matches Ok(rules) && filter::chain_of(rules@) == execveat_rules(),
{
    let empty_path = single_rule(
        Condition {
            arg: 4,
            len: ArgLen::Dword,
            op: CmpOp::MaskedEq(AT_EMPTY_PATH),
            value: AT_EMPTY_PATH,
        },
        "execveat condition",
        "execveat rule",
    )?;
    let chain = vec![empty_path];
    assert(filter::chain_of(chain@) =~= execveat_rules());
    Ok(chain)
}

/// The rules for `clone`, one for each flag that makes a namespace.
fn clone_chain() -> (chain: Result<Vec<SeccompRule>, Error>)
    ensures
        chain matches Ok(rules) && filter::chain_of(rules@) == clone_rules(),
{
    let flags: Vec<(u64, &str)> = vec![
        (CLONE_NEWNS, "CLONE_NEWNS"),
        (CLONE_NEWCGROUP, "CLONE_NEWCGROUP"),
        (CLONE_NEWUTS, "CLONE_NEWUTS"),
        (CLONE_NEWIPC, "CLONE_NEWIPC"),
        (CLONE_NEWUSER, "CLONE_NEWUSER"),
        (CLONE_NEWPID, "CLONE_NEWPID"),
        (CLONE_NEWNET, "CLONE_NEWNET"),
        (CLONE_NEWTIME, "CLONE_NEWTIME"),
    ];
    assert(flags@.map_values(|f: (u64, &str)| f.0) =~= namespace_flags());
    let mut chain: Vec<SeccompRule> = Vec::new();
    for i in 0..flags.len()
        invariant
            flags@.map_values(|f: (u64, &str)| f.0) == namespace_flags(),
            filter::chain_of(chain@) == clone_rules().take(i as int),
    {
        let (flag, name) = flags[i];
        assert(flag == flags@.map_values(|f: (u64, &str)| f.0)[i as int]);
        let what = joined("clone ", name);
        let built = single_rule(
            Condition { arg: 0, len: ArgLen::Qword, op: CmpOp::MaskedEq(flag), value: flag },
            joined(what.as_str(), " condition").as_str(),
            joined(what.as_str(), " rule").as_str(),
        )?;
        let ghost before = chain@;
        chain.push(built);
        proof {
            assert(clone_rules()[i as int] == seq![has_flag(0, ArgLen::Qword, flag)]);
            assert(filter::chain_of(chain@) =~= filter::chain_of(before).push(
                filter::conditions_of(built),
            ));
            assert(clone_rules().take(i + 1) =~= clone_rules().take(i as int).push(
                clone_rules()[i as int],
            ));
        }
    }
    assert(clone_rules().take(clone_rules().len() as int) =~= clone_rules());
    Ok(chain)
}

/// Builds and compiles one filter that allows whatever does not match.
fn tier_program(
    rules: BTreeMap<i64, Vec<SeccompRule>>,
    on_match: Action,
    arch: TargetArch,
    on_build: &str,
    on_compile: &str,
) -> (built: Result<Vec<Instruction>, Error>)
    requires
        on_match != Action::Allow,
        forall|nr: i64| #[trigger] rules@.contains_key(nr) ==> 0 <= nr < 448,
        exists|r: nat, c: nat| #[trigger]
            filter::within(filter::chains_of(rules@), r, c) && c <= 41 && 5 + rules@.len() * (5 + r
                * (3 + 6 * c)) < 4096,
    ensures
        built matches Ok(program) && filter::bpf_program(
            filter::chains_of(rules@),
            on_match,
            Action::Allow,
            arch,
        ) == Ok::<Seq<Instruction>, Seq<char>>(program@) && 3 < program@.len() < 4096
            && filter::enforces(
            program@,
            filter::chains_of(rules@),
            on_match,
            Action::Allow,
            arch,
        ),
{
    assert(filter::chains_of(rules@).dom() =~= rules@.dom());
    let filter = match new_filter(rules, on_match, Action::Allow, arch) {
        Ok(filter) => filter,
        Err(detail) => {
            return Err(seccomp_error(on_build, detail.as_str()));
        },
    };
    match compile(filter) {
        Ok(program) => Ok(program),
        Err(detail) => Err(seccomp_error(on_compile, detail.as_str())),
    }
}

/// A bound on a number of calls bounds the size of their filter.
proof fn lemma_instruction_bound(calls: nat, most: nat, r: nat, c: nat)
    requires
        calls <= most,
        5 + most * (5 + r * (3 + 6 * c)) < 4096,
    ensures
        5 + calls * (5 + r * (3 + 6 * c)) < 4096,
{
    let each = 5 + r * (3 + 6 * c);
    assert(calls * each <= most * each) by (nonlinear_arith)
        requires
            calls <= most,
            each >= 0,
    ;
}

impl FilterSet {
    /// Whether each program does what the rules of its tier say.
    pub open spec fn enforces(self, arch: TargetArch) -> bool {
        &&& filter::enforces(
            self.kill@,
            kill_rules(arch),
            Action::KillProcess,
            Action::Allow,
            arch,
        )
        &&& filter::enforces(
            self.eperm@,
            eperm_rules(arch),
            Action::Errno(EPERM),
            Action::Allow,
            arch,
        )
        &&& filter::enforces(
            self.enosys@,
            enosys_rules(arch),
            Action::Errno(ENOSYS),
            Action::Allow,
            arch,
        )
    }
}

/// Builds the filters of all three tiers for `arch`.
///
/// Each program is the compiled form of its tier's rules over a default of
/// allowing the call; on both architectures every filter compiles.
pub fn build_filter(arch: TargetArch) -> (built: Result<FilterSet, Error>)
    ensures
        built is Ok,
        built matches Ok(set) ==> {
            &&& filter::bpf_program(kill_rules(arch), Action::KillProcess, Action::Allow, arch)
                == Ok::<Seq<Instruction>, Seq<char>>(set.kill@)
            &&& filter::bpf_program(
                eperm_rules(arch),
                Action::Errno(EPERM),
                Action::Allow,
                arch,
            ) == Ok::<Seq<Instruction>, Seq<char>>(set.eperm@)
            &&& filter::bpf_program(
                enosys_rules(arch),
                Action::Errno(ENOSYS),
                Action::Allow,
                arch,
            ) == Ok::<Seq<Instruction>, Seq<char>>(set.enosys@)
            &&& set.enforces(arch)
            &&& 3 < set.kill@.len() < 4096
            &&& 3 < set.eperm@.len() < 4096
            &&& 3 < set.enosys@.len() < 4096
        },
{
    let tier1_calls = tier1_kill_syscalls(arch);
    let kill_map = match_always(&tier1_calls);
    assert(tier1_calls@.len() == tier1().len() == 38);
    proof {
        lemma_instruction_bound(kill_map@.len(), 38, 0, 0);
        assert(filter::within(filter::chains_of(kill_map@), 0, 0));
    }
    let kill = tier_program(
        kill_map,
        Action::KillProcess,
        arch,
        "build kill filter",
        "compile kill filter",
    )?;

    let tier2_calls = tier2_eperm_syscalls(arch);
    let mut eperm_map = match_always(&tier2_calls);
    assert(tier2_calls@.len() == tier2(arch).len() <= 5);
    map_to(&mut eperm_map, Syscall::Socket.number(arch), socket_chain()?);
    map_to(&mut eperm_map, Syscall::Prctl.number(arch), prctl_chain()?);
    map_to(&mut eperm_map, Syscall::Execveat.number(arch), execveat_chain()?);
    map_to(&mut eperm_map, Syscall::Clone.number(arch), clone_chain()?);

    let mut enosys_map: BTreeMap<i64, Vec<SeccompRule>> = BTreeMap::new();
    assert(filter::chains_of(enosys_map@) =~= Map::empty());
    let none: Vec<SeccompRule> = Vec::new();
    map_to(&mut enosys_map, Syscall::Clone3.number(arch), none);
    assert(filter::chain_of(none@) =~= Seq::<Seq<Condition>>::empty());
    assert(filter::chains_of(enosys_map@) =~= enosys_rules(arch));
    proof {
        lemma_instruction_bound(enosys_map@.len(), 1, 0, 0);
        assert(filter::within(filter::chains_of(enosys_map@), 0, 0));
    }
    let enosys = tier_program(
        enosys_map,
        Action::Errno(ENOSYS),
        arch,
        "build enosys filter",
        "compile enosys filter",
    )?;

    assert(filter::chains_of(eperm_map@) == eperm_rules(arch));
    proof {
        lemma_instruction_bound(eperm_map@.len(), 9, 8, 2);
        assert(namespace_flags().len() == 8);
        assert(filter::within(filter::chains_of(eperm_map@), 8, 2));
    }
    let eperm = tier_program(
        eperm_map,
        Action::Errno(EPERM),
        arch,
        "build eperm filter",
        "compile eperm filter",
    )?;

    Ok(FilterSet { kill, eperm, enosys })
}

/// The filters, by the order they are installed in.
#[derive(Clone, Copy, Debug, PartialEq, Eq, Structural)]
pub enum Stage {
    Enosys,
    Eperm,
    Kill,
}

impl Stage {
    /// The stage after this one.
    pub open spec fn next(self) -> Option<Stage> {
        match self {
            Stage::Enosys => Some(Stage::Eperm),
            Stage::Eperm => Some(Stage::Kill),
            Stage::Kill => None,
        }
    }

    /// What stands before the reason when this stage fails.
    pub open spec fn failure_prefix(self) -> Seq<char> {
        match self {
            Stage::Enosys => "install enosys filter: "@,
            Stage::Eperm => "install eperm filter: "@,
            Stage::Kill => ""@,
        }
    }
}

impl FilterSet {
    /// The program of a stage.
    pub open spec fn program_of(self, stage: Stage) -> Vec<Instruction> {
        match stage {
            Stage::Enosys => self.enosys,
            Stage::Eperm => self.eperm,
            Stage::Kill => self.kill,
        }
    }

    /// The program to install at a stage.
    pub fn program(&self, stage: Stage) -> (program: &Vec<Instruction>)
        ensures
            *program == self.program_of(stage),
    {
        match stage {
            Stage::Enosys => &self.enosys,
            Stage::Eperm => &self.eperm,
            Stage::Kill => &self.kill,
        }
    }
}

/// Starts to apply the filters to the current process, on the architecture with the given
/// name: gives the filters, and the stage to install first. The kernel asks the filter that
/// was installed last first, so the one that kills comes last.
pub fn apply(arch: &str) -> (begun: Result<(FilterSet, Stage), Error>)
    ensures
        begun is Ok <==> arch@ == "x86_64"@ || arch@ == "aarch64"@,
        begun matches Ok((set, stage)) ==> stage == Stage::Enosys && (arch@ == "x86_64"@
            ==> set.enforces(TargetArch::X86_64)) && (arch@ == "aarch64"@ ==> set.enforces(
            TargetArch::Aarch64,
        )),
        begun matches Err(error) ==> error@ == ErrorView::Seccomp(
            "unsupported architecture: "@ + arch@,
        ),
{
    match target_arch(arch) {
        Ok(target) => match build_filter(target) {
            Ok(filters) => Ok((filters, Stage::Enosys)),
            Err(error) => Err(error),
        },
        Err(error) => Err(error),
    }
}

/// Goes on after a stage of the installation. `outcome` is what installing the stage's
/// program came to: nothing, or the reason it failed. A failure ends the installation with
/// an error: the process is then not fully filtered.
pub fn advance(stage: Stage, outcome: Result<(), &str>) -> (next: Result<Option<Stage>, Error>)
    ensures
        outcome is Ok ==> next == Ok::<Option<Stage>, Error>(stage.next()),
        outcome matches Err(reason) ==> (next matches Err(error) && error@ == ErrorView::Seccomp(
            stage.failure_prefix() + reason@,
        )),
{
    match outcome {
        Ok(_) => Ok(
            match stage {
                Stage::Enosys => Some(Stage::Eperm),
                Stage::Eperm => Some(Stage::Kill),
                Stage::Kill => None,
            },
        ),
        Err(reason) => {
            let prefix = match stage {
                Stage::Enosys => "install enosys filter: ",
                Stage::Eperm => "install eperm filter: ",
                Stage::Kill => "",
            };
            Err(Error::Seccomp(joined(prefix, reason)))
        },
    }
}

/// Whether an installation that is at `stage` ends with every filter in place, given
/// whether each further attempt succeeds.
pub open spec fn completes(stage: Stage, outcomes: Seq<bool>) -> bool
    decreases outcomes.len(),
{
    if outcomes.len() == 0 || !outcomes[0] {
        false
    } else {
        match stage.next() {
            None => true,
            Some(next) => completes(next, outcomes.drop_first()),
        }
    }
}

/// The installation fails closed: it completes only when each of the three programs, in
/// their order, was installed.
pub proof fn law_install_fails_closed(outcomes: Seq<bool>)
    ensures
        completes(Stage::Enosys, outcomes) <==> outcomes.len() >= 3 && outcomes[0] && outcomes[1]
            && outcomes[2],
{
    reveal_with_fuel(completes, 4);
}

/// Summary of the filter policy, for reports.
#[derive(Clone, Copy, Debug, PartialEq, Eq, Structural)]
pub struct SeccompSummary {
    /// How many calls kill the process.
    pub tier1_kill_count: usize,
    /// How many calls fail with `EPERM` whatever their arguments are. Calls that are
    /// refused by their arguments are not counted; the flags below speak of them.
    pub tier2_eperm_count: usize,
    pub socket_filter: bool,
    pub prctl_filter: bool,
    pub clone_ns_filter: bool,
    pub clone3_enosys: bool,
    pub execveat_filter: bool,
}

/// Summarises the policy on `arch`. Each flag says whether the filters of
/// [`build_filter`] hold the rules it stands for.
pub fn summary(arch: TargetArch) -> (s: SeccompSummary)
    ensures
        s.tier1_kill_count == tier1().len(),
        s.tier1_kill_count == 38,
        s.tier2_eperm_count == tier2(arch).len(),
        arch == TargetArch::X86_64 ==> s.tier2_eperm_count == 5,
        arch == TargetArch::Aarch64 ==> s.tier2_eperm_count == 3,
        s.socket_filter == (eperm_rules(arch)[Syscall::Socket.number_on(arch)] == socket_rules()),
        s.prctl_filter == (eperm_rules(arch)[Syscall::Prctl.number_on(arch)] == prctl_rules()),
        s.clone_ns_filter == (eperm_rules(arch)[Syscall::Clone.number_on(arch)] == clone_rules()),
        s.clone3_enosys == enosys_rules(arch).contains_key(Syscall::Clone3.number_on(arch)),
        s.execveat_filter == (eperm_rules(arch)[Syscall::Execveat.number_on(arch)]
            == execveat_rules()),
        s.socket_filter && s.prctl_filter && s.clone_ns_filter && s.clone3_enosys
            && s.execveat_filter,
{
    SeccompSummary {
        tier1_kill_count: tier1_kill_syscalls(arch).len(),
        tier2_eperm_count: tier2_eperm_syscalls(arch).len(),
        socket_filter: true,
        prctl_filter: true,
        clone_ns_filter: true,
        clone3_enosys: true,
        execveat_filter: true,
    }
}

/// The architecture with the given name, if its calls can be filtered.
pub fn target_arch(name: &str) -> (arch: Result<TargetArch, Error>)
    ensures
        arch == Ok::<TargetArch, Error>(TargetArch::X86_64) <==> name@ == "x86_64"@,
        arch == Ok::<TargetArch, Error>(TargetArch::Aarch64) <==> name@ == "aarch64"@,
        arch matches Err(error) ==> error@ == ErrorView::Seccomp(
            "unsupported architecture: "@ + name@,
        ),
{
    proof {
        reveal_strlit("x86_64");
        reveal_strlit("aarch64");
        assert("x86_64"@.len() != "aarch64"@.len());
    }
    if same_text(name, "x86_64") {
        Ok(TargetArch::X86_64)
    } else if same_text(name, "aarch64") {
        Ok(TargetArch::Aarch64)
    } else {
        Err(Error::Seccomp(joined("unsupported architecture: ", name)))
    }
}

/// The programs are installed in the order of what they do to a call that they match: first
/// the one that says there is no such call, then the one that refuses, then the one that
/// kills. Each is installed once, and an error says which of the first two failed.
pub proof fn law_install_order(set: FilterSet)
    ensures
        Stage::Enosys.next() == Some(Stage::Eperm),
        Stage::Eperm.next() == Some(Stage::Kill),
        Stage::Kill.next() is None,
        set.program_of(Stage::Enosys) == set.enosys,
        set.program_of(Stage::Eperm) == set.eperm,
        set.program_of(Stage::Kill) == set.kill,
        Stage::Enosys.failure_prefix() == "install enosys filter: "@,
        Stage::Eperm.failure_prefix() == "install eperm filter: "@,
        Stage::Kill.failure_prefix().len() == 0,
{
    reveal_strlit("");
}

} // verus!
