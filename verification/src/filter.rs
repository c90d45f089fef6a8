//! Filters over system calls: conditions on arguments, rules made of conditions,
//! and their compilation to BPF programs.

use std::collections::BTreeMap;

use seccompiler::{
    BpfProgram, SeccompAction, SeccompCmpArgLen, SeccompCmpOp, SeccompCondition, SeccompFilter,
    SeccompRule,
};
use vstd::prelude::*;

use crate::bpf;
use crate::bpf::Call;
use crate::syscall::TargetArch;

verus! {

/// How many bytes of an argument a condition looks at.
#[derive(Clone, Copy, Debug, PartialEq, Eq, Structural)]
pub enum ArgLen {
    /// The low four bytes.
    Dword,
    /// All eight bytes.
    Qword,
}

/// How an argument is compared with the value of a condition.
#[derive(Clone, Copy, Debug, PartialEq, Eq, Structural)]
pub enum CmpOp {
    /// The two are equal.
    Eq,
    /// The bits under the mask are equal.
    MaskedEq(u64),
}

/// A condition on one argument of a system call.
#[derive(Clone, Copy, Debug, PartialEq, Eq, Structural)]
pub struct Condition {
    /// Index of the argument.
    pub arg: u8,
    /// How much of the argument is compared.
    pub len: ArgLen,
    /// The comparison.
    pub op: CmpOp,
    /// What the argument is compared with.
    pub value: u64,
}

/// What happens to a system call.
#[derive(Clone, Copy, Debug, PartialEq, Eq, Structural)]
pub enum Action {
    /// It goes ahead.
    Allow,
    /// It returns the given error number.
    Errno(u32),
    /// The calling process is killed.
    KillProcess,
}

/// One BPF instruction.
#[derive(Clone, Copy, Debug, PartialEq, Eq, Structural)]
pub struct Instruction {
    pub code: u16,
    pub jt: u8,
    pub jf: u8,
    pub k: u32,
}

/// The rules of a filter: for each system call number, the rules of which one
/// has to match. A number with no rules matches whatever the arguments are.
pub type Rules = Map<i64, Seq<Seq<Condition>>>;

/// The part of an argument or value that a condition looks at.
pub open spec fn seen(len: ArgLen, value: u64) -> u64 {
    match len {
        ArgLen::Dword => value & 0xffff_ffff,
        ArgLen::Qword => value,
    }
}

/// Whether the arguments of a call meet a condition.
pub open spec fn condition_holds(c: Condition, args: Seq<u64>) -> bool {
    let found = seen(c.len, args[c.arg as int]);
    let wanted = seen(c.len, c.value);
    match c.op {
        CmpOp::Eq => found == wanted,
        CmpOp::MaskedEq(mask) => found & mask == wanted & mask,
    }
}

/// Whether the arguments of a call meet every condition of a rule.
pub open spec fn rule_holds(rule: Seq<Condition>, args: Seq<u64>) -> bool {
    forall|i: int| 0 <= i < rule.len() ==> condition_holds(#[trigger] rule[i], args)
}

/// Whether a call matches: its number has rules, and either there are none to meet
/// or one of them is met.
pub open spec fn matches_rules(rules: Rules, nr: i64, args: Seq<u64>) -> bool {
    &&& rules.contains_key(nr)
    &&& {
        ||| rules[nr].len() == 0
        ||| exists|i: int| 0 <= i < rules[nr].len() && rule_holds(#[trigger] rules[nr][i], args)
    }
}

/// Whether every number of `rules` has at most `r` rules of at most `c` conditions each.
pub open spec fn within(rules: Rules, r: nat, c: nat) -> bool {
    forall|nr: i64|
        #![trigger rules[nr]]
        rules.contains_key(nr) ==> rules[nr].len() <= r && forall|i: int|
            0 <= i < rules[nr].len() ==> (#[trigger] rules[nr][i]).len() <= c
}

/// Whether a program does what the rules say: a call that matches gets one action, every
/// other call the other, and a call that is made for another architecture is killed.
pub open spec fn enforces(
    program: Seq<Instruction>,
    rules: Rules,
    on_match: Action,
    otherwise: Action,
    arch: TargetArch,
) -> bool {
    forall|call: Call|
        call.args.len() == 6 ==> #[trigger] bpf::answer(program, call) == Some(
            bpf::code_of(
                if call.arch != bpf::audit_number(arch) {
                    Action::KillProcess
                } else if matches_rules(rules, call.nr as i64, call.args) {
                    on_match
                } else {
                    otherwise
                },
            ),
        )
}

/// Opaque condition of the filter compiler.
#[verifier::external_type_specification]
#[verifier::external_body]
pub struct ExSeccompCondition(seccompiler::SeccompCondition);

/// Opaque rule of the filter compiler, a collection of conditions.
#[verifier::external_type_specification]
#[verifier::external_body]
pub struct ExSeccompRule(seccompiler::SeccompRule);

/// Opaque filter of the filter compiler, a collection of rules.
#[verifier::external_type_specification]
#[verifier::external_body]
pub struct ExSeccompFilter(seccompiler::SeccompFilter);

/// What a condition of the filter compiler compares.
pub uninterp spec fn condition_of(condition: SeccompCondition) -> Condition;

/// The conditions that a rule of the filter compiler holds.
pub uninterp spec fn conditions_of(rule: SeccompRule) -> Seq<Condition>;

/// The rules that a filter of the filter compiler holds.
pub uninterp spec fn rules_of(filter: SeccompFilter) -> Rules;

/// What else a filter of the filter compiler was made with: the action on calls that
/// match, the action on all others, and the architecture.
pub uninterp spec fn settings_of(filter: SeccompFilter) -> (Action, Action, TargetArch);

/// The BPF program of a filter with the given rules, action on calls that match, action
/// on all others and architecture, or the message that refuses it.
pub uninterp spec fn bpf_program(
    rules: Rules,
    on_match: Action,
    otherwise: Action,
    arch: TargetArch,
) -> Result<Seq<Instruction>, Seq<char>>;

/// The conditions that the rules of the filter compiler hold, in order.
pub open spec fn chain_of(rules: Seq<SeccompRule>) -> Seq<Seq<Condition>> {
    rules.map_values(|r: SeccompRule| conditions_of(r))
}

/// The rules that a map of rules of the filter compiler holds.
pub open spec fn chains_of(rules: Map<i64, Vec<SeccompRule>>) -> Rules {
    rules.map_values(|chain: Vec<SeccompRule>| chain_of(chain@))
}

/// A condition, built by `SeccompCondition::new`: it takes the argument indices 0 to 5
/// and refuses any other with a fixed message.
#[verifier::external_body]
pub(crate) fn new_condition(condition: Condition) -> (built: Result<SeccompCondition, String>)
    ensures
        built is Ok <==> condition.arg <= 5,
        built matches Ok(c) ==> condition_of(c) == condition,
        built matches Err(text) ==> text@
            == "The seccomp rule contains an invalid argument index. Maximum index value: 5"@,
{
    let len = match condition.len {
        ArgLen::Dword => SeccompCmpArgLen::Dword,
        ArgLen::Qword => SeccompCmpArgLen::Qword,
    };
    let op = match condition.op {
        CmpOp::Eq => SeccompCmpOp::Eq,
        CmpOp::MaskedEq(mask) => SeccompCmpOp::MaskedEq(mask),
    };
    SeccompCondition::new(condition.arg, len, op, condition.value).map_err(|e| format!("{e}"))
}

/// A rule, built by `SeccompRule::new`: it holds the conditions it is given, in their
/// order, and is refused with a fixed message when there are none.
#[verifier::external_body]
pub(crate) fn new_rule(conditions: Vec<SeccompCondition>) -> (built: Result<SeccompRule, String>)
    ensures
        built is Ok <==> conditions@.len() > 0,
        built matches Ok(rule) ==> conditions_of(rule) == conditions@.map_values(
            |c: SeccompCondition| condition_of(c),
        ),
        built matches Err(text) ==> text@ == "The condition vector of a rule cannot be empty."@,
{
    SeccompRule::new(conditions).map_err(|e| format!("{e}"))
}

/// A filter, built by `SeccompFilter::new`: it holds the rules and settings it is given,
/// and is refused with a fixed message when its two actions are the same.
#[verifier::external_body]
pub(crate) fn new_filter(
    rules: BTreeMap<i64, Vec<SeccompRule>>,
    on_match: Action,
    otherwise: Action,
    arch: TargetArch,
) -> (built: Result<SeccompFilter, String>)
    ensures
        built is Ok <==> on_match != otherwise,
        built matches Ok(filter) ==> rules_of(filter) == chains_of(rules@) && settings_of(filter)
            == (on_match, otherwise, arch),
        built matches Err(text) ==> text@ == "`match_action` and `mismatch_action` are equal."@,
{
    let target = match arch {
        TargetArch::X86_64 => seccompiler::TargetArch::x86_64,
        TargetArch::Aarch64 => seccompiler::TargetArch::aarch64,
    };
    let convert = |action: Action| match action {
        Action::Allow => SeccompAction::Allow,
        Action::Errno(errno) => SeccompAction::Errno(errno),
        Action::KillProcess => SeccompAction::KillProcess,
    };
    SeccompFilter::new(rules, convert(otherwise), convert(on_match), target)
        .map_err(|e| format!("{e}"))
}

/// The BPF program of a filter, compiled by `BpfProgram::try_from`. What comes out is
/// named: it depends on what the filter holds and nothing else. Three things are stated of
/// it. A program has more than three and fewer than 4096 instructions. A filter whose
/// rules are few and short is never refused: a program takes at most five instructions,
/// five more for each system call, three more for each rule, and six for each condition.
/// And the program of a filter whose rules have at most 41 conditions each, which no jump
/// of a program is too short for, does what the rules say.
#[verifier::external_body]
pub(crate) fn compile(filter: SeccompFilter) -> (built: Result<Vec<Instruction>, String>)
    requires
        forall|nr: i64| #[trigger] rules_of(filter).contains_key(nr) ==> 0 <= nr <= u32::MAX,
    ensures
        ({
            let (on_match, otherwise, arch) = settings_of(filter);
            match built {
                Ok(program) => bpf_program(rules_of(filter), on_match, otherwise, arch) == Ok::<
                    Seq<Instruction>,
                    Seq<char>,
                >(program@),
                Err(text) => bpf_program(rules_of(filter), on_match, otherwise, arch) == Err::<
                    Seq<Instruction>,
                    Seq<char>,
                >(text@),
            }
        }),
        built matches Ok(program) ==> 3 < program@.len() < 4096,
        forall|r: nat, c: nat|
            #[trigger] within(rules_of(filter), r, c) && c <= 41 && 5 + rules_of(filter).len() * (5
                + r * (3 + 6 * c)) < 4096 ==> built is Ok,
        forall|r: nat, c: nat|
            #[trigger] within(rules_of(filter), r, c) && c <= 41 ==> (
            built matches Ok(program) ==> enforces(
                program@,
                rules_of(filter),
                settings_of(filter).0,
                settings_of(filter).1,
                settings_of(filter).2,
            )),
{
    let program: Result<BpfProgram, seccompiler::BackendError> = filter.try_into();
    match program {
        Ok(program) => Ok(
            program
                .into_iter()
                .map(|i| Instruction { code: i.code, jt: i.jt, jf: i.jf, k: i.k })
                .collect(),
        ),
        Err(e) => Err(format!("{e}")),
    }
}

} // verus!
