//! What the kernel does with a BPF program that filters system calls.

use vstd::prelude::*;

use crate::filter::{Action, Instruction};
use crate::syscall::TargetArch;

verus! {

/// Load a word of the call.
pub const LOAD: u16 = 0x20;

/// Mask the word.
pub const AND: u16 = 0x54;

/// Jump by whether the word equals the operand.
pub const JUMP_EQUAL: u16 = 0x15;

/// Jump.
pub const JUMP: u16 = 0x05;

/// Give the operand as the answer.
pub const ANSWER: u16 = 0x06;

/// A system call as a program sees it: its number, the architecture it is made for, and its
/// six arguments.
pub struct Call {
    pub nr: u32,
    pub arch: u32,
    pub args: Seq<u64>,
}

/// The word at an offset of a call: the number, the architecture, and the low and the high
/// half of each argument.
pub open spec fn word(call: Call, offset: u32) -> Option<u32> {
    if offset == 0 {
        Some(call.nr)
    } else if offset == 4 {
        Some(call.arch)
    } else if 16 <= offset < 64 && offset % 8 == 0 {
        Some((call.args[(offset - 16) / 8] & 0xffff_ffff) as u32)
    } else if 16 <= offset < 64 && offset % 8 == 4 {
        Some((call.args[(offset - 20) / 8] >> 32) as u32)
    } else {
        None
    }
}

/// The answer of a program from place `pc` on, with a word loaded; none where the program
/// ends without one, or does what no filter here does.
pub open spec fn answer_from(program: Seq<Instruction>, call: Call, pc: nat, loaded: u32) -> Option<
    u32,
>
    decreases
            (if pc < program.len() {
                program.len() - pc
            } else {
                0
            }),
{
    if pc >= program.len() {
        None
    } else {
        let i = program[pc as int];
        if i.code == LOAD {
            match word(call, i.k) {
                Some(found) => answer_from(program, call, pc + 1, found),
                None => None,
            }
        } else if i.code == AND {
            answer_from(program, call, pc + 1, loaded & i.k)
        } else if i.code == JUMP_EQUAL {
            answer_from(
                program,
                call,
                pc + 1 + (if loaded == i.k {
                    i.jt as nat
                } else {
                    i.jf as nat
                }),
                loaded,
            )
        } else if i.code == JUMP {
            answer_from(program, call, pc + 1 + i.k as nat, loaded)
        } else if i.code == ANSWER {
            Some(i.k)
        } else {
            None
        }
    }
}

/// The answer of a program to a call.
pub open spec fn answer(program: Seq<Instruction>, call: Call) -> Option<u32> {
    answer_from(program, call, 0, 0)
}

/// The answer that stands for an action.
pub open spec fn code_of(action: Action) -> u32 {
    match action {
        Action::Allow => 0x7fff_0000,
        Action::Errno(errno) => 0x0005_0000 | (errno & 0xffff),
        Action::KillProcess => 0x8000_0000,
    }
}

/// The number that the kernel knows an architecture by.
pub open spec fn audit_number(arch: TargetArch) -> u32 {
    match arch {
        TargetArch::X86_64 => 0xc000_003e,
        TargetArch::Aarch64 => 0xc000_00b7,
    }
}

/// How the kernel orders answers: by the action in the upper half, as a signed number. The
/// least one wins.
pub open spec fn precedence(answer: u32) -> int {
    let action = answer / 0x1_0000;
    if action >= 0x8000 {
        action - 0x1_0000
    } else {
        action as int
    }
}

/// What the kernel does when several programs answer, in the order it asks them: the first
/// of the answers that go before all others.
pub open spec fn winner(first: Option<u32>, second: Option<u32>) -> Option<u32> {
    match (first, second) {
        (Some(a), Some(b)) => if precedence(b) < precedence(a) {
            Some(b)
        } else {
            Some(a)
        },
        _ => None,
    }
}

} // verus!
