//! The policy on system calls over bare numbers: which number the kernel knows a call by on
//! each architecture, and what it answers to that number.

use vstd::prelude::*;

use crate::bpf;
use crate::bpf::Call;
use crate::filter::Action;
use crate::seccomp;
use crate::seccomp::FilterSet;
use crate::seccomp_laws;
use crate::syscall::{Syscall, TargetArch};

verus! {

/// The process is killed.
pub const KILL: u32 = 0x8000_0000;

/// The call fails, since it is not permitted.
pub const REFUSE: u32 = 0x0005_0001;

/// The call fails, since there is no such call.
pub const UNIMPLEMENTED: u32 = 0x0005_0026;

/// The call goes ahead.
pub const PASS: u32 = 0x7fff_0000;

/// No sockets of the IPv4 and IPv6 domains.
pub open spec fn socket_policy(args: Seq<u64>) -> u32 {
    let domain = args[0] & 0xffff_ffff;
    if domain == 2 || domain == 10 {
        REFUSE
    } else {
        PASS
    }
}

/// The parent-death signal stays, and the process does not become dumpable.
pub open spec fn prctl_policy(args: Seq<u64>) -> u32 {
    let option = args[0] & 0xffff_ffff;
    let value = args[1] & 0xffff_ffff;
    if (option == 1 && value == 0) || (option == 4 && value == 1) {
        REFUSE
    } else {
        PASS
    }
}

/// No program is run by its descriptor alone.
pub open spec fn execveat_policy(args: Seq<u64>) -> u32 {
    if args[4] & 0x1000 != 0 {
        REFUSE
    } else {
        PASS
    }
}

/// No namespaces: of mounts, cgroups, host names, IPC, users, processes, networks, clocks.
pub open spec fn clone_policy(args: Seq<u64>) -> u32 {
    if args[0] & 0x7e02_0080 != 0 {
        REFUSE
    } else {
        PASS
    }
}

/// What the kernel is to answer on x86_64, over the numbers that it knows the calls by there.
pub open spec fn x86_64_policy(nr: u32, args: Seq<u64>) -> u32 {
    if nr == 101 || nr == 165 || nr == 166 || nr == 169 || nr == 246 || nr == 320 || nr == 155
           || nr == 161 || nr == 175 || nr == 313 || nr == 176 || nr == 272 || nr == 308
           || nr == 135 || nr == 319 || nr == 310 || nr == 311 || nr == 323 || nr == 312
           || nr == 425 || nr == 426 || nr == 427 || nr == 321 || nr == 442 || nr == 429
           || nr == 428 || nr == 430 || nr == 431 || nr == 432 || nr == 433 || nr == 434
           || nr == 438 || nr == 424 || nr == 440 || nr == 447 || nr == 444 || nr == 445
           || nr == 446 {
        KILL
    } else if nr == 266 || nr == 265 || nr == 298 || nr == 88 || nr == 86 {
        REFUSE
    } else if nr == 41 {
        socket_policy(args)
    } else if nr == 157 {
        prctl_policy(args)
    } else if nr == 322 {
        execveat_policy(args)
    } else if nr == 56 {
        clone_policy(args)
    } else if nr == 435 {
        UNIMPLEMENTED
    } else {
        PASS
    }
}

/// What the kernel is to answer on aarch64, over the numbers that it knows the calls by there.
pub open spec fn aarch64_policy(nr: u32, args: Seq<u64>) -> u32 {
    if nr == 117 || nr == 40 || nr == 39 || nr == 142 || nr == 104 || nr == 294 || nr == 41
           || nr == 51 || nr == 105 || nr == 273 || nr == 106 || nr == 97 || nr == 268
           || nr == 92 || nr == 279 || nr == 270 || nr == 271 || nr == 282 || nr == 272
           || nr == 425 || nr == 426 || nr == 427 || nr == 280 || nr == 442 || nr == 429
           || nr == 428 || nr == 430 || nr == 431 || nr == 432 || nr == 433 || nr == 434
           || nr == 438 || nr == 424 || nr == 440 || nr == 447 || nr == 444 || nr == 445
           || nr == 446 {
        KILL
    } else if nr == 36 || nr == 37 || nr == 241 {
        REFUSE
    } else if nr == 198 {
        socket_policy(args)
    } else if nr == 167 {
        prctl_policy(args)
    } else if nr == 281 {
        execveat_policy(args)
    } else if nr == 220 {
        clone_policy(args)
    } else if nr == 435 {
        UNIMPLEMENTED
    } else {
        PASS
    }
}

/// The numbers of the calls that kill, of those that are refused whatever their arguments
/// are, and of those that are looked at, on x86_64.
pub proof fn law_x86_64_numbers()
    ensures
        seccomp::numbers(seccomp::tier1(), TargetArch::X86_64) == seq![
            101i64, 165i64, 166i64, 169i64, 246i64, 320i64, 155i64, 161i64, 175i64, 313i64,
            176i64, 272i64, 308i64, 135i64, 319i64, 310i64, 311i64, 323i64, 312i64, 425i64,
            426i64, 427i64, 321i64, 442i64, 429i64, 428i64, 430i64, 431i64, 432i64, 433i64,
            434i64, 438i64, 424i64, 440i64, 447i64, 444i64, 445i64, 446i64,
        ],
        seccomp::numbers(seccomp::tier2(TargetArch::X86_64), TargetArch::X86_64) == seq![
            266i64, 265i64, 298i64, 88i64, 86i64,
        ],
        seccomp::numbers(seccomp_laws::argument_filtered(), TargetArch::X86_64) == seq![
            41i64, 157i64, 322i64, 56i64,
        ],
        Syscall::Clone3.number_on(TargetArch::X86_64) == 435,
{
    let tier1 = seccomp::numbers(seccomp::tier1(), TargetArch::X86_64);
    assert(tier1 =~= seq![
        101i64, 165i64, 166i64, 169i64, 246i64, 320i64, 155i64, 161i64, 175i64, 313i64, 176i64,
        272i64, 308i64, 135i64, 319i64, 310i64, 311i64, 323i64, 312i64, 425i64, 426i64, 427i64,
        321i64, 442i64, 429i64, 428i64, 430i64, 431i64, 432i64, 433i64, 434i64, 438i64, 424i64,
        440i64, 447i64, 444i64, 445i64, 446i64,
    ]);
    assert(seccomp::numbers(seccomp::tier2(TargetArch::X86_64), TargetArch::X86_64) =~= seq![
        266i64, 265i64, 298i64, 88i64, 86i64,
    ]);
    assert(seccomp::numbers(seccomp_laws::argument_filtered(), TargetArch::X86_64) =~= seq![
        41i64, 157i64, 322i64, 56i64,
    ]);
}

/// The numbers of the calls that kill, of those that are refused whatever their arguments
/// are, and of those that are looked at, on aarch64.
pub proof fn law_aarch64_numbers()
    ensures
        seccomp::numbers(seccomp::tier1(), TargetArch::Aarch64) == seq![
            117i64, 40i64, 39i64, 142i64, 104i64, 294i64, 41i64, 51i64, 105i64, 273i64, 106i64,
            97i64, 268i64, 92i64, 279i64, 270i64, 271i64, 282i64, 272i64, 425i64, 426i64,
            427i64, 280i64, 442i64, 429i64, 428i64, 430i64, 431i64, 432i64, 433i64, 434i64,
            438i64, 424i64, 440i64, 447i64, 444i64, 445i64, 446i64,
        ],
        seccomp::numbers(seccomp::tier2(TargetArch::Aarch64), TargetArch::Aarch64) == seq![
            36i64, 37i64, 241i64,
        ],
        seccomp::numbers(seccomp_laws::argument_filtered(), TargetArch::Aarch64) == seq![
            198i64, 167i64, 281i64, 220i64,
        ],
        Syscall::Clone3.number_on(TargetArch::Aarch64) == 435,
{
    let tier1 = seccomp::numbers(seccomp::tier1(), TargetArch::Aarch64);
    assert(tier1 =~= seq![
        117i64, 40i64, 39i64, 142i64, 104i64, 294i64, 41i64, 51i64, 105i64, 273i64, 106i64,
        97i64, 268i64, 92i64, 279i64, 270i64, 271i64, 282i64, 272i64, 425i64, 426i64, 427i64,
        280i64, 442i64, 429i64, 428i64, 430i64, 431i64, 432i64, 433i64, 434i64, 438i64, 424i64,
        440i64, 447i64, 444i64, 445i64, 446i64,
    ]);
    assert(seccomp::numbers(seccomp::tier2(TargetArch::Aarch64), TargetArch::Aarch64) =~= seq![
        36i64, 37i64, 241i64,
    ]);
    assert(seccomp::numbers(seccomp_laws::argument_filtered(), TargetArch::Aarch64) =~= seq![
        198i64, 167i64, 281i64, 220i64,
    ]);
}

/// Which numbers the tiers hold on x86_64.
proof fn lemma_x86_64_tiers(nr: i64)
    ensures
        seccomp::numbers(seccomp::tier1(), TargetArch::X86_64).contains(nr) <==> (
        nr == 101 || nr == 165 || nr == 166 || nr == 169 || nr == 246 || nr == 320 || nr == 155
            || nr == 161 || nr == 175 || nr == 313 || nr == 176 || nr == 272 || nr == 308
            || nr == 135 || nr == 319 || nr == 310 || nr == 311 || nr == 323 || nr == 312
            || nr == 425 || nr == 426 || nr == 427 || nr == 321 || nr == 442 || nr == 429
            || nr == 428 || nr == 430 || nr == 431 || nr == 432 || nr == 433 || nr == 434
            || nr == 438 || nr == 424 || nr == 440 || nr == 447 || nr == 444 || nr == 445
            || nr == 446),
        seccomp::numbers(seccomp::tier2(TargetArch::X86_64), TargetArch::X86_64).contains(nr) <==> (
        nr == 266 || nr == 265 || nr == 298 || nr == 88 || nr == 86),
{
    law_x86_64_numbers();
    let tier1 = seccomp::numbers(seccomp::tier1(), TargetArch::X86_64);
    let tier2 = seccomp::numbers(seccomp::tier2(TargetArch::X86_64), TargetArch::X86_64);
    assert(tier1[0] == 101);
    assert(tier1[1] == 165);
    assert(tier1[2] == 166);
    assert(tier1[3] == 169);
    assert(tier1[4] == 246);
    assert(tier1[5] == 320);
    assert(tier1[6] == 155);
    assert(tier1[7] == 161);
    assert(tier1[8] == 175);
    assert(tier1[9] == 313);
    assert(tier1[10] == 176);
    assert(tier1[11] == 272);
    assert(tier1[12] == 308);
    assert(tier1[13] == 135);
    assert(tier1[14] == 319);
    assert(tier1[15] == 310);
    assert(tier1[16] == 311);
    assert(tier1[17] == 323);
    assert(tier1[18] == 312);
    assert(tier1[19] == 425);
    assert(tier1[20] == 426);
    assert(tier1[21] == 427);
    assert(tier1[22] == 321);
    assert(tier1[23] == 442);
    assert(tier1[24] == 429);
    assert(tier1[25] == 428);
    assert(tier1[26] == 430);
    assert(tier1[27] == 431);
    assert(tier1[28] == 432);
    assert(tier1[29] == 433);
    assert(tier1[30] == 434);
    assert(tier1[31] == 438);
    assert(tier1[32] == 424);
    assert(tier1[33] == 440);
    assert(tier1[34] == 447);
    assert(tier1[35] == 444);
    assert(tier1[36] == 445);
    assert(tier1[37] == 446);
    assert(tier2[0] == 266);
    assert(tier2[1] == 265);
    assert(tier2[2] == 298);
    assert(tier2[3] == 88);
    assert(tier2[4] == 86);
    if tier1.contains(nr) {
        let i = choose|i: int| 0 <= i < tier1.len() && tier1[i] == nr;
        assert(i == 0 || i == 1 || i == 2 || i == 3 || i == 4 || i == 5 || i == 6 || i == 7
            || i == 8 || i == 9 || i == 10 || i == 11 || i == 12 || i == 13 || i == 14 || i == 15
            || i == 16 || i == 17 || i == 18 || i == 19 || i == 20 || i == 21 || i == 22
            || i == 23 || i == 24 || i == 25 || i == 26 || i == 27 || i == 28 || i == 29
            || i == 30 || i == 31 || i == 32 || i == 33 || i == 34 || i == 35 || i == 36
            || i == 37);
    }
    if tier2.contains(nr) {
        let i = choose|i: int| 0 <= i < tier2.len() && tier2[i] == nr;
        assert(i == 0 || i == 1 || i == 2 || i == 3 || i == 4);
    }
}

/// Which numbers the tiers hold on aarch64.
proof fn lemma_aarch64_tiers(nr: i64)
    ensures
        seccomp::numbers(seccomp::tier1(), TargetArch::Aarch64).contains(nr) <==> (
        nr == 117 || nr == 40 || nr == 39 || nr == 142 || nr == 104 || nr == 294 || nr == 41
            || nr == 51 || nr == 105 || nr == 273 || nr == 106 || nr == 97 || nr == 268
            || nr == 92 || nr == 279 || nr == 270 || nr == 271 || nr == 282 || nr == 272
            || nr == 425 || nr == 426 || nr == 427 || nr == 280 || nr == 442 || nr == 429
            || nr == 428 || nr == 430 || nr == 431 || nr == 432 || nr == 433 || nr == 434
            || nr == 438 || nr == 424 || nr == 440 || nr == 447 || nr == 444 || nr == 445
            || nr == 446),
        seccomp::numbers(seccomp::tier2(TargetArch::Aarch64), TargetArch::Aarch64).contains(nr)
            <==> (nr == 36 || nr == 37 || nr == 241),
{
    law_aarch64_numbers();
    let tier1 = seccomp::numbers(seccomp::tier1(), TargetArch::Aarch64);
    let tier2 = seccomp::numbers(seccomp::tier2(TargetArch::Aarch64), TargetArch::Aarch64);
    assert(tier1[0] == 117);
    assert(tier1[1] == 40);
    assert(tier1[2] == 39);
    assert(tier1[3] == 142);
    assert(tier1[4] == 104);
    assert(tier1[5] == 294);
    assert(tier1[6] == 41);
    assert(tier1[7] == 51);
    assert(tier1[8] == 105);
    assert(tier1[9] == 273);
    assert(tier1[10] == 106);
    assert(tier1[11] == 97);
    assert(tier1[12] == 268);
    assert(tier1[13] == 92);
    assert(tier1[14] == 279);
    assert(tier1[15] == 270);
    assert(tier1[16] == 271);
    assert(tier1[17] == 282);
    assert(tier1[18] == 272);
    assert(tier1[19] == 425);
    assert(tier1[20] == 426);
    assert(tier1[21] == 427);
    assert(tier1[22] == 280);
    assert(tier1[23] == 442);
    assert(tier1[24] == 429);
    assert(tier1[25] == 428);
    assert(tier1[26] == 430);
    assert(tier1[27] == 431);
    assert(tier1[28] == 432);
    assert(tier1[29] == 433);
    assert(tier1[30] == 434);
    assert(tier1[31] == 438);
    assert(tier1[32] == 424);
    assert(tier1[33] == 440);
    assert(tier1[34] == 447);
    assert(tier1[35] == 444);
    assert(tier1[36] == 445);
    assert(tier1[37] == 446);
    assert(tier2[0] == 36);
    assert(tier2[1] == 37);
    assert(tier2[2] == 241);
    if tier1.contains(nr) {
        let i = choose|i: int| 0 <= i < tier1.len() && tier1[i] == nr;
        assert(i == 0 || i == 1 || i == 2 || i == 3 || i == 4 || i == 5 || i == 6 || i == 7
            || i == 8 || i == 9 || i == 10 || i == 11 || i == 12 || i == 13 || i == 14 || i == 15
            || i == 16 || i == 17 || i == 18 || i == 19 || i == 20 || i == 21 || i == 22
            || i == 23 || i == 24 || i == 25 || i == 26 || i == 27 || i == 28 || i == 29
            || i == 30 || i == 31 || i == 32 || i == 33 || i == 34 || i == 35 || i == 36
            || i == 37);
    }
    if tier2.contains(nr) {
        let i = choose|i: int| 0 <= i < tier2.len() && tier2[i] == nr;
        assert(i == 0 || i == 1 || i == 2);
    }
}

/// The answers that stand for the actions of the policy.
proof fn lemma_codes()
    ensures
        bpf::code_of(Action::KillProcess) == KILL,
        bpf::code_of(Action::Errno(seccomp::EPERM)) == REFUSE,
        bpf::code_of(Action::Errno(seccomp::ENOSYS)) == UNIMPLEMENTED,
        bpf::code_of(Action::Allow) == PASS,
{
    assert(0x0005_0000u32 | (1u32 & 0xffff) == 0x0005_0001) by (bit_vector);
    assert(0x0005_0000u32 | (38u32 & 0xffff) == 0x0005_0026) by (bit_vector);
}

/// A flag that makes a namespace is one of the eight.
proof fn lemma_clone_flags(given: u64)
    ensures
        (given & 0x7e02_0080 != 0) <==> exists|i: int|
            0 <= i < seccomp::namespace_flags().len() && given
                & #[trigger] seccomp::namespace_flags()[i] != 0,
{
    let flags = seccomp::namespace_flags();
    assert((given & 0x7e02_0080 != 0) == (given & 0x0002_0000 != 0 || given & 0x0200_0000 != 0
        || given & 0x0400_0000 != 0 || given & 0x0800_0000 != 0 || given & 0x1000_0000 != 0 || given
        & 0x2000_0000 != 0 || given & 0x4000_0000 != 0 || given & 0x80 != 0)) by (bit_vector);
    assert(flags[0] == 0x0002_0000 && flags[1] == 0x0200_0000 && flags[2] == 0x0400_0000 && flags[3]
        == 0x0800_0000 && flags[4] == 0x1000_0000 && flags[5] == 0x2000_0000 && flags[6]
        == 0x4000_0000 && flags[7] == 0x80);
    if exists|i: int| 0 <= i < flags.len() && given & #[trigger] flags[i] != 0 {
        let i = choose|i: int| 0 <= i < flags.len() && given & #[trigger] flags[i] != 0;
        assert(i == 0 || i == 1 || i == 2 || i == 3 || i == 4 || i == 5 || i == 6 || i == 7);
    }
}

/// On x86_64, the installed programs answer to every call as the policy says, by the number
/// that the kernel knows the call by; and they kill whoever calls for another architecture.
pub proof fn law_x86_64_answers(set: FilterSet, call: Call)
    requires
        set.enforces(TargetArch::X86_64),
        call.args.len() == 6,
    ensures
        call.arch == 0xc000_003e ==> seccomp_laws::kernel_answer(set, call) == Some(
            x86_64_policy(call.nr, call.args),
        ),
        call.arch != 0xc000_003e ==> seccomp_laws::kernel_answer(set, call) == Some(KILL),
{
    let arch = TargetArch::X86_64;
    let nr = call.nr as i64;
    let args = call.args;
    seccomp_laws::law_programs_enforce(set, arch, call);
    law_x86_64_numbers();
    lemma_x86_64_tiers(nr);
    lemma_codes();
    seccomp_laws::law_socket(arch, args);
    seccomp_laws::law_prctl(arch, args);
    seccomp_laws::law_execveat(arch, args);
    seccomp_laws::law_clone(arch, args);
    lemma_clone_flags(args[0]);
    seccomp_laws::law_clone3_unimplemented(arch, args);
    let tier1 = seccomp::numbers(seccomp::tier1(), arch);
    let tier2 = seccomp::numbers(seccomp::tier2(arch), arch);
    let filtered = seccomp::numbers(seccomp_laws::argument_filtered(), arch);
    assert(seccomp_laws::argument_filtered()[0] == Syscall::Socket);
    assert(seccomp_laws::argument_filtered()[1] == Syscall::Prctl);
    assert(seccomp_laws::argument_filtered()[2] == Syscall::Execveat);
    assert(seccomp_laws::argument_filtered()[3] == Syscall::Clone);
    assert(filtered[0] == Syscall::Socket.number_on(arch));
    assert(filtered[1] == Syscall::Prctl.number_on(arch));
    assert(filtered[2] == Syscall::Execveat.number_on(arch));
    assert(filtered[3] == Syscall::Clone.number_on(arch));
    if tier1.contains(nr) {
        let i = choose|i: int| 0 <= i < tier1.len() && tier1[i] == nr;
        assert(seccomp::tier1().contains(seccomp::tier1()[i]));
        seccomp_laws::law_tier1_killed(arch, seccomp::tier1()[i], args);
    } else if tier2.contains(nr) {
        let i = choose|i: int| 0 <= i < tier2.len() && tier2[i] == nr;
        assert(seccomp::tier2(arch).contains(seccomp::tier2(arch)[i]));
        seccomp_laws::law_tier2_refused(arch, seccomp::tier2(arch)[i], args);
    } else if !filtered.contains(nr) && nr != 435 {
        seccomp_laws::law_others_allowed(arch, nr, args);
        assert(nr != filtered[0] && nr != filtered[1] && nr != filtered[2] && nr != filtered[3]);
    } else if filtered.contains(nr) {
        let i = choose|i: int| 0 <= i < filtered.len() && filtered[i] == nr;
        assert(i == 0 || i == 1 || i == 2 || i == 3);
    }
}

/// On aarch64, the installed programs answer to every call as the policy says, by the number
/// that the kernel knows the call by; and they kill whoever calls for another architecture.
pub proof fn law_aarch64_answers(set: FilterSet, call: Call)
    requires
        set.enforces(TargetArch::Aarch64),
        call.args.len() == 6,
    ensures
        call.arch == 0xc000_00b7 ==> seccomp_laws::kernel_answer(set, call) == Some(
            aarch64_policy(call.nr, call.args),
        ),
        call.arch != 0xc000_00b7 ==> seccomp_laws::kernel_answer(set, call) == Some(KILL),
{
    let arch = TargetArch::Aarch64;
    let nr = call.nr as i64;
    let args = call.args;
    seccomp_laws::law_programs_enforce(set, arch, call);
    law_aarch64_numbers();
    lemma_aarch64_tiers(nr);
    lemma_codes();
    seccomp_laws::law_socket(arch, args);
    seccomp_laws::law_prctl(arch, args);
    seccomp_laws::law_execveat(arch, args);
    seccomp_laws::law_clone(arch, args);
    lemma_clone_flags(args[0]);
    seccomp_laws::law_clone3_unimplemented(arch, args);
    let tier1 = seccomp::numbers(seccomp::tier1(), arch);
    let tier2 = seccomp::numbers(seccomp::tier2(arch), arch);
    let filtered = seccomp::numbers(seccomp_laws::argument_filtered(), arch);
    assert(seccomp_laws::argument_filtered()[0] == Syscall::Socket);
    assert(seccomp_laws::argument_filtered()[1] == Syscall::Prctl);
    assert(seccomp_laws::argument_filtered()[2] == Syscall::Execveat);
    assert(seccomp_laws::argument_filtered()[3] == Syscall::Clone);
    assert(filtered[0] == Syscall::Socket.number_on(arch));
    assert(filtered[1] == Syscall::Prctl.number_on(arch));
    assert(filtered[2] == Syscall::Execveat.number_on(arch));
    assert(filtered[3] == Syscall::Clone.number_on(arch));
    if tier1.contains(nr) {
        let i = choose|i: int| 0 <= i < tier1.len() && tier1[i] == nr;
        assert(seccomp::tier1().contains(seccomp::tier1()[i]));
        seccomp_laws::law_tier1_killed(arch, seccomp::tier1()[i], args);
    } else if tier2.contains(nr) {
        let i = choose|i: int| 0 <= i < tier2.len() && tier2[i] == nr;
        assert(seccomp::tier2(arch).contains(seccomp::tier2(arch)[i]));
        seccomp_laws::law_tier2_refused(arch, seccomp::tier2(arch)[i], args);
    } else if !filtered.contains(nr) && nr != 435 {
        seccomp_laws::law_others_allowed(arch, nr, args);
        assert(nr != filtered[0] && nr != filtered[1] && nr != filtered[2] && nr != filtered[3]);
    } else if filtered.contains(nr) {
        let i = choose|i: int| 0 <= i < filtered.len() && filtered[i] == nr;
        assert(i == 0 || i == 1 || i == 2 || i == 3);
    }
}

} // verus!
