use arapuca::bpf;
use arapuca::error::Error;
use arapuca::filter::Instruction;
use arapuca::seccomp::{
    advance, apply, build_filter, summary, target_arch, tier1_kill_syscalls, tier2_eperm_syscalls,
    FilterSet, Stage,
};
use arapuca::seccomp;
use arapuca::syscall::{Syscall, TargetArch};

const ALLOWED: u32 = 0x7fff_0000;
const KILLED: u32 = 0x8000_0000;
const EPERM: u32 = 0x0005_0001;
const ENOSYS: u32 = 0x0005_0026;

/// The architecture that the tests run on.
fn host() -> TargetArch {
    if libc::SYS_read == 0 {
        TargetArch::X86_64
    } else {
        TargetArch::Aarch64
    }
}

fn audit(arch: TargetArch) -> u32 {
    match arch {
        TargetArch::X86_64 => 0xc000_003e,
        TargetArch::Aarch64 => 0xc000_00b7,
    }
}

/// The words of a call, as the kernel hands them to a program.
fn data(arch: u32, nr: i64, args: [u64; 6]) -> Vec<u32> {
    let mut words = vec![nr as u32, arch, 0, 0];
    for arg in args {
        words.push(arg as u32);
        words.push((arg >> 32) as u32);
    }
    words
}

/// Runs a program.
fn run(program: &[Instruction], words: &[u32]) -> u32 {
    let mut pc = 0usize;
    let mut loaded = 0u32;
    loop {
        let i = program[pc];
        pc += 1;
        match i.code {
            bpf::LOAD => {
                assert_eq!(i.k % 4, 0);
                loaded = words[i.k as usize / 4];
            }
            bpf::AND => loaded &= i.k,
            bpf::JUMP_EQUAL => pc += usize::from(if loaded == i.k { i.jt } else { i.jf }),
            bpf::JUMP => pc += i.k as usize,
            bpf::ANSWER => return i.k,
            other => panic!("unknown instruction {other:#x}"),
        }
    }
}

/// What the kernel answers with the three programs installed.
fn answer(set: &FilterSet, words: &[u32]) -> u32 {
    let mut answer = run(&set.kill, words);
    for program in [&set.eperm, &set.enosys] {
        let other = run(program, words);
        if ((other & 0xffff_0000) as i32) < ((answer & 0xffff_0000) as i32) {
            answer = other;
        }
    }
    answer
}

/// What happens to a call of the host.
fn call(nr: i64, args: [u64; 6]) -> u32 {
    let set = build_filter(host()).unwrap();
    answer(&set, &data(audit(host()), nr, args))
}

fn arg0(value: u64) -> [u64; 6] {
    [value, 0, 0, 0, 0, 0]
}

#[test]
fn tier1_syscalls_not_empty() {
    assert!(!tier1_kill_syscalls(host()).is_empty());
}

#[test]
fn tier2_syscalls_not_empty() {
    assert!(!tier2_eperm_syscalls(host()).is_empty());
}

#[test]
fn target_arch_resolves() {
    let name = match host() {
        TargetArch::X86_64 => "x86_64",
        TargetArch::Aarch64 => "aarch64",
    };
    assert_eq!(target_arch(name), Ok(host()));
}

#[test]
fn filter_builds() {
    assert!(build_filter(TargetArch::X86_64).is_ok());
    assert!(build_filter(TargetArch::Aarch64).is_ok());
}

#[test]
fn tier1_pidfd_open_kills() {
    assert_eq!(call(libc::SYS_pidfd_open, arg0(1234)), KILLED);
}

#[test]
fn tier1_fspick_kills() {
    assert_eq!(call(libc::SYS_fspick, arg0(libc::AT_FDCWD as u64)), KILLED);
}

#[test]
fn tier2_execveat_empty_path_eperm() {
    let flags = libc::AT_EMPTY_PATH as u64;
    assert_eq!(call(libc::SYS_execveat, [-1i64 as u64, 1, 0, 0, flags, 0]), EPERM);
}

#[test]
fn tier2_socket_inet_eperm() {
    let args = [libc::AF_INET as u64, libc::SOCK_STREAM as u64, 0, 0, 0, 0];
    assert_eq!(call(libc::SYS_socket, args), EPERM);
}

#[test]
fn tier2_socket_unix_allowed() {
    let args = [libc::AF_UNIX as u64, libc::SOCK_STREAM as u64, 0, 0, 0, 0];
    assert_eq!(call(libc::SYS_socket, args), ALLOWED);
}

#[test]
fn tier1_unshare_kills() {
    assert_eq!(call(libc::SYS_unshare, arg0(0)), KILLED);
}

#[test]
fn tier1_setns_kills() {
    assert_eq!(call(libc::SYS_setns, arg0(-1i32 as u64)), KILLED);
}

#[test]
fn clone3_returns_enosys() {
    assert_eq!(call(libc::SYS_clone3, arg0(0)), ENOSYS);
}

#[test]
fn clone_thread_still_allowed() {
    let flags = libc::CLONE_THREAD
        | libc::CLONE_SIGHAND
        | libc::CLONE_VM
        | libc::CLONE_FS
        | libc::CLONE_FILES;
    assert_eq!(call(libc::SYS_clone, arg0(flags as u64)), ALLOWED);
}

#[test]
fn clone_newuser_blocked() {
    let flags = libc::CLONE_NEWUSER | libc::SIGCHLD;
    assert_eq!(call(libc::SYS_clone, arg0(flags as u64)), EPERM);
}

#[test]
fn clone_newnet_blocked() {
    let flags = libc::CLONE_NEWNET | libc::SIGCHLD;
    assert_eq!(call(libc::SYS_clone, arg0(flags as u64)), EPERM);
}

#[test]
fn clone_combined_ns_thread_blocked() {
    let flags = libc::CLONE_THREAD | libc::CLONE_NEWUSER | libc::SIGCHLD;
    assert_eq!(call(libc::SYS_clone, arg0(flags as u64)), EPERM);
}

#[test]
fn execveat_without_empty_path_allowed() {
    let args = [libc::AT_FDCWD as u64, 0, 0, 0, 0, 0];
    assert_eq!(call(libc::SYS_execveat, args), ALLOWED);
}

#[test]
fn execveat_combined_flags_with_empty_path_blocked() {
    let flags = (libc::AT_EMPTY_PATH | libc::AT_SYMLINK_NOFOLLOW) as u64;
    assert_eq!(call(libc::SYS_execveat, [-1i64 as u64, 1, 0, 0, flags, 0]), EPERM);
}

#[test]
fn numbers_are_those_of_the_host() {
    let known = [
        (Syscall::Ptrace, libc::SYS_ptrace),
        (Syscall::Mount, libc::SYS_mount),
        (Syscall::Umount2, libc::SYS_umount2),
        (Syscall::Reboot, libc::SYS_reboot),
        (Syscall::KexecLoad, libc::SYS_kexec_load),
        (Syscall::KexecFileLoad, libc::SYS_kexec_file_load),
        (Syscall::PivotRoot, libc::SYS_pivot_root),
        (Syscall::Chroot, libc::SYS_chroot),
        (Syscall::InitModule, libc::SYS_init_module),
        (Syscall::FinitModule, libc::SYS_finit_module),
        (Syscall::DeleteModule, libc::SYS_delete_module),
        (Syscall::Unshare, libc::SYS_unshare),
        (Syscall::Setns, libc::SYS_setns),
        (Syscall::Personality, libc::SYS_personality),
        (Syscall::MemfdCreate, libc::SYS_memfd_create),
        (Syscall::ProcessVmReadv, libc::SYS_process_vm_readv),
        (Syscall::ProcessVmWritev, libc::SYS_process_vm_writev),
        (Syscall::Userfaultfd, libc::SYS_userfaultfd),
        (Syscall::Kcmp, libc::SYS_kcmp),
        (Syscall::IoUringSetup, libc::SYS_io_uring_setup),
        (Syscall::IoUringEnter, libc::SYS_io_uring_enter),
        (Syscall::IoUringRegister, libc::SYS_io_uring_register),
        (Syscall::Bpf, libc::SYS_bpf),
        (Syscall::MountSetattr, libc::SYS_mount_setattr),
        (Syscall::MoveMount, libc::SYS_move_mount),
        (Syscall::OpenTree, libc::SYS_open_tree),
        (Syscall::Fsopen, libc::SYS_fsopen),
        (Syscall::Fsconfig, libc::SYS_fsconfig),
        (Syscall::Fsmount, libc::SYS_fsmount),
        (Syscall::Fspick, libc::SYS_fspick),
        (Syscall::PidfdOpen, libc::SYS_pidfd_open),
        (Syscall::PidfdGetfd, libc::SYS_pidfd_getfd),
        (Syscall::PidfdSendSignal, libc::SYS_pidfd_send_signal),
        (Syscall::ProcessMadvise, libc::SYS_process_madvise),
        (Syscall::MemfdSecret, libc::SYS_memfd_secret),
        (Syscall::LandlockCreateRuleset, libc::SYS_landlock_create_ruleset),
        (Syscall::LandlockAddRule, libc::SYS_landlock_add_rule),
        (Syscall::LandlockRestrictSelf, libc::SYS_landlock_restrict_self),
        (Syscall::Symlinkat, libc::SYS_symlinkat),
        (Syscall::Linkat, libc::SYS_linkat),
        (Syscall::PerfEventOpen, libc::SYS_perf_event_open),
        (Syscall::Socket, libc::SYS_socket),
        (Syscall::Prctl, libc::SYS_prctl),
        (Syscall::Execveat, libc::SYS_execveat),
        (Syscall::Clone, libc::SYS_clone),
        (Syscall::Clone3, libc::SYS_clone3),
    ];
    for (known_call, nr) in known {
        assert_eq!(known_call.number(host()), nr, "{known_call:?}");
    }
    let tier1: Vec<i64> = known[..38].iter().map(|k| k.1).collect();
    assert_eq!(tier1_kill_syscalls(host()), tier1);
    let tier2: Vec<i64> = known[38..41].iter().map(|k| k.1).collect();
    assert_eq!(tier2_eperm_syscalls(host())[..3], tier2[..]);
}

#[test]
fn links_are_refused_on_x86_64() {
    let tier2 = tier2_eperm_syscalls(TargetArch::X86_64);
    assert_eq!(tier2[3..], [88, 86]);
    let set = build_filter(TargetArch::X86_64).unwrap();
    for nr in tier2 {
        let words = data(audit(TargetArch::X86_64), nr, [7; 6]);
        assert_eq!(answer(&set, &words), EPERM);
    }
    assert_eq!(tier2_eperm_syscalls(TargetArch::Aarch64).len(), 3);
}

#[test]
fn constants_are_those_of_the_host() {
    assert_eq!(seccomp::EPERM, libc::EPERM as u32);
    assert_eq!(seccomp::ENOSYS, libc::ENOSYS as u32);
    assert_eq!(seccomp::AF_INET, libc::AF_INET as u64);
    assert_eq!(seccomp::AF_INET6, libc::AF_INET6 as u64);
    assert_eq!(seccomp::PR_SET_PDEATHSIG, libc::PR_SET_PDEATHSIG as u64);
    assert_eq!(seccomp::PR_SET_DUMPABLE, libc::PR_SET_DUMPABLE as u64);
    assert_eq!(seccomp::AT_EMPTY_PATH, libc::AT_EMPTY_PATH as u64);
    assert_eq!(seccomp::CLONE_NEWNS, libc::CLONE_NEWNS as u64);
    assert_eq!(seccomp::CLONE_NEWCGROUP, libc::CLONE_NEWCGROUP as u64);
    assert_eq!(seccomp::CLONE_NEWUTS, libc::CLONE_NEWUTS as u64);
    assert_eq!(seccomp::CLONE_NEWIPC, libc::CLONE_NEWIPC as u64);
    assert_eq!(seccomp::CLONE_NEWUSER, libc::CLONE_NEWUSER as u64);
    assert_eq!(seccomp::CLONE_NEWPID, libc::CLONE_NEWPID as u64);
    assert_eq!(seccomp::CLONE_NEWNET, libc::CLONE_NEWNET as u64);
    assert_eq!(seccomp::CLONE_NEWTIME, 0x80);
    assert_eq!(ALLOWED, libc::SECCOMP_RET_ALLOW);
    assert_eq!(KILLED, libc::SECCOMP_RET_KILL_PROCESS);
    assert_eq!(EPERM, libc::SECCOMP_RET_ERRNO | libc::EPERM as u32);
    assert_eq!(ENOSYS, libc::SECCOMP_RET_ERRNO | libc::ENOSYS as u32);
}

/// What the policy says of a call, in the words of its rules.
fn policy(arch: TargetArch, nr: i64, args: [u64; 6]) -> u32 {
    let low = |i: usize| args[i] as u32;
    let is = |known: Syscall| nr == known.number(arch);
    let refused = if is(Syscall::Socket) {
        low(0) == 2 || low(0) == 10
    } else if is(Syscall::Prctl) {
        (low(0) == 1 && low(1) == 0) || (low(0) == 4 && low(1) == 1)
    } else if is(Syscall::Execveat) {
        low(4) & 0x1000 != 0
    } else if is(Syscall::Clone) {
        args[0] & 0x7e02_0080 != 0
    } else {
        tier2_eperm_syscalls(arch).contains(&nr)
    };
    if tier1_kill_syscalls(arch).contains(&nr) {
        KILLED
    } else if refused {
        EPERM
    } else if is(Syscall::Clone3) {
        ENOSYS
    } else {
        ALLOWED
    }
}

#[test]
fn programs_enforce_the_policy() {
    let values = [
        0u64,
        1,
        2,
        4,
        10,
        0x80,
        0x1000,
        0x1100,
        0x0002_0000,
        0x0200_0000,
        0x0400_0000,
        0x0800_0000,
        0x1000_0000,
        0x2000_0000,
        0x4000_0000,
        0x8000_0000,
        0x0001_0f11,
        0x1_0000_0000,
        0x1_0000_0002,
        0x1_0000_1000,
        0xffff_ffff,
        u64::MAX,
    ];
    for arch in [TargetArch::X86_64, TargetArch::Aarch64] {
        let set = build_filter(arch).unwrap();
        for nr in 0..500i64 {
            for value in values {
                for args in [[value; 6], [4, 1, 0, 0, value, 0], [value, 0, 0, 0, 0, 0], [
                    value, 1, 0, 0, 0, 0,
                ]] {
                    let words = data(audit(arch), nr, args);
                    assert_eq!(
                        answer(&set, &words),
                        policy(arch, nr, args),
                        "{arch:?} {nr} {args:x?}"
                    );
                }
            }
        }
    }
}

#[test]
fn calls_for_another_architecture_are_killed() {
    let set = build_filter(TargetArch::X86_64).unwrap();
    for arch in [audit(TargetArch::Aarch64), 0x4000_0003, 0] {
        assert_eq!(answer(&set, &data(arch, 0, [0; 6])), KILLED);
    }
}

#[test]
fn programs_fit_the_kernel() {
    for arch in [TargetArch::X86_64, TargetArch::Aarch64] {
        let set = build_filter(arch).unwrap();
        for stage in [Stage::Enosys, Stage::Eperm, Stage::Kill] {
            let len = set.program(stage).len();
            assert!(3 < len && len < 4096, "{len}");
        }
        // The check of the architecture, the number, and four instructions for each call.
        assert_eq!(set.kill.len(), 3 + 1 + 38 * 5 + 1);
    }
}

#[test]
fn stages_of_the_installation() {
    let (set, first) = apply("x86_64").unwrap();
    assert_eq!(first, Stage::Enosys);
    assert_eq!(*set.program(first), set.enosys);
    let second = advance(first, Ok(())).unwrap().unwrap();
    assert_eq!(second, Stage::Eperm);
    assert_eq!(*set.program(second), set.eperm);
    let third = advance(second, Ok(())).unwrap().unwrap();
    assert_eq!(third, Stage::Kill);
    assert_eq!(*set.program(third), set.kill);
    assert_eq!(advance(third, Ok(())), Ok(None));
}

#[test]
fn an_installation_that_fails() {
    let failed = |stage| advance(stage, Err("x")).unwrap_err();
    assert_eq!(failed(Stage::Enosys), Error::Seccomp("install enosys filter: x".to_string()));
    assert_eq!(failed(Stage::Eperm), Error::Seccomp("install eperm filter: x".to_string()));
    assert_eq!(failed(Stage::Kill), Error::Seccomp("x".to_string()));
}

#[test]
fn unknown_architectures() {
    let error = Error::Seccomp("unsupported architecture: riscv64".to_string());
    assert_eq!(target_arch("riscv64"), Err(error));
    assert_eq!(
        apply("").unwrap_err(),
        Error::Seccomp("unsupported architecture: ".to_string())
    );
    assert_eq!(target_arch("aarch64"), Ok(TargetArch::Aarch64));
}

#[test]
fn the_summary_counts_the_tiers() {
    let s = summary(TargetArch::X86_64);
    assert_eq!((s.tier1_kill_count, s.tier2_eperm_count), (38, 5));
    assert_eq!(summary(TargetArch::Aarch64).tier2_eperm_count, 3);
    assert!(s.socket_filter && s.prctl_filter && s.clone_ns_filter);
    assert!(s.clone3_enosys && s.execveat_filter);
}
