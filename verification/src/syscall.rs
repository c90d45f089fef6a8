//! System calls that the filter names, with their numbers on each architecture.

use vstd::prelude::*;

verus! {

/// An architecture whose system calls can be filtered.
#[derive(Clone, Copy, Debug, PartialEq, Eq, Structural)]
pub enum TargetArch {
    X86_64,
    Aarch64,
}

/// A system call, whatever its number is.
#[derive(Clone, Copy, Debug, PartialEq, Eq, Structural)]
pub enum Syscall {
    Ptrace,
    Mount,
    Umount2,
    Reboot,
    KexecLoad,
    KexecFileLoad,
    PivotRoot,
    Chroot,
    InitModule,
    FinitModule,
    DeleteModule,
    Unshare,
    Setns,
    Personality,
    MemfdCreate,
    ProcessVmReadv,
    ProcessVmWritev,
    Userfaultfd,
    Kcmp,
    IoUringSetup,
    IoUringEnter,
    IoUringRegister,
    Bpf,
    MountSetattr,
    MoveMount,
    OpenTree,
    Fsopen,
    Fsconfig,
    Fsmount,
    Fspick,
    PidfdOpen,
    PidfdGetfd,
    PidfdSendSignal,
    ProcessMadvise,
    MemfdSecret,
    LandlockCreateRuleset,
    LandlockAddRule,
    LandlockRestrictSelf,
    Symlinkat,
    Linkat,
    PerfEventOpen,
    Symlink,
    Link,
    Socket,
    Prctl,
    Execveat,
    Clone,
    Clone3,
}

impl Syscall {
    /// The number on x86_64, and the one on aarch64 (none where the call does not exist).
    pub open spec fn numbers(self) -> (i64, Option<i64>) {
        match self {
            Syscall::Ptrace => (101i64, Some(117i64)),
            Syscall::Mount => (165i64, Some(40i64)),
            Syscall::Umount2 => (166i64, Some(39i64)),
            Syscall::Reboot => (169i64, Some(142i64)),
            Syscall::KexecLoad => (246i64, Some(104i64)),
            Syscall::KexecFileLoad => (320i64, Some(294i64)),
            Syscall::PivotRoot => (155i64, Some(41i64)),
            Syscall::Chroot => (161i64, Some(51i64)),
            Syscall::InitModule => (175i64, Some(105i64)),
            Syscall::FinitModule => (313i64, Some(273i64)),
            Syscall::DeleteModule => (176i64, Some(106i64)),
            Syscall::Unshare => (272i64, Some(97i64)),
            Syscall::Setns => (308i64, Some(268i64)),
            Syscall::Personality => (135i64, Some(92i64)),
            Syscall::MemfdCreate => (319i64, Some(279i64)),
            Syscall::ProcessVmReadv => (310i64, Some(270i64)),
            Syscall::ProcessVmWritev => (311i64, Some(271i64)),
            Syscall::Userfaultfd => (323i64, Some(282i64)),
            Syscall::Kcmp => (312i64, Some(272i64)),
            Syscall::IoUringSetup => (425i64, Some(425i64)),
            Syscall::IoUringEnter => (426i64, Some(426i64)),
            Syscall::IoUringRegister => (427i64, Some(427i64)),
            Syscall::Bpf => (321i64, Some(280i64)),
            Syscall::MountSetattr => (442i64, Some(442i64)),
            Syscall::MoveMount => (429i64, Some(429i64)),
            Syscall::OpenTree => (428i64, Some(428i64)),
            Syscall::Fsopen => (430i64, Some(430i64)),
            Syscall::Fsconfig => (431i64, Some(431i64)),
            Syscall::Fsmount => (432i64, Some(432i64)),
            Syscall::Fspick => (433i64, Some(433i64)),
            Syscall::PidfdOpen => (434i64, Some(434i64)),
            Syscall::PidfdGetfd => (438i64, Some(438i64)),
            Syscall::PidfdSendSignal => (424i64, Some(424i64)),
            Syscall::ProcessMadvise => (440i64, Some(440i64)),
            Syscall::MemfdSecret => (447i64, Some(447i64)),
            Syscall::LandlockCreateRuleset => (444i64, Some(444i64)),
            Syscall::LandlockAddRule => (445i64, Some(445i64)),
            Syscall::LandlockRestrictSelf => (446i64, Some(446i64)),
            Syscall::Symlinkat => (266i64, Some(36i64)),
            Syscall::Linkat => (265i64, Some(37i64)),
            Syscall::PerfEventOpen => (298i64, Some(241i64)),
            Syscall::Symlink => (88i64, None),
            Syscall::Link => (86i64, None),
            Syscall::Socket => (41i64, Some(198i64)),
            Syscall::Prctl => (157i64, Some(167i64)),
            Syscall::Execveat => (322i64, Some(281i64)),
            Syscall::Clone => (56i64, Some(220i64)),
            Syscall::Clone3 => (435i64, Some(435i64)),
        }
    }

    /// Whether the call exists on `arch`.
    pub open spec fn exists_on(self, arch: TargetArch) -> bool {
        arch == TargetArch::X86_64 || self.numbers().1 is Some
    }

    /// The number of the call on `arch`.
    pub open spec fn number_on(self, arch: TargetArch) -> i64 {
        match arch {
            TargetArch::X86_64 => self.numbers().0,
            TargetArch::Aarch64 => self.numbers().1->0,
        }
    }

    /// The number of the call on `arch`.
    pub fn number(self, arch: TargetArch) -> (nr: i64)
        requires
            self.exists_on(arch),
        ensures
            nr == self.number_on(arch),
            0 <= nr < 448,
    {
        match arch {
            TargetArch::X86_64 => self.x86_64_number(),
            TargetArch::Aarch64 => self.aarch64_number(),
        }
    }

    fn x86_64_number(self) -> (nr: i64)
        ensures
            nr == self.numbers().0,
            0 <= nr < 448,
    {
        match self {
            Syscall::Ptrace => 101,
            Syscall::Mount => 165,
            Syscall::Umount2 => 166,
            Syscall::Reboot => 169,
            Syscall::KexecLoad => 246,
            Syscall::KexecFileLoad => 320,
            Syscall::PivotRoot => 155,
            Syscall::Chroot => 161,
            Syscall::InitModule => 175,
            Syscall::FinitModule => 313,
            Syscall::DeleteModule => 176,
            Syscall::Unshare => 272,
            Syscall::Setns => 308,
            Syscall::Personality => 135,
            Syscall::MemfdCreate => 319,
            Syscall::ProcessVmReadv => 310,
            Syscall::ProcessVmWritev => 311,
            Syscall::Userfaultfd => 323,
            Syscall::Kcmp => 312,
            Syscall::IoUringSetup => 425,
            Syscall::IoUringEnter => 426,
            Syscall::IoUringRegister => 427,
            Syscall::Bpf => 321,
            Syscall::MountSetattr => 442,
            Syscall::MoveMount => 429,
            Syscall::OpenTree => 428,
            Syscall::Fsopen => 430,
            Syscall::Fsconfig => 431,
            Syscall::Fsmount => 432,
            Syscall::Fspick => 433,
            Syscall::PidfdOpen => 434,
            Syscall::PidfdGetfd => 438,
            Syscall::PidfdSendSignal => 424,
            Syscall::ProcessMadvise => 440,
            Syscall::MemfdSecret => 447,
            Syscall::LandlockCreateRuleset => 444,
            Syscall::LandlockAddRule => 445,
            Syscall::LandlockRestrictSelf => 446,
            Syscall::Symlinkat => 266,
            Syscall::Linkat => 265,
            Syscall::PerfEventOpen => 298,
            Syscall::Symlink => 88,
            Syscall::Link => 86,
            Syscall::Socket => 41,
            Syscall::Prctl => 157,
            Syscall::Execveat => 322,
            Syscall::Clone => 56,
            Syscall::Clone3 => 435,
        }
    }

    fn aarch64_number(self) -> (nr: i64)
        requires
            self.numbers().1 is Some,
        ensures
            Some(nr) == self.numbers().1,
            0 <= nr < 448,
    {
        match self {
            Syscall::Ptrace => 117,
            Syscall::Mount => 40,
            Syscall::Umount2 => 39,
            Syscall::Reboot => 142,
            Syscall::KexecLoad => 104,
            Syscall::KexecFileLoad => 294,
            Syscall::PivotRoot => 41,
            Syscall::Chroot => 51,
            Syscall::InitModule => 105,
            Syscall::FinitModule => 273,
            Syscall::DeleteModule => 106,
            Syscall::Unshare => 97,
            Syscall::Setns => 268,
            Syscall::Personality => 92,
            Syscall::MemfdCreate => 279,
            Syscall::ProcessVmReadv => 270,
            Syscall::ProcessVmWritev => 271,
            Syscall::Userfaultfd => 282,
            Syscall::Kcmp => 272,
            Syscall::IoUringSetup => 425,
            Syscall::IoUringEnter => 426,
            Syscall::IoUringRegister => 427,
            Syscall::Bpf => 280,
            Syscall::MountSetattr => 442,
            Syscall::MoveMount => 429,
            Syscall::OpenTree => 428,
            Syscall::Fsopen => 430,
            Syscall::Fsconfig => 431,
            Syscall::Fsmount => 432,
            Syscall::Fspick => 433,
            Syscall::PidfdOpen => 434,
            Syscall::PidfdGetfd => 438,
            Syscall::PidfdSendSignal => 424,
            Syscall::ProcessMadvise => 440,
            Syscall::MemfdSecret => 447,
            Syscall::LandlockCreateRuleset => 444,
            Syscall::LandlockAddRule => 445,
            Syscall::LandlockRestrictSelf => 446,
            Syscall::Symlinkat => 36,
            Syscall::Linkat => 37,
            Syscall::PerfEventOpen => 241,
            Syscall::Socket => 198,
            Syscall::Prctl => 167,
            Syscall::Execveat => 281,
            Syscall::Clone => 220,
            Syscall::Clone3 => 435,
            Syscall::Symlink | Syscall::Link => 0,
        }
    }
}

} // verus!
