//! Moving inherited descriptors to the places 3, 4 and so on, between fork and exec.
//!
//! A source may lie where another descriptor has to go. So the move has two phases: first
//! every source in the target range is duplicated above it, then each one is put in its
//! place and its close-on-exec flag is cleared. [`Remap`] decides each call; whoever makes
//! the calls feeds their return values back. Nothing here allocates.

use vstd::prelude::*;

verus! {

/// The first place.
pub const FIRST_PLACE: i32 = 3;

/// Flag of a descriptor that does not survive exec.
pub const FD_CLOEXEC: i32 = 1;

/// A call on descriptors.
#[derive(Clone, Copy, Debug, PartialEq, Eq, Structural)]
pub enum FdCall {
    /// Duplicate `fd` to an unused descriptor that is at least `floor`, close-on-exec.
    DupAbove { fd: i32, floor: i32 },
    /// Close `fd`.
    Close { fd: i32 },
    /// Duplicate `fd` to `target`.
    Dup2 { fd: i32, target: i32 },
    /// Read the flags of `fd`.
    GetFlags { fd: i32 },
    /// Set the flags of `fd`.
    SetFlags { fd: i32, flags: i32 },
}

/// How far a move is.
#[derive(Clone, Copy, Debug, PartialEq, Eq, Structural)]
pub enum Phase {
    /// The source at an index is in the way.
    Evacuate(usize),
    /// It was duplicated to the given descriptor.
    CloseOld(usize, i32),
    /// The source at an index goes to its place.
    Place(usize),
    /// It is there; the source is left over.
    CloseSource(usize),
    /// The flags of a place are to be read.
    ReadFlags(usize),
    /// The flags of a place are to be set to the given ones.
    WriteFlags(usize, i32),
    /// Every descriptor is in its place.
    Done,
    /// A call failed.
    Failed,
}

/// Whether a descriptor lies where the `n` descriptors have to go.
pub open spec fn in_the_way(fd: i32, n: nat) -> bool {
    FIRST_PLACE <= fd < FIRST_PLACE + n
}

/// The phase from which the sources at `i` and on still have to be looked at.
pub open spec fn evacuate_from(fds: Seq<i32>, i: nat) -> Phase
    decreases fds.len() - i,
{
    if i >= fds.len() {
        place_from(fds, 0)
    } else if in_the_way(fds[i as int], fds.len()) {
        Phase::Evacuate(i as usize)
    } else {
        evacuate_from(fds, i + 1)
    }
}

/// The phase from which the sources at `i` and on still have to be put in their places.
pub open spec fn place_from(fds: Seq<i32>, i: nat) -> Phase {
    if i >= fds.len() {
        Phase::Done
    } else if fds[i as int] != FIRST_PLACE + i {
        Phase::Place(i as usize)
    } else {
        Phase::ReadFlags(i as usize)
    }
}

/// The call that a phase is about.
pub open spec fn call_of(fds: Seq<i32>, phase: Phase) -> Option<FdCall> {
    match phase {
        Phase::Evacuate(i) => Some(
            FdCall::DupAbove { fd: fds[i as int], floor: (FIRST_PLACE + fds.len()) as i32 },
        ),
        Phase::CloseOld(i, _) => Some(FdCall::Close { fd: fds[i as int] }),
        Phase::Place(i) => Some(
            FdCall::Dup2 { fd: fds[i as int], target: (FIRST_PLACE + i) as i32 },
        ),
        Phase::CloseSource(i) => Some(FdCall::Close { fd: fds[i as int] }),
        Phase::ReadFlags(i) => Some(FdCall::GetFlags { fd: (FIRST_PLACE + i) as i32 }),
        Phase::WriteFlags(i, flags) => Some(
            FdCall::SetFlags { fd: (FIRST_PLACE + i) as i32, flags },
        ),
        Phase::Done => None,
        Phase::Failed => None,
    }
}

/// The sources and the phase after the call of a phase returned `ret`.
pub open spec fn next_state(fds: Seq<i32>, phase: Phase, ret: i32) -> (Seq<i32>, Phase) {
    match phase {
        Phase::Evacuate(i) => if ret == -1 {
            (fds, Phase::Failed)
        } else {
            (fds, Phase::CloseOld(i, ret))
        },
        Phase::CloseOld(i, high) => {
            let moved = fds.update(i as int, high);
            (moved, evacuate_from(moved, i as nat + 1))
        },
        Phase::Place(i) => if ret == -1 {
            (fds, Phase::Failed)
        } else {
            (fds, Phase::CloseSource(i))
        },
        Phase::CloseSource(i) => (fds, Phase::ReadFlags(i)),
        Phase::ReadFlags(i) => if ret == -1 {
            (fds, Phase::Failed)
        } else {
            (fds, Phase::WriteFlags(i, ret & !FD_CLOEXEC))
        },
        Phase::WriteFlags(i, _) => if ret == -1 {
            (fds, Phase::Failed)
        } else {
            (fds, place_from(fds, i as nat + 1))
        },
        Phase::Done => (fds, Phase::Done),
        Phase::Failed => (fds, Phase::Failed),
    }
}

/// Whether a phase speaks of a source that there is.
pub open spec fn phase_in_range(n: nat, phase: Phase) -> bool {
    match phase {
        Phase::Evacuate(i) => i < n,
        Phase::CloseOld(i, _) => i < n,
        Phase::Place(i) => i < n,
        Phase::CloseSource(i) => i < n,
        Phase::ReadFlags(i) => i < n,
        Phase::WriteFlags(i, _) => i < n,
        Phase::Done => true,
        Phase::Failed => true,
    }
}

/// How many more calls a move takes at most.
pub open spec fn calls_left(n: nat, phase: Phase) -> int {
    match phase {
        Phase::Evacuate(i) => 4 * n + 2 * (n - i),
        Phase::CloseOld(i, _) => 4 * n + 2 * (n - i) - 1,
        Phase::Place(i) => 4 * (n - i),
        Phase::CloseSource(i) => 4 * (n - i) - 1,
        Phase::ReadFlags(i) => 4 * (n - i) - 2,
        Phase::WriteFlags(i, _) => 4 * (n - i) - 3,
        Phase::Done => 0,
        Phase::Failed => 0,
    }
}

/// A move of descriptors, and how far it is.
#[derive(Debug, PartialEq, Eq)]
pub struct Remap {
    fds: Vec<i32>,
    phase: Phase,
}

impl Remap {
    /// The sources, as far as they have been moved out of the way.
    pub closed spec fn sources(self) -> Seq<i32> {
        self.fds@
    }

    /// How far the move is.
    pub closed spec fn phase(self) -> Phase {
        self.phase
    }

    /// Whether the move is in a state that it can get into.
    pub closed spec fn wf(self) -> bool {
        &&& self.fds@.len() < 0x4000_0000
        &&& phase_in_range(self.fds@.len(), self.phase)
    }

    /// Starts the move of `fds`.
    pub fn new(fds: Vec<i32>) -> (remap: Remap)
        requires
            fds@.len() < 0x4000_0000,
        ensures
            remap.wf(),
            remap.sources() == fds@,
            remap.phase() == evacuate_from(fds@, 0),
            calls_left(fds@.len(), remap.phase()) <= 6 * fds@.len(),
    {
        let mut remap = Remap { fds, phase: Phase::Done };
        remap.evacuate(0);
        remap
    }

    /// The next call to make; none once the move is over.
    pub fn call(&self) -> (call: Option<FdCall>)
        requires
            self.wf(),
        ensures
            call == call_of(self.sources(), self.phase()),
    {
        match self.phase {
            Phase::Evacuate(i) => Some(
                FdCall::DupAbove { fd: self.fds[i], floor: FIRST_PLACE + self.fds.len() as i32 },
            ),
            Phase::CloseOld(i, _) => Some(FdCall::Close { fd: self.fds[i] }),
            Phase::Place(i) => Some(
                FdCall::Dup2 { fd: self.fds[i], target: FIRST_PLACE + i as i32 },
            ),
            Phase::CloseSource(i) => Some(FdCall::Close { fd: self.fds[i] }),
            Phase::ReadFlags(i) => Some(FdCall::GetFlags { fd: FIRST_PLACE + i as i32 }),
            Phase::WriteFlags(i, flags) => Some(
                FdCall::SetFlags { fd: FIRST_PLACE + i as i32, flags },
            ),
            Phase::Done => None,
            Phase::Failed => None,
        }
    }

    /// Whether a call failed. The error is the one of the last call.
    pub fn failed(&self) -> (failed: bool)
        ensures
            failed == (self.phase() == Phase::Failed),
    {
        match self.phase {
            Phase::Failed => true,
            _ => false,
        }
    }

    /// Goes on with what the call returned.
    pub fn resume(&mut self, ret: i32)
        requires
            old(self).wf(),
        ensures
            final(self).wf(),
            (final(self).sources(), final(self).phase()) == next_state(
                old(self).sources(),
                old(self).phase(),
                ret,
            ),
            call_of(old(self).sources(), old(self).phase()) is Some ==> 0 <= calls_left(
                final(self).sources().len(),
                final(self).phase(),
            ) < calls_left(old(self).sources().len(), old(self).phase()),
    {
        match self.phase {
            Phase::Evacuate(i) => {
                self.phase = if ret == -1 {
                    Phase::Failed
                } else {
                    Phase::CloseOld(i, ret)
                };
            },
            Phase::CloseOld(i, high) => {
                self.fds.set(i, high);
                self.evacuate(i + 1);
            },
            Phase::Place(i) => {
                self.phase = if ret == -1 {
                    Phase::Failed
                } else {
                    Phase::CloseSource(i)
                };
            },
            Phase::CloseSource(i) => {
                self.phase = Phase::ReadFlags(i);
            },
            Phase::ReadFlags(i) => {
                self.phase = if ret == -1 {
                    Phase::Failed
                } else {
                    Phase::WriteFlags(i, ret & !FD_CLOEXEC)
                };
            },
            Phase::WriteFlags(i, _) => {
                if ret == -1 {
                    self.phase = Phase::Failed;
                } else {
                    self.place(i + 1);
                }
            },
            Phase::Done => {},
            Phase::Failed => {},
        }
    }

    /// Looks for the first source from `from` on that is in the way.
    fn evacuate(&mut self, from: usize)
        requires
            from <= old(self).fds@.len() < 0x4000_0000,
        ensures
            final(self).wf(),
            final(self).fds@ == old(self).fds@,
            final(self).phase == evacuate_from(old(self).fds@, from as nat),
            0 <= calls_left(old(self).fds@.len(), final(self).phase) <= 4 * old(self).fds@.len() + 2
                * (old(self).fds@.len() - from),
    {
        let n = self.fds.len();
        let ceiling: i32 = FIRST_PLACE + n as i32;
        let mut i: usize = from;
        while i < n && !(FIRST_PLACE <= self.fds[i] && self.fds[i] < ceiling)
            invariant
                from <= i <= n,
                n == self.fds@.len() < 0x4000_0000,
                ceiling == FIRST_PLACE + n,
                self.fds@ == old(self).fds@,
                evacuate_from(self.fds@, from as nat) == evacuate_from(self.fds@, i as nat),
            decreases n - i,
        {
            i = i + 1;
        }
        if i < n {
            self.phase = Phase::Evacuate(i);
        } else {
            self.place(0);
        }
    }

    /// Takes up the source at `i`, if there is one.
    fn place(&mut self, i: usize)
        requires
            i <= old(self).fds@.len() < 0x4000_0000,
        ensures
            final(self).wf(),
            final(self).fds@ == old(self).fds@,
            final(self).phase == place_from(old(self).fds@, i as nat),
            0 <= calls_left(old(self).fds@.len(), final(self).phase) <= 4 * (old(self).fds@.len()
                - i),
    {
        self.phase = if i >= self.fds.len() {
            Phase::Done
        } else if self.fds[i] != FIRST_PLACE + i as i32 {
            Phase::Place(i)
        } else {
            Phase::ReadFlags(i)
        };
    }
}

} // verus!
