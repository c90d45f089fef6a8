//! Terminal modes and sizes.

use vstd::prelude::*;

verus! {

/// No terminal is to be restored.
pub const NO_TERMINAL: i32 = -1;

/// What to do next to put a terminal into raw mode.
#[derive(Clone, Copy, Debug, PartialEq, Eq, Structural)]
pub enum RawStep {
    /// Read the settings of the terminal.
    ReadSettings,
    /// Keep the settings where a signal handler finds them.
    KeepSettings,
    /// Apply the raw settings.
    ApplyRaw,
    /// The terminal is in raw mode.
    Raw,
    /// The terminal has its own settings back.
    Left,
    /// A call failed.
    Failed,
}

/// A terminal on its way into raw mode and out of it, and the terminal that a signal
/// handler restores.
///
/// The handler's terminal is set before the terminal's settings change, so that a signal
/// finds what to restore at any time.
#[derive(Clone, Copy, Debug, PartialEq, Eq, Structural)]
pub struct RawMode {
    pub fd: i32,
    pub step: RawStep,
    /// The terminal that a signal handler restores.
    pub cleanup_fd: i32,
}

impl RawMode {
    /// Whether a signal that comes now finds the terminal to restore, if its settings may
    /// have changed.
    pub open spec fn restorable(self) -> bool {
        self.step == RawStep::ApplyRaw || self.step == RawStep::Raw ==> self.cleanup_fd == self.fd
    }

    /// The next state after a step whose call returned `ret`.
    pub open spec fn next(self, ret: i32) -> RawMode {
        let step = match self.step {
            RawStep::ReadSettings => if ret == 0 {
                RawStep::KeepSettings
            } else {
                RawStep::Failed
            },
            RawStep::KeepSettings => RawStep::ApplyRaw,
            RawStep::ApplyRaw => if ret == 0 {
                RawStep::Raw
            } else {
                RawStep::Failed
            },
            RawStep::Raw => RawStep::Left,
            RawStep::Left => RawStep::Left,
            RawStep::Failed => RawStep::Failed,
        };
        let cleanup_fd = match self.step {
            RawStep::KeepSettings => self.fd,
            RawStep::Raw => NO_TERMINAL,
            _ => self.cleanup_fd,
        };
        RawMode { fd: self.fd, step, cleanup_fd }
    }

    /// The state after steps whose calls returned `rets`.
    pub open spec fn after_all(self, rets: Seq<i32>) -> RawMode
        decreases rets.len(),
    {
        if rets.len() == 0 {
            self
        } else {
            self.after_all(rets.drop_last()).next(rets.last())
        }
    }

    /// Starts on the terminal behind `fd`. `cleanup_fd` is the terminal that a signal
    /// handler restores so far.
    pub fn enter(fd: i32, cleanup_fd: i32) -> (mode: RawMode)
        ensures
            mode == (RawMode { fd, step: RawStep::ReadSettings, cleanup_fd }),
    {
        RawMode { fd, step: RawStep::ReadSettings, cleanup_fd }
    }

    /// Goes on after a step whose call returned `ret`; a call that failed returned other
    /// than 0. A terminal that could not be made raw stays with the signal handler.
    pub fn after(self, ret: i32) -> (mode: RawMode)
        ensures
            mode == self.next(ret),
    {
        match self.step {
            RawStep::ReadSettings => {
                let step = if ret == 0 {
                    RawStep::KeepSettings
                } else {
                    RawStep::Failed
                };
                RawMode { fd: self.fd, step, cleanup_fd: self.cleanup_fd }
            },
            RawStep::KeepSettings => RawMode {
                fd: self.fd,
                step: RawStep::ApplyRaw,
                cleanup_fd: self.fd,
            },
            RawStep::ApplyRaw => {
                let step = if ret == 0 {
                    RawStep::Raw
                } else {
                    RawStep::Failed
                };
                RawMode { fd: self.fd, step, cleanup_fd: self.cleanup_fd }
            },
            RawStep::Raw => RawMode {
                fd: self.fd,
                step: RawStep::Left,
                cleanup_fd: NO_TERMINAL,
            },
            RawStep::Left => self,
            RawStep::Failed => self,
        }
    }
}

/// The terminal that a signal handler restores, if there is one.
pub open spec fn restored_terminal(cleanup_fd: i32) -> Option<i32> {
    if cleanup_fd >= 0 {
        Some(cleanup_fd)
    } else {
        None
    }
}

/// The terminal that a signal handler restores, if there is one.
pub fn terminal_to_restore(cleanup_fd: i32) -> (fd: Option<i32>)
    ensures
        fd == restored_terminal(cleanup_fd),
{
    if cleanup_fd >= 0 {
        Some(cleanup_fd)
    } else {
        None
    }
}

/// Rows and columns of a terminal.
pub open spec fn terminal_size(ret: i32, rows: u16, cols: u16) -> (u16, u16) {
    if ret == 0 && rows > 0 && cols > 0 {
        (rows, cols)
    } else {
        (24u16, 80u16)
    }
}

/// Rows and columns of a terminal, from what asking for them returned and gave. Where that
/// failed or gave nothing, 24 by 80.
pub fn get_terminal_size(ret: i32, rows: u16, cols: u16) -> (size: (u16, u16))
    ensures
        size == terminal_size(ret, rows, cols),
{
    if ret == 0 && rows > 0 && cols > 0 {
        (rows, cols)
    } else {
        (24, 80)
    }
}

/// From the start of a raw mode on, whatever its calls return, a signal finds the terminal
/// to restore whenever the terminal's settings may have changed.
pub proof fn law_raw_mode_restorable(fd: i32, cleanup_fd: i32, rets: Seq<i32>)
    ensures
        (RawMode { fd, step: RawStep::ReadSettings, cleanup_fd }).after_all(rets).restorable(),
        (RawMode { fd, step: RawStep::ReadSettings, cleanup_fd }).after_all(rets).fd == fd,
    decreases rets.len(),
{
    if rets.len() > 0 {
        law_raw_mode_restorable(fd, cleanup_fd, rets.drop_last());
    }
}

/// A terminal whose settings can be read and changed is raw after three steps, and is then
/// the one that a signal handler restores. Leaving raw mode leaves nothing to restore.
pub proof fn law_raw_mode_path(fd: i32, cleanup_fd: i32, kept: i32, left: i32)
    ensures
        ({
            let start = RawMode { fd, step: RawStep::ReadSettings, cleanup_fd };
            let raw = start.next(0).next(kept).next(0);
            &&& raw.step == RawStep::Raw && raw.fd == fd && raw.cleanup_fd == fd
            &&& raw.next(left).step == RawStep::Left && raw.next(left).cleanup_fd == -1
            &&& raw.next(left).next(kept) == raw.next(left)
        }),
{
}

/// A terminal whose settings cannot be read is left alone; one whose settings cannot be
/// changed stays the one that a signal handler restores.
pub proof fn law_raw_mode_failures(fd: i32, cleanup_fd: i32, kept: i32, ret: i32)
    requires
        ret != 0,
    ensures
        ({
            let start = RawMode { fd, step: RawStep::ReadSettings, cleanup_fd };
            let unread = start.next(ret);
            let unchanged = start.next(0).next(kept).next(ret);
            &&& unread.step == RawStep::Failed && unread.cleanup_fd == cleanup_fd
            &&& unchanged.step == RawStep::Failed && unchanged.cleanup_fd == fd
            &&& unread.next(0) == unread && unchanged.next(0) == unchanged
        }),
{
}

/// The size of a terminal is what was given, if asking for it worked and gave any rows and
/// columns, and else 24 by 80.
pub proof fn law_terminal_size(ret: i32, rows: u16, cols: u16)
    ensures
        terminal_size(ret, rows, cols).0 > 0 && terminal_size(ret, rows, cols).1 > 0,
        ret == 0 && rows > 0 && cols > 0 ==> terminal_size(ret, rows, cols) == (rows, cols),
        ret != 0 || rows == 0 || cols == 0 ==> terminal_size(ret, rows, cols) == (24u16, 80u16),
{
}

/// A signal handler restores the terminal that it is given, whichever it is, and none where
/// it is given none.
pub proof fn law_restored_terminal(fd: i32)
    ensures
        0 <= fd ==> restored_terminal(fd) == Some(fd),
        fd < 0 ==> restored_terminal(fd) is None,
        restored_terminal(NO_TERMINAL) is None,
{
}

} // verus!
