use arapuca::terminal::{get_terminal_size, terminal_to_restore, RawMode, RawStep, NO_TERMINAL};

#[test]
fn raw_mode_there_and_back() {
    let mode = RawMode::enter(5, NO_TERMINAL);
    assert_eq!((mode.step, mode.cleanup_fd), (RawStep::ReadSettings, NO_TERMINAL));
    let mode = mode.after(0);
    assert_eq!((mode.step, mode.cleanup_fd), (RawStep::KeepSettings, NO_TERMINAL));
    let mode = mode.after(0);
    assert_eq!((mode.step, mode.cleanup_fd), (RawStep::ApplyRaw, 5));
    let mode = mode.after(0);
    assert_eq!((mode.step, mode.cleanup_fd), (RawStep::Raw, 5));
    let mode = mode.after(0);
    assert_eq!((mode.step, mode.cleanup_fd), (RawStep::Left, NO_TERMINAL));
}

#[test]
fn raw_mode_that_fails() {
    let mode = RawMode::enter(5, NO_TERMINAL).after(-1);
    assert_eq!((mode.step, mode.cleanup_fd), (RawStep::Failed, NO_TERMINAL));
    let mode = RawMode::enter(5, NO_TERMINAL).after(0).after(0).after(-1);
    assert_eq!((mode.step, mode.cleanup_fd), (RawStep::Failed, 5));
    assert_eq!(mode.after(0), mode);
}

#[test]
fn a_signal_restores_a_terminal_only_if_there_is_one() {
    assert_eq!(terminal_to_restore(NO_TERMINAL), None);
    assert_eq!(terminal_to_restore(0), Some(0));
    assert_eq!(terminal_to_restore(7), Some(7));
}

#[test]
fn terminal_sizes() {
    assert_eq!(get_terminal_size(0, 50, 132), (50, 132));
    assert_eq!(get_terminal_size(-1, 50, 132), (24, 80));
    assert_eq!(get_terminal_size(0, 0, 132), (24, 80));
    assert_eq!(get_terminal_size(0, 50, 0), (24, 80));
}
