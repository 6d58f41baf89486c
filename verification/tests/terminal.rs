use mdk::terminal::{TerminalError, TerminalIO};

#[test]
fn new_terminal_is_free() {
    let terminal = TerminalIO::new();
    assert!(!terminal.is_held());
}

#[test]
fn acquiring_hands_out_a_live_handle() {
    let mut terminal = TerminalIO::new();
    let handle = terminal.acquire_raw().expect("a free terminal can be acquired");
    assert!(handle.is_live());
    assert!(terminal.is_held());
}

#[test]
fn acquiring_twice_before_release_fails() {
    let mut terminal = TerminalIO::new();
    let first = terminal.acquire_raw();
    assert!(first.is_ok());
    let second = terminal.acquire_raw();
    assert_eq!(second.err(), Some(TerminalError::TerminalUnavailable));
    let third = terminal.acquire_raw();
    assert_eq!(third.err(), Some(TerminalError::TerminalUnavailable));
    assert!(terminal.is_held());
    assert!(first.unwrap().is_live());
}

#[test]
fn release_can_be_called_any_number_of_times() {
    let mut terminal = TerminalIO::new();
    let mut handle = terminal.acquire_raw().unwrap();
    assert!(terminal.release(&mut handle));
    assert!(!handle.is_live());
    assert!(!terminal.is_held());
    for _ in 0..5 {
        assert!(!terminal.release(&mut handle));
        assert!(!handle.is_live());
        assert!(!terminal.is_held());
    }
}

#[test]
fn released_terminal_can_be_acquired_again() {
    let mut terminal = TerminalIO::new();
    let mut first = terminal.acquire_raw().unwrap();
    assert!(terminal.release(&mut first));
    let mut second = terminal.acquire_raw().expect("the terminal is free again");
    assert!(second.is_live());
    assert!(terminal.is_held());
    assert!(terminal.acquire_raw().is_err());
    assert!(terminal.release(&mut second));
    assert!(!terminal.is_held());
}

#[test]
fn releasing_a_spent_handle_leaves_the_live_one_in_control() {
    let mut terminal = TerminalIO::new();
    let mut spent = terminal.acquire_raw().unwrap();
    assert!(terminal.release(&mut spent));
    let live = terminal.acquire_raw().unwrap();
    assert!(!terminal.release(&mut spent));
    assert!(terminal.is_held());
    assert!(live.is_live());
}
