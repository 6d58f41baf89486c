//! Exclusive ownership of the local terminal's raw mode.
//!
//! The switch between cooked and raw mode is performed on the device by the
//! program that embeds this library. This module keeps the books: it decides
//! whether an acquisition may go ahead, and whether a release is the one
//! that has to restore the device.

use vstd::prelude::*;

verus! {

/// Why raw-mode control of the terminal was not handed out.
#[derive(Clone, Copy, Debug, PartialEq, Eq, Structural)]
pub enum TerminalError {
    /// A handle is live already: the terminal is under someone's control.
    TerminalUnavailable,
}

/// The process-wide record of who controls the terminal's mode.
#[derive(Debug)]
pub struct TerminalIO {
    raw: bool,
}

/// The token that stands for exclusive raw-mode control.
#[derive(Debug)]
pub struct TerminalHandle {
    live: bool,
}

/// What an acquisition does to a terminal of which `held` says whether a
/// handle is live: whether a handle is live afterwards, and whether one was
/// handed out. A handle is handed out exactly when none was live.
pub open spec fn acquired(held: bool) -> (bool, bool) {
    (true, !held)
}

/// What the release of a handle does to a terminal of which `held` says
/// whether a handle is live, where `live` says whether it is the handle
/// released: whether a handle is live afterwards, and whether the device has
/// to be restored. Only the live handle restores the device.
pub open spec fn released(held: bool, live: bool) -> (bool, bool) {
    (held && !live, live)
}

impl TerminalHandle {
    /// Whether this handle still controls the terminal.
    pub closed spec fn live(&self) -> bool {
        self.live
    }

    /// Whether this handle still controls the terminal.
    pub fn is_live(&self) -> (live: bool)
        ensures
            live == self.live(),
    {
        self.live
    }
}

impl TerminalIO {
    /// Whether a live handle exists, that is, whether the terminal is raw.
    pub closed spec fn held(&self) -> bool {
        self.raw
    }

    /// A terminal in cooked mode that nobody controls.
    pub fn new() -> (terminal: Self)
        ensures
            !terminal.held(),
    {
        TerminalIO { raw: false }
    }

    /// Whether a live handle exists.
    pub fn is_held(&self) -> (held: bool)
        ensures
            held == self.held(),
    {
        self.raw
    }

    /// Hands out the handle if none is live. Otherwise the acquisition fails
    /// and the live handle stays in control.
    pub fn acquire_raw(&mut self) -> (outcome: Result<TerminalHandle, TerminalError>)
        ensures
            final(self).held() == acquired(old(self).held()).0,
            outcome is Ok == acquired(old(self).held()).1,
            outcome matches Ok(handle) ==> handle.live(),
            outcome matches Err(error) ==> error == TerminalError::TerminalUnavailable,
    {
        if self.raw {
            Err(TerminalError::TerminalUnavailable)
        } else {
            self.raw = true;
            Ok(TerminalHandle { live: true })
        }
    }

    /// Gives the terminal back. The release of the live handle returns
    /// `true`: the device has to be put back into cooked mode now. Any later
    /// release of that handle returns `false` and changes nothing. A release
    /// never fails.
    pub fn release(&mut self, handle: &mut TerminalHandle) -> (restore: bool)
        ensures
            final(self).held() == released(old(self).held(), old(handle).live()).0,
            restore == released(old(self).held(), old(handle).live()).1,
            !final(handle).live(),
    {
        if handle.live {
            handle.live = false;
            self.raw = false;
            true
        } else {
            false
        }
    }
}

/// Whoever acquires the terminal a second time before it was released is
/// turned away, whatever state the terminal was in at first.
pub proof fn lemma_second_acquisition_fails(held: bool)
    ensures
        !acquired(acquired(held).0).1,
        acquired(acquired(held).0).0,
{
}

/// A handle can be released any number of times: the first release of the
/// live handle frees the terminal and restores the device, and every
/// further release restores nothing and leaves the terminal as it is.
pub proof fn lemma_release_is_idempotent(held: bool, live: bool, times: nat)
    ensures
        repeated_release(released(held, live).0, times) == released(held, live).0,
{
    lemma_dead_release_changes_nothing(released(held, live).0, times);
}

/// The terminal after a handle that is no longer live was released `times`
/// times.
pub open spec fn repeated_release(held: bool, times: nat) -> bool
    decreases times,
{
    if times == 0 {
        held
    } else {
        released(repeated_release(held, (times - 1) as nat), false).0
    }
}

/// Releasing a handle that is not live changes nothing, however often.
proof fn lemma_dead_release_changes_nothing(held: bool, times: nat)
    ensures
        repeated_release(held, times) == held,
    decreases times,
{
    if times > 0 {
        lemma_dead_release_changes_nothing(held, (times - 1) as nat);
    }
}

/// Once the live handle was released, the terminal can be acquired again.
pub proof fn lemma_released_terminal_is_free()
    ensures
        acquired(released(true, true).0).1,
{
}

} // verus!
