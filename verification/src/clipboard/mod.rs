//! Watching the clipboard and writing to it.
//!
//! A text that arrives from another node is written to the local clipboard, which
//! the monitor would see as a change and send out again. A sentinel breaks that
//! loop: it is set before such a write, and the next change that the monitor sees
//! while it is set is skipped and clears it.
pub mod macos;
pub mod monitor;
pub mod windows;

use vstd::prelude::*;

verus! {

/// A change of the clipboard.
#[derive(Debug, Clone)]
pub struct ClipboardEvent {
    /// The new text.
    pub text: String,
    /// When it was seen, in Unix milliseconds.
    pub timestamp: i64,
}

/// The sentinel that keeps a text written for a remote node from being sent out again.
///
/// A node has one, which the monitor and the writer take turns at.
#[derive(Debug)]
pub struct SuppressGuard {
    armed: bool,
}

/// A call on a sentinel.
#[derive(Debug, Clone, Copy, PartialEq, Eq, Structural)]
pub enum GuardCall {
    Arm,
    Disarm,
    CheckAndClear,
}

/// Whether a sentinel is set after a call.
pub open spec fn armed_after_call(armed: bool, call: GuardCall) -> bool {
    match call {
        GuardCall::Arm => true,
        GuardCall::Disarm => false,
        GuardCall::CheckAndClear => false,
    }
}

/// Whether a new sentinel is set after a history of calls, each by one of those who
/// share it: whoever it is, the call is on the same sentinel.
pub open spec fn armed_after_calls(history: Seq<(nat, GuardCall)>) -> bool
    decreases history.len(),
{
    if history.len() == 0 {
        false
    } else {
        armed_after_call(armed_after_calls(history.drop_last()), history.last().1)
    }
}

/// The latest call decides, whoever made it: a sentinel is found set if and only if
/// the call before was one that set it. Setting it twice is the same as setting it
/// once, and once found or cleared it is clear for everyone.
pub proof fn the_latest_call_decides(history: Seq<(nat, GuardCall)>, holder: nat)
    ensures
        armed_after_calls(history) <==> history.len() > 0 && history.last().1 == GuardCall::Arm,
        armed_after_calls(history.push((holder, GuardCall::Arm))),
        armed_after_calls(history.push((holder, GuardCall::Arm)).push((holder, GuardCall::Arm))),
        !armed_after_calls(history.push((holder, GuardCall::Disarm))),
        !armed_after_calls(history.push((holder, GuardCall::CheckAndClear))),
{
}

impl SuppressGuard {
    /// Whether the sentinel is set.
    pub closed spec fn armed(self) -> bool {
        self.armed
    }

    /// A sentinel that is not set.
    pub fn new() -> (g: Self)
        ensures
            !g.armed(),
    {
        SuppressGuard { armed: false }
    }

    /// Sets the sentinel: a write is about to begin.
    pub fn arm(&mut self)
        ensures
            final(self).armed(),
            final(self).armed() == armed_after_call(old(self).armed(), GuardCall::Arm),
    {
        self.armed = true;
    }

    /// Clears the sentinel.
    pub fn disarm(&mut self)
        ensures
            !final(self).armed(),
            final(self).armed() == armed_after_call(old(self).armed(), GuardCall::Disarm),
    {
        self.armed = false;
    }

    /// Says whether the sentinel was set, and clears it.
    pub fn check_and_clear(&mut self) -> (was_armed: bool)
        ensures
            was_armed == old(self).armed(),
            !final(self).armed(),
            final(self).armed() == armed_after_call(old(self).armed(), GuardCall::CheckAndClear),
    {
        let was_armed: bool = self.armed;
        self.armed = false;
        was_armed
    }
}

impl Default for SuppressGuard {
    fn default() -> (g: Self)
        ensures
            !g.armed(),
    {
        SuppressGuard::new()
    }
}

/// A platform's clipboard.
pub trait ClipboardBackend: Send + Sync {
    /// The text on the clipboard; `None` if it is empty or holds no text.
    fn read_text(&self) -> Option<String>;

    /// Puts a text on the clipboard. The sentinel is set before the clipboard is
    /// touched; it stays set if the text was stored and is cleared if it was not.
    fn write_text(&self, text: &str, guard: &mut SuppressGuard) -> Result<(), String>;

    /// A number that differs after every change of the clipboard.
    fn change_count(&self) -> i64;
}

/// Ends a write that set the sentinel: it stays set for the monitor to find if the
/// text was stored, and is cleared if it was not.
pub fn settle_write(outcome: Result<(), String>, guard: &mut SuppressGuard) -> (r: Result<
    (),
    String,
>)
    ensures
        r == outcome,
        final(guard).armed() == (outcome is Ok && old(guard).armed()),
{
    if outcome.is_err() {
        guard.disarm();
    }
    outcome
}

} // verus!
