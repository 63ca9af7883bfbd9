//! Finding changes of the clipboard by polling its change count.
use super::{ClipboardBackend, ClipboardEvent, SuppressGuard};
use crate::outside::now_millis;
use vstd::prelude::*;

verus! {

/// Time between two polls, in milliseconds.
pub const POLL_INTERVAL_MS: u64 = 500;

/// What a poll of the change count found.
#[derive(Debug, Clone, Copy, PartialEq, Eq, Structural)]
pub enum Observation {
    /// The clipboard is as it was.
    Unchanged,
    /// It changed while the sentinel was set: the change is this node's own.
    Suppressed,
    /// It changed.
    Changed,
}

/// What became of an event handed to its consumer.
#[derive(Debug, Clone, Copy, PartialEq, Eq, Structural)]
pub enum Delivery {
    Accepted,
    /// The consumer is behind; the event is dropped.
    Full,
    /// The consumer is gone.
    Closed,
}

/// The monitor of the clipboard: it remembers the change count it saw last.
pub struct ClipboardMonitor {
    last_count: i64,
}

/// What a poll finds, given the count seen last, the count seen now and the sentinel.
pub open spec fn observation(last: i64, current: i64, armed: bool) -> Observation {
    if current == last {
        Observation::Unchanged
    } else if armed {
        Observation::Suppressed
    } else {
        Observation::Changed
    }
}

/// Whether the sentinel is still set after a poll.
pub open spec fn armed_after(last: i64, current: i64, armed: bool) -> bool {
    armed && current == last
}

/// The change that a guarded write makes is skipped, once: the poll that first
/// sees it reports nothing and clears the sentinel, a poll after that finds the
/// clipboard unchanged, and the next change, `later`, is reported.
pub proof fn own_write_is_skipped_once(last: i64, written: i64, later: i64)
    requires
        written != last,
        later != written,
    ensures
        observation(last, written, true) == Observation::Suppressed,
        !armed_after(last, written, true),
        observation(written, written, armed_after(last, written, true)) == Observation::Unchanged,
        observation(written, later, armed_after(last, written, true)) == Observation::Changed,
{
}

/// Whether `timestamp` is what the clock gave.
pub closed spec fn time_was_read(timestamp: i64) -> bool {
    call_ensures(now_millis, (), timestamp)
}

/// Whether `r` is the event for a text that was read, with the time that the clock
/// gave: an empty or missing text makes none.
pub open spec fn is_event_of(text: Option<String>, r: Option<ClipboardEvent>) -> bool {
    match text {
        Some(text) => if text@.len() > 0 {
            r matches Some(event) && event.text == text && time_was_read(event.timestamp)
        } else {
            r is None
        },
        None => r is None,
    }
}

/// A time that was read is what the clock gave.
pub(crate) proof fn a_time_read_is_what_the_clock_gave(timestamp: i64)
    requires
        time_was_read(timestamp),
    ensures
        call_ensures(now_millis, (), timestamp),
{
}

/// A text that was read is reported whole and unchanged, however long it is; only an
/// empty or missing one is not reported.
pub proof fn a_text_is_reported_whole(text: Option<String>, r: Option<ClipboardEvent>)
    requires
        is_event_of(text, r),
    ensures
        r is Some <==> text is Some && text->0@.len() > 0,
        r is Some ==> r->0.text@ == text->0@,
{
}

/// A change is found if and only if the count differs from the one seen last, and is
/// taken for the node's own if and only if the sentinel is set; the sentinel is cleared
/// by just those changes.
pub proof fn a_change_is_told_by_the_count(last: i64, current: i64, armed: bool)
    ensures
        observation(last, current, armed) == Observation::Unchanged <==> current == last,
        observation(last, current, armed) == Observation::Suppressed <==> current != last && armed,
        observation(last, current, armed) == Observation::Changed <==> current != last && !armed,
        armed_after(last, current, armed) <==> armed && current == last,
{
}

/// Makes the event for a text that was read; an empty or missing text makes none.
pub fn event_for(text: Option<String>, timestamp: i64) -> (r: Option<ClipboardEvent>)
    ensures
        match r {
            Some(event) => {
                &&& text is Some
                &&& text->0@.len() > 0
                &&& event.text == text->0
                &&& event.timestamp == timestamp
            },
            None => text is None || text->0@.len() == 0,
        },
{
    match text {
        Some(text) => if text.as_str().is_empty() {
            None
        } else {
            Some(ClipboardEvent { text, timestamp })
        },
        None => None,
    }
}

/// Whether the monitor goes on after handing an event over.
pub fn goes_on(delivery: Delivery) -> (r: bool)
    ensures
        r == (delivery != Delivery::Closed),
{
    delivery != Delivery::Closed
}

impl ClipboardMonitor {
    /// The change count seen last.
    pub closed spec fn last_count(self) -> i64 {
        self.last_count
    }

    /// A monitor that has seen the given change count.
    pub fn new(initial_count: i64) -> (m: Self)
        ensures
            m.last_count() == initial_count,
    {
        ClipboardMonitor { last_count: initial_count }
    }

    /// Takes note of the change count and says what to make of it.
    pub fn observe(&mut self, current_count: i64, guard: &mut SuppressGuard) -> (r: Observation)
        ensures
            r == observation(old(self).last_count(), current_count, old(guard).armed()),
            r == Observation::Unchanged <==> current_count == old(self).last_count(),
            r == Observation::Suppressed <==> current_count != old(self).last_count()
                && old(guard).armed(),
            final(guard).armed() <==> old(guard).armed() && current_count == old(self).last_count(),
            final(self).last_count() == current_count,
            final(guard).armed() == armed_after(
                old(self).last_count(),
                current_count,
                old(guard).armed(),
            ),
    {
        if current_count == self.last_count {
            return Observation::Unchanged;
        }
        self.last_count = current_count;
        if guard.check_and_clear() {
            Observation::Suppressed
        } else {
            Observation::Changed
        }
    }

    /// Polls the clipboard once. The monitor takes note of the count that the
    /// backend gave. If the clipboard is found changed, the event is that of the text
    /// that the backend gave, if there is one that is not empty; otherwise there is
    /// none.
    pub fn poll<B: ClipboardBackend>(&mut self, backend: &B, guard: &mut SuppressGuard) -> (r:
        Option<ClipboardEvent>)
        ensures
            call_ensures(B::change_count, (backend,), final(self).last_count()),
            final(guard).armed() <==> old(guard).armed() && final(self).last_count() == old(
                self,
            ).last_count(),
            final(self).last_count() == old(self).last_count() || old(guard).armed() ==> r is None,
            final(self).last_count() != old(self).last_count() && !old(guard).armed()
                ==> exists|text: Option<String>|
                {
                    &&& #[trigger] call_ensures(B::read_text, (backend,), text)
                    &&& r is Some <==> text is Some && text->0@.len() > 0
                    &&& r is Some ==> r->0.text@ == text->0@ && time_was_read(r->0.timestamp)
                },
            final(guard).armed() == armed_after(
                old(self).last_count(),
                final(self).last_count(),
                old(guard).armed(),
            ),
            if observation(
                old(self).last_count(),
                final(self).last_count(),
                old(guard).armed(),
            ) == Observation::Changed {
                exists|text: Option<String>|
                    {
                        &&& #[trigger] call_ensures(B::read_text, (backend,), text)
                        &&& is_event_of(text, r)
                    }
            } else {
                r is None
            },
    {
        let current_count = backend.change_count();
        match self.observe(current_count, guard) {
            Observation::Changed => {
                let text = backend.read_text();
                event_for(text, now_millis())
            },
            _ => None,
        }
    }
}

} // verus!
