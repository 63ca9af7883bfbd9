//! The clipboard of Windows.
//!
//! Text stands on it as UTF-16 with a terminating zero, in a block of global
//! memory. Reading and writing are sequences of system calls, of which every one
//! may fail; whatever happens, a clipboard that was opened must be closed again,
//! and a block of memory must be freed unless the system has taken it over.
use super::SuppressGuard;
use crate::outside::string_from_utf16;
use vstd::prelude::*;
use vstd::slice::slice_subrange;

verus! {

/// The UTF-16 code units of a character.
pub open spec fn char_units(c: char) -> Seq<u16> {
    if (c as int) < 0x10000 {
        seq![c as u16]
    } else {
        seq![
            (0xd800 + (c as int - 0x10000) / 0x400) as u16,
            (0xdc00 + (c as int - 0x10000) % 0x400) as u16,
        ]
    }
}

/// The UTF-16 code units of a text.
pub open spec fn utf16(text: Seq<char>) -> Seq<u16>
    decreases text.len(),
{
    if text.len() == 0 {
        seq![]
    } else {
        utf16(text.drop_last()) + char_units(text.last())
    }
}

/// Whether a unit begins a pair of surrogates.
pub open spec fn is_high_surrogate(unit: u16) -> bool {
    0xd800 <= unit < 0xdc00
}

/// Whether a unit ends a pair of surrogates.
pub open spec fn is_low_surrogate(unit: u16) -> bool {
    0xdc00 <= unit < 0xe000
}

/// The text that UTF-16 code units stand for, with the replacement character for every
/// surrogate that is not one of a pair.
pub open spec fn utf16_text(units: Seq<u16>) -> Seq<char>
    decreases units.len(),
{
    if units.len() == 0 {
        seq![]
    } else if is_high_surrogate(units[0]) && units.len() > 1 && is_low_surrogate(units[1]) {
        let c = (0x10000 + (units[0] - 0xd800) * 0x400 + (units[1] - 0xdc00)) as char;
        seq![c] + utf16_text(units.skip(2))
    } else if is_high_surrogate(units[0]) || is_low_surrogate(units[0]) {
        seq!['\u{fffd}'] + utf16_text(units.drop_first())
    } else {
        seq![units[0] as char] + utf16_text(units.drop_first())
    }
}

/// The units of a text are those of its first character and those of the rest.
proof fn utf16_from_the_front(text: Seq<char>)
    requires
        text.len() > 0,
    ensures
        utf16(text) == char_units(text[0]) + utf16(text.drop_first()),
    decreases text.len(),
{
    let rest = text.drop_first();
    if text.len() == 1 {
        assert(text.drop_last() =~= seq![]);
        assert(rest =~= seq![]);
        assert(utf16(text) =~= char_units(text[0]) + utf16(rest));
    } else {
        utf16_from_the_front(text.drop_last());
        assert(text.drop_last().drop_first() =~= rest.drop_last());
        assert(rest.last() == text.last());
        assert(utf16(text) =~= char_units(text[0]) + utf16(rest));
    }
}

/// A character below 0x10000 is one unit, its own number; any other is a pair of
/// surrogates, each with half of the bits.
pub proof fn a_character_is_one_unit_or_a_pair(c: char)
    ensures
        ({
            let units = char_units(c);
            &&& (c as int) < 0x10000 ==> units.len() == 1 && units[0] as int == c as int
            &&& c as int >= 0x10000 ==> {
                &&& units.len() == 2
                &&& 0xd800 <= units[0] < 0xdc00
                &&& 0xdc00 <= units[1] < 0xe000
                &&& c as int == 0x10000 + (units[0] - 0xd800) * 0x400 + (units[1] - 0xdc00)
            }
        }),
{
    let offset = c as int - 0x10000;
    if offset >= 0 {
        assert(0 <= offset / 0x400 < 0x400 && 0 <= offset % 0x400 < 0x400);
    }
}

/// A text is encoded character by character.
pub proof fn characters_are_encoded_one_by_one(a: Seq<char>, b: Seq<char>, c: char)
    ensures
        utf16(seq![c]) == char_units(c),
        utf16(a + b) == utf16(a) + utf16(b),
    decreases b.len(),
{
    reveal_with_fuel(utf16, 2);
    assert(seq![c].drop_last() =~= seq![]);
    assert(utf16(seq![c]) =~= char_units(c));
    if b.len() == 0 {
        assert(a + b =~= a);
        assert(utf16(a + b) =~= utf16(a) + utf16(b));
    } else {
        characters_are_encoded_one_by_one(a, b.drop_last(), c);
        assert((a + b).drop_last() =~= a + b.drop_last());
        assert(utf16(a + b) =~= utf16(a) + utf16(b));
    }
}

/// Units are decoded from the front: a pair of surrogates gives the character with their
/// bits, any other surrogate the replacement character, and any other unit the character
/// of its number.
pub proof fn units_are_decoded_from_the_front(units: Seq<u16>)
    ensures
        units.len() == 0 ==> utf16_text(units).len() == 0,
        units.len() > 0 ==> utf16_text(units).len() > 0 && {
            let c = utf16_text(units)[0];
            let pair = units.len() > 1 && 0xd800 <= units[0] < 0xdc00 && 0xdc00 <= units[1] < 0xe000;
            &&& pair ==> c as int == 0x10000 + (units[0] - 0xd800) * 0x400 + (units[1] - 0xdc00)
                && utf16_text(units).drop_first() == utf16_text(units.skip(2))
            &&& !pair ==> utf16_text(units).drop_first() == utf16_text(units.drop_first())
            &&& !pair && 0xd800 <= units[0] < 0xe000 ==> c as int == 0xfffd
            &&& !(0xd800 <= units[0] < 0xe000) ==> c as int == units[0]
        },
{
    if units.len() > 0 {
        let s = utf16_text(units);
        if is_high_surrogate(units[0]) && units.len() > 1 && is_low_surrogate(units[1]) {
            assert(s.drop_first() =~= utf16_text(units.skip(2)));
        } else {
            assert(s.drop_first() =~= utf16_text(units.drop_first()));
        }
    }
}

/// What precedes the first zero is the beginning of the units, holds no zero, and is
/// followed by one or is all there is.
pub proof fn the_first_zero_ends_the_text(units: Seq<u16>)
    ensures
        before_zero(units).is_prefix_of(units),
        forall|i: int| 0 <= i < before_zero(units).len() ==> before_zero(units)[i] != 0,
        before_zero(units).len() == units.len() || units[before_zero(units).len() as int] == 0,
    decreases units.len(),
{
    if units.len() > 0 && units[0] != 0 {
        let rest = units.drop_first();
        let tail = before_zero(rest);
        let head = before_zero(units);
        the_first_zero_ends_the_text(rest);
        assert(head =~= seq![units[0]] + tail);
        assert forall|i: int| 0 <= i < head.len() implies head[i] != 0 && head[i] == units[i] by {
            if i > 0 {
                assert(head[i] == tail[i - 1]);
                assert(rest.subrange(0, tail.len() as int)[i - 1] == rest[i - 1]);
            }
        }
        assert(head =~= units.subrange(0, head.len() as int));
    } else {
        assert(before_zero(units) =~= units.subrange(0, 0));
    }
}

/// The units of a character stand for it, whatever follows them.
proof fn char_units_round_trip(c: char, rest: Seq<u16>)
    ensures
        utf16_text(char_units(c) + rest) == seq![c] + utf16_text(rest),
{
    let head = char_units(c);
    let units = head + rest;
    if (c as int) < 0x10000 {
        assert(units[0] == head[0]);
        assert(units.drop_first() =~= rest);
        assert(units[0] as char == c);
    } else {
        let offset = c as int - 0x10000;
        assert(0 <= offset / 0x400 < 0x400 && 0 <= offset % 0x400 < 0x400);
        assert(units[0] == head[0] && units[1] == head[1]);
        assert(units.skip(2) =~= rest);
        assert(0x10000 + (units[0] - 0xd800) * 0x400 + (units[1] - 0xdc00) == c as int);
    }
}

/// What a text is encoded to stands for that text.
pub proof fn utf16_round_trip(text: Seq<char>)
    ensures
        utf16_text(utf16(text)) == text,
    decreases text.len(),
{
    if text.len() > 0 {
        let rest = text.drop_first();
        utf16_from_the_front(text);
        utf16_round_trip(rest);
        char_units_round_trip(text[0], utf16(rest));
        assert(text =~= seq![text[0]] + rest);
    }
}

/// The units before the first zero, or all of them if there is none.
pub open spec fn before_zero(units: Seq<u16>) -> Seq<u16>
    decreases units.len(),
{
    if units.len() == 0 || units[0] == 0 {
        seq![]
    } else {
        seq![units[0]] + before_zero(units.drop_first())
    }
}

/// Appends the UTF-16 code units of a character.
fn push_units(units: &mut Vec<u16>, c: char)
    ensures
        final(units)@ == old(units)@ + char_units(c),
{
    let v: u32 = c as u32;
    if v < 0x10000 {
        units.push(v as u16);
    } else {
        let offset: u32 = v - 0x10000;
        units.push((0xd800 + offset / 0x400) as u16);
        units.push((0xdc00 + offset % 0x400) as u16);
    }
    assert(units@ =~= old(units)@ + char_units(c));
}

/// Encodes a text in UTF-16 with a terminating zero.
pub fn encode_wide(text: &str) -> (units: Vec<u16>)
    ensures
        units@ == utf16(text@).push(0),
{
    let mut units: Vec<u16> = Vec::new();
    for c in it: text.chars()
        invariant
            it.seq() == text@,
            units@ == utf16(text@.take(it.index())),
    {
        assert(text@.take(it.index() + 1).drop_last() =~= text@.take(it.index()));
        push_units(&mut units, c);
    }
    assert(text@.take(text@.len() as int) =~= text@);
    units.push(0);
    units
}

/// The number of units before the first zero.
fn zero_at(units: &[u16]) -> (n: usize)
    ensures
        n <= units@.len(),
        before_zero(units@) == units@.take(n as int),
{
    let mut n: usize = 0;
    while n < units.len() && units[n] != 0
        invariant
            n <= units@.len(),
            forall|i: int| 0 <= i < n ==> units@[i] != 0,
        decreases units@.len() - n,
    {
        n += 1;
    }
    proof {
        before_zero_is_prefix(units@, n as int);
    }
    n
}

/// Whatever precedes the first zero is a prefix of the units.
proof fn before_zero_is_prefix(units: Seq<u16>, n: int)
    requires
        0 <= n <= units.len(),
        forall|i: int| 0 <= i < n ==> units[i] != 0,
        n < units.len() ==> units[n] == 0,
    ensures
        before_zero(units) == units.take(n),
    decreases n,
{
    if n > 0 {
        before_zero_is_prefix(units.drop_first(), n - 1);
        assert(seq![units[0]] + units.drop_first().take(n - 1) =~= units.take(n));
    } else {
        assert(units.take(0) =~= seq![]);
    }
}

/// Decodes the text in UTF-16 code units: what stands before the first zero, with
/// the replacement character for what is no valid UTF-16.
pub fn decode_wide(units: &[u16]) -> (text: String)
    ensures
        text@ == utf16_text(before_zero(units@)),
        exists|n: int|
            {
                &&& 0 <= n <= units@.len()
                &&& forall|i: int| 0 <= i < n ==> units@[i] != 0
                &&& n < units@.len() ==> units@[n] == 0
                &&& text@ == utf16_text(#[trigger] units@.take(n))
            },
{
    let n = zero_at(units);
    let head = slice_subrange(units, 0, n);
    assert(head@ =~= units@.take(n as int));
    proof {
        the_first_zero_ends_the_text(units@);
        assert forall|i: int| 0 <= i < n implies units@[i] != 0 by {
            assert(units@.take(n as int)[i] == units@[i]);
        }
        assert(before_zero(units@).len() == n);
    }
    string_from_utf16(head)
}

/// A text without the zero character is written so that it is read back whole:
/// the units that precede the first zero are the units of the text, and stand for it.
pub proof fn wide_round_trip(text: Seq<char>)
    requires
        forall|i: int| 0 <= i < text.len() ==> text[i] != 0 as char,
    ensures
        before_zero(utf16(text).push(0)) == utf16(text),
        utf16_text(before_zero(utf16(text).push(0))) == text,
{
    utf16_round_trip(text);
    units_not_zero(text);
    let units = utf16(text).push(0);
    before_zero_is_prefix(units, utf16(text).len() as int);
    assert(units.take(utf16(text).len() as int) =~= utf16(text));
}

/// The units of a text without the zero character are not zero.
proof fn units_not_zero(text: Seq<char>)
    requires
        forall|i: int| 0 <= i < text.len() ==> text[i] != 0 as char,
    ensures
        forall|i: int| 0 <= i < utf16(text).len() ==> utf16(text)[i] != 0,
    decreases text.len(),
{
    if text.len() > 0 {
        let head = utf16(text.drop_last());
        let tail = char_units(text.last());
        units_not_zero(text.drop_last());
        char_units_not_zero(text.last());
        assert forall|i: int| 0 <= i < utf16(text).len() implies utf16(text)[i] != 0 by {
            if i < head.len() {
                assert(utf16(text)[i] == head[i]);
            } else {
                assert(utf16(text)[i] == tail[i - head.len()]);
            }
        }
    }
}

/// The units of a character other than zero are not zero.
proof fn char_units_not_zero(c: char)
    requires
        c != 0 as char,
    ensures
        forall|i: int| 0 <= i < char_units(c).len() ==> char_units(c)[i] != 0,
{
}

/// The clipboard of Windows.
#[derive(Debug)]
pub struct WindowsClipboard;

impl WindowsClipboard {
    /// The clipboard of Windows.
    pub fn new() -> (c: Self)
        ensures
            c == WindowsClipboard,
    {
        WindowsClipboard
    }
}

/// A system call of a write.
#[derive(Debug, Clone, Copy, PartialEq, Eq, Structural)]
pub enum WriteCall {
    /// Opens the clipboard.
    Open,
    /// Empties it.
    Empty,
    /// Allocates a block of global memory for the text.
    Allocate,
    /// Locks the block to get at its bytes.
    Lock,
    /// Copies the text into the locked block.
    Fill,
    /// Unlocks the block.
    Unlock,
    /// Puts the block on the clipboard; the system owns it from then on.
    SetData,
    /// Frees the block.
    Free,
    /// Closes the clipboard.
    Close,
}

/// What is held while a write is under way.
pub struct Holdings {
    /// The clipboard is open.
    pub open: bool,
    /// A block of memory is allocated and not handed over.
    pub block: bool,
    /// The block is locked.
    pub locked: bool,
}

/// The call that follows a call which succeeded, or failed; `None` ends the write.
pub open spec fn next_write_call(call: WriteCall, ok: bool) -> Option<WriteCall> {
    match call {
        WriteCall::Open => if ok {
            Some(WriteCall::Empty)
        } else {
            None
        },
        WriteCall::Empty => Some(WriteCall::Allocate),
        WriteCall::Allocate => if ok {
            Some(WriteCall::Lock)
        } else {
            Some(WriteCall::Close)
        },
        WriteCall::Lock => if ok {
            Some(WriteCall::Fill)
        } else {
            Some(WriteCall::Free)
        },
        WriteCall::Fill => Some(WriteCall::Unlock),
        WriteCall::Unlock => Some(WriteCall::SetData),
        WriteCall::SetData => if ok {
            Some(WriteCall::Close)
        } else {
            Some(WriteCall::Free)
        },
        WriteCall::Free => Some(WriteCall::Close),
        WriteCall::Close => None,
    }
}

/// The error of the whole write if this call fails with the text `e`; `None` if
/// the write does not depend on it.
pub open spec fn write_failure(call: WriteCall, e: Seq<char>) -> Option<Seq<char>> {
    match call {
        WriteCall::Open => Some("OpenClipboard failed"@),
        WriteCall::Allocate => Some("GlobalAlloc failed: "@ + e),
        WriteCall::Lock => Some("GlobalLock failed"@),
        WriteCall::SetData => Some("SetClipboardData failed"@),
        _ => None,
    }
}

/// What is held before a call, or at the end.
pub open spec fn held_before(pending: Option<WriteCall>) -> Holdings {
    match pending {
        None | Some(WriteCall::Open) => Holdings { open: false, block: false, locked: false },
        Some(WriteCall::Empty) | Some(WriteCall::Allocate) | Some(WriteCall::Close) => Holdings {
            open: true,
            block: false,
            locked: false,
        },
        Some(WriteCall::Lock) | Some(WriteCall::SetData) | Some(WriteCall::Free) => Holdings {
            open: true,
            block: true,
            locked: false,
        },
        Some(WriteCall::Fill) | Some(WriteCall::Unlock) => Holdings {
            open: true,
            block: true,
            locked: true,
        },
    }
}

/// What is held after a call that succeeded, or failed.
pub open spec fn held_after(held: Holdings, call: WriteCall, ok: bool) -> Holdings {
    match call {
        WriteCall::Open => Holdings { open: ok, ..held },
        WriteCall::Allocate => Holdings { block: ok, ..held },
        WriteCall::Lock => Holdings { locked: ok, ..held },
        WriteCall::Unlock => Holdings { locked: false, ..held },
        WriteCall::SetData => Holdings { block: !ok, ..held },
        WriteCall::Free => Holdings { block: false, ..held },
        WriteCall::Close => Holdings { open: false, ..held },
        _ => held,
    }
}

/// An upper bound on the calls still to come.
pub open spec fn write_calls_left(pending: Option<WriteCall>) -> nat {
    match pending {
        Some(WriteCall::Open) => 9,
        Some(WriteCall::Empty) => 8,
        Some(WriteCall::Allocate) => 7,
        Some(WriteCall::Lock) => 6,
        Some(WriteCall::Fill) => 5,
        Some(WriteCall::Unlock) => 4,
        Some(WriteCall::SetData) => 3,
        Some(WriteCall::Free) => 2,
        Some(WriteCall::Close) => 1,
        None => 0,
    }
}

/// How far a write has come.
pub struct WriteState {
    /// The call that is due; `None` at the end.
    pub pending: Option<WriteCall>,
    pub held: Holdings,
    /// The clipboard was emptied, as far as the system lets it.
    pub emptied: bool,
    /// The text was copied into the block.
    pub filled: bool,
    /// The text is on the clipboard.
    pub stored: bool,
    /// A call failed on which the write depends.
    pub failed: bool,
    /// The sentinel is set.
    pub armed: bool,
}

/// A write that has not made a call yet.
pub open spec fn write_begun() -> WriteState {
    WriteState {
        pending: Some(WriteCall::Open),
        held: Holdings { open: false, block: false, locked: false },
        emptied: false,
        filled: false,
        stored: false,
        failed: false,
        armed: true,
    }
}

/// A write after a call that succeeded, or failed.
pub open spec fn after_write_call(state: WriteState, call: WriteCall, ok: bool) -> WriteState {
    let pending = next_write_call(call, ok);
    let failed = state.failed || (!ok && write_failure(call, Seq::empty()) is Some);
    WriteState {
        pending,
        held: held_after(state.held, call, ok),
        emptied: state.emptied || (call == WriteCall::Empty && state.held.open),
        filled: state.filled || (call == WriteCall::Fill && state.held.locked),
        stored: state.stored || (call == WriteCall::SetData && ok && state.emptied && state.filled
            && state.held.open && state.held.block && !state.held.locked),
        failed,
        armed: state.armed && !(pending is None && failed),
    }
}

/// How far a write comes with the given outcomes of its calls.
pub open spec fn write_run(state: WriteState, outcomes: Seq<bool>) -> WriteState
    decreases outcomes.len(),
{
    match state.pending {
        None => state,
        Some(call) => if outcomes.len() == 0 {
            state
        } else {
            write_run(after_write_call(state, call, outcomes[0]), outcomes.drop_first())
        },
    }
}

/// Whether what is held, stored and failed agrees with the call that is due.
spec fn write_in_order(state: WriteState) -> bool {
    &&& state.held == held_before(state.pending)
    &&& state.armed == (state.pending is Some || !state.failed)
    &&& state.pending == Some(WriteCall::Unlock) || state.pending == Some(WriteCall::SetData)
        ==> state.filled
    &&& match state.pending {
        None | Some(WriteCall::Open) | Some(WriteCall::Empty) => true,
        _ => state.emptied,
    }
    &&& match state.pending {
        None | Some(WriteCall::Close) => state.stored != state.failed,
        Some(WriteCall::Free) => state.failed && !state.stored,
        _ => !state.failed && !state.stored,
    }
}

proof fn write_run_ends(state: WriteState, outcomes: Seq<bool>)
    requires
        write_in_order(state),
        outcomes.len() >= write_calls_left(state.pending),
    ensures
        write_run(state, outcomes).pending is None,
        write_in_order(write_run(state, outcomes)),
    decreases outcomes.len(),
{
    if state.pending is Some {
        write_run_ends(
            after_write_call(state, state.pending->0, outcomes[0]),
            outcomes.drop_first(),
        );
    }
}

/// A block counts as stored only if it was handed over allocated, filled with the text
/// and unlocked, on a clipboard that was opened and emptied. Whichever calls fail, a write comes to its end within nine calls; then
/// the clipboard is closed, no block of memory is left allocated or locked, and the
/// write has failed, and the sentinel is clear, if and only if the text is not on
/// the clipboard.
pub proof fn write_leaves_nothing_held(outcomes: Seq<bool>)
    requires
        outcomes.len() >= 9,
    ensures
        write_run(write_begun(), outcomes).pending is None,
        write_run(write_begun(), outcomes).held == (Holdings {
            open: false,
            block: false,
            locked: false,
        }),
        write_run(write_begun(), outcomes).failed == !write_run(write_begun(), outcomes).stored,
        write_run(write_begun(), outcomes).armed == write_run(write_begun(), outcomes).stored,
{
    write_run_ends(write_begun(), outcomes);
}

/// A write of a text to the clipboard, between two of its system calls.
pub struct WindowsWrite {
    pending: Option<WriteCall>,
    units: Vec<u16>,
    failure: Option<String>,
}

impl WindowsWrite {
    #[verifier::type_invariant]
    spec fn inv(self) -> bool {
        2 * self.units@.len() <= usize::MAX
    }

    /// The call that is due; `None` at the end.
    pub closed spec fn pending(self) -> Option<WriteCall> {
        self.pending
    }

    /// The code units to store, the terminating zero among them.
    pub closed spec fn units(self) -> Seq<u16> {
        self.units@
    }

    /// The error, if a call has failed on which the write depends.
    pub closed spec fn failure(self) -> Option<Seq<char>> {
        match self.failure {
            Some(e) => Some(e@),
            None => None,
        }
    }

    /// Begins a write; the sentinel is set.
    pub fn begin(text: &str, guard: &mut SuppressGuard) -> (w: Self)
        requires
            2 * (utf16(text@).len() + 1) <= usize::MAX,
        ensures
            w.pending() == Some(WriteCall::Open),
            w.units() == utf16(text@).push(0),
            w.failure() is None,
            final(guard).armed(),
    {
        guard.arm();
        WindowsWrite { pending: Some(WriteCall::Open), units: encode_wide(text), failure: None }
    }

    /// The call to make next.
    pub fn call(&self) -> (r: Option<WriteCall>)
        ensures
            r == self.pending(),
    {
        self.pending
    }

    /// The code units to copy.
    pub fn wide_text(&self) -> (r: &Vec<u16>)
        ensures
            r@ == self.units(),
    {
        &self.units
    }

    /// The size of the block to allocate, in bytes.
    pub fn byte_count(&self) -> (n: usize)
        ensures
            n == 2 * self.units().len(),
    {
        proof {
            use_type_invariant(self);
        }
        self.units.len() * 2
    }

    /// Takes note of how the pending call went. The sentinel is cleared when a
    /// write that failed comes to its end.
    pub fn advance(&mut self, outcome: Result<(), String>, guard: &mut SuppressGuard)
        ensures
            final(self).units() == old(self).units(),
            match old(self).pending() {
                Some(call) => {
                    &&& final(self).pending() == next_write_call(call, outcome is Ok)
                    &&& final(self).failure() == match outcome {
                        Ok(()) => old(self).failure(),
                        Err(e) => match write_failure(call, e@) {
                            Some(text) => Some(text),
                            None => old(self).failure(),
                        },
                    }
                    &&& outcome matches Err(e) ==> final(self).failure() == match call {
                        WriteCall::Open => Some("OpenClipboard failed"@),
                        WriteCall::Allocate => Some("GlobalAlloc failed: "@ + e@),
                        WriteCall::Lock => Some("GlobalLock failed"@),
                        WriteCall::SetData => Some("SetClipboardData failed"@),
                        _ => old(self).failure(),
                    }
                    &&& final(guard).armed() == (old(guard).armed() && !(final(self).pending()
                        is None && final(self).failure() is Some))
                },
                None => {
                    &&& final(self).pending() is None
                    &&& final(self).failure() == old(self).failure()
                    &&& final(guard).armed() == old(guard).armed()
                },
            },
    {
        proof {
            use_type_invariant(&*self);
        }
        let call: WriteCall = match self.pending {
            Some(call) => call,
            None => return,
        };
        let ok: bool = outcome.is_ok();
        if let Err(e) = outcome {
            match call {
                WriteCall::Open => {
                    self.failure = Some("OpenClipboard failed".to_owned());
                },
                WriteCall::Allocate => {
                    let mut text: String = "GlobalAlloc failed: ".to_owned();
                    text.append(e.as_str());
                    self.failure = Some(text);
                },
                WriteCall::Lock => {
                    self.failure = Some("GlobalLock failed".to_owned());
                },
                WriteCall::SetData => {
                    self.failure = Some("SetClipboardData failed".to_owned());
                },
                _ => {},
            }
        }
        self.pending = match call {
            WriteCall::Open => if ok {
                Some(WriteCall::Empty)
            } else {
                None
            },
            WriteCall::Empty => Some(WriteCall::Allocate),
            WriteCall::Allocate => if ok {
                Some(WriteCall::Lock)
            } else {
                Some(WriteCall::Close)
            },
            WriteCall::Lock => if ok {
                Some(WriteCall::Fill)
            } else {
                Some(WriteCall::Free)
            },
            WriteCall::Fill => Some(WriteCall::Unlock),
            WriteCall::Unlock => Some(WriteCall::SetData),
            WriteCall::SetData => if ok {
                Some(WriteCall::Close)
            } else {
                Some(WriteCall::Free)
            },
            WriteCall::Free => Some(WriteCall::Close),
            WriteCall::Close => None,
        };
        if self.pending.is_none() && self.failure.is_some() {
            guard.disarm();
        }
    }

    /// How the write went.
    pub fn result(self) -> (r: Result<(), String>)
        ensures
            match r {
                Ok(()) => self.failure() is None,
                Err(e) => self.failure() == Some(e@),
            },
    {
        match self.failure {
            Some(e) => Err(e),
            None => Ok(()),
        }
    }
}

/// A system call of a read.
#[derive(Debug, Clone, Copy, PartialEq, Eq, Structural)]
pub enum ReadCall {
    /// Opens the clipboard.
    Open,
    /// Asks for the text's block of memory.
    GetData,
    /// Locks the block.
    Lock,
    /// Copies the code units out of the locked block.
    Copy,
    /// Unlocks the block.
    Unlock,
    /// Closes the clipboard.
    Close,
}

/// How a system call of a read went.
#[derive(Debug)]
pub enum ReadOutcome {
    Done,
    Failed,
    /// The code units that were copied.
    Units(Vec<u16>),
}

/// The call that follows a call which succeeded, or failed; `None` ends the read.
pub open spec fn next_read_call(call: ReadCall, ok: bool) -> Option<ReadCall> {
    match call {
        ReadCall::Open => if ok {
            Some(ReadCall::GetData)
        } else {
            None
        },
        ReadCall::GetData => if ok {
            Some(ReadCall::Lock)
        } else {
            Some(ReadCall::Close)
        },
        ReadCall::Lock => if ok {
            Some(ReadCall::Copy)
        } else {
            Some(ReadCall::Close)
        },
        ReadCall::Copy => Some(ReadCall::Unlock),
        ReadCall::Unlock => Some(ReadCall::Close),
        ReadCall::Close => None,
    }
}

/// An upper bound on the calls of a read still to come.
pub open spec fn read_calls_left(pending: Option<ReadCall>) -> nat {
    match pending {
        Some(ReadCall::Open) => 6,
        Some(ReadCall::GetData) => 5,
        Some(ReadCall::Lock) => 4,
        Some(ReadCall::Copy) => 3,
        Some(ReadCall::Unlock) => 2,
        Some(ReadCall::Close) => 1,
        None => 0,
    }
}

/// How far a read has come.
pub struct ReadState {
    /// The call that is due; `None` at the end.
    pub pending: Option<ReadCall>,
    /// The clipboard is open.
    pub open: bool,
    /// The block is locked.
    pub locked: bool,
}

/// A read that has not made a call yet.
pub open spec fn read_begun() -> ReadState {
    ReadState { pending: Some(ReadCall::Open), open: false, locked: false }
}

/// A read after a call that succeeded, or failed.
pub open spec fn after_read_call(state: ReadState, call: ReadCall, ok: bool) -> ReadState {
    ReadState {
        pending: next_read_call(call, ok),
        open: match call {
            ReadCall::Open => ok,
            ReadCall::Close => false,
            _ => state.open,
        },
        locked: match call {
            ReadCall::Lock => ok,
            ReadCall::Unlock => false,
            _ => state.locked,
        },
    }
}

/// How far a read comes with the given outcomes of its calls.
pub open spec fn read_run(state: ReadState, outcomes: Seq<bool>) -> ReadState
    decreases outcomes.len(),
{
    match state.pending {
        None => state,
        Some(call) => if outcomes.len() == 0 {
            state
        } else {
            read_run(after_read_call(state, call, outcomes[0]), outcomes.drop_first())
        },
    }
}

/// Whether what is held agrees with the call that is due.
spec fn read_in_order(state: ReadState) -> bool {
    &&& state.open == (state.pending is Some && state.pending != Some(ReadCall::Open))
    &&& state.locked == (state.pending == Some(ReadCall::Copy) || state.pending == Some(
        ReadCall::Unlock,
    ))
}

proof fn read_run_ends(state: ReadState, outcomes: Seq<bool>)
    requires
        read_in_order(state),
        outcomes.len() >= read_calls_left(state.pending),
    ensures
        read_run(state, outcomes).pending is None,
        read_in_order(read_run(state, outcomes)),
    decreases outcomes.len(),
{
    if state.pending is Some {
        read_run_ends(
            after_read_call(state, state.pending->0, outcomes[0]),
            outcomes.drop_first(),
        );
    }
}

/// Whichever calls fail, a read comes to its end within six calls; then the
/// clipboard is closed and no block is left locked.
pub proof fn read_leaves_nothing_held(outcomes: Seq<bool>)
    requires
        outcomes.len() >= 6,
    ensures
        read_run(read_begun(), outcomes).pending is None,
        !read_run(read_begun(), outcomes).open,
        !read_run(read_begun(), outcomes).locked,
{
    read_run_ends(read_begun(), outcomes);
}

/// `ReadOutcome`, over sequences.
pub enum ReadAnswer {
    Done,
    Failed,
    Units(Seq<u16>),
}

impl View for ReadOutcome {
    type V = ReadAnswer;

    open spec fn view(&self) -> ReadAnswer {
        match *self {
            ReadOutcome::Done => ReadAnswer::Done,
            ReadOutcome::Failed => ReadAnswer::Failed,
            ReadOutcome::Units(units) => ReadAnswer::Units(units@),
        }
    }
}

/// A read, between two of its system calls.
#[verifier::ext_equal]
pub struct ReadProgress {
    /// The call that is due; `None` at the end.
    pub pending: Option<ReadCall>,
    /// The text, once it has been copied.
    pub text: Option<Seq<char>>,
}

/// Whether a read goes from `before` to `after` when its pending call is answered. The
/// code units of the block are decoded up to the first zero.
pub open spec fn read_moves(before: ReadProgress, answer: ReadAnswer, after: ReadProgress) -> bool {
    match before.pending {
        None => after == before,
        Some(call) => {
            &&& after.pending == next_read_call(call, !(answer is Failed))
            &&& match answer {
                ReadAnswer::Units(units) => if call == ReadCall::Copy {
                    after.text == Some(utf16_text(before_zero(units)))
                } else {
                    after.text == before.text
                },
                _ => after.text == before.text,
            }
        },
    }
}

/// Whether `states` are those of a whole read with the given answers, on a clipboard
/// whose text block holds `units`.
pub open spec fn whole_read(
    states: Seq<ReadProgress>,
    answers: Seq<ReadAnswer>,
    units: Seq<u16>,
) -> bool {
    &&& states.len() == answers.len() + 1
    &&& states[0] == (ReadProgress { pending: Some(ReadCall::Open), text: None })
    &&& states.last().pending is None
    &&& forall|i: int|
        #![trigger answers[i]]
        0 <= i < answers.len() ==> {
            &&& states[i].pending is Some
            &&& read_moves(states[i], answers[i], states[i + 1])
            &&& states[i].pending == Some(ReadCall::Copy) ==> answers[i] == ReadAnswer::Units(units)
        }
}

/// A read gives no text if and only if the clipboard cannot be opened, holds no text,
/// or its block cannot be locked; otherwise it gives the text of the block up to the
/// first zero. The clipboard is closed once, by the last call, if and only if it was
/// opened.
pub proof fn read_gives_the_text_of_the_block(
    states: Seq<ReadProgress>,
    answers: Seq<ReadAnswer>,
    units: Seq<u16>,
)
    requires
        whole_read(states, answers, units),
    ensures
        states.last().text is None <==> answers[0] is Failed || answers[1] is Failed || answers[2]
            is Failed,
        states.last().text is Some ==> states.last().text == Some(utf16_text(before_zero(units))),
        forall|i: int|
            0 <= i < answers.len() ==> ((#[trigger] states[i]).pending == Some(ReadCall::Close)
                <==> !(answers[0] is Failed) && i == answers.len() - 1),
{
    let a0 = answers[0];
    if !(a0 is Failed) {
        assert(states[1].pending == Some(ReadCall::GetData));
        let a1 = answers[1];
        if !(a1 is Failed) {
            assert(states[2].pending == Some(ReadCall::Lock));
            let a2 = answers[2];
            if !(a2 is Failed) {
                assert(states[3].pending == Some(ReadCall::Copy));
                let a3 = answers[3];
                assert(states[4].pending == Some(ReadCall::Unlock));
                let a4 = answers[4];
                assert(states[5].pending == Some(ReadCall::Close));
                let a5 = answers[5];
                assert(states[6].pending is None);
                assert(answers.len() == 6) by {
                    if answers.len() > 6 {
                        let a6 = answers[6];
                    }
                }
            } else {
                assert(states[3].pending == Some(ReadCall::Close));
                let a3 = answers[3];
                assert(answers.len() == 4) by {
                    if answers.len() > 4 {
                        let a4 = answers[4];
                    }
                }
            }
        } else {
            assert(states[2].pending == Some(ReadCall::Close));
            let a2 = answers[2];
            assert(answers.len() == 3) by {
                if answers.len() > 3 {
                    let a3 = answers[3];
                }
            }
        }
    } else {
        assert(answers.len() == 1) by {
            if answers.len() > 1 {
                let a1 = answers[1];
            }
        }
    }
}

/// What was written is read back: a read of a block that begins with what a write of
/// `text` stores, or of its code units without the zero, gives the text, unless the
/// clipboard cannot be opened or the block cannot be got at. A text with the zero
/// character is cut there and is left out.
pub proof fn what_was_written_is_read(
    states: Seq<ReadProgress>,
    answers: Seq<ReadAnswer>,
    units: Seq<u16>,
    text: Seq<char>,
)
    requires
        whole_read(states, answers, units),
        forall|i: int| 0 <= i < text.len() ==> text[i] != 0 as char,
        utf16(text).push(0).is_prefix_of(units) || units == utf16(text),
        !(answers[0] is Failed || answers[1] is Failed || answers[2] is Failed),
    ensures
        states.last().text == Some(text),
{
    read_gives_the_text_of_the_block(states, answers, units);
    utf16_round_trip(text);
    units_not_zero(text);
    let n = utf16(text).len() as int;
    if utf16(text).push(0).is_prefix_of(units) {
        let stored = utf16(text).push(0);
        assert forall|i: int| 0 <= i <= n implies units[i] == stored[i] by {
            assert(units.subrange(0, n + 1)[i] == units[i]);
        }
        assert(units[n] == 0);
        before_zero_is_prefix(units, n);
        assert(units.take(n) =~= utf16(text));
    } else {
        before_zero_is_prefix(units, n);
        assert(units.take(n) =~= utf16(text));
    }
}

/// A read of the clipboard's text, between two of its system calls.
pub struct WindowsRead {
    pending: Option<ReadCall>,
    text: Option<String>,
}

impl WindowsRead {
    /// How far the read has come.
    pub closed spec fn progress(self) -> ReadProgress {
        ReadProgress { pending: self.pending, text: crate::text::optional_text(self.text) }
    }

    /// Begins a read.
    pub fn begin() -> (r: Self)
        ensures
            r.progress() == (ReadProgress { pending: Some(ReadCall::Open), text: None }),
    {
        WindowsRead { pending: Some(ReadCall::Open), text: None }
    }

    /// The call to make next.
    pub fn call(&self) -> (r: Option<ReadCall>)
        ensures
            r == self.progress().pending,
    {
        self.pending
    }

    /// Takes note of how the pending call went.
    pub fn advance(&mut self, outcome: ReadOutcome)
        ensures
            read_moves(old(self).progress(), outcome@, final(self).progress()),
            outcome matches ReadOutcome::Units(units) ==> old(self).progress().pending == Some(
                ReadCall::Copy,
            ) ==> final(self).progress().text == Some(utf16_text(before_zero(units@))),
            old(self).progress().pending != Some(ReadCall::Copy) || !(outcome is Units)
                ==> final(self).progress().text == old(self).progress().text,
    {
        let call: ReadCall = match self.pending {
            Some(call) => call,
            None => return,
        };
        let ok: bool = match outcome {
            ReadOutcome::Failed => false,
            ReadOutcome::Done => true,
            ReadOutcome::Units(units) => {
                if call == ReadCall::Copy {
                    self.text = Some(decode_wide(units.as_slice()));
                }
                true
            },
        };
        self.pending = match call {
            ReadCall::Open => if ok {
                Some(ReadCall::GetData)
            } else {
                None
            },
            ReadCall::GetData => if ok {
                Some(ReadCall::Lock)
            } else {
                Some(ReadCall::Close)
            },
            ReadCall::Lock => if ok {
                Some(ReadCall::Copy)
            } else {
                Some(ReadCall::Close)
            },
            ReadCall::Copy => Some(ReadCall::Unlock),
            ReadCall::Unlock => Some(ReadCall::Close),
            ReadCall::Close => None,
        };
    }

    /// The text that was read.
    pub fn result(self) -> (r: Option<String>)
        ensures
            match r {
                Some(text) => self.progress().text == Some(text@),
                None => self.progress().text is None,
            },
    {
        self.text
    }
}

} // verus!
