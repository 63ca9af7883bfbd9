//! The clipboard of macOS.
use super::{settle_write, SuppressGuard};
use crate::outside::string_from_utf8;
use vstd::prelude::*;

verus! {

/// The clipboard of macOS, the general pasteboard.
#[derive(Debug)]
pub struct MacOSClipboard;

/// How a write to the pasteboard went.
#[derive(Debug, Clone, Copy, PartialEq, Eq, Structural)]
pub enum PasteboardWrite {
    /// There is no general pasteboard.
    NoPasteboard,
    /// The pasteboard refused the text.
    Refused,
    Stored,
}

impl MacOSClipboard {
    /// The general pasteboard.
    pub fn new() -> (c: Self)
        ensures
            c == MacOSClipboard,
    {
        MacOSClipboard
    }

    /// The text in the bytes that the pasteboard holds as a string, if there are
    /// any and they are valid UTF-8.
    pub fn text_of(&self, bytes: Option<Vec<u8>>) -> (r: Option<String>)
        ensures
            match r {
                Some(text) => {
                    &&& bytes is Some
                    &&& vstd::utf8::valid_utf8(bytes->0@)
                    &&& text@ == vstd::utf8::decode_utf8(bytes->0@)
                },
                None => bytes is None || !vstd::utf8::valid_utf8(bytes->0@),
            },
    {
        match bytes {
            Some(bytes) => match string_from_utf8(bytes) {
                Ok(text) => Some(text),
                Err(_) => None,
            },
            None => None,
        }
    }

    /// Sets the sentinel for a write that is about to begin.
    pub fn begin_write(&self, guard: &mut SuppressGuard)
        ensures
            final(guard).armed(),
    {
        guard.arm();
    }

    /// Ends a write.
    pub fn end_write(&self, outcome: PasteboardWrite, guard: &mut SuppressGuard) -> (r: Result<
        (),
        String,
    >)
        ensures
            match outcome {
                PasteboardWrite::NoPasteboard => r matches Err(e) && e@
                    == "Failed to get general pasteboard"@,
                PasteboardWrite::Refused => r matches Err(e) && e@
                    == "setString:forType: returned NO"@,
                PasteboardWrite::Stored => r is Ok,
            },
            final(guard).armed() == (r is Ok && old(guard).armed()),
    {
        let r: Result<(), String> = match outcome {
            PasteboardWrite::NoPasteboard => Err("Failed to get general pasteboard".to_owned()),
            PasteboardWrite::Refused => Err("setString:forType: returned NO".to_owned()),
            PasteboardWrite::Stored => Ok(()),
        };
        settle_write(r, guard)
    }
}

} // verus!
