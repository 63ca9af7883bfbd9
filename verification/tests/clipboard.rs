use clip_mesh::clipboard::macos::{MacOSClipboard, PasteboardWrite};
use clip_mesh::clipboard::monitor::{
    event_for, goes_on, ClipboardMonitor, Delivery, Observation, POLL_INTERVAL_MS,
};
use clip_mesh::clipboard::windows::{
    decode_wide, encode_wide, ReadCall, ReadOutcome, WindowsClipboard, WindowsRead, WindowsWrite,
    WriteCall,
};
use clip_mesh::clipboard::{settle_write, ClipboardBackend, SuppressGuard};

/// A clipboard in memory.
struct Memory {
    text: Option<String>,
    count: i64,
}

impl ClipboardBackend for Memory {
    fn read_text(&self) -> Option<String> {
        self.text.clone()
    }

    fn write_text(&self, _text: &str, guard: &mut SuppressGuard) -> Result<(), String> {
        guard.arm();
        settle_write(Err("read only".to_string()), guard)
    }

    fn change_count(&self) -> i64 {
        self.count
    }
}

#[test]
fn the_sentinel_is_found_once() {
    let mut guard = SuppressGuard::new();
    assert!(!guard.check_and_clear());
    guard.arm();
    assert!(guard.check_and_clear());
    assert!(!guard.check_and_clear());
    guard.arm();
    guard.disarm();
    assert!(!guard.check_and_clear());
    assert!(!SuppressGuard::default().check_and_clear());
}

#[test]
fn the_latest_call_on_a_shared_sentinel_decides() {
    let shared = std::sync::Arc::new(std::sync::Mutex::new(SuppressGuard::new()));
    let other = shared.clone();
    shared.lock().unwrap().arm();
    shared.lock().unwrap().arm();
    assert!(other.lock().unwrap().check_and_clear());
    assert!(!shared.lock().unwrap().check_and_clear());
    other.lock().unwrap().arm();
    shared.lock().unwrap().disarm();
    assert!(!other.lock().unwrap().check_and_clear());
}

#[test]
fn a_write_that_failed_clears_the_sentinel() {
    let mut guard = SuppressGuard::new();
    let memory = Memory { text: None, count: 0 };
    assert_eq!(memory.write_text("x", &mut guard), Err("read only".to_string()));
    assert!(!guard.check_and_clear());
    guard.arm();
    assert_eq!(settle_write(Ok(()), &mut guard), Ok(()));
    assert!(guard.check_and_clear());
}

#[test]
fn an_own_write_is_skipped_once() {
    let mut guard = SuppressGuard::new();
    let mut monitor = ClipboardMonitor::new(10);
    assert_eq!(monitor.observe(10, &mut guard), Observation::Unchanged);
    guard.arm();
    assert_eq!(monitor.observe(10, &mut guard), Observation::Unchanged);
    assert_eq!(monitor.observe(11, &mut guard), Observation::Suppressed);
    assert_eq!(monitor.observe(11, &mut guard), Observation::Unchanged);
    assert_eq!(monitor.observe(12, &mut guard), Observation::Changed);
    assert_eq!(monitor.observe(11, &mut guard), Observation::Changed);
}

#[test]
fn a_poll_reports_a_change() {
    let mut guard = SuppressGuard::new();
    let mut monitor = ClipboardMonitor::new(0);
    let mut memory = Memory { text: Some("new".to_string()), count: 0 };
    assert!(monitor.poll(&memory, &mut guard).is_none());
    memory.count = 1;
    let event = monitor.poll(&memory, &mut guard).unwrap();
    assert_eq!(event.text, "new");
    assert!(event.timestamp > 1_577_836_800_000);
    assert!(monitor.poll(&memory, &mut guard).is_none());
    memory.count = 2;
    guard.arm();
    assert!(monitor.poll(&memory, &mut guard).is_none());
    memory.count = 3;
    memory.text = Some(String::new());
    assert!(monitor.poll(&memory, &mut guard).is_none());
    memory.count = 4;
    memory.text = None;
    assert!(monitor.poll(&memory, &mut guard).is_none());
}

#[test]
fn only_a_text_makes_an_event() {
    let event = event_for(Some("x".to_string()), 5).unwrap();
    assert_eq!((event.text.as_str(), event.timestamp), ("x", 5));
    assert!(event_for(Some(String::new()), 5).is_none());
    assert!(event_for(None, 5).is_none());
}

#[test]
fn the_monitor_stops_only_when_nobody_listens() {
    assert!(goes_on(Delivery::Accepted));
    assert!(goes_on(Delivery::Full));
    assert!(!goes_on(Delivery::Closed));
    assert_eq!(POLL_INTERVAL_MS, 500);
}

#[test]
fn pasteboard_texts_are_utf8() {
    let c = MacOSClipboard::new();
    assert_eq!(c.text_of(Some("剪".as_bytes().to_vec())), Some("剪".to_string()));
    assert_eq!(c.text_of(Some(vec![0xff])), None);
    assert_eq!(c.text_of(None), None);
}

#[test]
fn pasteboard_writes_settle_the_sentinel() {
    let c = MacOSClipboard::new();
    let mut guard = SuppressGuard::new();
    c.begin_write(&mut guard);
    assert_eq!(c.end_write(PasteboardWrite::Stored, &mut guard), Ok(()));
    assert!(guard.check_and_clear());
    c.begin_write(&mut guard);
    assert_eq!(
        c.end_write(PasteboardWrite::NoPasteboard, &mut guard),
        Err("Failed to get general pasteboard".to_string())
    );
    assert!(!guard.check_and_clear());
    c.begin_write(&mut guard);
    assert_eq!(
        c.end_write(PasteboardWrite::Refused, &mut guard),
        Err("setString:forType: returned NO".to_string())
    );
    assert!(!guard.check_and_clear());
}

#[test]
fn wide_texts_end_with_zero() {
    assert_eq!(encode_wide(""), vec![0]);
    assert_eq!(encode_wide("aé剪"), vec![0x61, 0xe9, 0x526a, 0]);
    assert_eq!(encode_wide("😀"), vec![0xd83d, 0xde00, 0]);
}

#[test]
fn wide_texts_are_read_back() {
    for text in ["", "plain", "剪贴板", "a😀b", "\u{ffff}\u{10000}\u{10ffff}"] {
        assert_eq!(decode_wide(&encode_wide(text)), text);
    }
    assert_eq!(decode_wide(&encode_wide("a\0b")), "a");
    assert_eq!(decode_wide(&[0x61, 0xd800, 0x62, 0]), "a\u{fffd}b");
    assert_eq!(decode_wide(&[0x61, 0x62]), "ab");
    // A surrogate that is not one of a pair, in every position.
    assert_eq!(decode_wide(&[0xde00, 0xd83d, 0xde00, 0xd83d]), "\u{fffd}😀\u{fffd}");
    assert_eq!(decode_wide(&[0xd83d, 0xd83d, 0xde00]), "\u{fffd}😀");
    assert_eq!(decode_wide(&[0xde00, 0xd83d]), "\u{fffd}\u{fffd}");
}

/// Runs a write in which the call `failing` fails. Gives the calls that were made
/// by name, the result, and whether the sentinel is left set.
fn run_write(failing: Option<WriteCall>) -> (String, Result<(), String>, bool) {
    let mut guard = SuppressGuard::new();
    let mut write = WindowsWrite::begin("ab", &mut guard);
    assert_eq!(write.wide_text(), &vec![0x61, 0x62, 0]);
    assert_eq!(write.byte_count(), 6);
    let mut calls: Vec<String> = Vec::new();
    while let Some(call) = write.call() {
        calls.push(format!("{:?}", call));
        let outcome = if Some(call) == failing { Err("cause".to_string()) } else { Ok(()) };
        write.advance(outcome, &mut guard);
    }
    (calls.join(" "), write.result(), guard.check_and_clear())
}

#[test]
fn a_windows_write_runs_through() {
    assert_eq!(
        run_write(None),
        ("Open Empty Allocate Lock Fill Unlock SetData Close".to_string(), Ok(()), true)
    );
    // A clipboard that cannot be emptied is written all the same.
    assert_eq!(run_write(Some(WriteCall::Empty)).1, Ok(()));
    assert_eq!(run_write(Some(WriteCall::Close)).1, Ok(()));
}

#[test]
fn a_windows_write_that_fails_cleans_up() {
    for (failing, calls, error) in [
        (WriteCall::Open, "Open", "OpenClipboard failed"),
        (WriteCall::Allocate, "Open Empty Allocate Close", "GlobalAlloc failed: cause"),
        (WriteCall::Lock, "Open Empty Allocate Lock Free Close", "GlobalLock failed"),
        (
            WriteCall::SetData,
            "Open Empty Allocate Lock Fill Unlock SetData Free Close",
            "SetClipboardData failed",
        ),
    ] {
        assert_eq!(
            run_write(Some(failing)),
            (calls.to_string(), Err(error.to_string()), false)
        );
    }
}

/// Runs a read in which the call `failing` fails. Gives the calls that were made by
/// name, and the result.
fn run_read(failing: Option<ReadCall>) -> (String, Option<String>) {
    let mut read = WindowsRead::begin();
    let mut calls: Vec<String> = Vec::new();
    while let Some(call) = read.call() {
        calls.push(format!("{:?}", call));
        read.advance(if Some(call) == failing {
            ReadOutcome::Failed
        } else if call == ReadCall::Copy {
            ReadOutcome::Units(vec![0x61, 0xe9, 0])
        } else {
            ReadOutcome::Done
        });
    }
    (calls.join(" "), read.result())
}

#[test]
fn a_windows_read_closes_what_it_opens() {
    let _ = WindowsClipboard::new();
    let text = Some("aé".to_string());
    assert_eq!(run_read(None), ("Open GetData Lock Copy Unlock Close".to_string(), text.clone()));
    assert_eq!(run_read(Some(ReadCall::Open)), ("Open".to_string(), None));
    assert_eq!(run_read(Some(ReadCall::GetData)), ("Open GetData Close".to_string(), None));
    assert_eq!(run_read(Some(ReadCall::Lock)), ("Open GetData Lock Close".to_string(), None));
    assert_eq!(run_read(Some(ReadCall::Close)).1, text);
}
