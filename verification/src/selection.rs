//! Text selection capture.
//!
//! The UI only receives a `CapturedSelection` or a user-facing failure. The
//! clipboard-based capture is a state machine: `ClipboardCapture::step`
//! decides, from what the operating system reported, what to do next, and the
//! caller performs that action (open the clipboard, send Copy, sleep, ...) and
//! reports back. A future UI Automation reader can implement
//! `SelectionReader` without changing the hotkey workflow or frontend.
use vstd::prelude::*;

use crate::text::{chars_of, is_white_space, lemma_trim_is_trimmed, owned, trim, trim_bounds};

verus! {

/// The longest selection, in characters, that is handed on.
pub const MAX_SELECTION_CHARS: usize = 20_000;

/// How long the capture waits for the copied text to arrive.
pub const CLIPBOARD_WAIT_TIMEOUT_MS: u64 = 1_200;

/// The pause between two looks at the clipboard or the keyboard.
pub const CLIPBOARD_POLL_INTERVAL_MS: u64 = 15;

/// When Copy is sent a second time if nothing arrived.
pub const COPY_RETRY_DELAY_MS: u64 = 350;

/// How long the capture waits for the user to release the shortcut.
pub const SHORTCUT_RELEASE_TIMEOUT_MS: u64 = 300;

/// The largest clock reading, in milliseconds since the capture began, that
/// the capture accepts.
pub const MAX_CLOCK_MS: u64 = 0x7fff_ffff_ffff_ffff;

#[derive(Debug, Clone, Copy, PartialEq, Eq, Structural)]
pub enum SelectionSource {
    ClipboardCopy,
    UiAutomation,
}

#[derive(Debug, Clone, PartialEq, Eq)]
pub struct CapturedSelection {
    pub text: String,
    pub source: SelectionSource,
    pub truncated: bool,
    pub clipboard_restored: bool,
}

#[derive(Debug, Clone, Copy, PartialEq, Eq, Structural)]
pub enum CaptureError {
    NoSelection,
    TimedOut,
    ClipboardUnavailable,
    InputInjectionFailed,
    ShortcutStillPressed,
    FocusChanged,
    UnsupportedPlatform,
}

/// The text shown to the user for a capture error.
pub open spec fn capture_error_text(error: CaptureError) -> Seq<char> {
    match error {
        CaptureError::NoSelection => "No text was copied. Select text in another application and try again."@,
        CaptureError::TimedOut => "Snippet did not receive copied text in time. Try selecting text again."@,
        CaptureError::ClipboardUnavailable => "Snippet could not access the clipboard. Another application may be using it."@,
        CaptureError::InputInjectionFailed => "Snippet could not send Copy to the active application. It may be running with elevated permissions."@,
        CaptureError::ShortcutStillPressed => "Release the shortcut keys, then try again."@,
        CaptureError::FocusChanged => "The active application changed before Snippet could copy the selection. Try again."@,
        CaptureError::UnsupportedPlatform => "Text capture is currently available on Windows only."@,
    }
}

impl CaptureError {
    pub fn user_message(&self) -> (r: String)
        ensures
            r@ == capture_error_text(*self),
    {
        match self {
            CaptureError::NoSelection => owned(
                "No text was copied. Select text in another application and try again.",
            ),
            CaptureError::TimedOut => owned(
                "Snippet did not receive copied text in time. Try selecting text again.",
            ),
            CaptureError::ClipboardUnavailable => owned(
                "Snippet could not access the clipboard. Another application may be using it.",
            ),
            CaptureError::InputInjectionFailed => owned(
                "Snippet could not send Copy to the active application. It may be running with elevated permissions.",
            ),
            CaptureError::ShortcutStillPressed => owned(
                "Release the shortcut keys, then try again.",
            ),
            CaptureError::FocusChanged => owned(
                "The active application changed before Snippet could copy the selection. Try again.",
            ),
            CaptureError::UnsupportedPlatform => owned(
                "Text capture is currently available on Windows only.",
            ),
        }
    }
}

/// A source of selected text. The clipboard capture is the current
/// implementation; a UI Automation reader can implement this same contract
/// later.
pub trait SelectionReader {
    fn capture(&self) -> Result<CapturedSelection, CaptureError>;
}

/// Whether a global-shortcut event starts a selection capture: only the
/// release of the trigger shortcut does, and only while no capture runs.
pub fn starts_capture(is_trigger: bool, released: bool, capture_running: bool) -> (r: bool)
    ensures
        r == (is_trigger && released && !capture_running),
{
    is_trigger && released && !capture_running
}

/// The copied text as it is handed on: trimmed, and cut to
/// `MAX_SELECTION_CHARS` characters; the flag tells whether it was cut.
pub open spec fn normalized_selection(text: Seq<char>) -> (Seq<char>, bool) {
    let t = trim(text);
    if t.len() <= MAX_SELECTION_CHARS {
        (t, false)
    } else {
        (t.take(MAX_SELECTION_CHARS as int), true)
    }
}

pub fn normalize_selection(text: String) -> (r: (String, bool))
    ensures
        (r.0@, r.1) == normalized_selection(text@),
{
    let chars = chars_of(text.as_str());
    let (start, end) = trim_bounds(&chars);
    proof {
        assert(text@.subrange(start as int, end as int) == trim(text@));
    }
    if end - start <= MAX_SELECTION_CHARS {
        (text.as_str().substring_char(start, end).to_owned(), false)
    } else {
        let cut = text.as_str().substring_char(start, start + MAX_SELECTION_CHARS).to_owned();
        proof {
            assert(cut@ =~= trim(text@).take(MAX_SELECTION_CHARS as int));
        }
        (cut, true)
    }
}

/// Where a clipboard capture stands. Times are milliseconds since the
/// capture began; windows and clipboard sequence numbers are the values the
/// operating system reported.
#[derive(Debug, Clone, Copy, PartialEq, Eq, Structural)]
pub enum CapturePhase {
    /// Waiting for the clipboard to be opened.
    Opening,
    /// Waiting for Ctrl and Shift to be released until `deadline`.
    Releasing { deadline: u64 },
    /// Waiting for the window that will receive Copy.
    Targeting,
    /// Waiting for the clipboard sequence number before Copy.
    Snapshotting { target: usize },
    /// Waiting to hear whether the first Copy was sent.
    FirstCopy { target: usize, before: u32 },
    /// Watching the clipboard sequence number.
    Polling { target: usize, before: u32, retry_at: u64, deadline: u64, retried: bool },
    /// Waiting for the foreground window before Copy is sent again.
    Rechecking { target: usize, before: u32, retry_at: u64, deadline: u64 },
    /// Waiting to hear whether the second Copy was sent.
    RetryCopy { target: usize, before: u32, retry_at: u64, deadline: u64 },
    /// Waiting for the copied text.
    Reading { copied: u32 },
    /// Waiting for the sequence number that decides whether the earlier
    /// text may be put back.
    Verifying { copied: u32 },
    /// Waiting to hear whether the earlier text was put back.
    Restoring,
    /// The capture has finished.
    Done,
}

/// What the operating system reported after an action.
#[derive(Debug, PartialEq, Eq)]
pub enum CaptureEvent {
    /// The clipboard was opened (or not), with its plain text if it held any.
    ClipboardOpened { available: bool, previous_text: Option<String>, now_ms: u64 },
    /// Whether Ctrl or Shift is held down.
    Keys { modifiers_down: bool, now_ms: u64 },
    /// The foreground window; 0 when there is none.
    ForegroundWindow { window: usize },
    /// The clipboard sequence number.
    SequenceNumber { value: u32 },
    /// Whether all four key events of Ctrl+C were delivered.
    CopySent { delivered: bool, now_ms: u64 },
    /// The clipboard sequence number after a pause.
    Polled { sequence: u32, now_ms: u64 },
    /// The clipboard's plain text, if it could be read.
    ClipboardText { text: Option<String> },
    /// Whether the earlier text was written back.
    ClipboardWritten { ok: bool },
}

/// What the caller must do next.
#[derive(Debug, PartialEq, Eq)]
pub enum CaptureAction {
    /// Open the clipboard and read its plain text.
    OpenClipboard,
    /// Sleep, then report whether Ctrl or Shift is down.
    CheckKeys { after_sleep_ms: u64 },
    /// Report the foreground window.
    ReadForegroundWindow,
    /// Report the clipboard sequence number.
    ReadSequenceNumber,
    /// Send Ctrl+C to the foreground window.
    SendCopy,
    /// Sleep, then report the clipboard sequence number.
    Poll { after_sleep_ms: u64 },
    /// Read the clipboard's plain text.
    ReadClipboardText,
    /// Write `text` back to the clipboard.
    RestoreClipboardText { text: String },
    /// The capture is over.
    Finish(Result<CapturedSelection, CaptureError>),
}

/// A clipboard-based selection capture in progress.
pub struct ClipboardCapture {
    phase: CapturePhase,
    /// The clipboard's plain text before Copy.
    previous_text: Option<String>,
    /// The normalized selection while the earlier text is put back.
    pending_text: String,
    pending_truncated: bool,
    /// How many times Copy has been requested.
    copies_requested: Ghost<nat>,
}

impl ClipboardCapture {
    /// Where the capture stands.
    pub closed spec fn phase(self) -> CapturePhase {
        self.phase
    }

    /// The clipboard's plain text before Copy, if it held any.
    pub closed spec fn previous_text(self) -> Option<String> {
        self.previous_text
    }

    /// The normalized selection while the earlier text is put back.
    pub closed spec fn pending_text(self) -> Seq<char> {
        self.pending_text@
    }

    /// Whether the pending selection was cut to the limit.
    pub closed spec fn pending_truncated(self) -> bool {
        self.pending_truncated
    }

    /// How many times Copy has been requested.
    pub closed spec fn copies_requested(self) -> nat {
        self.copies_requested@
    }

    #[verifier::type_invariant]
    spec fn well_formed(self) -> bool {
        capture_inv(self)
    }
}

/// Whether `capture` expects `event` next.
pub open spec fn accepts(capture: ClipboardCapture, event: CaptureEvent) -> bool {
    match (capture.phase(), event) {
        (CapturePhase::Opening, CaptureEvent::ClipboardOpened { now_ms, .. }) => now_ms
            <= MAX_CLOCK_MS,
        (CapturePhase::Releasing { .. }, CaptureEvent::Keys { .. }) => true,
        (CapturePhase::Targeting, CaptureEvent::ForegroundWindow { .. }) => true,
        (CapturePhase::Snapshotting { .. }, CaptureEvent::SequenceNumber { .. }) => true,
        (CapturePhase::FirstCopy { .. }, CaptureEvent::CopySent { now_ms, .. }) => now_ms
            <= MAX_CLOCK_MS,
        (CapturePhase::Polling { .. }, CaptureEvent::Polled { .. }) => true,
        (CapturePhase::Rechecking { .. }, CaptureEvent::ForegroundWindow { .. }) => true,
        (CapturePhase::RetryCopy { .. }, CaptureEvent::CopySent { .. }) => true,
        (CapturePhase::Reading { .. }, CaptureEvent::ClipboardText { .. }) => true,
        (CapturePhase::Verifying { .. }, CaptureEvent::SequenceNumber { .. }) => true,
        (CapturePhase::Restoring, CaptureEvent::ClipboardWritten { .. }) => true,
        _ => false,
    }
}

/// `next` has finished with `result`.
pub open spec fn finished_with(
    next: ClipboardCapture,
    action: CaptureAction,
    result: Result<CapturedSelection, CaptureError>,
) -> bool {
    next.phase() == CapturePhase::Done && action == CaptureAction::Finish(result)
}

/// `next` has finished with an error.
pub open spec fn failed_with(
    next: ClipboardCapture,
    action: CaptureAction,
    error: CaptureError,
) -> bool {
    finished_with(next, action, Err(error))
}

/// `next` has finished with a selection of `text`.
pub open spec fn succeeded_with(
    next: ClipboardCapture,
    action: CaptureAction,
    text: Seq<char>,
    truncated: bool,
    restored: bool,
) -> bool {
    &&& next.phase() == CapturePhase::Done
    &&& action matches CaptureAction::Finish(Ok(selection))
    &&& selection.text@ == text
    &&& selection.source == SelectionSource::ClipboardCopy
    &&& selection.truncated == truncated
    &&& selection.clipboard_restored == restored
}

/// `next` is `prev` in phase `phase`, keeping the earlier clipboard text.
pub open spec fn moved_to(prev: ClipboardCapture, next: ClipboardCapture, phase: CapturePhase) -> bool {
    &&& next.phase() == phase
    &&& next.previous_text() == prev.previous_text()
}

/// One step of the capture: from `prev`, on `event`, to `next`, asking the
/// caller for `action`.
///
/// The capture opens the clipboard and remembers its text, waits up to
/// `SHORTCUT_RELEASE_TIMEOUT_MS` for Ctrl and Shift to be released, sends
/// Ctrl+C to the foreground window, and watches the clipboard sequence number
/// every `CLIPBOARD_POLL_INTERVAL_MS`. If nothing arrived after
/// `COPY_RETRY_DELAY_MS` it sends Copy once more, but only to the same
/// window. It gives up after `CLIPBOARD_WAIT_TIMEOUT_MS`. Once text arrived
/// it is normalized, and the earlier text is put back when there was some and
/// nothing else has written to the clipboard since the copy.
pub open spec fn is_step(
    prev: ClipboardCapture,
    event: CaptureEvent,
    next: ClipboardCapture,
    action: CaptureAction,
) -> bool {
    &&& next.copies_requested() == prev.copies_requested() + (if action == CaptureAction::SendCopy {
        1nat
    } else {
        0nat
    })
    &&& match (prev.phase(), event) {
        (
            CapturePhase::Opening,
            CaptureEvent::ClipboardOpened { available, previous_text, now_ms },
        ) => if !available {
            failed_with(next, action, CaptureError::ClipboardUnavailable)
        } else {
            &&& next.phase() == CapturePhase::Releasing {
                deadline: (now_ms + SHORTCUT_RELEASE_TIMEOUT_MS) as u64,
            }
            &&& next.previous_text() == previous_text
            &&& action == CaptureAction::CheckKeys { after_sleep_ms: 0 }
        },
        (CapturePhase::Releasing { deadline }, CaptureEvent::Keys { modifiers_down, now_ms }) => {
            if !modifiers_down {
                moved_to(prev, next, CapturePhase::Targeting) && action
                    == CaptureAction::ReadForegroundWindow
            } else if now_ms >= deadline {
                failed_with(next, action, CaptureError::ShortcutStillPressed)
            } else {
                moved_to(prev, next, prev.phase()) && action == CaptureAction::CheckKeys {
                    after_sleep_ms: CLIPBOARD_POLL_INTERVAL_MS,
                }
            }
        },
        (CapturePhase::Targeting, CaptureEvent::ForegroundWindow { window }) => if window == 0 {
            failed_with(next, action, CaptureError::InputInjectionFailed)
        } else {
            moved_to(prev, next, CapturePhase::Snapshotting { target: window }) && action
                == CaptureAction::ReadSequenceNumber
        },
        (CapturePhase::Snapshotting { target }, CaptureEvent::SequenceNumber { value }) => {
            moved_to(prev, next, CapturePhase::FirstCopy { target, before: value }) && action
                == CaptureAction::SendCopy
        },
        (CapturePhase::FirstCopy { target, before }, CaptureEvent::CopySent { delivered, now_ms }) => {
            if !delivered {
                failed_with(next, action, CaptureError::InputInjectionFailed)
            } else {
                moved_to(
                    prev,
                    next,
                    CapturePhase::Polling {
                        target,
                        before,
                        retry_at: (now_ms + COPY_RETRY_DELAY_MS) as u64,
                        deadline: (now_ms + CLIPBOARD_WAIT_TIMEOUT_MS) as u64,
                        retried: false,
                    },
                ) && action == CaptureAction::Poll { after_sleep_ms: CLIPBOARD_POLL_INTERVAL_MS }
            }
        },
        (
            CapturePhase::Polling { target, before, retry_at, deadline, retried },
            CaptureEvent::Polled { sequence, now_ms },
        ) => {
            if sequence != before {
                moved_to(prev, next, CapturePhase::Reading { copied: sequence }) && action
                    == CaptureAction::ReadClipboardText
            } else if !retried && now_ms >= retry_at {
                moved_to(
                    prev,
                    next,
                    CapturePhase::Rechecking { target, before, retry_at, deadline },
                ) && action == CaptureAction::ReadForegroundWindow
            } else if now_ms >= deadline {
                failed_with(next, action, CaptureError::TimedOut)
            } else {
                moved_to(prev, next, prev.phase()) && action == CaptureAction::Poll {
                    after_sleep_ms: CLIPBOARD_POLL_INTERVAL_MS,
                }
            }
        },
        (
            CapturePhase::Rechecking { target, before, retry_at, deadline },
            CaptureEvent::ForegroundWindow { window },
        ) => {
            if window != target {
                failed_with(next, action, CaptureError::FocusChanged)
            } else {
                moved_to(
                    prev,
                    next,
                    CapturePhase::RetryCopy { target, before, retry_at, deadline },
                ) && action == CaptureAction::SendCopy
            }
        },
        (
            CapturePhase::RetryCopy { target, before, retry_at, deadline },
            CaptureEvent::CopySent { delivered, now_ms },
        ) => {
            if !delivered {
                failed_with(next, action, CaptureError::InputInjectionFailed)
            } else if now_ms >= deadline {
                failed_with(next, action, CaptureError::TimedOut)
            } else {
                moved_to(
                    prev,
                    next,
                    CapturePhase::Polling { target, before, retry_at, deadline, retried: true },
                ) && action == CaptureAction::Poll { after_sleep_ms: CLIPBOARD_POLL_INTERVAL_MS }
            }
        },
        (CapturePhase::Reading { copied }, CaptureEvent::ClipboardText { text }) => match text {
            None => failed_with(next, action, CaptureError::NoSelection),
            Some(t) => {
                let (selection, truncated) = normalized_selection(t@);
                if selection.len() == 0 {
                    failed_with(next, action, CaptureError::NoSelection)
                } else if prev.previous_text() is None {
                    succeeded_with(next, action, selection, truncated, false)
                } else {
                    &&& moved_to(prev, next, CapturePhase::Verifying { copied })
                    &&& next.pending_text() == selection
                    &&& next.pending_truncated() == truncated
                    &&& action == CaptureAction::ReadSequenceNumber
                }
            },
        },
        (CapturePhase::Verifying { copied }, CaptureEvent::SequenceNumber { value }) => {
            if value != copied {
                succeeded_with(next, action, prev.pending_text(), prev.pending_truncated(), false)
            } else {
                &&& moved_to(prev, next, CapturePhase::Restoring)
                &&& next.pending_text() == prev.pending_text()
                &&& next.pending_truncated() == prev.pending_truncated()
                &&& prev.previous_text() matches Some(earlier)
                &&& action == CaptureAction::RestoreClipboardText { text: earlier }
            }
        },
        (CapturePhase::Restoring, CaptureEvent::ClipboardWritten { ok }) => {
            succeeded_with(next, action, prev.pending_text(), prev.pending_truncated(), ok)
        },
        _ => false,
    }
}

/// The most times Copy can have been requested once the capture is in
/// `phase`.
pub open spec fn copy_bound(phase: CapturePhase) -> nat {
    match phase {
        CapturePhase::Opening => 0,
        CapturePhase::Releasing { .. } => 0,
        CapturePhase::Targeting => 0,
        CapturePhase::Snapshotting { .. } => 0,
        CapturePhase::FirstCopy { .. } => 1,
        CapturePhase::Polling { retried, .. } => if retried {
            2
        } else {
            1
        },
        CapturePhase::Rechecking { .. } => 1,
        _ => 2,
    }
}

/// The bookkeeping that every capture keeps: Copy has been requested at
/// most as often as its phase allows (never more than twice), and while the
/// earlier text is put back there was such a text, and the selection waiting
/// to be handed on is neither empty nor longer than the limit, and does not
/// start with whitespace.
pub open spec fn capture_inv(capture: ClipboardCapture) -> bool {
    &&& capture.copies_requested() <= copy_bound(capture.phase())
    &&& (capture.phase() == CapturePhase::Restoring || capture.phase() is Verifying) ==> {
        &&& capture.previous_text() is Some
        &&& 0 < capture.pending_text().len() <= MAX_SELECTION_CHARS
        &&& !is_white_space(capture.pending_text()[0])
    }
}

impl ClipboardCapture {
    /// A new capture, and its first action: open the clipboard.
    pub fn new() -> (r: (ClipboardCapture, CaptureAction))
        ensures
            r.0.phase() == CapturePhase::Opening,
            r.0.copies_requested() == 0,
            r.1 == CaptureAction::OpenClipboard,
            capture_inv(r.0),
    {
        (
            ClipboardCapture {
                phase: CapturePhase::Opening,
                previous_text: None,
                pending_text: String::new(),
                pending_truncated: false,
                copies_requested: Ghost(0),
            },
            CaptureAction::OpenClipboard,
        )
    }

    /// Whether the capture expects `event` next.
    pub fn accepts(&self, event: &CaptureEvent) -> (r: bool)
        ensures
            r == accepts(*self, *event),
    {
        match (self.phase, event) {
            (CapturePhase::Opening, CaptureEvent::ClipboardOpened { now_ms, .. }) => *now_ms
                <= MAX_CLOCK_MS,
            (CapturePhase::Releasing { .. }, CaptureEvent::Keys { .. }) => true,
            (CapturePhase::Targeting, CaptureEvent::ForegroundWindow { .. }) => true,
            (CapturePhase::Snapshotting { .. }, CaptureEvent::SequenceNumber { .. }) => true,
            (CapturePhase::FirstCopy { .. }, CaptureEvent::CopySent { now_ms, .. }) => *now_ms
                <= MAX_CLOCK_MS,
            (CapturePhase::Polling { .. }, CaptureEvent::Polled { .. }) => true,
            (CapturePhase::Rechecking { .. }, CaptureEvent::ForegroundWindow { .. }) => true,
            (CapturePhase::RetryCopy { .. }, CaptureEvent::CopySent { .. }) => true,
            (CapturePhase::Reading { .. }, CaptureEvent::ClipboardText { .. }) => true,
            (CapturePhase::Verifying { .. }, CaptureEvent::SequenceNumber { .. }) => true,
            (CapturePhase::Restoring, CaptureEvent::ClipboardWritten { .. }) => true,
            _ => false,
        }
    }

    fn finish(&mut self, result: Result<CapturedSelection, CaptureError>) -> (action: CaptureAction)
        ensures
            final(self).phase() == CapturePhase::Done,
            final(self).previous_text() == old(self).previous_text(),
            final(self).copies_requested() == old(self).copies_requested(),
            action == CaptureAction::Finish(result),
    {
        proof {
            use_type_invariant(&*self);
        }
        self.phase = CapturePhase::Done;
        CaptureAction::Finish(result)
    }

    /// Finishes with the pending selection.
    fn succeed(&mut self, restored: bool) -> (action: CaptureAction)
        ensures
            succeeded_with(
                *final(self),
                action,
                old(self).pending_text(),
                old(self).pending_truncated(),
                restored,
            ),
            final(self).copies_requested() == old(self).copies_requested(),
    {
        proof {
            use_type_invariant(&*self);
        }
        self.phase = CapturePhase::Done;
        let mut text = String::new();
        std::mem::swap(&mut text, &mut self.pending_text);
        CaptureAction::Finish(
            Ok(
                CapturedSelection {
                    text,
                    source: SelectionSource::ClipboardCopy,
                    truncated: self.pending_truncated,
                    clipboard_restored: restored,
                },
            ),
        )
    }

    /// Takes in what the operating system reported and returns what to do
    /// next.
    pub fn step(&mut self, event: CaptureEvent) -> (action: CaptureAction)
        requires
            accepts(*old(self), event),
        ensures
            is_step(*old(self), event, *final(self), action),
            capture_inv(*final(self)),
    {
        proof {
            use_type_invariant(&*self);
        }
        match (self.phase, event) {
            (
                CapturePhase::Opening,
                CaptureEvent::ClipboardOpened { available, previous_text, now_ms },
            ) => {
                if !available {
                    return self.finish(Err(CaptureError::ClipboardUnavailable));
                }
                self.previous_text = previous_text;
                self.phase = CapturePhase::Releasing {
                    deadline: now_ms + SHORTCUT_RELEASE_TIMEOUT_MS,
                };
                CaptureAction::CheckKeys { after_sleep_ms: 0 }
            },
            (CapturePhase::Releasing { deadline }, CaptureEvent::Keys { modifiers_down, now_ms }) => {
                if !modifiers_down {
                    self.phase = CapturePhase::Targeting;
                    CaptureAction::ReadForegroundWindow
                } else if now_ms >= deadline {
                    self.finish(Err(CaptureError::ShortcutStillPressed))
                } else {
                    CaptureAction::CheckKeys { after_sleep_ms: CLIPBOARD_POLL_INTERVAL_MS }
                }
            },
            (CapturePhase::Targeting, CaptureEvent::ForegroundWindow { window }) => {
                if window == 0 {
                    self.finish(Err(CaptureError::InputInjectionFailed))
                } else {
                    self.phase = CapturePhase::Snapshotting { target: window };
                    CaptureAction::ReadSequenceNumber
                }
            },
            (CapturePhase::Snapshotting { target }, CaptureEvent::SequenceNumber { value }) => {
                self.phase = CapturePhase::FirstCopy { target, before: value };
                self.copies_requested = Ghost(self.copies_requested@ + 1);
                CaptureAction::SendCopy
            },
            (
                CapturePhase::FirstCopy { target, before },
                CaptureEvent::CopySent { delivered, now_ms },
            ) => {
                if !delivered {
                    self.finish(Err(CaptureError::InputInjectionFailed))
                } else {
                    self.phase = CapturePhase::Polling {
                        target,
                        before,
                        retry_at: now_ms + COPY_RETRY_DELAY_MS,
                        deadline: now_ms + CLIPBOARD_WAIT_TIMEOUT_MS,
                        retried: false,
                    };
                    CaptureAction::Poll { after_sleep_ms: CLIPBOARD_POLL_INTERVAL_MS }
                }
            },
            (
                CapturePhase::Polling { target, before, retry_at, deadline, retried },
                CaptureEvent::Polled { sequence, now_ms },
            ) => {
                if sequence != before {
                    self.phase = CapturePhase::Reading { copied: sequence };
                    CaptureAction::ReadClipboardText
                } else if !retried && now_ms >= retry_at {
                    self.phase = CapturePhase::Rechecking { target, before, retry_at, deadline };
                    CaptureAction::ReadForegroundWindow
                } else if now_ms >= deadline {
                    self.finish(Err(CaptureError::TimedOut))
                } else {
                    CaptureAction::Poll { after_sleep_ms: CLIPBOARD_POLL_INTERVAL_MS }
                }
            },
            (
                CapturePhase::Rechecking { target, before, retry_at, deadline },
                CaptureEvent::ForegroundWindow { window },
            ) => {
                if window != target {
                    self.finish(Err(CaptureError::FocusChanged))
                } else {
                    self.phase = CapturePhase::RetryCopy { target, before, retry_at, deadline };
                    self.copies_requested = Ghost(self.copies_requested@ + 1);
                    CaptureAction::SendCopy
                }
            },
            (
                CapturePhase::RetryCopy { target, before, retry_at, deadline },
                CaptureEvent::CopySent { delivered, now_ms },
            ) => {
                if !delivered {
                    self.finish(Err(CaptureError::InputInjectionFailed))
                } else if now_ms >= deadline {
                    self.finish(Err(CaptureError::TimedOut))
                } else {
                    self.phase = CapturePhase::Polling {
                        target,
                        before,
                        retry_at,
                        deadline,
                        retried: true,
                    };
                    CaptureAction::Poll { after_sleep_ms: CLIPBOARD_POLL_INTERVAL_MS }
                }
            },
            (CapturePhase::Reading { copied }, CaptureEvent::ClipboardText { text }) => {
                match text {
                    None => self.finish(Err(CaptureError::NoSelection)),
                    Some(copied_text) => {
                        proof {
                            selection_never_exceeds_limit(copied_text@);
                        }
                        let (selection, truncated) = normalize_selection(copied_text);
                        if selection.as_str().is_empty() {
                            self.finish(Err(CaptureError::NoSelection))
                        } else {
                            self.pending_text = selection;
                            self.pending_truncated = truncated;
                            if self.previous_text.is_none() {
                                self.succeed(false)
                            } else {
                                self.phase = CapturePhase::Verifying { copied };
                                CaptureAction::ReadSequenceNumber
                            }
                        }
                    },
                }
            },
            (CapturePhase::Verifying { copied }, CaptureEvent::SequenceNumber { value }) => {
                if value != copied {
                    self.succeed(false)
                } else {
                    self.phase = CapturePhase::Restoring;
                    match &self.previous_text {
                        Some(earlier) => CaptureAction::RestoreClipboardText {
                            text: earlier.clone(),
                        },
                        // Ruled out by the invariant: the capture only waits
                        // to restore when there was text before.
                        None => CaptureAction::Finish(Err(CaptureError::NoSelection)),
                    }
                }
            },
            (CapturePhase::Restoring, CaptureEvent::ClipboardWritten { ok }) => {
                self.succeed(ok)
            },
            // Ruled out by `accepts`.
            _ => CaptureAction::Finish(Err(CaptureError::NoSelection)),
        }
    }
}

// ---------------------------------------------------------------------------
// Laws
// ---------------------------------------------------------------------------

/// A normalized selection never has more than `MAX_SELECTION_CHARS`
/// characters, and it is marked as cut exactly when the trimmed text was
/// longer.
pub proof fn selection_never_exceeds_limit(text: Seq<char>)
    ensures
        normalized_selection(text).0.len() <= MAX_SELECTION_CHARS,
        normalized_selection(text).1 <==> trim(text).len() > MAX_SELECTION_CHARS,
        !normalized_selection(text).1 ==> normalized_selection(text).0 == trim(text),
        normalized_selection(text).0.len() > 0 ==> !is_white_space(
            normalized_selection(text).0[0],
        ),
{
    lemma_trim_is_trimmed(text);
}

/// Every step keeps the capture's bookkeeping: Copy is requested at most
/// twice in a capture, and a text waiting to be handed on is never empty and
/// never longer than the limit.
pub proof fn step_keeps_invariant(
    prev: ClipboardCapture,
    event: CaptureEvent,
    next: ClipboardCapture,
    action: CaptureAction,
)
    requires
        capture_inv(prev),
        is_step(prev, event, next, action),
    ensures
        capture_inv(next),
        next.copies_requested() <= 2,
{
    match (prev.phase(), event) {
        (CapturePhase::Reading { .. }, CaptureEvent::ClipboardText { text: Some(t) }) => {
            selection_never_exceeds_limit(t@);
        },
        _ => {},
    }
}

/// A finished capture hands on a selection that is not empty, not longer
/// than the limit, and does not start with whitespace.
pub proof fn captured_text_is_within_limit(
    prev: ClipboardCapture,
    event: CaptureEvent,
    next: ClipboardCapture,
    action: CaptureAction,
)
    requires
        capture_inv(prev),
        is_step(prev, event, next, action),
        action is Finish,
        action->Finish_0 is Ok,
    ensures
        0 < action->Finish_0->Ok_0.text@.len() <= MAX_SELECTION_CHARS,
        !is_white_space(action->Finish_0->Ok_0.text@[0]),
{
    match (prev.phase(), event) {
        (CapturePhase::Reading { .. }, CaptureEvent::ClipboardText { text: Some(t) }) => {
            selection_never_exceeds_limit(t@);
        },
        _ => {},
    }
}

/// The clipboard is only written to put back the text it held before
/// Copy, and only when no other program has written to it since the copied
/// text arrived.
pub proof fn restores_only_the_earlier_text(
    prev: ClipboardCapture,
    event: CaptureEvent,
    next: ClipboardCapture,
    text: String,
)
    requires
        is_step(prev, event, next, (CaptureAction::RestoreClipboardText { text })),
    ensures
        prev.previous_text() == Some(text),
        (prev.phase() matches CapturePhase::Verifying { copied } && event
            == (CaptureEvent::SequenceNumber { value: copied })),
{
}

/// Copy is sent a second time only to the window that received the first
/// one; once the foreground window changed, the capture stops instead.
pub proof fn retries_only_in_the_same_window(
    prev: ClipboardCapture,
    event: CaptureEvent,
    next: ClipboardCapture,
    action: CaptureAction,
)
    requires
        is_step(prev, event, next, action),
        prev.phase() is Rechecking,
    ensures
        action == CaptureAction::SendCopy <==> event == (CaptureEvent::ForegroundWindow {
            window: prev.phase()->Rechecking_target,
        }),
{
}

} // verus!
