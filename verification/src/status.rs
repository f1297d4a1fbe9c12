//! The transient status line: at most one most-recent message, color-coded
//! by kind, shown until its age exceeds a fixed display window.

use vstd::prelude::*;

verus! {

/// How long a status message stays visible, in milliseconds.
pub const MESSAGE_WINDOW_MILLIS: i64 = 6000;

/// The most recent transient message, by kind.
#[derive(Debug)]
pub enum UiMessage {
    Error(String),
    Info(String),
    Success(String),
}

impl UiMessage {
    /// An exact copy, variant for variant.
    pub fn duplicate(&self) -> (r: UiMessage)
        ensures
            r == *self,
    {
        match self {
            UiMessage::Error(s) => UiMessage::Error(s.clone()),
            UiMessage::Info(s) => UiMessage::Info(s.clone()),
            UiMessage::Success(s) => UiMessage::Success(s.clone()),
        }
    }

    /// The message text.
    pub fn text(&self) -> (r: &String)
        ensures
            *self matches UiMessage::Error(s) ==> r == s,
            *self matches UiMessage::Info(s) ==> r == s,
            *self matches UiMessage::Success(s) ==> r == s,
    {
        match self {
            UiMessage::Error(s) => s,
            UiMessage::Info(s) => s,
            UiMessage::Success(s) => s,
        }
    }
}

/// The rendering rule for the status line: a message recorded at
/// `created_at` is still shown at `now` while its age is under the display
/// window.
pub open spec fn spec_message_visible(created_at: i64, now: i64) -> bool {
    created_at + MESSAGE_WINDOW_MILLIS > now
}

/// Whether the status line still shows a message recorded at `created_at`.
pub fn message_visible(created_at: i64, now: i64) -> (r: bool)
    ensures
        r == spec_message_visible(created_at, now),
{
    if created_at > i64::MAX - MESSAGE_WINDOW_MILLIS {
        true
    } else {
        created_at + MESSAGE_WINDOW_MILLIS > now
    }
}

/// Relies on chrono::Utc::now and chrono::DateTime::timestamp_millis for
/// the wall-clock timestamp a recorded message is aged against. Nothing is
/// assumed of the value: every caller is verified for all of them.
#[verifier::external_body]
pub fn now_millis() -> i64 {
    chrono::Utc::now().timestamp_millis()
}

} // verus!
