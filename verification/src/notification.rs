//! Transient messages shown to the user.

use std::time::Instant;
use vstd::prelude::*;

verus! {

/// A measurement of the monotonic clock.
#[verifier::external_type_specification]
#[verifier::external_body]
pub struct ExInstant(Instant);

/// Reads the monotonic clock with `std::time::Instant::now`. Nothing is
/// claimed of the reading.
#[verifier::external_body]
fn clock_now() -> Instant {
    Instant::now()
}

/// Milliseconds passed since `start`, by `std::time::Instant::elapsed`,
/// cut to 64 bits. Nothing is claimed of the number.
#[verifier::external_body]
fn millis_since(start: &Instant) -> u64 {
    start.elapsed().as_millis() as u64
}

/// Severity of a notification.
#[derive(Debug, Clone, Copy, PartialEq, Eq, Structural)]
pub enum NotificationLevel {
    Info,
    Warning,
    Error,
    Success,
}

/// Milliseconds for which a notification is shown unless told otherwise.
pub const DEFAULT_DURATION_MS: u64 = 3000;

/// What a notification says, as plain values. The time of its creation is
/// left out: it comes from the clock. Contracts that speak over views say
/// of the queue itself which notifications stay in it as they were.
pub struct NotificationView {
    pub message: Seq<char>,
    pub level: NotificationLevel,
    pub duration_ms: u64,
}

/// A message with a severity, the time of its creation and the time for
/// which it is shown.
#[derive(Debug)]
pub struct Notification {
    pub message: String,
    pub level: NotificationLevel,
    pub created_at: Instant,
    pub duration_ms: u64,
}

impl View for Notification {
    type V = NotificationView;

    open spec fn view(&self) -> NotificationView {
        NotificationView {
            message: self.message@,
            level: self.level,
            duration_ms: self.duration_ms,
        }
    }
}

impl Clone for Notification {
    fn clone(&self) -> (r: Notification)
        ensures
            r == *self,
            r@ == self@,
            r.created_at == self.created_at,
    {
        Notification {
            message: self.message.clone(),
            level: self.level,
            created_at: self.created_at,
            duration_ms: self.duration_ms,
        }
    }
}

impl Notification {
    /// A notification created now, shown for three seconds.
    pub fn new(message: String, level: NotificationLevel) -> (r: Notification)
        ensures
            r@ == (NotificationView { message: message@, level, duration_ms: 3000 }),
    {
        Notification { message, level, created_at: clock_now(), duration_ms: DEFAULT_DURATION_MS }
    }

    /// An informational notification created now.
    pub fn info(message: String) -> (r: Notification)
        ensures
            r@ == (NotificationView {
                message: message@,
                level: NotificationLevel::Info,
                duration_ms: 3000,
            }),
    {
        Notification::new(message, NotificationLevel::Info)
    }

    /// A warning created now.
    pub fn warning(message: String) -> (r: Notification)
        ensures
            r@ == (NotificationView {
                message: message@,
                level: NotificationLevel::Warning,
                duration_ms: 3000,
            }),
    {
        Notification::new(message, NotificationLevel::Warning)
    }

    /// An error notification created now.
    pub fn error(message: String) -> (r: Notification)
        ensures
            r@ == (NotificationView {
                message: message@,
                level: NotificationLevel::Error,
                duration_ms: 3000,
            }),
    {
        Notification::new(message, NotificationLevel::Error)
    }

    /// A success notification created now.
    pub fn success(message: String) -> (r: Notification)
        ensures
            r@ == (NotificationView {
                message: message@,
                level: NotificationLevel::Success,
                duration_ms: 3000,
            }),
    {
        Notification::new(message, NotificationLevel::Success)
    }

    /// Whether a notification of this duration has expired once
    /// `elapsed_ms` milliseconds have passed since its creation.
    pub open spec fn expired_after(self, elapsed_ms: u64) -> bool {
        elapsed_ms > self.duration_ms
    }

    /// Whether the notification has expired once `elapsed_ms` milliseconds
    /// have passed since its creation: when its age exceeds its duration.
    pub fn is_expired_after(&self, elapsed_ms: u64) -> (r: bool)
        ensures
            r == self.expired_after(elapsed_ms),
    {
        elapsed_ms > self.duration_ms
    }

    /// Milliseconds for which the notification is still shown once
    /// `elapsed_ms` milliseconds have passed since its creation.
    pub fn remaining_ms_after(&self, elapsed_ms: u64) -> (r: u64)
        ensures
            r == if elapsed_ms >= self.duration_ms {
                0
            } else {
                self.duration_ms - elapsed_ms
            },
    {
        self.duration_ms.saturating_sub(elapsed_ms)
    }

    /// Whether the notification has expired by now. The answer depends on
    /// the clock; a notification of the longest duration never expires.
    pub fn is_expired(&self) -> (r: bool)
        ensures
            r ==> self.duration_ms < u64::MAX,
    {
        self.is_expired_after(millis_since(&self.created_at))
    }
}

} // verus!
