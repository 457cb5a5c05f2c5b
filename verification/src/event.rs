//! Event types and trait definition.

use vstd::prelude::*;

verus! {

/// A point in time: seconds since the Unix epoch, with a nanosecond part.
#[derive(Debug, Clone, Copy, PartialEq, Eq, Structural)]
pub struct Timestamp {
    pub seconds: i64,
    pub nanos: u32,
}

/// Relies on chrono::Utc::now, which reads the ambient system clock, and on
/// chrono::DateTime::timestamp and timestamp_subsec_nanos, which return that
/// instant as whole seconds since the Unix epoch and the nanosecond part.
/// Nothing is promised of the instant itself. chrono::Utc::now aborts on a
/// system clock set before the Unix epoch.
#[verifier::external_body]
fn now() -> Timestamp {
    let instant = chrono::Utc::now();
    Timestamp { seconds: instant.timestamp(), nanos: instant.timestamp_subsec_nanos() }
}

/// Base trait for all events.
pub trait Event {
    /// Get the event type identifier.
    fn event_type(&self) -> &str;

    /// Get the timestamp when the event was recorded.
    fn recorded_at(&self) -> Timestamp;
}

/// Event emitted when a restock order is placed.
#[derive(Debug, Clone, Copy, PartialEq)]
pub struct RestockOrdered {
    pub quantity: i32,
    pub recorded_at: Timestamp,
}

impl RestockOrdered {
    /// The type identifier every restock event reports.
    pub const TYPE: &'static str = "restock_ordered";

    /// Construct a restock event for `quantity` units, recorded at the
    /// current time. The timestamp is the one place ambient time enters the
    /// system, so nothing is stated about it.
    pub fn new(quantity: i32) -> (event: Self)
        ensures
            event.quantity == quantity,
    {
        Self { quantity, recorded_at: now() }
    }
}

impl Event for RestockOrdered {
    fn event_type(&self) -> (name: &str)
        ensures
            name@ == "restock_ordered"@,
    {
        Self::TYPE
    }

    fn recorded_at(&self) -> (at: Timestamp)
        ensures
            at == self.recorded_at,
    {
        self.recorded_at
    }
}

} // verus!
