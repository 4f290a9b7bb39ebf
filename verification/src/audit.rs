//! The audit trail: what happened, and when.

use vstd::prelude::*;
use crate::text::{decimal, decimal_string};

verus! {

/// An audited event.
#[derive(Debug, Clone, PartialEq, Eq)]
pub enum AuditEvent {
    SignRequest {
        key_name: String,
        message_hex: String,
        nodes_participated: Vec<usize>,
        success: bool,
    },
    KeyLoaded {
        key_name: String,
        scheme: String,
    },
    NodeStarted {
        node_index: usize,
        bind_addr: String,
    },
    SignFailed {
        key_name: String,
        reason: String,
    },
}

/// One line of the audit trail.
#[derive(Debug, Clone, PartialEq, Eq)]
pub struct AuditEntry {
    /// Seconds since the Unix epoch, in decimal.
    pub timestamp: String,
    pub event: AuditEvent,
}

/// An audit trail kept in the file at `path`, one entry per line.
#[derive(Debug, Clone, PartialEq, Eq)]
pub struct AuditLog {
    pub path: String,
}

#[verifier::external_type_specification]
#[verifier::external_body]
pub struct ExSystemTime(std::time::SystemTime);

#[verifier::external_type_specification]
#[verifier::external_body]
pub struct ExSystemTimeError(std::time::SystemTimeError);

/// Calls `SystemTime::now`: the clock's reading, of which nothing is stated.
#[verifier::external_body]
fn system_now() -> std::time::SystemTime {
    std::time::SystemTime::now()
}

/// Calls `SystemTime::duration_since` with the Unix epoch; it fails when
/// the time lies before the epoch. Nothing is stated of the duration.
#[verifier::external_body]
fn since_unix_epoch(t: &std::time::SystemTime) -> Result<core::time::Duration, std::time::SystemTimeError> {
    t.duration_since(std::time::UNIX_EPOCH)
}

/// Calls `Duration::as_secs`: the whole seconds of a duration.
#[verifier::external_body]
fn whole_seconds(d: &core::time::Duration) -> u64 {
    d.as_secs()
}

/// The text of a clock reading: the whole seconds since the Unix epoch in
/// decimal, or `0` for a reading before the epoch (`None`).
pub open spec fn timestamp_of(since_epoch: Option<u64>) -> Seq<char> {
    decimal(match since_epoch {
        Some(s) => s as nat,
        None => 0nat,
    })
}

/// The timestamp for a clock reading: the whole seconds since the Unix
/// epoch in decimal, or `0` when the clock reads before the epoch (`None`).
pub fn timestamp_text(since_epoch: Option<u64>) -> (r: String)
    ensures
        r@ == timestamp_of(since_epoch),
{
    match since_epoch {
        Some(s) => decimal_string(s),
        None => decimal_string(0),
    }
}

/// The whole seconds since the Unix epoch that the clock reads now, or
/// `None` when it reads before the epoch.
fn clock_seconds() -> Option<u64> {
    let now = system_now();
    match since_unix_epoch(&now) {
        Ok(d) => Some(whole_seconds(&d)),
        Err(_) => None,
    }
}

/// The time now, as decimal seconds since the Unix epoch; a clock set before
/// the epoch reads as zero. What the clock reads is not stated; the rule
/// that turns a reading into text is `timestamp_text`.
pub fn chrono_now() -> (r: String)
    ensures
        exists|since: Option<u64>| r@ == #[trigger] timestamp_of(since),
{
    timestamp_text(clock_seconds())
}

impl AuditLog {
    /// An audit trail kept at `path`.
    pub fn new(path: &str) -> (log: Self)
        ensures
            log.path@ == path@,
    {
        AuditLog { path: String::from_str(path) }
    }

    /// The entry that records `event` at the clock reading `since_epoch`.
    pub fn entry_at(&self, since_epoch: Option<u64>, event: AuditEvent) -> (e: AuditEntry)
        ensures
            e.event == event,
            e.timestamp@ == timestamp_of(since_epoch),
    {
        AuditEntry { timestamp: timestamp_text(since_epoch), event }
    }

    /// The entry that records `event` now.
    pub fn entry(&self, event: AuditEvent) -> (e: AuditEntry)
        ensures
            e.event == event,
            exists|since: Option<u64>| e.timestamp@ == #[trigger] timestamp_of(since),
    {
        self.entry_at(clock_seconds(), event)
    }
}

} // verus!
