//! Alert data: severity levels and the alert record.
//!
//! Delivering an alert (logging, webhook) is I/O and lives outside the
//! verified core; the core owns the alert's shape.

use vstd::prelude::*;

verus! {

/// Severity of an alert.
#[derive(Debug, Clone, Copy, PartialEq, Eq, Structural)]
pub enum AlertLevel {
    Info,
    Warning,
    Critical,
}

impl AlertLevel {
    /// The level's name; stands in for display of the level.
    pub fn label(&self) -> (r: &'static str)
        ensures
            self is Info ==> r@ == "INFO"@,
            self is Warning ==> r@ == "WARNING"@,
            self is Critical ==> r@ == "CRITICAL"@,
    {
        match self {
            AlertLevel::Info => "INFO",
            AlertLevel::Warning => "WARNING",
            AlertLevel::Critical => "CRITICAL",
        }
    }
}

/// One alert: severity, message and source component.
#[derive(Debug, Clone)]
pub struct Alert {
    pub level: AlertLevel,
    pub message: String,
    pub source: String,
}

impl Alert {
    pub fn new(level: AlertLevel, message: String, source: String) -> (a: Self)
        ensures
            a.level == level,
            a.message == message,
            a.source == source,
    {
        Alert { level, message, source }
    }
}

} // verus!
