//! The pluggable diagnostics sink: a recording variant for validation runs
//! and a no-op variant, chosen by configuration at construction time so both
//! behave identically everywhere else.

use vstd::prelude::*;

verus! {

/// The severity a driver diagnostic arrives with.
#[derive(Clone, Copy, PartialEq, Eq, Structural, Debug)]
pub enum Severity {
    Verbose,
    Info,
    Warning,
    Error,
}

/// The level a diagnostic is logged at.
#[derive(Clone, Copy, PartialEq, Eq, Structural, Debug)]
pub enum LogLevel {
    Info,
    Warn,
    Error,
}

/// The level each severity maps to: errors and warnings keep their weight,
/// informational messages stay informational, and anything else is logged
/// as a warning so it is never silently dropped.
pub open spec fn spec_level_for_severity(severity: Severity) -> LogLevel {
    match severity {
        Severity::Error => LogLevel::Error,
        Severity::Warning => LogLevel::Warn,
        Severity::Info => LogLevel::Info,
        Severity::Verbose => LogLevel::Warn,
    }
}

/// Maps a driver severity to its log level.
pub fn level_for_severity(severity: Severity) -> (level: LogLevel)
    ensures
        level == spec_level_for_severity(severity),
{
    match severity {
        Severity::Error => LogLevel::Error,
        Severity::Warning => LogLevel::Warn,
        Severity::Info => LogLevel::Info,
        Severity::Verbose => LogLevel::Warn,
    }
}

/// The diagnostics sink: keeps the log levels of the messages it accepted,
/// in arrival order, or nothing at all when disabled.
pub struct DiagnosticSink {
    pub enabled: bool,
    pub entries: Vec<LogLevel>,
}

impl DiagnosticSink {
    /// The no-op variant never accumulates anything.
    pub open spec fn wf(&self) -> bool {
        !self.enabled ==> self.entries@.len() == 0
    }

    /// A sink in the variant the configuration asks for.
    pub fn new(enabled: bool) -> (s: DiagnosticSink)
        ensures
            s.wf(),
            s.enabled == enabled,
            s.entries@ == Seq::<LogLevel>::empty(),
    {
        DiagnosticSink { enabled, entries: Vec::new() }
    }

    /// Accepts one diagnostic: the recording variant keeps its log level,
    /// the no-op variant drops it.
    pub fn record(&mut self, severity: Severity)
        requires
            old(self).wf(),
        ensures
            final(self).wf(),
            final(self).enabled == old(self).enabled,
            old(self).enabled ==> final(self).entries@ == old(self).entries@.push(
                spec_level_for_severity(severity)),
            !old(self).enabled ==> final(self).entries@ == old(self).entries@,
    {
        if self.enabled {
            let level = level_for_severity(severity);
            self.entries.push(level);
        }
    }

    /// How many diagnostics the sink kept.
    pub fn recorded_count(&self) -> (n: usize)
        requires
            self.wf(),
        ensures
            n == self.entries@.len(),
            !self.enabled ==> n == 0,
    {
        self.entries.len()
    }
}

} // verus!
