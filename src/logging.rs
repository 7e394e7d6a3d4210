use vstd::prelude::*;

use crate::diagnostic::{Diagnostic, Severity};
use crate::sink::DiagnosticSink;

verus! {

/// The level of a log record.
#[derive(Clone, Copy, Debug, PartialEq, Eq, Structural, Hash)]
pub enum LogLevel {
    Info,
    Warn,
    Error,
}

/// The log level that a diagnostic of severity `s` is logged at.
pub open spec fn level_for(s: Severity) -> LogLevel {
    match s {
        Severity::Advice => LogLevel::Info,
        Severity::Warning => LogLevel::Warn,
        Severity::Error => LogLevel::Error,
    }
}

/// Maps a severity to its log level: advice to info, warning to warn, error
/// to error.
pub fn log_level(severity: Severity) -> (r: LogLevel)
    ensures
        r == level_for(severity),
{
    match severity {
        Severity::Advice => LogLevel::Info,
        Severity::Warning => LogLevel::Warn,
        Severity::Error => LogLevel::Error,
    }
}

/// One record for the logging facility.
#[derive(Clone, Debug, PartialEq, Eq, Hash)]
pub struct LogRecord {
    pub level: LogLevel,
    pub message: String,
}

impl LogRecord {
    /// This is the record that logging diagnostic `d` produces: its level
    /// is the one for the severity that `d` declares, and its text is the
    /// message of `d`.
    pub open spec fn logs<D: Diagnostic>(self, d: D) -> bool {
        &&& exists|declared: Option<Severity>| #[trigger]
            call_ensures(D::severity, (&d,), declared) && self.level == level_for(
                crate::diagnostic::severity_or_error(declared),
            )
        &&& call_ensures(D::message, (&d,), self.message)
    }
}

/// A sink that logs each diagnostic and then hands it on, unchanged, to the
/// sink it wraps.
///
/// The records wait in the sink until the logging facility takes them.
pub struct LoggingSink<S> {
    inner: S,
    records: Vec<LogRecord>,
}

impl<S> LoggingSink<S> {
    /// The wrapped sink.
    pub closed spec fn wrapped(&self) -> S {
        self.inner
    }

    /// The records not yet taken, oldest first.
    pub closed spec fn pending(&self) -> Seq<LogRecord> {
        self.records@
    }

    /// Wraps `inner`, with no record pending.
    pub fn new(inner: S) -> (r: Self)
        ensures
            r.wrapped() == inner,
            r.pending() == Seq::<LogRecord>::empty(),
    {
        LoggingSink { inner, records: Vec::new() }
    }

    /// The wrapped sink.
    pub fn inner(&self) -> (r: &S)
        ensures
            *r == self.wrapped(),
    {
        &self.inner
    }

    /// The records not yet taken, oldest first.
    pub fn records(&self) -> (r: &[LogRecord])
        ensures
            r@ == self.pending(),
    {
        self.records.as_slice()
    }

    /// Hands the pending records over to the logging facility, oldest first,
    /// and leaves none pending.
    pub fn take_records(&mut self) -> (r: Vec<LogRecord>)
        ensures
            r@ == old(self).pending(),
            final(self).pending() == Seq::<LogRecord>::empty(),
            final(self).wrapped() == old(self).wrapped(),
    {
        let mut taken: Vec<LogRecord> = Vec::new();
        core::mem::swap(&mut taken, &mut self.records);
        taken
    }

    /// Gives up the wrapper and returns the wrapped sink.
    pub fn into_inner(self) -> (r: S)
        ensures
            r == self.wrapped(),
    {
        self.inner
    }
}

impl<D: Diagnostic, S: DiagnosticSink<D>> DiagnosticSink<D> for LoggingSink<S> {
    /// Exactly one record more, at the level that the diagnostic's severity
    /// maps to, and the wrapped sink accepted the same diagnostic once.
    open spec fn accepted(&self, before: &Self, diagnostic: D) -> bool {
        &&& self.pending().len() == before.pending().len() + 1
        &&& self.pending().drop_last() == before.pending()
        &&& self.pending().last().logs(diagnostic)
        &&& self.wrapped().accepted(&before.wrapped(), diagnostic)
    }

    fn report(&mut self, diagnostic: D) {
        let severity_of = D::severity;
        let declared = severity_of(&diagnostic);
        let message_of = D::message;
        let message = message_of(&diagnostic);
        let severity = match declared {
            Some(s) => s,
            None => Severity::Error,
        };
        let record = LogRecord { level: log_level(severity), message };
        self.records.push(record);
        self.inner.report(diagnostic);
        assert(self.records@.drop_last() =~= old(self).records@);
    }
}

} // verus!
