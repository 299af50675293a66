//! Service-scoped log lines: every message of a service carries its name.
use vstd::prelude::*;

verus! {

#[derive(Debug, Clone, Copy, PartialEq, Eq, Structural)]
pub enum LogLevel {
    Error,
    Warn,
    Info,
    Debug,
    Trace,
}

/// One message to log, at its level.
#[derive(Debug, Clone)]
pub struct LogLine {
    pub level: LogLevel,
    pub text: String,
}

/// Writes the log lines of one service.
#[derive(Debug, Clone)]
pub struct ServiceLogger {
    pub service_name: String,
}

/// A service's message as logged: `[<service>] <message>`.
pub open spec fn prefixed(service: Seq<char>, message: Seq<char>) -> Seq<char> {
    "["@ + service + "] "@ + message
}

impl ServiceLogger {
    pub fn new(service_name: &str) -> (r: Self)
        ensures
            r.service_name@ == service_name@,
    {
        ServiceLogger { service_name: String::from_str(service_name) }
    }

    fn line(&self, level: LogLevel, message: &str) -> (r: LogLine)
        ensures
            r.level == level,
            r.text@ == prefixed(self.service_name@, message@),
    {
        LogLine {
            level,
            text: String::from_str("[").concat(self.service_name.as_str()).concat("] ").concat(
                message,
            ),
        }
    }

    pub fn info(&self, message: &str) -> (r: LogLine)
        ensures
            r.level == LogLevel::Info,
            r.text@ == prefixed(self.service_name@, message@),
    {
        self.line(LogLevel::Info, message)
    }

    pub fn warn(&self, message: &str) -> (r: LogLine)
        ensures
            r.level == LogLevel::Warn,
            r.text@ == prefixed(self.service_name@, message@),
    {
        self.line(LogLevel::Warn, message)
    }

    pub fn error(&self, message: &str) -> (r: LogLine)
        ensures
            r.level == LogLevel::Error,
            r.text@ == prefixed(self.service_name@, message@),
    {
        self.line(LogLevel::Error, message)
    }

    pub fn debug(&self, message: &str) -> (r: LogLine)
        ensures
            r.level == LogLevel::Debug,
            r.text@ == prefixed(self.service_name@, message@),
    {
        self.line(LogLevel::Debug, message)
    }

    pub fn trace(&self, message: &str) -> (r: LogLine)
        ensures
            r.level == LogLevel::Trace,
            r.text@ == prefixed(self.service_name@, message@),
    {
        self.line(LogLevel::Trace, message)
    }
}

} // verus!
