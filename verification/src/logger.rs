//! The in-memory log buffer shared with the user interface.
//!
//! The buffer keeps at most a fixed number of lines, dropping the oldest
//! ones first; the sink that prints lines and the lock that shares the
//! buffer across tasks live outside the library.

use vstd::prelude::*;

verus! {

/// The verbosity of one log line, or the threshold of the logger.
#[derive(Clone, Copy, Debug, PartialEq, Eq, Structural)]
pub enum LogLevel {
    Error,
    Warn,
    Info,
    Debug,
    Trace,
}

/// How verbose a level is: higher means chattier.
pub open spec fn spec_verbosity(l: LogLevel) -> int {
    match l {
        LogLevel::Error => 1,
        LogLevel::Warn => 2,
        LogLevel::Info => 3,
        LogLevel::Debug => 4,
        LogLevel::Trace => 5,
    }
}

/// Constructor capability of the log buffer.
pub trait MyLoggerFn {
    /// A fresh buffer that keeps lines at or below the given level.
    fn new(log_level: LogLevel) -> (r: MyLogger)
        ensures
            r.log_level == log_level,
            r.logs@.len() == 0,
            r.max_logs == 10000,
            r.wf(),
    ;
}

/// A bounded in-memory log buffer with a verbosity threshold.
pub struct MyLogger {
    /// Lines above this verbosity are dropped.
    pub log_level: LogLevel,
    /// The retained lines, oldest first.
    pub logs: Vec<String>,
    /// How many lines are retained before the oldest are dropped.
    pub max_logs: usize,
}

impl MyLogger {
    /// The buffer never exceeds its bound, and the bound is positive.
    pub open spec fn wf(self) -> bool {
        &&& 1 <= self.max_logs
        &&& self.logs@.len() <= self.max_logs
    }

    /// Whether a line of the given level passes the threshold.
    pub fn enabled(&self, level: LogLevel) -> (r: bool)
        ensures
            r == (spec_verbosity(level) <= spec_verbosity(self.log_level)),
    {
        let lv: u8 = match level {
            LogLevel::Error => 1,
            LogLevel::Warn => 2,
            LogLevel::Info => 3,
            LogLevel::Debug => 4,
            LogLevel::Trace => 5,
        };
        let tv: u8 = match self.log_level {
            LogLevel::Error => 1,
            LogLevel::Warn => 2,
            LogLevel::Info => 3,
            LogLevel::Debug => 4,
            LogLevel::Trace => 5,
        };
        lv <= tv
    }

    /// Appends one line, dropping the oldest line when the buffer is full:
    /// the buffer then holds the newest lines in order, still within its
    /// bound.
    pub fn record(&mut self, line: String)
        requires
            old(self).wf(),
        ensures
            final(self).wf(),
            final(self).log_level == old(self).log_level,
            final(self).max_logs == old(self).max_logs,
            final(self).logs@ == if old(self).logs@.len() < old(self).max_logs {
                old(self).logs@.push(line)
            } else {
                old(self).logs@.skip(1).push(line)
            },
    {
        if self.logs.len() == self.max_logs {
            self.logs.remove(0);
            proof {
                assert(self.logs@ =~= old(self).logs@.skip(1));
            }
        }
        self.logs.push(line);
    }

    /// Appends one line if its level passes the threshold; otherwise the
    /// buffer is unchanged.
    pub fn log(&mut self, level: LogLevel, line: String)
        requires
            old(self).wf(),
        ensures
            final(self).wf(),
            final(self).log_level == old(self).log_level,
            final(self).max_logs == old(self).max_logs,
            spec_verbosity(level) <= spec_verbosity(old(self).log_level) ==> final(self).logs@ == (
            if old(self).logs@.len() < old(self).max_logs {
                old(self).logs@.push(line)
            } else {
                old(self).logs@.skip(1).push(line)
            }),
            spec_verbosity(level) > spec_verbosity(old(self).log_level) ==> final(self).logs@
                == old(self).logs@,
    {
        if self.enabled(level) {
            self.record(line);
        }
    }
}

impl MyLoggerFn for MyLogger {
    fn new(log_level: LogLevel) -> (r: MyLogger) {
        MyLogger { log_level, logs: Vec::new(), max_logs: 10000 }
    }
}

} // verus!
