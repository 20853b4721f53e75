//! A bounded log: the newest entries are kept, the oldest give way.

use std::collections::VecDeque;
use vstd::prelude::*;

verus! {

/// How grave an entry of the log is.
#[derive(Debug, Clone, Copy, PartialEq, Eq, Structural)]
pub enum LogLevel {
    DEBUG,
    INFO,
    WARN,
    ERROR,
}

/// One entry of the log. `data` is the text of a JSON value.
#[derive(Debug, Clone)]
pub struct LogEntry {
    pub timestamp: String,
    pub level: LogLevel,
    pub component: String,
    pub message: String,
    pub data: Option<String>,
}

/// The log: at most `max_logs` entries, the oldest first.
pub struct DebugLogger {
    logs: VecDeque<LogEntry>,
    max_logs: usize,
}

/// The name of a level as it is printed.
pub open spec fn level_name(level: LogLevel) -> Seq<char> {
    match level {
        LogLevel::DEBUG => "DEBUG"@,
        LogLevel::INFO => "INFO"@,
        LogLevel::WARN => "WARN"@,
        LogLevel::ERROR => "ERROR"@,
    }
}

/// The newest `max` entries of `entries`.
pub open spec fn newest(entries: Seq<LogEntry>, max: usize) -> Seq<LogEntry> {
    if entries.len() > max {
        entries.skip(entries.len() - max)
    } else {
        entries
    }
}

/// Writes out the current time in UTC with `chrono::Utc::now` and
/// `DateTime::to_rfc3339`. Nothing is promised of the text: it depends on
/// the clock. chrono panics when the system clock is set before 1970.
#[verifier::external_body]
pub(crate) fn now_rfc3339() -> (r: String) {
    chrono::Utc::now().to_rfc3339()
}

impl DebugLogger {
    /// The log never holds more entries than it has room for.
    #[verifier::type_invariant]
    spec fn is_bounded(self) -> bool {
        self.logs@.len() <= self.max_logs
    }

    /// The entries of the log, the oldest first.
    pub closed spec fn entries(&self) -> Seq<LogEntry> {
        self.logs@
    }

    /// The most entries that the log keeps.
    pub closed spec fn capacity(&self) -> usize {
        self.max_logs
    }

    /// An empty log that keeps at most `max_logs` entries.
    pub fn new(max_logs: usize) -> (r: Self)
        ensures
            r.entries().len() == 0,
            r.capacity() == max_logs,
    {
        DebugLogger { logs: VecDeque::new(), max_logs }
    }

    /// The name of a level as it is printed.
    pub fn level_name(level: LogLevel) -> (r: &'static str)
        ensures
            r@ == level_name(level),
    {
        match level {
            LogLevel::DEBUG => "DEBUG",
            LogLevel::INFO => "INFO",
            LogLevel::WARN => "WARN",
            LogLevel::ERROR => "ERROR",
        }
    }

    /// Adds an entry stamped with the current time.
    pub fn log(&mut self, level: LogLevel, component: &str, message: &str, data: Option<String>)
        ensures
            final(self).capacity() == old(self).capacity(),
            exists|entry: LogEntry| #[trigger]
                final(self).entries() == newest(old(self).entries().push(entry), old(self).capacity())
                    && entry.level == level && entry.component@ == component@ && entry.message@
                    == message@ && entry.data == data,
    {
        let entry = LogEntry {
            timestamp: now_rfc3339(),
            level,
            component: component.to_owned(),
            message: message.to_owned(),
            data,
        };
        self.push(entry);
        assert(final(self).entries() == newest(old(self).entries().push(entry), old(self).capacity())
            && entry.level == level && entry.component@ == component@ && entry.message@
            == message@ && entry.data == data);
    }

    /// Adds an entry and drops the oldest entries beyond the capacity.
    pub fn push(&mut self, entry: LogEntry)
        ensures
            final(self).capacity() == old(self).capacity(),
            final(self).entries() == newest(old(self).entries().push(entry), old(self).capacity()),
            final(self).entries().len() <= final(self).capacity(),
    {
        let mut logs: VecDeque<LogEntry> = VecDeque::new();
        std::mem::swap(&mut logs, &mut self.logs);
        logs.push_back(entry);
        let ghost all = logs@;
        while logs.len() > self.max_logs
            invariant
                self.max_logs == old(self).max_logs,
                self.logs@.len() == 0,
                all == old(self).logs@.push(entry),
                logs@.len() <= all.len(),
                logs@.len() == all.len() || logs@.len() >= self.max_logs,
                logs@ == all.skip(all.len() - logs@.len()),
            decreases logs.len(),
        {
            logs.pop_front();
            assert(logs@ =~= all.skip(all.len() - logs@.len()));
        }
        assert(all.skip(0) =~= all);
        self.logs = logs;
    }

    /// Adds an entry of level `DEBUG`, stamped with the current time.
    pub fn debug(&mut self, component: &str, message: &str, data: Option<String>)
        ensures
            final(self).capacity() == old(self).capacity(),
            exists|entry: LogEntry| #[trigger]
                final(self).entries() == newest(old(self).entries().push(entry), old(self).capacity())
                    && entry.level == LogLevel::DEBUG && entry.component@ == component@
                    && entry.message@ == message@ && entry.data == data,
    {
        self.log(LogLevel::DEBUG, component, message, data);
    }

    /// Adds an entry of level `INFO`, stamped with the current time.
    pub fn info(&mut self, component: &str, message: &str, data: Option<String>)
        ensures
            final(self).capacity() == old(self).capacity(),
            exists|entry: LogEntry| #[trigger]
                final(self).entries() == newest(old(self).entries().push(entry), old(self).capacity())
                    && entry.level == LogLevel::INFO && entry.component@ == component@
                    && entry.message@ == message@ && entry.data == data,
    {
        self.log(LogLevel::INFO, component, message, data);
    }

    /// Adds an entry of level `WARN`, stamped with the current time.
    pub fn warn(&mut self, component: &str, message: &str, data: Option<String>)
        ensures
            final(self).capacity() == old(self).capacity(),
            exists|entry: LogEntry| #[trigger]
                final(self).entries() == newest(old(self).entries().push(entry), old(self).capacity())
                    && entry.level == LogLevel::WARN && entry.component@ == component@
                    && entry.message@ == message@ && entry.data == data,
    {
        self.log(LogLevel::WARN, component, message, data);
    }

    /// Adds an entry of level `ERROR`, stamped with the current time.
    pub fn error(&mut self, component: &str, message: &str, data: Option<String>)
        ensures
            final(self).capacity() == old(self).capacity(),
            exists|entry: LogEntry| #[trigger]
                final(self).entries() == newest(old(self).entries().push(entry), old(self).capacity())
                    && entry.level == LogLevel::ERROR && entry.component@ == component@
                    && entry.message@ == message@ && entry.data == data,
    {
        self.log(LogLevel::ERROR, component, message, data);
    }

    /// How many entries the log holds: never more than it has room for.
    pub fn len(&self) -> (n: usize)
        ensures
            n == self.entries().len(),
            n <= self.capacity(),
    {
        proof {
            use_type_invariant(self);
        }
        self.logs.len()
    }

    /// The most entries that the log keeps.
    pub fn max_logs(&self) -> (n: usize)
        ensures
            n == self.capacity(),
    {
        self.max_logs
    }

    /// The entry at index `i`, the oldest being at index 0.
    pub fn entry(&self, i: usize) -> (r: &LogEntry)
        requires
            i < self.entries().len(),
        ensures
            *r == self.entries()[i as int],
    {
        &self.logs[i]
    }

    /// A copy of the entries, the oldest first.
    pub fn get_logs(&self) -> (r: Vec<LogEntry>)
        ensures
            r@ == self.entries(),
    {
        let mut r: Vec<LogEntry> = Vec::new();
        let mut i: usize = 0;
        while i < self.logs.len()
            invariant
                i <= self.logs.len(),
                r@ == self.logs@.take(i as int),
            decreases self.logs.len() - i,
        {
            let e = &self.logs[i];
            r.push(
                LogEntry {
                    timestamp: e.timestamp.clone(),
                    level: e.level,
                    component: e.component.clone(),
                    message: e.message.clone(),
                    data: match &e.data {
                        Some(d) => Some(d.clone()),
                        None => None,
                    },
                },
            );
            assert(r@ =~= self.logs@.take(i + 1));
            i += 1;
        }
        assert(self.logs@.take(self.logs@.len() as int) =~= self.logs@);
        r
    }

    /// Empties the log.
    pub fn clear_logs(&mut self)
        ensures
            final(self).entries().len() == 0,
            final(self).capacity() == old(self).capacity(),
    {
        self.logs = VecDeque::new();
    }
}

} // verus!
