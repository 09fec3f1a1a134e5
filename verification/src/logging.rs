//! The log of the core: entries pile up while a message is handled and are
//! handed to the host in one piece.

use vstd::prelude::*;

verus! {

/// How serious an entry is.
#[derive(Clone, Copy, Debug, PartialEq, Eq, Structural)]
pub enum LogLevel {
    Info,
    Warning,
    Error,
}

/// One line of the log.
#[derive(Debug, PartialEq, Eq)]
pub struct LogEntry {
    pub level: LogLevel,
    pub message: String,
}

/// The mathematical content of a [`LogEntry`].
pub ghost struct LogEntryView {
    pub level: LogLevel,
    pub message: Seq<char>,
}

impl View for LogEntry {
    type V = LogEntryView;

    open spec fn view(&self) -> LogEntryView {
        LogEntryView { level: self.level, message: self.message@ }
    }
}

impl DeepView for LogEntry {
    type V = LogEntryView;

    open spec fn deep_view(&self) -> LogEntryView {
        self@
    }
}

impl Clone for LogEntry {
    fn clone(&self) -> (r: Self)
        ensures
            r == *self,
    {
        LogEntry { level: self.level, message: self.message.clone() }
    }
}

/// Collects entries in the order they are logged.
#[derive(Debug, PartialEq, Eq)]
pub struct Logger {
    current: Vec<LogEntry>,
}

impl View for Logger {
    type V = Seq<LogEntryView>;

    closed spec fn view(&self) -> Seq<LogEntryView> {
        self.current.deep_view()
    }
}

impl Default for Logger {
    fn default() -> (r: Self)
        ensures
            r@ == Seq::<LogEntryView>::empty(),
    {
        let current: Vec<LogEntry> = Vec::new();
        Logger { current }
    }
}

impl Logger {
    /// A logger without entries.
    pub fn new() -> (r: Self)
        ensures
            r@ == Seq::<LogEntryView>::empty(),
    {
        Logger::default()
    }

    /// Appends an entry of level `Info`.
    pub fn info(&mut self, message: String)
        ensures
            final(self)@ == old(self)@.push(
                LogEntryView { level: LogLevel::Info, message: message@ },
            ),
    {
        self.log(LogLevel::Info, message);
    }

    /// Appends an entry of level `Warning`.
    pub fn warning(&mut self, message: String)
        ensures
            final(self)@ == old(self)@.push(
                LogEntryView { level: LogLevel::Warning, message: message@ },
            ),
    {
        self.log(LogLevel::Warning, message);
    }

    /// Appends an entry of level `Error`.
    pub fn error(&mut self, message: String)
        ensures
            final(self)@ == old(self)@.push(
                LogEntryView { level: LogLevel::Error, message: message@ },
            ),
    {
        self.log(LogLevel::Error, message);
    }

    /// Drops every entry.
    pub fn clear(&mut self)
        ensures
            final(self)@ == Seq::<LogEntryView>::empty(),
    {
        self.current.clear();
    }

    /// Hands out every entry, oldest first, and leaves the logger empty.
    pub fn pop_all(&mut self) -> (entries: Vec<LogEntry>)
        ensures
            entries.deep_view() == old(self)@,
            final(self)@ == Seq::<LogEntryView>::empty(),
    {
        let mut entries: Vec<LogEntry> = Vec::new();
        core::mem::swap(&mut self.current, &mut entries);
        entries
    }

    /// The number of entries.
    pub fn len(&self) -> (n: usize)
        ensures
            n == self@.len(),
    {
        self.current.len()
    }

    fn log(&mut self, level: LogLevel, message: String)
        ensures
            final(self)@ == old(self)@.push(LogEntryView { level, message: message@ }),
    {
        self.current.push(LogEntry { level, message });
    }
}

} // verus!
