//! The boot-time logging sink: entries below Fatal severity are buffered in
//! order; Fatal entries bypass the buffer and are handed back to the caller
//! for synchronous out-of-band transmission, because the machine may be
//! about to halt.

use vstd::prelude::*;

verus! {

/// Severity of one log entry, ordered Fatal > Error > Warn > Info > Debug > Trace.
#[derive(Clone, Copy, PartialEq, Eq, Structural, Debug)]
pub enum Level {
    Fatal,
    Error,
    Warn,
    Info,
    Debug,
    Trace,
}

/// The text label under which entries of this severity are rendered.
pub open spec fn level_label(level: Level) -> Seq<char> {
    match level {
        Level::Fatal => "[FATAL]"@,
        Level::Error => "[ERROR]"@,
        Level::Warn => "[WARN]"@,
        Level::Info => "[INFO]"@,
        Level::Debug => "[DEBUG]"@,
        Level::Trace => "[TRACE]"@,
    }
}

/// One log entry: a severity and the message text.
pub struct Log {
    pub level: Level,
    pub message: String,
}

impl Log {
    /// The entry rendered as one line of text: its label, a space, its message.
    pub fn render(&self) -> (s: String)
        ensures
            s@ == level_label(self.level) + " "@ + self.message@,
    {
        let label = match self.level {
            Level::Fatal => "[FATAL]",
            Level::Error => "[ERROR]",
            Level::Warn => "[WARN]",
            Level::Info => "[INFO]",
            Level::Debug => "[DEBUG]",
            Level::Trace => "[TRACE]",
        };
        let mut s = String::from_str(label);
        s.append(" ");
        s.append(self.message.as_str());
        assert(s@ =~= level_label(self.level) + " "@ + self.message@);
        s
    }

    /// Severity of this entry.
    pub fn get_level(&self) -> (level: Level)
        ensures
            level == self.level,
    {
        self.level
    }

    /// Message text of this entry.
    pub fn get_message(&self) -> (message: &str)
        ensures
            message@ == self.message@,
    {
        self.message.as_str()
    }
}

/// Exactly one entry with the given severity and message was appended to the
/// buffer, and every earlier entry is untouched.
pub open spec fn appended(
    old_logs: Seq<Log>,
    new_logs: Seq<Log>,
    level: Level,
    message: Seq<char>,
) -> bool {
    &&& new_logs.len() == old_logs.len() + 1
    &&& forall|i: int| 0 <= i < old_logs.len() ==> new_logs[i] == old_logs[i]
    &&& new_logs.last().level == level
    &&& new_logs.last().message@ == message
}

/// The buffering log sink.
pub struct Logger {
    pub logs: Vec<Log>,
}

impl Logger {
    /// An empty log buffer.
    pub fn new() -> (logger: Logger)
        ensures
            logger.logs@.len() == 0,
    {
        Logger { logs: Vec::new() }
    }

    /// Buffer a Debug-severity entry.
    pub fn debug(&mut self, message: &str)
        ensures
            appended(old(self).logs@, final(self).logs@, Level::Debug, message@),
    {
        let log = Log { level: Level::Debug, message: String::from_str(message) };
        self.logs.push(log);
    }

    /// Buffer an Error-severity entry.
    pub fn error(&mut self, message: &str)
        ensures
            appended(old(self).logs@, final(self).logs@, Level::Error, message@),
    {
        let log = Log { level: Level::Error, message: String::from_str(message) };
        self.logs.push(log);
    }

    /// A Fatal entry is never buffered: it is returned to the caller, who
    /// must write it synchronously to the out-of-band serial channel.
    pub fn fatal(message: &str) -> (log: Log)
        ensures
            log.level == Level::Fatal,
            log.message@ == message@,
    {
        Log { level: Level::Fatal, message: String::from_str(message) }
    }

    /// Buffer an Info-severity entry.
    pub fn info(&mut self, message: &str)
        ensures
            appended(old(self).logs@, final(self).logs@, Level::Info, message@),
    {
        let log = Log { level: Level::Info, message: String::from_str(message) };
        self.logs.push(log);
    }

    /// Buffer a Trace-severity entry.
    pub fn trace(&mut self, message: &str)
        ensures
            appended(old(self).logs@, final(self).logs@, Level::Trace, message@),
    {
        let log = Log { level: Level::Trace, message: String::from_str(message) };
        self.logs.push(log);
    }

    /// Buffer a Warn-severity entry.
    pub fn warn(&mut self, message: &str)
        ensures
            appended(old(self).logs@, final(self).logs@, Level::Warn, message@),
    {
        let log = Log { level: Level::Warn, message: String::from_str(message) };
        self.logs.push(log);
    }

    /// All buffered entries, oldest first.
    pub fn get_logs(&self) -> (logs: &Vec<Log>)
        ensures
            logs@ == self.logs@,
    {
        &self.logs
    }
}

} // verus!
