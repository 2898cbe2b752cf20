//! Diagnostics: leveled messages, gathered while a build runs.

use vstd::prelude::*;
use vstd::string::*;

verus! {

/// How much a diagnostic weighs. Only an error stops a build.
#[derive(Clone, Copy, Debug, PartialEq, Eq, Structural)]
pub enum LogLevel {
    Info,
    Warning,
    Error,
}

/// One diagnostic: a level, a title, a message, and a hint if there is one.
#[derive(Debug, PartialEq, Eq)]
pub struct Log {
    level: LogLevel,
    title: String,
    message: String,
    hint: Option<String>,
}

/// What a [`Log`] is in contracts.
pub struct LogView {
    pub level: LogLevel,
    pub title: Seq<char>,
    pub message: Seq<char>,
    pub hint: Option<Seq<char>>,
}

impl View for Log {
    type V = LogView;

    closed spec fn view(&self) -> LogView {
        LogView {
            level: self.level,
            title: self.title@,
            message: self.message@,
            hint: match self.hint {
                Some(hint) => Some(hint@),
                None => None,
            },
        }
    }
}

impl DeepView for Log {
    type V = LogView;

    open spec fn deep_view(&self) -> LogView {
        self@
    }
}

impl Clone for Log {
    fn clone(&self) -> (copy: Log)
        ensures
            copy@ == self@,
    {
        Log {
            level: self.level,
            title: self.title.clone(),
            message: self.message.clone(),
            hint: match &self.hint {
                Some(hint) => Some(hint.clone()),
                None => None,
            },
        }
    }
}

impl Log {
    /// A diagnostic without a hint.
    pub fn new(level: LogLevel, title: String, message: String) -> (log: Self)
        ensures
            log@ == (LogView { level, title: title@, message: message@, hint: None }),
    {
        Log { level, title, message, hint: None }
    }

    /// A message of level `Info`, titled "Info".
    pub fn info(message: String) -> (log: Self)
        ensures
            log@ == (LogView {
                level: LogLevel::Info,
                title: "Info"@,
                message: message@,
                hint: None,
            }),
    {
        Log { level: LogLevel::Info, title: String::from_str("Info"), message, hint: None }
    }

    /// The same diagnostic with the given hint, in place of any it had.
    pub fn add_hint(self, hint: String) -> (log: Self)
        ensures
            log@ == (LogView { hint: Some(hint@), ..self@ }),
    {
        Log { level: self.level, title: self.title, message: self.message, hint: Some(hint) }
    }

    /// The level.
    pub fn level(&self) -> (level: LogLevel)
        ensures
            level == self@.level,
    {
        self.level
    }

    /// The title.
    pub fn title(&self) -> (title: &String)
        ensures
            title@ == self@.title,
    {
        &self.title
    }

    /// The message.
    pub fn message(&self) -> (message: &String)
        ensures
            message@ == self@.message,
    {
        &self.message
    }

    /// The hint, if there is one.
    pub fn hint(&self) -> (hint: &Option<String>)
        ensures
            hint is Some == self@.hint is Some,
            hint matches Some(text) ==> self@.hint == Some(text@),
    {
        &self.hint
    }
}

/// Whether one of the diagnostics is an error.
pub open spec fn any_error(logs: Seq<LogView>) -> bool {
    exists|i: int| 0 <= i < logs.len() && (#[trigger] logs[i]).level == LogLevel::Error
}

/// Diagnostics in the order in which they were added.
#[derive(Debug, PartialEq, Eq)]
pub struct Logger {
    logs: Vec<Log>,
}

impl View for Logger {
    type V = Seq<LogView>;

    closed spec fn view(&self) -> Seq<LogView> {
        self.logs.deep_view()
    }
}

impl DeepView for Logger {
    type V = Seq<LogView>;

    open spec fn deep_view(&self) -> Seq<LogView> {
        self@
    }
}

impl Clone for Logger {
    fn clone(&self) -> (copy: Logger)
        ensures
            copy@ == self@,
    {
        let mut logs: Vec<Log> = Vec::new();
        let mut i: usize = 0;
        assert(logs.deep_view() =~= self@.take(0));
        while i < self.logs.len()
            invariant
                i <= self.logs.len(),
                logs.deep_view() == self@.take(i as int),
            decreases self.logs.len() - i,
        {
            let ghost before = logs.deep_view();
            logs.push(self.logs[i].clone());
            assert(logs.deep_view() =~= before.push(self@[i as int]));
            assert(self@.take(i + 1) =~= self@.take(i as int).push(self@[i as int]));
            i += 1;
        }
        assert(self@.take(self.logs.len() as int) =~= self@);
        Logger { logs }
    }
}

impl Logger {
    /// The number of diagnostics.
    pub fn len(&self) -> (n: usize)
        ensures
            n == self@.len(),
    {
        self.logs.len()
    }

    /// No diagnostics.
    pub fn new() -> (logger: Self)
        ensures
            logger@ == Seq::<LogView>::empty(),
    {
        let logger = Logger { logs: Vec::new() };
        assert(logger.logs.deep_view() =~= Seq::<LogView>::empty());
        logger
    }

    /// Adds a diagnostic behind those that are there.
    pub fn add_log(&mut self, log: Log)
        ensures
            final(self)@ == old(self)@.push(log@),
    {
        self.logs.push(log);
        assert(self.logs.deep_view() =~= old(self).logs.deep_view().push(log@));
    }

    /// The diagnostics, oldest first.
    pub fn logs(&self) -> (logs: &Vec<Log>)
        ensures
            logs.deep_view() == self@,
    {
        &self.logs
    }

    /// The diagnostics themselves, oldest first.
    pub fn into_logs(self) -> (logs: Vec<Log>)
        ensures
            logs.deep_view() == self@,
    {
        self.logs
    }

    /// Whether the build must stop: whether a diagnostic of level `Error`
    /// is among them.
    pub fn has_error(&self) -> (stop: bool)
        ensures
            stop == any_error(self@),
    {
        let mut i: usize = 0;
        while i < self.logs.len()
            invariant
                i <= self.logs.len(),
                forall|j: int| 0 <= j < i ==> (#[trigger] self@[j]).level != LogLevel::Error,
            decreases self.logs.len() - i,
        {
            if self.logs[i].level == LogLevel::Error {
                assert(self@[i as int].level == LogLevel::Error);
                return true;
            }
            i += 1;
        }
        false
    }

    /// Moves every diagnostic of `other` behind those that are there.
    pub fn absorb(&mut self, other: Logger)
        ensures
            final(self)@ == old(self)@ + other@,
    {
        let mut other = other;
        let ghost moved = other@;
        self.logs.append(&mut other.logs);
        assert(self.logs.deep_view() =~= old(self).logs.deep_view() + moved);
    }
}

} // verus!
