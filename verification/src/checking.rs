//! The checking pass, which looks at the lines of a file before any code is
//! generated for it, and answers with diagnostics.

use vstd::prelude::*;
use vstd::string::*;
use crate::logger::{Logger, LogView};
use crate::tokens::{copy_lines, Token};

verus! {

/// What a checker works on.
#[derive(Debug)]
pub struct CheckerData {
    /// The path of the source.
    pub source: String,
    /// The lines of the source.
    pub parsed: Vec<Vec<Token>>,
    /// The diagnostics found so far.
    pub logger: Logger,
    /// The index of the line that is looked at.
    pub line_i: usize,
    /// The index of the token that is looked at.
    pub token_i: usize,
}

/// The answer for a list of diagnostics: nothing to say where there are none,
/// and else all of them, in their order.
pub open spec fn is_verdict(logs: Seq<LogView>, verdict: Result<(), Logger>) -> bool {
    match verdict {
        Ok(()) => logs.len() == 0,
        Err(logger) => logs.len() > 0 && logger@ == logs,
    }
}

/// A checker: it looks at the lines that it was given, and may add
/// diagnostics to those that are there.
pub trait Checker {
    /// What the checker holds.
    spec fn model(&self) -> CheckerData;

    /// What the checker holds, to read and to change.
    fn data(&mut self) -> (data: &mut CheckerData)
        ensures
            *data == old(self).model(),
            final(self).model() == *final(data),
    ;

    /// Prepares the check. The diagnostics stay as they are.
    fn init(&mut self)
        ensures
            final(self).model().logger@ == old(self).model().logger@,
    ;

    /// Looks at every line. What was found before stays, in its place.
    fn check(&mut self)
        ensures
            old(self).model().logger@.is_prefix_of(final(self).model().logger@),
    ;

    /// Looks at one token of a line, knowing the token before it, and may
    /// set `break_line` to leave the rest of the line alone. What was found
    /// before stays, in its place.
    fn check_for_instruction(
        &mut self,
        line: &Vec<Token>,
        break_line: &mut bool,
        token: &Token,
        previous_token: &mut Token,
    )
        ensures
            old(self).model().logger@.is_prefix_of(final(self).model().logger@),
    ;

    /// Ends the check: see [`is_verdict`].
    fn finish(&mut self) -> (verdict: Result<(), Logger>)
        ensures
            final(self).model() == old(self).model(),
            is_verdict(old(self).model().logger@, verdict),
    {
        let data = self.data();
        if data.logger.len() == 0 {
            Ok(())
        } else {
            Err(data.logger.clone())
        }
    }

    /// The whole check: preparing, looking, answering. The answer holds what
    /// was found before and, behind it, what the check found.
    fn run(&mut self) -> (verdict: Result<(), Logger>)
        ensures
            is_verdict(final(self).model().logger@, verdict),
            old(self).model().logger@.is_prefix_of(final(self).model().logger@),
    {
        self.init();
        self.check();
        self.finish()
    }
}

/// The checker that lets every file pass: it finds nothing.
#[derive(Debug)]
pub struct PassThrough {
    data: CheckerData,
}

impl PassThrough {
    /// A checker for the given lines.
    pub fn new(data: CheckerData) -> (checker: Self)
        ensures
            checker.model() == data,
    {
        PassThrough { data }
    }
}

impl Checker for PassThrough {
    closed spec fn model(&self) -> CheckerData {
        self.data
    }

    fn data(&mut self) -> (data: &mut CheckerData) {
        &mut self.data
    }

    fn init(&mut self)
        ensures
            final(self).model() == old(self).model(),
    {
    }

    /// Walks every line token by token, each with the token before it, as
    /// far as no token asks to leave the rest of its line alone. Nothing is
    /// found, and nothing changes.
    fn check(&mut self)
        ensures
            final(self).model() == old(self).model(),
    {
        let parsed = copy_lines(&self.data.parsed);
        let mut line_i: usize = 0;
        while line_i < parsed.len()
            invariant
                self.model() == old(self).model(),
            decreases parsed.len() - line_i,
        {
            let line = &parsed[line_i];
            let mut previous_token = Token::Nothing;
            let mut break_line = false;
            let mut token_i: usize = 0;
            while token_i < line.len() && !break_line
                invariant
                    self.model() == old(self).model(),
                decreases line.len() - token_i,
            {
                let token = &line[token_i];
                self.check_for_instruction(line, &mut break_line, token, &mut previous_token);
                previous_token = token.clone();
                token_i += 1;
            }
            line_i += 1;
        }
    }

    /// Finds nothing in any token: the checker, the mark and the token
    /// before stay as they are.
    fn check_for_instruction(
        &mut self,
        line: &Vec<Token>,
        break_line: &mut bool,
        token: &Token,
        previous_token: &mut Token,
    )
        ensures
            final(self).model() == old(self).model(),
            *final(break_line) == *old(break_line),
            *final(previous_token) == *old(previous_token),
    {
    }
}

/// Runs the checkers on a file: see [`is_verdict`]. None of them finds
/// anything, so the answer holds what the data came with.
pub fn run_checkers(data: CheckerData) -> (verdict: Result<(), Logger>)
    ensures
        is_verdict(data.logger@, verdict),
{
    let mut checker = PassThrough::new(data);
    checker.init();
    checker.check();
    checker.finish()
}

} // verus!
