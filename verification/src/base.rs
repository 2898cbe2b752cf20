//! The dispatcher, which walks the tokens of each line and calls the handler
//! that the preceding token asks for, and the steps of a build.

use vstd::prelude::*;
use vstd::string::*;
use crate::assembly::{function_lines, return_lines, static_line};
use crate::caller::{
    assembly_handled, emitted, exit_handled, function_handled, is_declaration, print_handled,
    return_handled, static_added, static_handled, variable_handled, Caller,
};
use crate::checking::{run_checkers, CheckerData};
use crate::data::{fresh, CompilerData, CompilerDataView, Fault, Options, VariableTable};
use crate::effects::{
    assembly_file, assembly_path, failure_log, file_effects, linker, stub_effects, unreadable,
    unreadable_log, Action, ActionView, Effect, EffectView,
};
use crate::linux::LinuxCompiler;
use crate::logger::{any_error, Log, LogLevel, Logger, LogView};
use crate::objects::{lemma_type_names, FunctionView, Type, VariableView};
use crate::parser::{lex, Parser, ParserView};
use crate::platform::{
    get_from_id, lowercase, name_of, platform_name, platform_named, Platform, PlatformView,
};
use crate::tokens::{copy_lines, tokens_from, Token, TokenView};

verus! {

/// The token that decides what happens at a position of a line: the token
/// before it. Before the first token stands the sentinel, with one exception:
/// a line of a single token is decided by that token itself.
pub open spec fn key_at(line: Seq<TokenView>, position: int) -> TokenView {
    if position > 0 {
        line[position - 1]
    } else if line.len() == 1 {
        line[0]
    } else {
        TokenView::Nothing
    }
}

/// The tokens that follow the deciding token.
pub open spec fn rest_at(line: Seq<TokenView>, position: int) -> Seq<TokenView> {
    if position > 0 {
        line.subrange(position, line.len() as int)
    } else {
        line.subrange(1, line.len() as int)
    }
}

/// A result paired with whether the rest of the line is consumed.
pub open spec fn with_rest(
    handled: Result<CompilerDataView, Fault>,
    consumed: bool,
) -> Result<(CompilerDataView, bool), Fault> {
    match handled {
        Ok(state) => Ok((state, consumed)),
        Err(fault) => Err(fault),
    }
}

/// What a deciding token does to the state with the tokens that follow it,
/// and whether it consumes them. The escape, `static`, `variable`, `print` and
/// `exit` consume the rest of the line; `func` and `ret` do not; any other
/// token does nothing.
pub open spec fn instruction(d: CompilerDataView, key: TokenView, rest: Seq<TokenView>) -> Result<
    (CompilerDataView, bool),
    Fault,
> {
    match key {
        TokenView::AssemblyCode => with_rest(assembly_handled(d, rest), true),
        TokenView::Function => with_rest(function_handled(d, rest), false),
        TokenView::Return => with_rest(return_handled(d, rest), false),
        TokenView::Static => with_rest(static_handled(d, rest), true),
        TokenView::Variable => with_rest(variable_handled(d, rest), true),
        TokenView::Print => with_rest(print_handled(d, rest), true),
        TokenView::Exit => with_rest(exit_handled(d, rest), true),
        _ => Ok((d, false)),
    }
}

/// What happens at a position of a line; nothing outside the line.
pub open spec fn instruction_at(d: CompilerDataView, line: Seq<TokenView>, position: int) -> Result<
    (CompilerDataView, bool),
    Fault,
> {
    if 0 <= position < line.len() {
        instruction(d, key_at(line, position), rest_at(line, position))
    } else {
        Ok((d, false))
    }
}

/// The state after the tokens of a line from a position on, and the fault
/// that stopped the walk, if one did. Each token in turn becomes the current
/// token and is dispatched; the walk ends at a fault, where an instruction
/// consumes the rest of the line, or at the end of the line.
pub open spec fn line_from(d: CompilerDataView, line: Seq<TokenView>, position: int) -> (
    CompilerDataView,
    Option<Fault>,
)
    decreases line.len() - position,
{
    if position < 0 || position >= line.len() {
        (d, None)
    } else {
        let at = CompilerDataView { token: line[position], ..d };
        match instruction_at(at, line, position) {
            Err(fault) => (at, Some(fault)),
            Ok((next, consumed)) => if consumed {
                (next, None)
            } else {
                line_from(next, line, position + 1)
            },
        }
    }
}

/// Where and why the compiling of a file stopped.
#[derive(Clone, Copy, Debug, PartialEq, Eq, Structural)]
pub struct Failure {
    /// The index of the line, counted from zero.
    pub line: usize,
    /// What was wrong with it.
    pub fault: Fault,
}

/// The state after the lines from an index on, and the failure that stopped
/// the walk, if one did. Each line in turn becomes the current line and is
/// walked from its first token.
pub open spec fn program_from(d: CompilerDataView, lines: Seq<Seq<TokenView>>, index: int) -> (
    CompilerDataView,
    Option<Failure>,
)
    decreases lines.len() - index,
{
    if index < 0 || index >= lines.len() {
        (d, None)
    } else {
        let (next, fault) = line_from(CompilerDataView { line: lines[index], ..d }, lines[index], 0);
        match fault {
            Some(fault) => (next, Some(Failure { line: index as usize, fault })),
            None => program_from(next, lines, index + 1),
        }
    }
}

/// The lines that the lexer of the current file holds; none without a lexer.
pub open spec fn lines_of(d: CompilerDataView) -> Seq<Seq<TokenView>> {
    match d.parser {
        Some(parser) => parser.lines,
        None => Seq::empty(),
    }
}

/// A path from a position on, without any `.ju` in it.
pub open spec fn strip_from(source: Seq<char>, i: int) -> Seq<char>
    decreases source.len() - i,
{
    if i < 0 || i >= source.len() {
        Seq::empty()
    } else if i + 3 <= source.len() && source.subrange(i, i + 3) == ".ju"@ {
        strip_from(source, i + 3)
    } else {
        seq![source[i]] + strip_from(source, i + 1)
    }
}

/// The name of the module that a source is: its path without the extension
/// `.ju`, wherever it stands in it.
pub open spec fn module_name(source: Seq<char>) -> Seq<char> {
    strip_from(source, 0)
}

/// Writes the name of the module that a source is.
pub fn module_of(source: &String) -> (name: String)
    ensures
        name@ == module_name(source@),
{
    let text = source.as_str();
    let n = text.unicode_len();
    let mut name = String::new();
    let mut i: usize = 0;
    while i < n
        invariant
            n == source@.len(),
            text@ == source@,
            i <= n,
            module_name(source@) == name@ + strip_from(source@, i as int),
        decreases n - i,
    {
        let ghost before = name@;
        proof {
            reveal_strlit(".ju");
            assert(".ju"@.len() == 3 && ".ju"@[0] == '.' && ".ju"@[1] == 'j' && ".ju"@[2] == 'u');
        }
        if n - i >= 3 && text.get_char(i) == '.' && text.get_char(i + 1) == 'j' && text.get_char(
            i + 2,
        ) == 'u' {
            assert(source@.subrange(i as int, i + 3) =~= ".ju"@);
            i += 3;
        } else {
            assert(!(i + 3 <= n && source@.subrange(i as int, i + 3) == ".ju"@)) by {
                if i + 3 <= n && source@.subrange(i as int, i + 3) == ".ju"@ {
                    assert(source@.subrange(i as int, i + 3)[0] == source@[i as int]);
                    assert(source@.subrange(i as int, i + 3)[1] == source@[i + 1]);
                    assert(source@.subrange(i as int, i + 3)[2] == source@[i + 2]);
                }
            }
            name.push(text.get_char(i));
            assert(name@ + strip_from(source@, i + 1) =~= before + (seq![source@[i as int]]
                + strip_from(source@, i + 1)));
            i += 1;
        }
    }
    assert(name@ + Seq::<char>::empty() =~= name@);
    name
}

/// The state in which the compiling of a file starts: the file is lexed, the
/// scope is the file's module, and there are no variables, no functions and
/// no generated lines yet.
pub open spec fn entered(
    d: CompilerDataView,
    source: Seq<char>,
    content: Seq<char>,
) -> CompilerDataView {
    CompilerDataView {
        parser: Some(ParserView { source, content, lines: lex(content) }),
        current_source: assembly_path(source),
        scope: seq![module_name(source)],
        variables: Map::empty(),
        offset: 0,
        functions: Seq::empty(),
        text: Seq::empty(),
        data: Seq::empty(),
        ..d
    }
}

/// The state once the current file is done with: the next source is the one
/// awaited.
pub open spec fn passed(d: CompilerDataView) -> CompilerDataView {
    if d.next_source < d.sources.len() {
        CompilerDataView { next_source: d.next_source + 1, ..d }
    } else {
        d
    }
}

/// What follows once a file is done with and the effects of it are known.
/// While sources are left, the next one is read. After the last one the
/// diagnostics are shown; then, if one of them is an error, the build ends
/// with status 1 and nothing is linked; else the objects are linked and the
/// build ends with status 0.
pub open spec fn next_action(d: CompilerDataView, effects: Seq<EffectView>) -> ActionView {
    if d.next_source < d.sources.len() {
        ActionView::Read { effects, source: d.sources[d.next_source as int] }
    } else if any_error(d.logs) {
        ActionView::Finish { effects: effects.push(EffectView::Report { logs: d.logs }), status: 1 }
    } else {
        ActionView::Finish {
            effects: effects.push(EffectView::Report { logs: d.logs }).push(linker(d)),
            status: 0,
        }
    }
}

/// What the checking pass found: nothing, or the diagnostics that it answered
/// with.
pub open spec fn found_by(verdict: Result<(), Logger>) -> Seq<LogView> {
    match verdict {
        Ok(()) => Seq::empty(),
        Err(logger) => logger@,
    }
}

/// The state and the action after the checking pass has answered for the
/// current file. What it found joins the diagnostics of the build. If an
/// error is among it, no code is generated for the file. Else the lines of
/// the file are compiled: a failure joins the diagnostics and ends the build
/// with status 1; without one, the file's sections are written and assembled
/// and the section buffers are empty again.
pub open spec fn proceeded(d: CompilerDataView, source: Seq<char>, found: Seq<LogView>) -> (
    CompilerDataView,
    ActionView,
) {
    let logged = CompilerDataView { logs: d.logs + found, ..d };
    if any_error(found) {
        (passed(logged), next_action(passed(logged), Seq::empty()))
    } else {
        let (compiled, failure) = program_from(logged, lines_of(logged), 0);
        match failure {
            Some(failure) => {
                let stopped = CompilerDataView {
                    logs: compiled.logs.push(failure_log(source, failure)),
                    ..compiled
                };
                (
                    stopped,
                    ActionView::Finish {
                        effects: seq![EffectView::Report { logs: stopped.logs }],
                        status: 1,
                    },
                )
            },
            None => {
                let flushed = passed(
                    CompilerDataView { text: Seq::empty(), data: Seq::empty(), ..compiled },
                );
                (flushed, next_action(flushed, file_effects(compiled, source)))
            },
        }
    }
}

/// The state and the action after the awaited source was read, or could not
/// be read. A source that could not be read ends the build with status 1,
/// and its diagnostic is shown. Where no source is awaited, there is nothing
/// to do but to end with status 1.
pub open spec fn resumed(d: CompilerDataView, content: Option<Seq<char>>) -> (
    CompilerDataView,
    ActionView,
) {
    if d.next_source >= d.sources.len() {
        (d, ActionView::Finish { effects: Seq::empty(), status: 1 })
    } else {
        let source = d.sources[d.next_source as int];
        match content {
            None => {
                let stopped = CompilerDataView { logs: d.logs.push(unreadable_log(source)), ..d };
                (
                    stopped,
                    ActionView::Finish {
                        effects: seq![EffectView::Report { logs: stopped.logs }],
                        status: 1,
                    },
                )
            },
            Some(text) => proceeded(entered(d, source, text), source, Seq::empty()),
        }
    }
}

/// What a backend is: the handlers and generators of [`Caller`], the
/// dispatcher over them, and the steps of a build.
pub trait Compiler: Caller {
    /// What a build begins with: see [`stub_effects`].
    fn init(&mut self) -> (effects: Vec<Effect>)
        ensures
            final(self).model() == old(self).model(),
            effects.deep_view() == stub_effects(old(self).model()@.is_library),
    ;

    /// The run of the linker: see [`linker`].
    fn link(&mut self) -> (effect: Effect)
        ensures
            final(self).model() == old(self).model(),
            effect@ == linker(old(self).model()@),
    ;

    /// Ends the compiling of a file: see [`file_effects`]. The two section
    /// buffers are empty afterwards.
    fn finish_one(&mut self, source: &String) -> (effects: Vec<Effect>)
        ensures
            effects.deep_view() == file_effects(old(self).model()@, source@),
            final(self).model()@ == (CompilerDataView {
                text: Seq::empty(),
                data: Seq::empty(),
                ..old(self).model()@
            }),
    ;

    /// Ends the build: there is nothing left to do.
    fn finish(&mut self)
        ensures
            final(self).model() == old(self).model(),
    {
    }

    /// Starts the compiling of a file with the text that was read of it: see
    /// [`entered`]. Then the checking pass runs on its lines; as it finds
    /// nothing, it has nothing to say.
    fn init_one(&mut self, source: &String, content: String) -> (verdict: Result<(), Logger>)
        ensures
            final(self).model()@ == entered(old(self).model()@, source@, content@),
            verdict is Ok,
    {
        let mut parser = Parser::new(source);
        parser.set_content(content);
        parser.run();
        let checker_data = CheckerData {
            source: source.clone(),
            parsed: copy_lines(parser.parsed()),
            logger: Logger::new(),
            line_i: 0,
            token_i: 0,
        };
        let mut scope: Vec<String> = Vec::new();
        scope.push(module_of(source));
        assert(scope.deep_view() =~= seq![module_name(source@)]);
        let data = self.data();
        data.parser = Some(parser);
        data.current_source = assembly_file(source);
        data.current_scope = scope;
        data.variable_stack = VariableTable::new();
        data.i_variable_stack = 0;
        data.functions = Vec::new();
        data.section_text = Vec::new();
        data.section_data = Vec::new();
        assert(data.functions.deep_view() =~= Seq::<FunctionView>::empty());
        assert(data.section_text.deep_view() =~= Seq::<Seq<char>>::empty());
        assert(data.section_data.deep_view() =~= Seq::<Seq<char>>::empty());
        run_checkers(checker_data)
    }

    /// Starts the build: what it begins with, then the first source is
    /// awaited; without sources the build is concluded at once. See
    /// [`next_action`].
    fn run(&mut self) -> (action: Action)
        ensures
            final(self).model() == old(self).model(),
            action@ == next_action(
                old(self).model()@,
                stub_effects(old(self).model()@.is_library),
            ),
    {
        let effects = self.init();
        self.next_step(effects)
    }

    /// Goes on with the text of the awaited source, or with `None` where it
    /// could not be read: see [`resumed`].
    fn resume(&mut self, content: Option<String>) -> (action: Action)
        ensures
            (final(self).model()@, action@) == resumed(
                old(self).model()@,
                match content {
                    Some(text) => Some(text@),
                    None => None,
                },
            ),
    {
        let data = self.data();
        if data.next_source >= data.sources.len() {
            let effects: Vec<Effect> = Vec::new();
            assert(effects.deep_view() =~= Seq::<EffectView>::empty());
            return Action::Finish { effects, status: 1 };
        }
        let source = data.sources[data.next_source].clone();
        match content {
            None => {
                data.logger.add_log(unreadable(&source));
                let logs = data.logger.clone().into_logs();
                let mut effects: Vec<Effect> = Vec::new();
                let report = Effect::Report { logs };
                effects.push(report);
                assert(effects.deep_view() =~= seq![report@]);
                Action::Finish { effects, status: 1 }
            },
            Some(text) => {
                let verdict = self.init_one(&source, text);
                self.proceed(&source, verdict)
            },
        }
    }

    /// Goes on after the checking pass has answered for the current file: see
    /// [`proceeded`].
    fn proceed(&mut self, source: &String, verdict: Result<(), Logger>) -> (action: Action)
        ensures
            (final(self).model()@, action@) == proceeded(
                old(self).model()@,
                source@,
                found_by(verdict),
            ),
    {
        let mut blocked = false;
        match verdict {
            Ok(()) => {
                assert(old(self).model()@.logs + Seq::<LogView>::empty() =~= old(
                    self,
                ).model()@.logs);
            },
            Err(logger) => {
                blocked = logger.has_error();
                self.data().logger.absorb(logger);
            },
        }
        if blocked {
            self.pass();
            let effects: Vec<Effect> = Vec::new();
            assert(effects.deep_view() =~= Seq::<EffectView>::empty());
            return self.next_step(effects);
        }
        match self.call() {
            Err(failure) => {
                let data = self.data();
                data.logger.add_log(failure.to_log(source));
                let logs = data.logger.clone().into_logs();
                let mut effects: Vec<Effect> = Vec::new();
                let report = Effect::Report { logs };
                effects.push(report);
                assert(effects.deep_view() =~= seq![report@]);
                Action::Finish { effects, status: 1 }
            },
            Ok(()) => {
                let effects = self.finish_one(source);
                self.pass();
                self.next_step(effects)
            },
        }
    }

    /// Counts the current file as done with: see [`passed`].
    fn pass(&mut self)
        ensures
            final(self).model()@ == passed(old(self).model()@),
    {
        let data = self.data();
        if data.next_source < data.sources.len() {
            data.next_source = data.next_source + 1;
        }
    }

    /// What follows the given effects: see [`next_action`].
    fn next_step(&mut self, effects: Vec<Effect>) -> (action: Action)
        ensures
            final(self).model() == old(self).model(),
            action@ == next_action(old(self).model()@, effects.deep_view()),
    {
        let mut effects = effects;
        let ghost given = effects.deep_view();
        let data = self.data();
        if data.next_source < data.sources.len() {
            let source = data.sources[data.next_source].clone();
            return Action::Read { effects, source };
        }
        let logger = data.logger.clone();
        let blocked = logger.has_error();
        let report = Effect::Report { logs: logger.into_logs() };
        effects.push(report);
        assert(effects.deep_view() =~= given.push(report@));
        if blocked {
            Action::Finish { effects, status: 1 }
        } else {
            let link = self.link();
            effects.push(link);
            assert(effects.deep_view() =~= given.push(report@).push(link@));
            Action::Finish { effects, status: 0 }
        }
    }

    /// Compiles the lines of the current file: see [`program_from`]. Fails
    /// with the first fault and the line that it stands in.
    fn call(&mut self) -> (done: Result<(), Failure>)
        ensures
            final(self).model()@ == program_from(
                old(self).model()@,
                lines_of(old(self).model()@),
                0,
            ).0,
            match program_from(old(self).model()@, lines_of(old(self).model()@), 0).1 {
                Some(failure) => done == Err::<(), Failure>(failure),
                None => done is Ok,
            },
    {
        let parsed: Vec<Vec<Token>> = match &self.data().parser {
            Some(parser) => copy_lines(parser.parsed()),
            None => Vec::new(),
        };
        let ghost lines = lines_of(old(self).model()@);
        assert(parsed.deep_view() =~= lines);
        let mut index: usize = 0;
        while index < parsed.len()
            invariant
                index <= parsed.len(),
                parsed.deep_view() == lines,
                lines == lines_of(old(self).model()@),
                program_from(old(self).model()@, lines, 0) == program_from(
                    self.model()@,
                    lines,
                    index as int,
                ),
            decreases parsed.len() - index,
        {
            let line = &parsed[index];
            let ghost tokens = lines[index as int];
            let ghost outer = self.model()@;
            assert(line.deep_view() == tokens);
            self.data().current_line = tokens_from(line, 0);
            assert(tokens.subrange(0, tokens.len() as int) =~= tokens);
            let ghost entered = self.model()@;
            let mut position: usize = 0;
            let mut consumed = false;
            while position < line.len() && !consumed
                invariant
                    position <= line.len(),
                    line.deep_view() == tokens,
                    0 <= index < lines.len(),
                    lines == lines_of(old(self).model()@),
                    tokens == lines[index as int],
                    entered == (CompilerDataView { line: tokens, ..outer }),
                    program_from(old(self).model()@, lines, 0) == program_from(
                        outer,
                        lines,
                        index as int,
                    ),
                    line_from(entered, tokens, 0) == if consumed {
                        (self.model()@, None::<Fault>)
                    } else {
                        line_from(self.model()@, tokens, position as int)
                    },
                decreases line.len() - position + (if consumed { 0int } else { 1int }),
            {
                let ghost reached = self.model()@;
                self.data().current_token = line[position].clone();
                let ghost at = self.model()@;
                assert(at == (CompilerDataView { token: tokens[position as int], ..reached }));
                match self.check_for_instruction(line, position) {
                    Ok(rest_consumed) => {
                        consumed = rest_consumed;
                    },
                    Err(fault) => {
                        assert(line_from(reached, tokens, position as int) == (at, Some(fault)));
                        assert(program_from(outer, lines, index as int) == (
                            at,
                            Some(Failure { line: index, fault }),
                        ));
                        return Err(Failure { line: index, fault });
                    },
                }
                position += 1;
            }
            index += 1;
        }
        Ok(())
    }

    /// Dispatches at one position of a line: see [`instruction_at`]. Tells
    /// whether the rest of the line is consumed.
    fn check_for_instruction(&mut self, line: &Vec<Token>, position: usize) -> (done: Result<
        bool,
        Fault,
    >)
        ensures
            match instruction_at(old(self).model()@, line.deep_view(), position as int) {
                Ok((state, consumed)) => {
                    &&& done == Ok::<bool, Fault>(consumed)
                    &&& final(self).model()@ == state
                },
                Err(fault) => {
                    &&& done == Err::<bool, Fault>(fault)
                    &&& final(self).model()@ == old(self).model()@
                },
            },
    {
        if position >= line.len() {
            return Ok(false);
        }
        let key: &Token = if position > 0 {
            &line[position - 1]
        } else if line.len() == 1 {
            &line[0]
        } else {
            return Ok(false);
        };
        let from: usize = if position > 0 {
            position
        } else {
            1
        };
        match key {
            Token::AssemblyCode => match self.when_assembly_code(tokens_from(line, from)) {
                Ok(()) => Ok(true),
                Err(fault) => Err(fault),
            },
            Token::Function => match self.when_function(tokens_from(line, from)) {
                Ok(()) => Ok(false),
                Err(fault) => Err(fault),
            },
            Token::Return => match self.when_return(tokens_from(line, from)) {
                Ok(()) => Ok(false),
                Err(fault) => Err(fault),
            },
            Token::Static => match self.when_static(tokens_from(line, from)) {
                Ok(()) => Ok(true),
                Err(fault) => Err(fault),
            },
            Token::Variable => match self.when_variable(tokens_from(line, from)) {
                Ok(()) => Ok(true),
                Err(fault) => Err(fault),
            },
            Token::Print => match self.when_print(tokens_from(line, from)) {
                Ok(()) => Ok(true),
                Err(fault) => Err(fault),
            },
            Token::Exit => match self.when_exit(tokens_from(line, from)) {
                Ok(()) => Ok(true),
                Err(fault) => Err(fault),
            },
            Token::Assign => {
                self.when_assign(tokens_from(line, 0));
                Ok(false)
            },
            _ => {
                self.when_other();
                Ok(false)
            },
        }
    }
}

/// The platform to build for: the one that the option `p` names, in whatever
/// case it is written, or else the platform of the machine.
pub open spec fn selected(options: Map<char, Seq<char>>, host: PlatformView) -> PlatformView {
    if options.contains_key('p') {
        platform_named(lowercase(options['p']))
    } else {
        host
    }
}

/// A message of level `Info`.
pub open spec fn info_log(message: Seq<char>) -> LogView {
    LogView { level: LogLevel::Info, title: "Info"@, message, hint: None }
}

/// The diagnostic of a platform name that no platform has.
pub open spec fn invalid_platform_log(id: Seq<char>) -> LogView {
    LogView {
        level: LogLevel::Error,
        title: "Invalid platform"@,
        message: "Platform '"@ + id + "' is not compatible with the current version of 'juc'"@,
        hint: Some("Available platforms : Android, IOS, Linux, MacOS, Windows"@),
    }
}

/// The diagnostic of a platform that no backend exists for.
pub open spec fn unsupported_log(name: Seq<char>) -> LogView {
    LogView {
        level: LogLevel::Error,
        title: "Unsupported platform"@,
        message: "No compiler exists for platform '"@ + name + "'"@,
        hint: Some("Available platforms : Android, IOS, Linux, MacOS, Windows"@),
    }
}

/// What is noted before the platform is looked at: that a library is built,
/// where the option `l` is set.
pub open spec fn noted(options: Map<char, Seq<char>>) -> Seq<LogView> {
    if options.contains_key('l') {
        seq![info_log("Library building"@)]
    } else {
        Seq::empty()
    }
}

/// How a build for a platform starts. For Linux: in the fresh state of a
/// build of the sources, a library where the option `l` is set, with what was
/// noted and the platform's name as its first diagnostics. For a name that is
/// no platform's, and for a platform without a backend: not at all, and the
/// diagnostics end with the error that says so.
pub open spec fn started(
    sources: Seq<Seq<char>>,
    options: Map<char, Seq<char>>,
    platform: PlatformView,
) -> Result<CompilerDataView, Seq<LogView>> {
    match platform {
        PlatformView::Linux => Ok(
            CompilerDataView {
                logs: noted(options).push(info_log("Platform : 'Linux'"@)),
                ..fresh(sources, options, options.contains_key('l'))
            },
        ),
        PlatformView::Unknown(id) => Err(noted(options).push(invalid_platform_log(id))),
        _ => Err(noted(options).push(unsupported_log(platform_name(platform)))),
    }
}

/// That a build started as expected: with a compiler in the expected state,
/// or with the expected diagnostics and no compiler.
pub open spec fn is_start(
    outcome: Result<LinuxCompiler, Logger>,
    expected: Result<CompilerDataView, Seq<LogView>>,
) -> bool {
    match expected {
        Ok(state) => outcome matches Ok(compiler) && compiler.model()@ == state,
        Err(logs) => outcome matches Err(logger) && logger@ == logs,
    }
}

/// Resolves the platform to build for: see [`selected`].
pub fn select_platform(options: &Options, host: Platform) -> (platform: Platform)
    ensures
        platform@ == selected(options@, host@),
{
    match options.get('p') {
        Some(platform_id) => get_from_id(platform_id.as_str().to_lowercase()),
        None => host,
    }
}

/// Starts a build for a platform: see [`started`].
pub fn start(sources: &Vec<String>, options: &Options, platform: Platform) -> (outcome: Result<
    LinuxCompiler,
    Logger,
>)
    ensures
        is_start(outcome, started(sources.deep_view(), options@, platform@)),
{
    let mut logger = Logger::new();
    let is_library = options.get('l').is_some();
    if is_library {
        logger.add_log(Log::info(String::from_str("Library building")));
    }
    match platform {
        Platform::Linux => {
            logger.add_log(Log::info(String::from_str("Platform : 'Linux'")));
            let mut data = CompilerData::new(copy_texts(sources), options.clone(), is_library);
            data.logger = logger;
            Ok(LinuxCompiler::new(data))
        },
        Platform::Unknown(id) => {
            let mut message = String::from_str("Platform '");
            message.append(id.as_str());
            message.append("' is not compatible with the current version of 'juc'");
            logger.add_log(
                Log::new(LogLevel::Error, String::from_str("Invalid platform"), message).add_hint(
                    String::from_str("Available platforms : Android, IOS, Linux, MacOS, Windows"),
                ),
            );
            Err(logger)
        },
        other => {
            let mut message = String::from_str("No compiler exists for platform '");
            message.append(name_of(&other).as_str());
            message.append("'");
            logger.add_log(
                Log::new(LogLevel::Error, String::from_str("Unsupported platform"), message).add_hint(
                    String::from_str("Available platforms : Android, IOS, Linux, MacOS, Windows"),
                ),
            );
            Err(logger)
        },
    }
}

/// Starts a build of the sources with the options, on a machine of the given
/// platform: the platform is resolved, and the build starts for it. See
/// [`selected`] and [`started`].
pub fn run_compiler(sources: &Vec<String>, options: &Options, host: Platform) -> (outcome: Result<
    LinuxCompiler,
    Logger,
>)
    ensures
        is_start(outcome, started(sources.deep_view(), options@, selected(options@, host@))),
{
    let platform = select_platform(options, host);
    start(sources, options, platform)
}

/// The diagnostic of a source that does not exist.
pub open spec fn missing_log(source: Seq<char>) -> LogView {
    LogView {
        level: LogLevel::Error,
        title: "Source file does not exist"@,
        message: "The given source file '"@ + source
            + "' cannot be found in the current directory"@,
        hint: None,
    }
}

/// Whether the source at an index is missing: whether it is not known to be
/// there.
pub open spec fn is_missing(present: Seq<bool>, index: int) -> bool {
    !(0 <= index < present.len() && present[index])
}

/// The diagnostics of the missing ones among the first `count` sources, in
/// the order of the sources.
pub open spec fn missing_logs(sources: Seq<Seq<char>>, present: Seq<bool>, count: int) -> Seq<
    LogView,
>
    decreases count,
{
    if count <= 0 {
        Seq::empty()
    } else if is_missing(present, count - 1) {
        missing_logs(sources, present, count - 1).push(missing_log(sources[count - 1]))
    } else {
        missing_logs(sources, present, count - 1)
    }
}

/// There are diagnostics of missing sources exactly where a source is
/// missing, and each of them is an error.
pub proof fn lemma_missing_logs(sources: Seq<Seq<char>>, present: Seq<bool>, count: int)
    requires
        0 <= count <= sources.len(),
    ensures
        any_error(missing_logs(sources, present, count)) == exists|i: int|
            0 <= i < count && is_missing(present, i),
        (missing_logs(sources, present, count).len() > 0) == exists|i: int|
            0 <= i < count && is_missing(present, i),
    decreases count,
{
    if count > 0 {
        lemma_missing_logs(sources, present, count - 1);
        let before = missing_logs(sources, present, count - 1);
        let all = missing_logs(sources, present, count);
        if is_missing(present, count - 1) {
            assert(all[all.len() - 1].level == LogLevel::Error);
        } else {
            if any_error(all) {
                let i = choose|i: int| 0 <= i < all.len() && (#[trigger] all[i]).level == LogLevel::Error;
                assert(before[i].level == LogLevel::Error);
            }
        }
        if any_error(before) {
            let i = choose|i: int| 0 <= i < before.len() && (#[trigger] before[i]).level == LogLevel::Error;
            assert(all[i].level == LogLevel::Error);
        }
    }
}

/// Looks for missing sources: `present` says of each source, by its index,
/// whether it exists. See [`missing_logs`].
pub fn check_sources(sources: &Vec<String>, present: &Vec<bool>) -> (logger: Logger)
    ensures
        logger@ == missing_logs(sources.deep_view(), present@, sources.len() as int),
        any_error(logger@) == exists|i: int| 0 <= i < sources.len() && is_missing(present@, i),
{
    let mut logger = Logger::new();
    let mut i: usize = 0;
    while i < sources.len()
        invariant
            i <= sources.len(),
            logger@ == missing_logs(sources.deep_view(), present@, i as int),
        decreases sources.len() - i,
    {
        if !(i < present.len() && present[i]) {
            let mut message = String::from_str("The given source file '");
            message.append(sources[i].as_str());
            message.append("' cannot be found in the current directory");
            logger.add_log(
                Log::new(LogLevel::Error, String::from_str("Source file does not exist"), message),
            );
        }
        i += 1;
    }
    proof {
        lemma_missing_logs(sources.deep_view(), present@, sources.len() as int);
    }
    logger
}

/// How a build begins. Where a source is missing, it does not: the build
/// ends with status 1, and all there is to do is to show which ones are
/// missing. Where no backend can be had, likewise, with the reason. Else the
/// build starts, and asks for what it begins with.
pub open spec fn begun(
    sources: Seq<Seq<char>>,
    options: Map<char, Seq<char>>,
    platform: PlatformView,
    present: Seq<bool>,
) -> (Option<CompilerDataView>, ActionView) {
    let missing = missing_logs(sources, present, sources.len() as int);
    if missing.len() > 0 {
        (
            None,
            ActionView::Finish { effects: seq![EffectView::Report { logs: missing }], status: 1 },
        )
    } else {
        match started(sources, options, platform) {
            Err(logs) => (
                None,
                ActionView::Finish { effects: seq![EffectView::Report { logs }], status: 1 },
            ),
            Ok(state) => (Some(state), next_action(state, stub_effects(state.is_library))),
        }
    }
}

/// Whether no tool is run among the effects: neither the assembler nor the
/// linker.
pub open spec fn runs_no_tool(effects: Seq<EffectView>) -> bool {
    forall|i: int| 0 <= i < effects.len() ==> !(#[trigger] effects[i] is Execute)
}

/// A build that names a source which does not exist ends with status 1, and
/// runs neither the assembler nor the linker, whatever the options and the
/// platform are.
pub proof fn lemma_missing_source_runs_no_tool(
    sources: Seq<Seq<char>>,
    options: Map<char, Seq<char>>,
    platform: PlatformView,
    present: Seq<bool>,
)
    requires
        exists|i: int| 0 <= i < sources.len() && is_missing(present, i),
    ensures
        begun(sources, options, platform, present).0 is None,
        begun(sources, options, platform, present).1 matches ActionView::Finish { effects, status }
            && status == 1 && runs_no_tool(effects),
{
    lemma_missing_logs(sources, present, sources.len() as int);
}

/// A source that cannot be read ends the build with status 1, and no tool is
/// run for it.
pub proof fn lemma_unreadable_source_runs_no_tool(d: CompilerDataView)
    requires
        d.next_source < d.sources.len(),
    ensures
        resumed(d, None).1 matches ActionView::Finish { effects, status } && status == 1
            && runs_no_tool(effects),
{
}

/// Nothing is linked once a diagnostic is an error: the action that follows
/// the last source ends the build with status 1, and adds no run of a tool to
/// the effects that it was given.
pub proof fn lemma_error_prevents_linking(d: CompilerDataView, effects: Seq<EffectView>)
    requires
        d.next_source >= d.sources.len(),
        any_error(d.logs),
    ensures
        next_action(d, effects) == (ActionView::Finish {
            effects: effects.push(EffectView::Report { logs: d.logs }),
            status: 1,
        }),
        runs_no_tool(effects) ==> runs_no_tool(next_action(d, effects)->Finish_effects),
{
}

/// Begins a build of the sources with the options, on a machine of the given
/// platform, where `present` says of each source whether it exists: see
/// [`begun`] and [`selected`]. A build with a missing source runs no tool.
pub fn begin(
    sources: &Vec<String>,
    options: &Options,
    host: Platform,
    present: &Vec<bool>,
) -> (outcome: (Option<LinuxCompiler>, Action))
    ensures
        ({
            let expected = begun(
                sources.deep_view(),
                options@,
                selected(options@, host@),
                present@,
            );
            &&& outcome.1@ == expected.1
            &&& match expected.0 {
                Some(state) => outcome.0 matches Some(compiler) && compiler.model()@ == state,
                None => outcome.0 is None,
            }
        }),
        (exists|i: int| 0 <= i < sources.len() && is_missing(present@, i)) ==> outcome.0 is None
            && outcome.1@ == (ActionView::Finish {
            effects: seq![
                EffectView::Report {
                    logs: missing_logs(sources.deep_view(), present@, sources.len() as int),
                },
            ],
            status: 1,
        }),
{
    let missing = check_sources(sources, present);
    proof {
        lemma_missing_logs(sources.deep_view(), present@, sources.len() as int);
    }
    if missing.len() > 0 {
        return (None, refusal(missing));
    }
    match run_compiler(sources, options, host) {
        Err(logger) => (None, refusal(logger)),
        Ok(compiler) => {
            let mut compiler = compiler;
            let action = compiler.run();
            (Some(compiler), action)
        },
    }
}

/// The end of a build that cannot start: the diagnostics are shown, and the
/// status is 1.
pub fn refusal(logger: Logger) -> (action: Action)
    ensures
        action@ == (ActionView::Finish {
            effects: seq![EffectView::Report { logs: logger@ }],
            status: 1,
        }),
{
    let mut effects: Vec<Effect> = Vec::new();
    let report = Effect::Report { logs: logger.into_logs() };
    effects.push(report);
    assert(effects.deep_view() =~= seq![report@]);
    Action::Finish { effects, status: 1 }
}

/// A copy of a list of texts.
pub fn copy_texts(texts: &Vec<String>) -> (copy: Vec<String>)
    ensures
        copy.deep_view() == texts.deep_view(),
{
    let mut copy: Vec<String> = Vec::new();
    let mut i: usize = 0;
    let ghost all = texts.deep_view();
    assert(copy.deep_view() =~= all.take(0));
    while i < texts.len()
        invariant
            i <= texts.len(),
            all == texts.deep_view(),
            copy.deep_view() == all.take(i as int),
        decreases texts.len() - i,
    {
        let ghost before = copy.deep_view();
        copy.push(texts[i].clone());
        assert(copy.deep_view() =~= before.push(all[i as int]));
        assert(all.take(i + 1) =~= all.take(i as int).push(all[i as int]));
        i += 1;
    }
    assert(all.take(texts.len() as int) =~= all);
    copy
}

/// A file that declares a static string and then a function that returns a
/// literal: the data section gains the definition of the static, and the text
/// section gains the label and prologue of the function, followed by the four
/// instructions of the return with that literal. Nothing fails.
pub proof fn lemma_static_then_function(
    d: CompilerDataView,
    id: Seq<char>,
    value: Seq<char>,
    name: Seq<char>,
    literal: Seq<char>,
)
    ensures
        ({
            let lines = seq![
                seq![
                    TokenView::Static,
                    TokenView::RawString(id),
                    TokenView::TypeDef,
                    TokenView::RawString("str"@),
                    TokenView::Assign,
                    TokenView::RawString(value),
                ],
                seq![TokenView::Function, TokenView::RawString(name)],
                seq![TokenView::Return, TokenView::RawString(literal)],
            ];
            let (after, failure) = program_from(d, lines, 0);
            &&& failure is None
            &&& after.data == d.data.push(
                static_line(
                    VariableView { id, type_: Type::Str, value, offset: None },
                ),
            )
            &&& after.text == d.text + function_lines(name)
                + return_lines(literal)
            &&& after.scope == d.scope.push(name)
            &&& after.variables == d.variables
        }),
{
    lemma_type_names();
    let l0 = seq![
        TokenView::Static,
        TokenView::RawString(id),
        TokenView::TypeDef,
        TokenView::RawString("str"@),
        TokenView::Assign,
        TokenView::RawString(value),
    ];
    let l1 = seq![TokenView::Function, TokenView::RawString(name)];
    let l2 = seq![TokenView::Return, TokenView::RawString(literal)];
    let lines = seq![l0, l1, l2];
    let variable = VariableView { id, type_: Type::Str, value, offset: None };

    // The first line.
    let a0 = CompilerDataView { line: l0, ..d };
    let a1 = CompilerDataView { token: l0[0], ..a0 };
    assert(instruction_at(a1, l0, 0) == Ok::<(CompilerDataView, bool), Fault>((a1, false)));
    let a2 = CompilerDataView { token: l0[1], ..a1 };
    let rest0 = rest_at(l0, 1);
    assert(rest0 =~= seq![
        TokenView::RawString(id),
        TokenView::TypeDef,
        TokenView::RawString("str"@),
        TokenView::Assign,
        TokenView::RawString(value),
    ]);
    assert(is_declaration(rest0));
    let a3 = static_added(a2, variable);
    assert(instruction_at(a2, l0, 1) == Ok::<(CompilerDataView, bool), Fault>((a3, true)));
    assert(line_from(a1, l0, 1) == (a3, None::<Fault>));
    assert(line_from(a0, l0, 0) == (a3, None::<Fault>));

    // The second line.
    let b0 = CompilerDataView { line: l1, ..a3 };
    let b1 = CompilerDataView { token: l1[0], ..b0 };
    assert(instruction_at(b1, l1, 0) == Ok::<(CompilerDataView, bool), Fault>((b1, false)));
    let b2 = CompilerDataView { token: l1[1], ..b1 };
    assert(rest_at(l1, 1) =~= seq![TokenView::RawString(name)]);
    let b3 = function_handled(b2, rest_at(l1, 1))->Ok_0;
    assert(instruction_at(b2, l1, 1) == Ok::<(CompilerDataView, bool), Fault>((b3, false)));
    assert(line_from(b3, l1, 2) == (b3, None::<Fault>));
    assert(line_from(b1, l1, 1) == (b3, None::<Fault>));
    assert(line_from(b0, l1, 0) == (b3, None::<Fault>));

    // The third line.
    let c0 = CompilerDataView { line: l2, ..b3 };
    let c1 = CompilerDataView { token: l2[0], ..c0 };
    assert(instruction_at(c1, l2, 0) == Ok::<(CompilerDataView, bool), Fault>((c1, false)));
    let c2 = CompilerDataView { token: l2[1], ..c1 };
    assert(rest_at(l2, 1) =~= seq![TokenView::RawString(literal)]);
    let c3 = emitted(c2, return_lines(literal));
    assert(instruction_at(c2, l2, 1) == Ok::<(CompilerDataView, bool), Fault>((c3, false)));
    assert(line_from(c3, l2, 2) == (c3, None::<Fault>));
    assert(line_from(c1, l2, 1) == (c3, None::<Fault>));
    assert(line_from(c0, l2, 0) == (c3, None::<Fault>));

    assert(program_from(c3, lines, 3) == (c3, None::<Failure>));
    assert(program_from(b3, lines, 2) == (c3, None::<Failure>));
    assert(program_from(a3, lines, 1) == (c3, None::<Failure>));
    assert(program_from(d, lines, 0) == (c3, None::<Failure>));
}

} // verus!
