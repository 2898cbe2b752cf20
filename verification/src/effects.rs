//! What a build asks of the world around it: files to write, tools to run,
//! diagnostics to show, sources to read.

use vstd::prelude::*;
use vstd::string::*;
use crate::assembly::{file_text, stub_text};
use crate::base::Failure;
use crate::data::{CompilerDataView, Fault};
use crate::logger::{Log, LogLevel, LogView};
use crate::text::{decimal, number_to_string};

verus! {

/// One thing to do outside the compiler. A failure of any of them ends the
/// build at once.
#[derive(Debug, PartialEq, Eq)]
pub enum Effect {
    /// Write the content to the file at the path, after making the
    /// directories above it.
    Write { path: String, content: String },
    /// Run the program with the arguments and wait for it to succeed.
    Execute { program: String, arguments: Vec<String> },
    /// Show the diagnostics.
    Report { logs: Vec<Log> },
}

/// What an [`Effect`] is in contracts.
pub enum EffectView {
    Write { path: Seq<char>, content: Seq<char> },
    Execute { program: Seq<char>, arguments: Seq<Seq<char>> },
    Report { logs: Seq<LogView> },
}

impl View for Effect {
    type V = EffectView;

    open spec fn view(&self) -> EffectView {
        match *self {
            Effect::Write { path, content } => EffectView::Write {
                path: path@,
                content: content@,
            },
            Effect::Execute { program, arguments } => EffectView::Execute {
                program: program@,
                arguments: arguments.deep_view(),
            },
            Effect::Report { logs } => EffectView::Report { logs: logs.deep_view() },
        }
    }
}

impl DeepView for Effect {
    type V = EffectView;

    open spec fn deep_view(&self) -> EffectView {
        self@
    }
}

/// What the driver of a build has to do next.
#[derive(Debug, PartialEq, Eq)]
pub enum Action {
    /// Perform the effects in order, then read the source and resume the
    /// build with its text.
    Read { effects: Vec<Effect>, source: String },
    /// Perform the effects in order, then end with the status.
    Finish { effects: Vec<Effect>, status: u8 },
}

/// What an [`Action`] is in contracts.
pub enum ActionView {
    Read { effects: Seq<EffectView>, source: Seq<char> },
    Finish { effects: Seq<EffectView>, status: u8 },
}

impl View for Action {
    type V = ActionView;

    open spec fn view(&self) -> ActionView {
        match *self {
            Action::Read { effects, source } => ActionView::Read {
                effects: effects.deep_view(),
                source: source@,
            },
            Action::Finish { effects, status } => ActionView::Finish {
                effects: effects.deep_view(),
                status,
            },
        }
    }
}

/// The path of the assembly file of a source.
pub open spec fn assembly_path(source: Seq<char>) -> Seq<char> {
    "build/"@ + source + ".asm"@
}

/// The path of the object file of a source.
pub open spec fn object_path(source: Seq<char>) -> Seq<char> {
    "build/"@ + source + ".o"@
}

/// The run of the assembler that makes an ELF64 object of an assembly file.
pub open spec fn assembler(input: Seq<char>, output: Seq<char>) -> EffectView {
    EffectView::Execute {
        program: "nasm"@,
        arguments: seq![input, "-f"@, "elf64"@, "-o"@, output],
    }
}

/// What a build begins with: for a program, the entry stub is written and
/// assembled; for a library, nothing.
pub open spec fn stub_effects(is_library: bool) -> Seq<EffectView> {
    if is_library {
        Seq::empty()
    } else {
        seq![
            EffectView::Write { path: "build/_start.asm"@, content: stub_text() },
            assembler("build/_start.asm"@, "build/_start.asm.o"@),
        ]
    }
}

/// What the compiling of a source ends with: the two sections are written
/// to the assembly file of the source, and that file is assembled into the
/// object file of the same source.
pub open spec fn file_effects(d: CompilerDataView, source: Seq<char>) -> Seq<EffectView> {
    seq![
        EffectView::Write { path: assembly_path(source), content: file_text(d.text, d.data) },
        assembler(assembly_path(source), object_path(source)),
    ]
}

/// The object files of the sources, in their order.
pub open spec fn object_paths(sources: Seq<Seq<char>>) -> Seq<Seq<char>> {
    sources.map_values(|source: Seq<char>| object_path(source))
}

/// The path of what the build makes: the value of the option `o`, or `a.out`.
pub open spec fn output_path(options: Map<char, Seq<char>>) -> Seq<char> {
    if options.contains_key('o') {
        options['o']
    } else {
        "a.out"@
    }
}

/// The run of the linker: the output path, then for a library the flag for a
/// shared object and for a program the object of the entry stub, then the
/// object of every source.
pub open spec fn linker(d: CompilerDataView) -> EffectView {
    EffectView::Execute {
        program: "ld"@,
        arguments: seq!["-o"@, output_path(d.options)] + (if d.is_library {
            seq!["-shared"@]
        } else {
            seq!["build/_start.asm.o"@]
        }) + object_paths(d.sources),
    }
}

/// The title of the diagnostic of a fault.
pub open spec fn fault_title(fault: Fault) -> Seq<char> {
    match fault {
        Fault::ExpectedLiteral => "Expected a literal"@,
        Fault::MalformedDeclaration => "Malformed declaration"@,
        Fault::UnknownType => "Unknown type"@,
        Fault::FrameTooLarge => "Frame too large"@,
        Fault::NoStackSlot => "No stack slot"@,
    }
}

/// The diagnostic of a failure: an error, titled by the fault, whose message
/// names the source and the index of the line, counted from zero.
pub open spec fn failure_log(source: Seq<char>, failure: Failure) -> LogView {
    LogView {
        level: LogLevel::Error,
        title: fault_title(failure.fault),
        message: source + ": line "@ + decimal(failure.line as nat),
        hint: None,
    }
}

/// The diagnostic of a source that could not be read.
pub open spec fn unreadable_log(source: Seq<char>) -> LogView {
    LogView {
        level: LogLevel::Error,
        title: "Unreadable file"@,
        message: "The given source file cannot be read: "@ + source,
        hint: Some("It's probably corrupted or it's not a text file"@),
    }
}

/// Writes the run of the assembler.
pub fn assemble(input: &String, output: String) -> (effect: Effect)
    ensures
        effect@ == assembler(input@, output@),
{
    let mut arguments: Vec<String> = Vec::new();
    arguments.push(input.clone());
    arguments.push(String::from_str("-f"));
    arguments.push(String::from_str("elf64"));
    arguments.push(String::from_str("-o"));
    arguments.push(output);
    assert(arguments.deep_view() =~= seq![input@, "-f"@, "elf64"@, "-o"@, output@]);
    Effect::Execute { program: String::from_str("nasm"), arguments }
}

/// Writes the path of the assembly file of a source.
pub fn assembly_file(source: &String) -> (path: String)
    ensures
        path@ == assembly_path(source@),
{
    let mut path = String::from_str("build/");
    path.append(source.as_str());
    path.append(".asm");
    path
}

/// Writes the path of the object file of a source.
pub fn object_file(source: &String) -> (path: String)
    ensures
        path@ == object_path(source@),
{
    let mut path = String::from_str("build/");
    path.append(source.as_str());
    path.append(".o");
    path
}

impl Failure {
    /// The diagnostic of this failure in the given source.
    pub fn to_log(&self, source: &String) -> (log: Log)
        ensures
            log@ == failure_log(source@, *self),
    {
        let title = match self.fault {
            Fault::ExpectedLiteral => String::from_str("Expected a literal"),
            Fault::MalformedDeclaration => String::from_str("Malformed declaration"),
            Fault::UnknownType => String::from_str("Unknown type"),
            Fault::FrameTooLarge => String::from_str("Frame too large"),
            Fault::NoStackSlot => String::from_str("No stack slot"),
        };
        let mut message = source.clone();
        message.append(": line ");
        message.append(number_to_string(self.line).as_str());
        Log::new(LogLevel::Error, title, message)
    }
}

/// The diagnostic of a source that could not be read.
pub fn unreadable(source: &String) -> (log: Log)
    ensures
        log@ == unreadable_log(source@),
{
    let mut message = String::from_str("The given source file cannot be read: ");
    message.append(source.as_str());
    Log::new(LogLevel::Error, String::from_str("Unreadable file"), message).add_hint(
        String::from_str("It's probably corrupted or it's not a text file"),
    )
}

} // verus!
