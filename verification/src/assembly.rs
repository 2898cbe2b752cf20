//! The assembly text that each instruction is rendered as.

use vstd::prelude::*;
use vstd::string::*;
use crate::objects::{
    directive, type_size_to_asm, type_to_asm, width_keyword, Type, Variable, VariableView,
};
use crate::text::{append_lines, decimal, join_lines, number_to_string};
use crate::tokens::{text_of, token_to_string, Token, TokenView};

verus! {

/// The store that gives a local its value: the value goes to the slot that
/// ends `offset` bytes below the frame base, in the width of the variable's
/// type; the identifier follows as a comment.
pub open spec fn store_line(variable: VariableView, offset: nat) -> Seq<char> {
    "\tmov [rbp - "@ + decimal(offset) + "], "@ + width_keyword(variable.type_) + " "@
        + variable.value + " ; "@ + variable.id
}

/// Whether a variable has no value of its own: whether its value is no text
/// at all. A declaration without a value gives its variable the empty text.
pub open spec fn is_default(value: Seq<char>) -> bool {
    value.len() == 0
}

/// What stands behind the directive of a static: a bare zero where it has
/// no value of its own; for a string, the value between backquotes and a
/// terminating zero byte, whatever the value is; for any other type, the value
/// as it is.
pub open spec fn static_value(variable: VariableView) -> Seq<char> {
    if is_default(variable.value) {
        "0"@
    } else if variable.type_ == Type::Str {
        "`"@ + variable.value + "`, 0"@
    } else {
        variable.value
    }
}

/// The line of the data section that defines a static: its identifier as a
/// label, the directive of its type, and its value.
pub open spec fn static_line(variable: VariableView) -> Seq<char> {
    variable.id + ": "@ + directive(variable.type_) + " "@ + static_value(variable)
}

/// The lines that open a function: the label made visible to the linker, the
/// label itself, and the prologue that saves the caller's frame pointer.
pub open spec fn function_lines(id: Seq<char>) -> Seq<Seq<char>> {
    seq!["\tglobal "@ + id, id + ":"@, "\tpush rbp"@]
}

/// The four instructions of a return: a marker that does nothing, the
/// restoring of the frame pointer, the value into the return register, and the
/// return to the caller.
pub open spec fn return_lines(value: Seq<char>) -> Seq<Seq<char>> {
    seq!["\tnop"@, "\tpop rbp"@, "\tmov rax, "@ + value, "\tret"@]
}

/// The instructions that end the process with the given status.
pub open spec fn exit_lines(value: Seq<char>) -> Seq<Seq<char>> {
    seq!["\tmov rax, 60"@, "\tmov rdi, "@ + value, "\tsyscall"@]
}

/// The instructions that write the zero-terminated string at the given label
/// to the standard output: its length is counted up to the terminator first.
pub open spec fn print_lines(label: Seq<char>) -> Seq<Seq<char>> {
    seq![
        "\tmov rdi, "@ + label,
        "\txor rax, rax"@,
        "\tmov rcx, -1"@,
        "\trepne scasb"@,
        "\tnot rcx"@,
        "\tdec rcx"@,
        "\tmov rdx, rcx"@,
        "\tmov rsi, "@ + label,
        "\tmov rax, 1"@,
        "\tmov rdi, 1"@,
        "\tsyscall"@,
    ]
}

/// Tokens as raw assembly: a comma is followed by a space, and every other
/// token is spelled out and followed by a space.
pub open spec fn assembly_text(tokens: Seq<TokenView>) -> Seq<char>
    decreases tokens.len(),
{
    if tokens.len() == 0 {
        Seq::empty()
    } else {
        assembly_text(tokens.drop_last()) + if tokens.last() is Comma {
            ", "@
        } else {
            text_of(tokens.last()) + " "@
        }
    }
}

/// The line of raw assembly that the tokens behind the escape stand for.
pub open spec fn assembly_line(tokens: Seq<TokenView>) -> Seq<char> {
    "\t"@ + assembly_text(tokens)
}

/// The text of the entry stub: the start symbol, visible to the linker, calls
/// the entry point, which one of the sources has to define.
pub open spec fn stub_text() -> Seq<char> {
    "section .text\n\tglobal _start\nextern main\n_start:\n\tcall main\n"@
}

/// The text of the assembly file of one source: the text section, then the
/// data section, each line on a line of its own.
pub open spec fn file_text(text: Seq<Seq<char>>, data: Seq<Seq<char>>) -> Seq<char> {
    "section .text\n"@ + join_lines(text) + "section .data\n"@ + join_lines(data)
}

/// Writes the store of a local.
pub fn store(variable: &Variable, offset: usize) -> (line: String)
    ensures
        line@ == store_line(variable@, offset as nat),
{
    let mut line = String::from_str("\tmov [rbp - ");
    line.append(number_to_string(offset).as_str());
    line.append("], ");
    line.append(type_size_to_asm(*variable.type_()).as_str());
    line.append(" ");
    line.append(variable.current_value().as_str());
    line.append(" ; ");
    line.append(variable.id().as_str());
    line
}

/// Writes the line that defines a static.
pub fn define_static(variable: &Variable) -> (line: String)
    ensures
        line@ == static_line(variable@),
{
    let mut line = variable.id().clone();
    line.append(": ");
    line.append(type_to_asm(*variable.type_()).as_str());
    line.append(" ");
    let value = variable.current_value();
    if value.as_str().is_empty() {
        line.append("0");
    } else if *variable.type_() == Type::Str {
        let ghost before = line@;
        line.append("`");
        line.append(value.as_str());
        line.append("`, 0");
        assert(line@ =~= before + ("`"@ + value@ + "`, 0"@));
    } else {
        line.append(value.as_str());
    }
    line
}

fn prefixed(prefix: &str, text: &str) -> (line: String)
    ensures
        line@ == prefix@ + text@,
{
    let mut line = String::from_str(prefix);
    line.append(text);
    line
}

/// Writes the lines that open a function.
pub fn open_function(id: &String) -> (lines: Vec<String>)
    ensures
        lines.deep_view() == function_lines(id@),
{
    let mut lines: Vec<String> = Vec::new();
    lines.push(prefixed("\tglobal ", id.as_str()));
    let mut label = id.clone();
    label.append(":");
    lines.push(label);
    lines.push(String::from_str("\tpush rbp"));
    assert(lines.deep_view() =~= function_lines(id@));
    lines
}

/// Writes the four instructions of a return.
pub fn return_sequence(value: &String) -> (lines: Vec<String>)
    ensures
        lines.deep_view() == return_lines(value@),
{
    let mut lines: Vec<String> = Vec::new();
    lines.push(String::from_str("\tnop"));
    lines.push(String::from_str("\tpop rbp"));
    lines.push(prefixed("\tmov rax, ", value.as_str()));
    lines.push(String::from_str("\tret"));
    assert(lines.deep_view() =~= return_lines(value@));
    lines
}

/// Writes the instructions that end the process.
pub fn exit_sequence(value: &String) -> (lines: Vec<String>)
    ensures
        lines.deep_view() == exit_lines(value@),
{
    let mut lines: Vec<String> = Vec::new();
    lines.push(String::from_str("\tmov rax, 60"));
    lines.push(prefixed("\tmov rdi, ", value.as_str()));
    lines.push(String::from_str("\tsyscall"));
    assert(lines.deep_view() =~= exit_lines(value@));
    lines
}

/// Writes the instructions that print a zero-terminated string.
pub fn print_sequence(label: &String) -> (lines: Vec<String>)
    ensures
        lines.deep_view() == print_lines(label@),
{
    let mut lines: Vec<String> = Vec::new();
    lines.push(prefixed("\tmov rdi, ", label.as_str()));
    lines.push(String::from_str("\txor rax, rax"));
    lines.push(String::from_str("\tmov rcx, -1"));
    lines.push(String::from_str("\trepne scasb"));
    lines.push(String::from_str("\tnot rcx"));
    lines.push(String::from_str("\tdec rcx"));
    lines.push(String::from_str("\tmov rdx, rcx"));
    lines.push(prefixed("\tmov rsi, ", label.as_str()));
    lines.push(String::from_str("\tmov rax, 1"));
    lines.push(String::from_str("\tmov rdi, 1"));
    lines.push(String::from_str("\tsyscall"));
    assert(lines.deep_view() =~= print_lines(label@));
    lines
}

/// Writes tokens as a line of raw assembly.
pub fn raw_assembly(tokens: &Vec<Token>) -> (line: String)
    ensures
        line@ == assembly_line(tokens.deep_view()),
{
    let mut line = String::from_str("\t");
    let mut i: usize = 0;
    let ghost all = tokens.deep_view();
    assert(all.take(0) =~= Seq::<TokenView>::empty());
    while i < tokens.len()
        invariant
            i <= tokens.len(),
            all == tokens.deep_view(),
            line@ == assembly_line(all.take(i as int)),
        decreases tokens.len() - i,
    {
        assert(all.take(i + 1).drop_last() =~= all.take(i as int));
        assert(all.take(i + 1).last() == tokens@[i as int]@);
        let ghost before = line@;
        match &tokens[i] {
            Token::Comma => {
                line.append(", ");
            },
            other => {
                let spelling = token_to_string(other.clone());
                line.append(spelling.as_str());
                line.append(" ");
                assert(line@ =~= before + (text_of(other@) + " "@));
            },
        }
        assert(line@ =~= assembly_line(all.take(i + 1)));
        i += 1;
    }
    assert(all.take(tokens.len() as int) =~= all);
    line
}

/// Writes the text of the assembly file of one source.
pub fn render_file(text: &Vec<String>, data: &Vec<String>) -> (content: String)
    ensures
        content@ == file_text(text.deep_view(), data.deep_view()),
{
    let mut content = String::from_str("section .text\n");
    append_lines(&mut content, text);
    content.append("section .data\n");
    append_lines(&mut content, data);
    content
}

/// A static string with a value of its own, whatever the value is, is
/// defined with the value between backquotes and a zero byte behind it: the
/// line ends with `, 0`.
pub proof fn lemma_string_static_is_terminated(variable: VariableView)
    requires
        variable.type_ == Type::Str,
        variable.value.len() > 0,
    ensures
        static_line(variable) == variable.id + ": db `"@ + variable.value + "`, 0"@,
        ", 0"@.is_suffix_of(static_line(variable)),
{
    reveal_strlit(": ");
    reveal_strlit("db");
    reveal_strlit(" ");
    reveal_strlit("`");
    reveal_strlit("`, 0");
    reveal_strlit(": db `");
    reveal_strlit(", 0");
    let line = static_line(variable);
    assert(line =~= variable.id + ": db `"@ + variable.value + "`, 0"@);
    assert(line.skip(line.len() - 3) =~= ", 0"@);
}

/// A static without a value of its own, whatever its type, is defined as a
/// bare zero: no quote stands in what follows the directive.
pub proof fn lemma_default_static_is_zero(variable: VariableView)
    requires
        variable.value.len() == 0,
    ensures
        static_value(variable) == "0"@,
        static_line(variable) == variable.id + ": "@ + directive(variable.type_) + " 0"@,
        !static_value(variable).contains('`'),
{
    reveal_strlit("0");
    reveal_strlit(" ");
    reveal_strlit(" 0");
    assert(" "@ + "0"@ =~= " 0"@);
    assert(static_line(variable) =~= variable.id + ": "@ + directive(variable.type_) + " 0"@);
}

} // verus!
