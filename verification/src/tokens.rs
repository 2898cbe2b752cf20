//! The token model: a fixed table of keywords and a leaf that carries text.

use vstd::prelude::*;
use vstd::string::*;
use crate::text::spelled;

verus! {

/// A lexical unit: one of the fixed keywords, or a leaf holding any other
/// text (an identifier, a numeric literal, or the content of a quoted string).
#[derive(Debug, PartialEq, Eq)]
pub enum Token {
    /// `@`: the rest of the line is raw assembly.
    AssemblyCode,
    /// `=`
    Assign,
    /// `,`
    Comma,
    /// `exit`
    Exit,
    /// `func`
    Function,
    /// `print`
    Print,
    /// `ret`
    Return,
    /// `static`
    Static,
    /// `"`
    StringDot,
    /// `:`
    TypeDef,
    /// `variable`
    Variable,
    /// The sentinel that stands for "no token": what precedes the first token
    /// of a line. It has no text.
    Nothing,
    /// Anything that is not a keyword.
    RawString(String),
}

/// What a [`Token`] is in contracts: the same variants, with the leaf's text as
/// a sequence of characters.
pub enum TokenView {
    AssemblyCode,
    Assign,
    Comma,
    Exit,
    Function,
    Print,
    Return,
    Static,
    StringDot,
    TypeDef,
    Variable,
    Nothing,
    RawString(Seq<char>),
}

impl View for Token {
    type V = TokenView;

    open spec fn view(&self) -> TokenView {
        match *self {
            Token::AssemblyCode => TokenView::AssemblyCode,
            Token::Assign => TokenView::Assign,
            Token::Comma => TokenView::Comma,
            Token::Exit => TokenView::Exit,
            Token::Function => TokenView::Function,
            Token::Print => TokenView::Print,
            Token::Return => TokenView::Return,
            Token::Static => TokenView::Static,
            Token::StringDot => TokenView::StringDot,
            Token::TypeDef => TokenView::TypeDef,
            Token::Variable => TokenView::Variable,
            Token::Nothing => TokenView::Nothing,
            Token::RawString(text) => TokenView::RawString(text@),
        }
    }
}

impl DeepView for Token {
    type V = TokenView;

    open spec fn deep_view(&self) -> TokenView {
        self@
    }
}

impl Clone for Token {
    fn clone(&self) -> (copy: Token)
        ensures
            copy@ == self@,
    {
        match self {
            Token::AssemblyCode => Token::AssemblyCode,
            Token::Assign => Token::Assign,
            Token::Comma => Token::Comma,
            Token::Exit => Token::Exit,
            Token::Function => Token::Function,
            Token::Print => Token::Print,
            Token::Return => Token::Return,
            Token::Static => Token::Static,
            Token::StringDot => Token::StringDot,
            Token::TypeDef => Token::TypeDef,
            Token::Variable => Token::Variable,
            Token::Nothing => Token::Nothing,
            Token::RawString(text) => Token::RawString(text.clone()),
        }
    }
}

/// The token that a completed piece of text stands for: the keyword with that
/// spelling, or else a leaf holding the text.
pub open spec fn token_of(text: Seq<char>) -> TokenView {
    if text == "@"@ {
        TokenView::AssemblyCode
    } else if text == "="@ {
        TokenView::Assign
    } else if text == ","@ {
        TokenView::Comma
    } else if text == "exit"@ {
        TokenView::Exit
    } else if text == "func"@ {
        TokenView::Function
    } else if text == "print"@ {
        TokenView::Print
    } else if text == "ret"@ {
        TokenView::Return
    } else if text == "static"@ {
        TokenView::Static
    } else if text == "\""@ {
        TokenView::StringDot
    } else if text == ":"@ {
        TokenView::TypeDef
    } else if text == "variable"@ {
        TokenView::Variable
    } else {
        TokenView::RawString(text)
    }
}

/// The spelling of a token: a keyword's fixed text, a leaf's own text, and no
/// text at all for the sentinel.
pub open spec fn text_of(token: TokenView) -> Seq<char> {
    match token {
        TokenView::AssemblyCode => "@"@,
        TokenView::Assign => "="@,
        TokenView::Comma => ","@,
        TokenView::Exit => "exit"@,
        TokenView::Function => "func"@,
        TokenView::Print => "print"@,
        TokenView::Return => "ret"@,
        TokenView::Static => "static"@,
        TokenView::StringDot => "\""@,
        TokenView::TypeDef => ":"@,
        TokenView::Variable => "variable"@,
        TokenView::Nothing => Seq::<char>::empty(),
        TokenView::RawString(text) => text,
    }
}

/// Whether a character ends the word before it: every character but the
/// Latin letters, the decimal digits and the dot.
pub open spec fn is_cut(c: char) -> bool {
    !('A' <= c <= 'Z' || 'a' <= c <= 'z' || '0' <= c <= '9' || c == '.')
}

/// Resolves a completed piece of text against the keyword table.
pub fn string_to_token(token_name: &String) -> (token: Token)
    ensures
        token@ == token_of(token_name@),
{
    if spelled(token_name, "@") {
        Token::AssemblyCode
    } else if spelled(token_name, "=") {
        Token::Assign
    } else if spelled(token_name, ",") {
        Token::Comma
    } else if spelled(token_name, "exit") {
        Token::Exit
    } else if spelled(token_name, "func") {
        Token::Function
    } else if spelled(token_name, "print") {
        Token::Print
    } else if spelled(token_name, "ret") {
        Token::Return
    } else if spelled(token_name, "static") {
        Token::Static
    } else if spelled(token_name, "\"") {
        Token::StringDot
    } else if spelled(token_name, ":") {
        Token::TypeDef
    } else if spelled(token_name, "variable") {
        Token::Variable
    } else {
        Token::RawString(token_name.clone())
    }
}

/// The spelling of a token, as a new string.
pub fn token_to_string(token: Token) -> (text: String)
    ensures
        text@ == text_of(token@),
{
    match token {
        Token::AssemblyCode => String::from_str("@"),
        Token::Assign => String::from_str("="),
        Token::Comma => String::from_str(","),
        Token::Exit => String::from_str("exit"),
        Token::Function => String::from_str("func"),
        Token::Print => String::from_str("print"),
        Token::Return => String::from_str("ret"),
        Token::Static => String::from_str("static"),
        Token::StringDot => String::from_str("\""),
        Token::TypeDef => String::from_str(":"),
        Token::Variable => String::from_str("variable"),
        Token::Nothing => String::new(),
        Token::RawString(text) => text,
    }
}

/// Tells whether the lexer must end the current word at this character.
pub fn should_be_cut(c: &char) -> (cut: bool)
    ensures
        cut == is_cut(*c),
{
    if (*c >= 'A' && *c <= 'Z') || (*c >= 'a' && *c <= 'z') {
        false
    } else if (*c >= '0' && *c <= '9') || (*c == '.') {
        false
    } else {
        true
    }
}

/// Whether a text is the spelling of one of the keywords.
pub open spec fn is_keyword(text: Seq<char>) -> bool {
    !(token_of(text) is RawString)
}

/// Spelling a token out and resolving the text again gives the token back,
/// for every keyword and for every leaf whose text is not a keyword's
/// spelling. (The sentinel has no text, and a leaf that holds a keyword's
/// spelling resolves to the keyword.)
pub proof fn lemma_token_roundtrip(token: TokenView)
    requires
        !(token is Nothing),
        token matches TokenView::RawString(text) ==> !is_keyword(text),
    ensures
        token_of(text_of(token)) == token,
{
    lemma_keywords_differ();
}

/// Resolving a text and spelling the token out gives the text back.
pub proof fn lemma_text_roundtrip(text: Seq<char>)
    ensures
        text_of(token_of(text)) == text,
{
}

/// No two keywords are spelled alike: they differ in length or in their first
/// character.
pub proof fn lemma_keywords_differ()
    ensures
        "@"@.len() == 1 && "@"@[0] == '@',
        "="@.len() == 1 && "="@[0] == '=',
        ","@.len() == 1 && ","@[0] == ',',
        "\""@.len() == 1 && "\""@[0] == '"',
        ":"@.len() == 1 && ":"@[0] == ':',
        "exit"@.len() == 4 && "exit"@[0] == 'e',
        "func"@.len() == 4 && "func"@[0] == 'f',
        "print"@.len() == 5,
        "ret"@.len() == 3,
        "static"@.len() == 6,
        "variable"@.len() == 8,
{
    reveal_keywords();
}

/// Every keyword's spelling, character by character.
pub proof fn reveal_keywords()
    ensures
        "@"@ == seq!['@'],
        "="@ == seq!['='],
        ","@ == seq![','],
        "\""@ == seq!['"'],
        ":"@ == seq![':'],
        "exit"@ == seq!['e', 'x', 'i', 't'],
        "func"@ == seq!['f', 'u', 'n', 'c'],
        "print"@ == seq!['p', 'r', 'i', 'n', 't'],
        "ret"@ == seq!['r', 'e', 't'],
        "static"@ == seq!['s', 't', 'a', 't', 'i', 'c'],
        "variable"@ == seq!['v', 'a', 'r', 'i', 'a', 'b', 'l', 'e'],
{
    reveal_strlit("@");
    reveal_strlit("=");
    reveal_strlit(",");
    reveal_strlit("\"");
    reveal_strlit(":");
    reveal_strlit("exit");
    reveal_strlit("func");
    reveal_strlit("print");
    reveal_strlit("ret");
    reveal_strlit("static");
    reveal_strlit("variable");
    assert("@"@ =~= seq!['@']);
    assert("="@ =~= seq!['=']);
    assert(","@ =~= seq![',']);
    assert("\""@ =~= seq!['"']);
    assert(":"@ =~= seq![':']);
    assert("exit"@ =~= seq!['e', 'x', 'i', 't']);
    assert("func"@ =~= seq!['f', 'u', 'n', 'c']);
    assert("print"@ =~= seq!['p', 'r', 'i', 'n', 't']);
    assert("ret"@ =~= seq!['r', 'e', 't']);
    assert("static"@ =~= seq!['s', 't', 'a', 't', 'i', 'c']);
    assert("variable"@ =~= seq!['v', 'a', 'r', 'i', 'a', 'b', 'l', 'e']);
}

/// The tokens of a line from a position on: a copy of them, in order; none
/// from a position behind the end of the line.
pub fn tokens_from(line: &Vec<Token>, from: usize) -> (rest: Vec<Token>)
    ensures
        rest.deep_view() == if from <= line.len() {
            line.deep_view().subrange(from as int, line.len() as int)
        } else {
            Seq::empty()
        },
{
    let mut rest: Vec<Token> = Vec::new();
    let mut i: usize = from;
    let ghost all = line.deep_view();
    if from > line.len() {
        assert(rest.deep_view() =~= Seq::<TokenView>::empty());
        return rest;
    }
    assert(rest.deep_view() =~= all.subrange(from as int, from as int));
    while i < line.len()
        invariant
            from <= i <= line.len(),
            all == line.deep_view(),
            rest.deep_view() == all.subrange(from as int, i as int),
        decreases line.len() - i,
    {
        let ghost before = rest.deep_view();
        rest.push(line[i].clone());
        assert(rest.deep_view() =~= before.push(all[i as int]));
        assert(all.subrange(from as int, i + 1) =~= all.subrange(from as int, i as int).push(
            all[i as int],
        ));
        i += 1;
    }
    rest
}

/// A copy of lines of tokens.
pub fn copy_lines(lines: &Vec<Vec<Token>>) -> (copy: Vec<Vec<Token>>)
    ensures
        copy.deep_view() == lines.deep_view(),
{
    let mut copy: Vec<Vec<Token>> = Vec::new();
    let mut i: usize = 0;
    let ghost all = lines.deep_view();
    assert(copy.deep_view() =~= all.take(0));
    while i < lines.len()
        invariant
            i <= lines.len(),
            all == lines.deep_view(),
            copy.deep_view() == all.take(i as int),
        decreases lines.len() - i,
    {
        let ghost before = copy.deep_view();
        let line = tokens_from(&lines[i], 0);
        assert(lines@[i as int].deep_view().subrange(0, lines@[i as int].len() as int)
            =~= lines@[i as int].deep_view());
        copy.push(line);
        assert(copy.deep_view() =~= before.push(all[i as int]));
        assert(all.take(i + 1) =~= all.take(i as int).push(all[i as int]));
        i += 1;
    }
    assert(all.take(lines.len() as int) =~= all);
    copy
}

} // verus!
