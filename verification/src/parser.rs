//! The lexer: one forward pass that turns source text into lines of tokens.

use vstd::prelude::*;
use vstd::string::*;
use crate::tokens::{
    is_cut, is_keyword, lemma_keywords_differ, lemma_text_roundtrip, reveal_keywords,
    should_be_cut, string_to_token, text_of, token_of, Token, TokenView,
};

verus! {

/// What the lexer holds between two characters.
pub struct LexState {
    /// The lines that a newline has closed, in source order.
    pub lines: Seq<Seq<TokenView>>,
    /// The tokens of the line that is being read.
    pub line: Seq<TokenView>,
    /// The letters, digits and dots of the word that is being read.
    pub word: Seq<char>,
    /// Inside a quoted string: what has been read of it so far.
    pub string: Option<Seq<char>>,
}

/// The state before the first character.
pub open spec fn start() -> LexState {
    LexState {
        lines: Seq::empty(),
        line: Seq::empty(),
        word: Seq::empty(),
        string: Option::None,
    }
}

/// The line once the pending word is closed: a word that holds anything
/// becomes the line's next token.
pub open spec fn close_word(line: Seq<TokenView>, word: Seq<char>) -> Seq<TokenView> {
    if word.len() == 0 {
        line
    } else {
        line.push(token_of(word))
    }
}

/// Whether the character after position `i` repeats the one at `i`.
pub open spec fn twin_at(content: Seq<char>, i: int) -> bool {
    i + 1 < content.len() && content[i + 1] == content[i]
}

/// The lines at the end of the input: a word or a line that no newline closed
/// is closed as if one had followed. A string that was never closed yields no
/// token.
pub open spec fn at_end(s: LexState) -> Seq<Seq<TokenView>> {
    let line = close_word(s.line, s.word);
    if line.len() == 0 {
        s.lines
    } else {
        s.lines.push(line)
    }
}

/// The lines that the rest of the input, from position `i` on, adds to the
/// state `s`.
///
/// In order of precedence:
/// - inside a string every character but the delimiter joins the string,
///   a newline too; the delimiter closes it, and the string is one leaf;
/// - a delimiter outside a string closes the pending word and opens a string;
/// - a newline closes the pending word and the line;
/// - any other character that is not a letter, a digit or a dot closes the
///   pending word; a space yields nothing more; another character is a token of
///   its own, or, where the next character repeats it, one token of both;
/// - a letter, a digit or a dot joins the pending word.
pub open spec fn lex_from(content: Seq<char>, i: int, s: LexState) -> Seq<Seq<TokenView>>
    decreases content.len() - i,
{
    if i < 0 || i >= content.len() {
        at_end(s)
    } else {
        let c = content[i];
        match s.string {
            Option::Some(text) => {
                if c == '"' {
                    lex_from(
                        content,
                        i + 1,
                        LexState {
                            line: s.line.push(TokenView::RawString(text)),
                            string: Option::None,
                            ..s
                        },
                    )
                } else {
                    lex_from(content, i + 1, LexState { string: Option::Some(text.push(c)), ..s })
                }
            },
            Option::None => {
                if c == '"' {
                    lex_from(
                        content,
                        i + 1,
                        LexState {
                            line: close_word(s.line, s.word),
                            word: Seq::empty(),
                            string: Option::Some(Seq::empty()),
                            ..s
                        },
                    )
                } else if c == '\n' {
                    lex_from(
                        content,
                        i + 1,
                        LexState {
                            lines: s.lines.push(close_word(s.line, s.word)),
                            line: Seq::empty(),
                            word: Seq::empty(),
                            ..s
                        },
                    )
                } else if is_cut(c) {
                    let line = close_word(s.line, s.word);
                    if c == ' ' {
                        lex_from(content, i + 1, LexState { line, word: Seq::empty(), ..s })
                    } else if twin_at(content, i) {
                        lex_from(
                            content,
                            i + 2,
                            LexState { line: line.push(token_of(seq![c, c])), word: Seq::empty(), ..s },
                        )
                    } else {
                        lex_from(
                            content,
                            i + 1,
                            LexState { line: line.push(token_of(seq![c])), word: Seq::empty(), ..s },
                        )
                    }
                } else {
                    lex_from(content, i + 1, LexState { word: s.word.push(c), ..s })
                }
            },
        }
    }
}

/// The lines of tokens that a source text stands for. A source is meant to
/// end with a newline; the last line of one that does not is a line all the
/// same.
pub open spec fn lex(content: Seq<char>) -> Seq<Seq<TokenView>> {
    lex_from(content, 0, start())
}

/// A lexer for one source file.
#[derive(Debug)]
pub struct Parser {
    parsed: Vec<Vec<Token>>,
    source: String,
    content: String,
}

/// What a [`Parser`] is in contracts.
pub struct ParserView {
    /// The path that the source was named by.
    pub source: Seq<char>,
    /// The text to lex.
    pub content: Seq<char>,
    /// The lines that the last run produced.
    pub lines: Seq<Seq<TokenView>>,
}

impl View for Parser {
    type V = ParserView;

    closed spec fn view(&self) -> ParserView {
        ParserView {
            source: self.source@,
            content: self.content@,
            lines: self.parsed.deep_view(),
        }
    }
}

fn characters(text: &str) -> (all: Vec<char>)
    ensures
        all@ == text@,
{
    let mut all: Vec<char> = Vec::new();
    for c in it: text.chars()
        invariant
            all@ == it.seq().take(it.index() as int),
    {
        all.push(c);
    }
    all
}

impl Parser {
    /// A lexer for the source of the given name, with no text yet.
    pub fn new(source: &String) -> (parser: Self)
        ensures
            parser@.source == source@,
            parser@.content == Seq::<char>::empty(),
            parser@.lines == Seq::<Seq<TokenView>>::empty(),
    {
        let parser = Self { parsed: Vec::new(), source: source.clone(), content: String::new() };
        assert(parser.parsed.deep_view() =~= Seq::<Seq<TokenView>>::empty());
        parser
    }

    /// Gives the lexer the text of its source, as it was read. The lines of an
    /// earlier run stay until the next one.
    pub fn set_content(&mut self, content: String)
        ensures
            final(self)@ == (ParserView { content: content@, ..old(self)@ }),
    {
        self.content = content;
    }

    /// Lexes the text: afterwards the lexer holds the lines that the text
    /// stands for, one per line of the source, in source order.
    pub fn run(&mut self)
        ensures
            final(self)@ == (ParserView { lines: lex(old(self)@.content), ..old(self)@ }),
    {
        let chars = characters(self.content.as_str());
        let n = chars.len();
        let mut parsed: Vec<Vec<Token>> = Vec::new();
        let mut line: Vec<Token> = Vec::new();
        let mut token = String::new();
        let mut is_string = false;
        let mut string_content = String::new();
        let mut i: usize = 0;
        assert(parsed.deep_view() =~= Seq::<Seq<TokenView>>::empty());
        assert(line.deep_view() =~= Seq::<TokenView>::empty());
        while i < n
            invariant
                n == chars@.len(),
                i <= n,
                !is_string ==> string_content@ == Seq::<char>::empty(),
                lex(chars@) == lex_from(
                    chars@,
                    i as int,
                    LexState {
                        lines: parsed.deep_view(),
                        line: line.deep_view(),
                        word: token@,
                        string: if is_string {
                            Option::Some(string_content@)
                        } else {
                            Option::None
                        },
                    },
                ),
            decreases n - i,
        {
            let c = chars[i];
            let ghost before = line.deep_view();
            let ghost closed = parsed.deep_view();
            if c == '"' {
                if is_string {
                    let ghost text = string_content@;
                    is_string = false;
                    line.push(Token::RawString(string_content));
                    string_content = String::new();
                    assert(line.deep_view() =~= before.push(TokenView::RawString(text)));
                } else {
                    Self::push_token(&mut token, &mut line);
                    is_string = true;
                }
                i += 1;
            } else if is_string {
                string_content.push(c);
                i += 1;
            } else if c == '\n' {
                Self::push_token(&mut token, &mut line);
                let ghost full = line.deep_view();
                parsed.push(line);
                line = Vec::new();
                assert(parsed.deep_view() =~= closed.push(full));
                assert(line.deep_view() =~= Seq::<TokenView>::empty());
                i += 1;
            } else if should_be_cut(&c) {
                Self::push_token(&mut token, &mut line);
                let ghost flushed = line.deep_view();
                if c == ' ' {
                    i += 1;
                } else {
                    let mut special = String::new();
                    special.push(c);
                    if i + 1 < n && chars[i + 1] == c {
                        special.push(c);
                        assert(special@ =~= seq![c, c]);
                        line.push(string_to_token(&special));
                        assert(line.deep_view() =~= flushed.push(token_of(seq![c, c])));
                        i += 2;
                    } else {
                        assert(special@ =~= seq![c]);
                        line.push(string_to_token(&special));
                        assert(line.deep_view() =~= flushed.push(token_of(seq![c])));
                        i += 1;
                    }
                }
            } else {
                token.push(c);
                i += 1;
            }
        }
        Self::push_token(&mut token, &mut line);
        if line.len() > 0 {
            let ghost closed = parsed.deep_view();
            let ghost full = line.deep_view();
            parsed.push(line);
            assert(parsed.deep_view() =~= closed.push(full));
        }
        self.parsed = parsed;
    }

    /// Closes the pending word: if it holds anything, the token that it spells
    /// joins the line, and the word is empty again.
    pub fn push_token(token: &mut String, line: &mut Vec<Token>)
        ensures
            final(line).deep_view() == close_word(old(line).deep_view(), old(token)@),
            final(token)@ == Seq::<char>::empty(),
    {
        let ghost before = line.deep_view();
        if !token.as_str().is_empty() {
            line.push(string_to_token(token));
            *token = String::new();
            assert(line.deep_view() =~= before.push(token_of(old(token)@)));
        } else {
            assert(token@ =~= Seq::<char>::empty());
        }
    }

    /// The path that the source was named by.
    pub fn source(&self) -> (source: &String)
        ensures
            source@ == self@.source,
    {
        &self.source
    }

    /// The text to lex.
    pub fn content(&self) -> (content: &String)
        ensures
            content@ == self@.content,
    {
        &self.content
    }

    /// The lines that the last run produced.
    pub fn parsed(&self) -> (lines: &Vec<Vec<Token>>)
        ensures
            lines.deep_view() == self@.lines,
    {
        &self.parsed
    }
}

/// Inside a string every character but the delimiter joins the string,
/// whatever it is.
proof fn lemma_inside_string(content: Seq<char>, i: int, s: LexState, k: nat)
    requires
        s.string is Some,
        0 <= i,
        i + k <= content.len(),
        forall|j: int| i <= j < i + k ==> content[j] != '"',
    ensures
        lex_from(content, i, s) == lex_from(
            content,
            i + k,
            LexState { string: Option::Some(s.string->0 + content.subrange(i, i + k)), ..s },
        ),
    decreases k,
{
    let read = s.string->0;
    if k == 0 {
        assert(read + content.subrange(i, i) =~= read);
    } else {
        let s1 = LexState { string: Option::Some(read.push(content[i])), ..s };
        lemma_inside_string(content, i + 1, s1, (k - 1) as nat);
        assert(read.push(content[i]) + content.subrange(i + 1, i + k) =~= read + content.subrange(
            i,
            i + k,
        ));
    }
}

/// A quoted string is one token. Where a delimiter stands at position `i`
/// outside a string, and the next delimiter stands `text.len()` characters
/// after it, the lexer closes the pending word, adds one leaf that holds
/// exactly the characters between the two delimiters, and goes on behind the
/// second: no comma, space, newline or other character in between splits it.
pub proof fn lemma_string_is_one_token(content: Seq<char>, i: int, s: LexState, text: Seq<char>)
    requires
        s.string is None,
        0 <= i,
        i + text.len() + 1 < content.len(),
        content[i] == '"',
        content[i + text.len() + 1] == '"',
        content.subrange(i + 1, i + 1 + text.len()) == text,
        !text.contains('"'),
    ensures
        lex_from(content, i, s) == lex_from(
            content,
            i + text.len() + 2,
            LexState {
                line: close_word(s.line, s.word).push(TokenView::RawString(text)),
                word: Seq::empty(),
                ..s
            },
        ),
{
    let opened = LexState {
        line: close_word(s.line, s.word),
        word: Seq::empty(),
        string: Option::Some(Seq::empty()),
        ..s
    };
    assert forall|j: int| i + 1 <= j < i + 1 + text.len() implies content[j] != '"' by {
        assert(text[j - (i + 1)] == content[j]);
        assert(text.contains(text[j - (i + 1)]));
    }
    lemma_inside_string(content, i + 1, opened, text.len());
    assert(Seq::<char>::empty() + text =~= text);
}

/// The lexing of a text that is one quoted string and a newline: one line of
/// one leaf, which holds the text between the delimiters.
pub proof fn lemma_quoted_line(text: Seq<char>)
    requires
        !text.contains('"'),
    ensures
        lex(seq!['"'] + text + seq!['"', '\n']) == seq![seq![TokenView::RawString(text)]],
{
    let content = seq!['"'] + text + seq!['"', '\n'];
    let n = text.len() as int;
    assert(content.subrange(1, 1 + n) =~= text);
    lemma_string_is_one_token(content, 0, start(), text);
    let after = LexState {
        line: close_word(start().line, start().word).push(TokenView::RawString(text)),
        word: Seq::empty(),
        ..start()
    };
    assert(content[n + 2] == '\n');
    let closed = LexState {
        lines: after.lines.push(close_word(after.line, after.word)),
        line: Seq::empty(),
        word: Seq::empty(),
        ..after
    };
    assert(lex_from(content, n + 2, after) == lex_from(content, n + 3, closed));
    assert(lex_from(content, n + 3, closed) == at_end(closed));
    assert(at_end(closed) =~= seq![seq![TokenView::RawString(text)]]);
}

/// Whether a character is a token of its own wherever it stands outside a
/// string: any character that ends a word, but the space, the newline and the
/// string delimiter.
pub open spec fn is_special(c: char) -> bool {
    is_cut(c) && c != ' ' && c != '\n' && c != '"'
}

/// Two identical special characters side by side are one token of both: the
/// lexer closes the pending word, adds one leaf of the two characters, and
/// goes on behind the second.
pub proof fn lemma_twins_are_one_token(content: Seq<char>, i: int, s: LexState)
    requires
        s.string is None,
        0 <= i,
        i + 1 < content.len(),
        is_special(content[i]),
        content[i + 1] == content[i],
    ensures
        lex_from(content, i, s) == lex_from(
            content,
            i + 2,
            LexState {
                line: close_word(s.line, s.word).push(
                    TokenView::RawString(seq![content[i], content[i]]),
                ),
                word: Seq::empty(),
                ..s
            },
        ),
{
    lemma_keywords_differ();
}

/// A line of two identical special characters is one token; with a space
/// between them it is two tokens, one for each; and the two lines differ.
pub proof fn lemma_twins_differ_from_pair(c: char)
    requires
        is_special(c),
    ensures
        lex(seq![c, c, '\n']) == seq![seq![TokenView::RawString(seq![c, c])]],
        lex(seq![c, ' ', c, '\n']) == seq![seq![token_of(seq![c]), token_of(seq![c])]],
        lex(seq![c, c, '\n']) != lex(seq![c, ' ', c, '\n']),
{
    let twins = seq![c, c, '\n'];
    let one = TokenView::RawString(seq![c, c]);
    lemma_twins_are_one_token(twins, 0, start());
    let s1 = LexState { line: Seq::<TokenView>::empty().push(one), word: Seq::empty(), ..start() };
    let s2 = LexState { lines: s1.lines.push(s1.line), line: Seq::empty(), ..s1 };
    assert(lex_from(twins, 2, s1) == lex_from(twins, 3, s2));
    assert(lex_from(twins, 3, s2) == at_end(s2));
    assert(at_end(s2) =~= seq![seq![one]]);

    let pair = seq![c, ' ', c, '\n'];
    let t = token_of(seq![c]);
    let p1 = LexState { line: Seq::<TokenView>::empty().push(t), word: Seq::empty(), ..start() };
    let p2 = LexState { line: p1.line.push(t), ..p1 };
    let p3 = LexState { lines: p2.lines.push(p2.line), line: Seq::empty(), ..p2 };
    assert(lex_from(pair, 0, start()) == lex_from(pair, 1, p1));
    assert(lex_from(pair, 1, p1) == lex_from(pair, 2, p1));
    assert(lex_from(pair, 2, p1) == lex_from(pair, 3, p2));
    assert(lex_from(pair, 3, p2) == lex_from(pair, 4, p3));
    assert(lex_from(pair, 4, p3) == at_end(p3));
    assert(p2.line =~= seq![t, t]);
    assert(at_end(p3) =~= seq![seq![t, t]]);
    assert(seq![seq![one]][0].len() == 1);
    assert(seq![seq![t, t]][0].len() == 2);
}

/// The tokens of a line spelled out one after the other.
pub open spec fn line_text(line: Seq<TokenView>) -> Seq<char>
    decreases line.len(),
{
    if line.len() == 0 {
        Seq::empty()
    } else {
        line_text(line.drop_last()) + text_of(line.last())
    }
}

/// The tokens of all lines spelled out one after the other.
pub open spec fn lines_text(lines: Seq<Seq<TokenView>>) -> Seq<char>
    decreases lines.len(),
{
    if lines.len() == 0 {
        Seq::empty()
    } else {
        lines_text(lines.drop_last()) + line_text(lines.last())
    }
}

/// The characters of a source, from a position on, that belong to a token:
/// all but the string delimiters, the spaces and newlines outside of strings,
/// and what follows a delimiter that is never closed. `string` holds what was
/// read of an open string.
pub open spec fn solid(content: Seq<char>, i: int, string: Option<Seq<char>>) -> Seq<char>
    decreases content.len() - i,
{
    if i < 0 || i >= content.len() {
        Seq::empty()
    } else {
        let c = content[i];
        match string {
            Option::Some(text) => if c == '"' {
                text + solid(content, i + 1, Option::None)
            } else {
                solid(content, i + 1, Option::Some(text.push(c)))
            },
            Option::None => if c == '"' {
                solid(content, i + 1, Option::Some(Seq::empty()))
            } else if c == '\n' || c == ' ' {
                solid(content, i + 1, Option::None)
            } else {
                seq![c] + solid(content, i + 1, Option::None)
            },
        }
    }
}

proof fn lemma_line_text_push(line: Seq<TokenView>, token: TokenView)
    ensures
        line_text(line.push(token)) == line_text(line) + text_of(token),
{
    assert(line.push(token).drop_last() =~= line);
}

proof fn lemma_lines_text_push(lines: Seq<Seq<TokenView>>, line: Seq<TokenView>)
    ensures
        lines_text(lines.push(line)) == lines_text(lines) + line_text(line),
{
    assert(lines.push(line).drop_last() =~= lines);
}

proof fn lemma_close_word_text(line: Seq<TokenView>, word: Seq<char>)
    ensures
        line_text(close_word(line, word)) == line_text(line) + word,
{
    if word.len() == 0 {
        assert(line_text(line) + word =~= line_text(line));
    } else {
        lemma_line_text_push(line, token_of(word));
    }
}

/// What the lexer has read so far, spelled out.
spec fn state_text(s: LexState) -> Seq<char> {
    lines_text(s.lines) + line_text(s.line) + s.word
}

proof fn lemma_spelling_from(content: Seq<char>, i: int, s: LexState)
    requires
        0 <= i,
        s.string is Some ==> s.word.len() == 0,
    ensures
        lines_text(lex_from(content, i, s)) == state_text(s) + solid(content, i, s.string),
    decreases content.len() - i,
{
    if i >= content.len() {
        let line = close_word(s.line, s.word);
        lemma_close_word_text(s.line, s.word);
        if line.len() == 0 {
            assert(state_text(s) + Seq::<char>::empty() =~= lines_text(s.lines));
        } else {
            lemma_lines_text_push(s.lines, line);
            assert(state_text(s) + Seq::<char>::empty() =~= lines_text(s.lines) + line_text(line));
        }
    } else {
        let c = content[i];
        let rest = solid(content, i + 1, Option::None);
        match s.string {
            Option::Some(text) => {
                if c == '"' {
                    let next = LexState {
                        line: s.line.push(TokenView::RawString(text)),
                        string: Option::None,
                        ..s
                    };
                    lemma_spelling_from(content, i + 1, next);
                    lemma_line_text_push(s.line, TokenView::RawString(text));
                    assert(state_text(next) + rest =~= state_text(s) + (text + rest));
                } else {
                    let next = LexState { string: Option::Some(text.push(c)), ..s };
                    lemma_spelling_from(content, i + 1, next);
                }
            },
            Option::None => {
                let closed = close_word(s.line, s.word);
                lemma_close_word_text(s.line, s.word);
                if c == '"' {
                    let next = LexState {
                        line: closed,
                        word: Seq::empty(),
                        string: Option::Some(Seq::empty()),
                        ..s
                    };
                    lemma_spelling_from(content, i + 1, next);
                    assert(state_text(next) =~= state_text(s));
                } else if c == '\n' {
                    let next = LexState {
                        lines: s.lines.push(closed),
                        line: Seq::empty(),
                        word: Seq::empty(),
                        ..s
                    };
                    lemma_spelling_from(content, i + 1, next);
                    lemma_lines_text_push(s.lines, closed);
                    assert(state_text(next) =~= state_text(s));
                } else if is_cut(c) {
                    if c == ' ' {
                        let next = LexState { line: closed, word: Seq::empty(), ..s };
                        lemma_spelling_from(content, i + 1, next);
                        assert(state_text(next) =~= state_text(s));
                    } else if twin_at(content, i) {
                        let token = token_of(seq![c, c]);
                        let next = LexState { line: closed.push(token), word: Seq::empty(), ..s };
                        lemma_spelling_from(content, i + 2, next);
                        lemma_line_text_push(closed, token);
                        lemma_text_roundtrip(seq![c, c]);
                        let after = solid(content, i + 2, Option::None);
                        assert(rest == seq![c] + after);
                        assert(state_text(next) + after =~= state_text(s) + (seq![c] + rest));
                    } else {
                        let token = token_of(seq![c]);
                        let next = LexState { line: closed.push(token), word: Seq::empty(), ..s };
                        lemma_spelling_from(content, i + 1, next);
                        lemma_line_text_push(closed, token);
                        lemma_text_roundtrip(seq![c]);
                        assert(state_text(next) + rest =~= state_text(s) + (seq![c] + rest));
                    }
                } else {
                    let next = LexState { word: s.word.push(c), ..s };
                    lemma_spelling_from(content, i + 1, next);
                    assert(state_text(next) + rest =~= state_text(s) + (seq![c] + rest));
                }
            },
        }
    }
}

/// The tokens mirror the source: spelled out in their order, line after
/// line, they give the characters of the source in its order, without the
/// string delimiters and without the spaces and newlines outside of strings.
/// No character is moved, doubled or made up, and only what follows a
/// delimiter that is never closed is left out.
pub proof fn lemma_tokens_spell_the_source(content: Seq<char>)
    ensures
        lines_text(lex(content)) == solid(content, 0, Option::None),
{
    lemma_spelling_from(content, 0, start());
    assert(state_text(start()) + solid(content, 0, Option::None) =~= solid(
        content,
        0,
        Option::None,
    ));
}

/// Whether a text is made of letters, digits and dots alone.
pub open spec fn is_word(text: Seq<char>) -> bool {
    forall|i: int| 0 <= i < text.len() ==> !is_cut(#[trigger] text[i])
}

/// Letters, digits and dots side by side join the pending word.
proof fn lemma_word_grows(content: Seq<char>, i: int, s: LexState, k: nat)
    requires
        s.string is None,
        0 <= i,
        i + k <= content.len(),
        forall|j: int| i <= j < i + k ==> !is_cut(#[trigger] content[j]),
    ensures
        lex_from(content, i, s) == lex_from(
            content,
            i + k,
            LexState { word: s.word + content.subrange(i, i + k), ..s },
        ),
    decreases k,
{
    if k == 0 {
        assert(s.word + content.subrange(i, i) =~= s.word);
    } else {
        assert(!is_cut(content[i]));
        let s1 = LexState { word: s.word.push(content[i]), ..s };
        lemma_word_grows(content, i + 1, s1, (k - 1) as nat);
        assert(s.word.push(content[i]) + content.subrange(i + 1, i + k) =~= s.word
            + content.subrange(i, i + k));
    }
}

/// A line that declares a function, `func` and a name that is a word and no
/// keyword, is exactly two tokens: the keyword, and the name as a leaf.
pub proof fn lemma_function_declaration(name: Seq<char>)
    requires
        name.len() > 0,
        is_word(name),
        !is_keyword(name),
    ensures
        lex("func "@ + name + "\n"@) == seq![seq![TokenView::Function, TokenView::RawString(name)]],
{
    reveal_strlit("func ");
    reveal_strlit("\n");
    reveal_keywords();
    let content = "func "@ + name + "\n"@;
    let n = name.len() as int;
    assert(content.len() == n + 6);
    assert(content[0] == 'f' && content[1] == 'u' && content[2] == 'n' && content[3] == 'c');
    assert(content[4] == ' ');
    assert(content[n + 5] == '\n');
    assert(content.subrange(0, 4) =~= "func"@);
    assert(content.subrange(5, 5 + n) =~= name);
    lemma_word_grows(content, 0, start(), 4);
    let s1 = LexState { word: Seq::<char>::empty() + "func"@, ..start() };
    assert(s1.word =~= "func"@);
    let s2 = LexState { line: seq![TokenView::Function], word: Seq::empty(), ..start() };
    assert(close_word(s1.line, s1.word) =~= s2.line);
    assert(lex_from(content, 4, s1) == lex_from(content, 5, s2));
    assert forall|j: int| 5 <= j < 5 + n implies !is_cut(#[trigger] content[j]) by {
        assert(content[j] == name[j - 5]);
    }
    lemma_word_grows(content, 5, s2, name.len());
    let s3 = LexState { word: Seq::<char>::empty() + name, ..s2 };
    assert(s3.word =~= name);
    let line = seq![TokenView::Function, TokenView::RawString(name)];
    assert(close_word(s3.line, s3.word) =~= line);
    let s4 = LexState { lines: seq![line], line: Seq::empty(), word: Seq::empty(), ..start() };
    assert(s3.lines.push(line) =~= s4.lines);
    assert(lex_from(content, 5 + n, s3) == lex_from(content, 6 + n, s4));
    assert(lex_from(content, 6 + n, s4) == at_end(s4));
    assert(at_end(s4) =~= seq![line]);
}

/// The number of newlines outside of strings in a source from a position
/// on, where `in_string` says whether the position lies inside a string.
pub open spec fn line_breaks(content: Seq<char>, i: int, in_string: bool) -> nat
    decreases content.len() - i,
{
    if i < 0 || i >= content.len() {
        0
    } else if content[i] == '"' {
        line_breaks(content, i + 1, !in_string)
    } else if content[i] == '\n' && !in_string {
        1 + line_breaks(content, i + 1, false)
    } else {
        line_breaks(content, i + 1, in_string)
    }
}

proof fn lemma_lines_from(content: Seq<char>, i: int, s: LexState)
    requires
        0 <= i,
    ensures
        s.lines.len() + line_breaks(content, i, s.string is Some) <= lex_from(content, i, s).len()
            <= s.lines.len() + line_breaks(content, i, s.string is Some) + 1,
    decreases content.len() - i,
{
    if i < content.len() {
        let c = content[i];
        match s.string {
            Option::Some(text) => {
                if c == '"' {
                    lemma_lines_from(
                        content,
                        i + 1,
                        LexState {
                            line: s.line.push(TokenView::RawString(text)),
                            string: Option::None,
                            ..s
                        },
                    );
                } else {
                    lemma_lines_from(
                        content,
                        i + 1,
                        LexState { string: Option::Some(text.push(c)), ..s },
                    );
                }
            },
            Option::None => {
                let closed = close_word(s.line, s.word);
                if c == '"' {
                    lemma_lines_from(
                        content,
                        i + 1,
                        LexState {
                            line: closed,
                            word: Seq::empty(),
                            string: Option::Some(Seq::empty()),
                            ..s
                        },
                    );
                } else if c == '\n' {
                    lemma_lines_from(
                        content,
                        i + 1,
                        LexState {
                            lines: s.lines.push(closed),
                            line: Seq::empty(),
                            word: Seq::empty(),
                            ..s
                        },
                    );
                } else if is_cut(c) {
                    if c == ' ' {
                        lemma_lines_from(
                            content,
                            i + 1,
                            LexState { line: closed, word: Seq::empty(), ..s },
                        );
                    } else if twin_at(content, i) {
                        lemma_lines_from(
                            content,
                            i + 2,
                            LexState {
                                line: closed.push(token_of(seq![c, c])),
                                word: Seq::empty(),
                                ..s
                            },
                        );
                        assert(line_breaks(content, i + 1, false) == line_breaks(
                            content,
                            i + 2,
                            false,
                        ));
                    } else {
                        lemma_lines_from(
                            content,
                            i + 1,
                            LexState {
                                line: closed.push(token_of(seq![c])),
                                word: Seq::empty(),
                                ..s
                            },
                        );
                    }
                } else {
                    lemma_lines_from(content, i + 1, LexState { word: s.word.push(c), ..s });
                }
            },
        }
    }
}

/// A source has one line for each newline outside of its strings, empty
/// lines too, and one more where tokens follow the last of them.
pub proof fn lemma_one_line_per_newline(content: Seq<char>)
    ensures
        line_breaks(content, 0, false) <= lex(content).len() <= line_breaks(content, 0, false) + 1,
{
    lemma_lines_from(content, 0, start());
}

} // verus!
