use juc::parser::Parser;
use juc::tokens::{should_be_cut, string_to_token, token_to_string, tokens_from, Token};

fn lex(text: &str) -> Vec<Vec<Token>> {
    let mut parser = Parser::new(&"test.ju".to_string());
    parser.set_content(text.to_string());
    parser.run();
    parser.parsed().clone()
}

fn raw(text: &str) -> Token {
    Token::RawString(text.to_string())
}

#[test]
fn function_declaration_is_two_tokens() {
    assert_eq!(lex("func main\n"), vec![vec![Token::Function, raw("main")]]);
}

#[test]
fn quoted_string_is_one_token() {
    assert_eq!(lex("\"a, 12 b\"\n"), vec![vec![raw("a, 12 b")]]);
}

#[test]
fn quoted_keyword_stays_a_leaf() {
    assert_eq!(lex("\"func\"\n"), vec![vec![raw("func")]]);
}

#[test]
fn two_strings_do_not_share_content() {
    assert_eq!(lex("\"a\" \"b\"\n"), vec![vec![raw("a"), raw("b")]]);
}

#[test]
fn word_before_a_string_comes_first() {
    assert_eq!(lex("abc\"def\"\n"), vec![vec![raw("abc"), raw("def")]]);
}

#[test]
fn newline_inside_a_string_is_kept() {
    assert_eq!(lex("\"a\nb\"\nret\n"), vec![vec![raw("a\nb")], vec![Token::Return]]);
}

#[test]
fn twin_characters_are_one_token() {
    assert_eq!(lex("==\n"), vec![vec![raw("==")]]);
    assert_eq!(lex("= =\n"), vec![vec![Token::Assign, Token::Assign]]);
    assert_ne!(lex("==\n"), lex("= =\n"));
}

#[test]
fn three_and_four_of_a_kind() {
    assert_eq!(lex("===\n"), vec![vec![raw("=="), Token::Assign]]);
    assert_eq!(lex("====\n"), vec![vec![raw("=="), raw("==")]]);
}

#[test]
fn empty_lines_are_lines() {
    assert_eq!(
        lex("ret\n\nret 0\n"),
        vec![vec![Token::Return], vec![], vec![Token::Return, raw("0")]]
    );
}

#[test]
fn empty_text_has_no_lines() {
    assert_eq!(lex(""), Vec::<Vec<Token>>::new());
}

#[test]
fn last_line_without_newline_is_kept() {
    assert_eq!(lex("func main"), vec![vec![Token::Function, raw("main")]]);
    assert_eq!(lex("ret\nret 1"), vec![vec![Token::Return], vec![Token::Return, raw("1")]]);
}

#[test]
fn unclosed_string_yields_no_token() {
    assert_eq!(lex("ret \"abc"), vec![vec![Token::Return]]);
}

#[test]
fn declaration_line() {
    assert_eq!(
        lex("static msg: str = \"hello, world\"\n"),
        vec![vec![
            Token::Static,
            raw("msg"),
            Token::TypeDef,
            raw("str"),
            Token::Assign,
            raw("hello, world"),
        ]]
    );
}

#[test]
fn assembly_line() {
    assert_eq!(
        lex("@ mov rax, 1.5\n"),
        vec![vec![Token::AssemblyCode, raw("mov"), raw("rax"), Token::Comma, raw("1.5")]]
    );
}

#[test]
fn tab_is_a_token_and_space_is_not() {
    assert_eq!(lex("a\tb c\n"), vec![vec![raw("a"), raw("\t"), raw("b"), raw("c")]]);
}

#[test]
fn characters_beyond_ascii() {
    assert_eq!(lex("\u{e9}\u{e9} a\u{e8}b\n"), vec![vec![raw("\u{e9}\u{e9}"), raw("a"), raw("\u{e8}"), raw("b")]]);
}

#[test]
fn running_again_replaces_the_lines() {
    let mut parser = Parser::new(&"test.ju".to_string());
    parser.set_content("ret\n".to_string());
    parser.run();
    parser.run();
    assert_eq!(parser.parsed(), &vec![vec![Token::Return]]);
    parser.set_content("exit\n".to_string());
    assert_eq!(parser.parsed(), &vec![vec![Token::Return]]);
    parser.run();
    assert_eq!(parser.parsed(), &vec![vec![Token::Exit]]);
}

#[test]
fn new_parser_is_empty() {
    let mut parser = Parser::new(&"a.ju".to_string());
    assert!(parser.parsed().is_empty());
    assert_eq!(parser.source(), "a.ju");
    assert_eq!(parser.content(), "");
    parser.set_content("ret\n".to_string());
    assert_eq!(parser.content(), "ret\n");
    assert_eq!(parser.source(), "a.ju");
}

#[test]
fn push_token_closes_a_word() {
    let mut word = "func".to_string();
    let mut line = vec![raw("x")];
    Parser::push_token(&mut word, &mut line);
    assert_eq!(word, "");
    assert_eq!(line, vec![raw("x"), Token::Function]);
    Parser::push_token(&mut word, &mut line);
    assert_eq!(line, vec![raw("x"), Token::Function]);
}

#[test]
fn keywords_resolve() {
    let table = [
        ("@", Token::AssemblyCode),
        ("=", Token::Assign),
        (",", Token::Comma),
        ("exit", Token::Exit),
        ("func", Token::Function),
        ("print", Token::Print),
        ("ret", Token::Return),
        ("static", Token::Static),
        ("\"", Token::StringDot),
        (":", Token::TypeDef),
        ("variable", Token::Variable),
    ];
    for (text, token) in table {
        assert_eq!(string_to_token(&text.to_string()), token);
        assert_eq!(token_to_string(token), text);
    }
}

#[test]
fn other_text_is_a_leaf() {
    assert_eq!(string_to_token(&"main".to_string()), raw("main"));
    assert_eq!(string_to_token(&"Func".to_string()), raw("Func"));
    assert_eq!(string_to_token(&"".to_string()), raw(""));
    assert_eq!(token_to_string(raw("12.5")), "12.5");
    assert_eq!(token_to_string(Token::Nothing), "");
}

#[test]
fn text_survives_the_round_trip() {
    for text in ["func", "x", "", "==", "variable", "variables"] {
        assert_eq!(token_to_string(string_to_token(&text.to_string())), text);
    }
}

#[test]
fn cut_characters() {
    for c in ['a', 'z', 'A', 'Z', '0', '9', '.', 'm'] {
        assert!(!should_be_cut(&c));
    }
    for c in [' ', '\n', '"', '@', ',', ':', '=', '_', '-', '[', '{', '`', '/', '\u{e9}'] {
        assert!(should_be_cut(&c));
    }
}

#[test]
fn tokens_from_a_position() {
    let line = vec![Token::Return, raw("0"), Token::Comma];
    assert_eq!(tokens_from(&line, 0), line);
    assert_eq!(tokens_from(&line, 1), vec![raw("0"), Token::Comma]);
    assert_eq!(tokens_from(&line, 3), Vec::<Token>::new());
}
