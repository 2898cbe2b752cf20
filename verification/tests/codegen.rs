use juc::assembly::{
    define_static, exit_sequence, open_function, print_sequence, raw_assembly, render_file,
    return_sequence, store,
};
use juc::base::{Compiler, Failure};
use juc::caller::Caller;
use juc::data::{CompilerData, Fault, Options, VariableTable};
use juc::effects::Effect;
use juc::linux::LinuxCompiler;
use juc::objects::{
    string_to_type, type_size_to_asm, type_size_to_usize, type_to_asm, Function, Type, Variable,
};
use juc::parser::Parser;
use juc::text::{append_lines, number_to_string, spelled};
use juc::tokens::Token;

fn raw(text: &str) -> Token {
    Token::RawString(text.to_string())
}

fn text(s: &str) -> String {
    s.to_string()
}

fn compiler() -> LinuxCompiler {
    LinuxCompiler::new(CompilerData::new(vec![], Options::new(), false))
}

fn declaration(id: &str, type_: &str, value: &str) -> Vec<Token> {
    vec![raw(id), Token::TypeDef, raw(type_), Token::Assign, raw(value)]
}

fn compile(source: &str) -> (LinuxCompiler, Result<(), Failure>) {
    let mut c = compiler();
    let mut parser = Parser::new(&text("test.ju"));
    parser.set_content(text(source));
    parser.run();
    c.data().parser = Some(parser);
    let done = c.call();
    (c, done)
}

#[test]
fn numbers_in_decimal() {
    assert_eq!(number_to_string(0), "0");
    assert_eq!(number_to_string(7), "7");
    assert_eq!(number_to_string(10), "10");
    assert_eq!(number_to_string(12), "12");
    assert_eq!(number_to_string(9081726354), "9081726354");
    assert_eq!(number_to_string(usize::MAX), usize::MAX.to_string());
}

#[test]
fn spelled_compares_whole_texts() {
    assert!(spelled(&text("int"), "int"));
    assert!(!spelled(&text("int"), "in"));
    assert!(!spelled(&text(""), "int"));
}

#[test]
fn lines_are_joined_with_newlines() {
    let mut out = text("head\n");
    append_lines(&mut out, &vec![text("a"), text(""), text("b")]);
    assert_eq!(out, "head\na\n\nb\n");
    append_lines(&mut out, &vec![]);
    assert_eq!(out, "head\na\n\nb\n");
}

#[test]
fn types_by_name() {
    assert_eq!(string_to_type(&text("byte")), Some(Type::Byte));
    assert_eq!(string_to_type(&text("int")), Some(Type::Integer));
    assert_eq!(string_to_type(&text("bigint")), Some(Type::BigInteger));
    assert_eq!(string_to_type(&text("str")), Some(Type::Str));
    assert_eq!(string_to_type(&text("float")), None);
    assert_eq!(string_to_type(&text("Int")), None);
}

#[test]
fn types_as_assembly() {
    let table = [
        (Type::Byte, 1, "db", "byte"),
        (Type::Integer, 4, "dd", "dword"),
        (Type::BigInteger, 8, "dq", "qword"),
        (Type::Str, 8, "db", "qword"),
    ];
    for (type_, size, directive, keyword) in table {
        assert_eq!(type_size_to_usize(&type_), size);
        assert_eq!(type_to_asm(type_), directive);
        assert_eq!(type_size_to_asm(type_), keyword);
    }
}

#[test]
fn variable_getters() {
    let local = Variable::new(text("x"), Type::Integer, text("5"), 4);
    assert_eq!(local.id(), "x");
    assert_eq!(*local.type_(), Type::Integer);
    assert_eq!(local.current_value(), "5");
    assert_eq!(local.stack_pos(), Some(4));
    let fixed = Variable::static_(text("s"), Type::Str, text("hi"));
    assert_eq!(fixed.stack_pos(), None);
    assert_eq!(local.clone(), local);
}

#[test]
fn function_getters() {
    let function = Function::new(text("main"), vec![], text(""));
    assert_eq!(function.id(), "main");
    assert!(function.params().is_empty());
    assert_eq!(function.return_type(), "");
}

#[test]
fn store_of_a_local() {
    let local = Variable::new(text("x"), Type::Integer, text("5"), 4);
    assert_eq!(store(&local, 4), "\tmov [rbp - 4], dword 5 ; x");
    let wide = Variable::new(text("big"), Type::BigInteger, text("70000"), 12);
    assert_eq!(store(&wide, 12), "\tmov [rbp - 12], qword 70000 ; big");
    let small = Variable::new(text("b"), Type::Byte, text("1"), 13);
    assert_eq!(store(&small, 13), "\tmov [rbp - 13], byte 1 ; b");
}

#[test]
fn string_static_is_terminated() {
    let fixed = Variable::static_(text("msg"), Type::Str, text("hello"));
    assert_eq!(define_static(&fixed), "msg: db `hello`, 0");
    assert!(define_static(&fixed).ends_with(", 0"));
}

#[test]
fn default_static_is_a_bare_zero() {
    for type_ in [Type::Str, Type::Integer, Type::Byte, Type::BigInteger] {
        let fixed = Variable::static_(text("s"), type_, text(""));
        let line = define_static(&fixed);
        assert_eq!(line, format!("s: {} 0", type_to_asm(type_)));
        assert!(!line.contains('`'));
    }
}

#[test]
fn string_static_of_the_text_zero_is_terminated() {
    let fixed = Variable::static_(text("s"), Type::Str, text("0"));
    assert_eq!(define_static(&fixed), "s: db `0`, 0");
    let mut c = compiler();
    assert_eq!(c.when_static(declaration("s", "str", "0")), Ok(()));
    assert_eq!(c.when_static(vec![raw("t"), Token::TypeDef, raw("str")]), Ok(()));
    assert_eq!(c.when_static(declaration("u", "str", "")), Ok(()));
    assert_eq!(c.data().section_data, vec!["s: db `0`, 0", "t: db 0", "u: db 0"]);
    let (mut c, done) = compile("static s: str = \"0\"\nstatic t: str\n");
    assert_eq!(done, Ok(()));
    assert_eq!(c.data().section_data, vec!["s: db `0`, 0", "t: db 0"]);
}

#[test]
fn number_static_of_zero_has_its_value() {
    let given = Variable::static_(text("n"), Type::Integer, text("0"));
    assert_eq!(define_static(&given), "n: dd 0");
    let mut c = compiler();
    assert_eq!(c.when_static(declaration("n", "bigint", "0")), Ok(()));
    assert_eq!(c.data().section_data, vec!["n: dq 0"]);
}

#[test]
fn one_source_names_both_files() {
    let mut c = compiler();
    c.data().current_source = text("build/other.ju.asm");
    c.write_asm(text("\tret"));
    let effects = c.finish_one(&text("this.ju"));
    assert_eq!(
        effects,
        vec![
            Effect::Write {
                path: text("build/this.ju.asm"),
                content: text("section .text\n\tret\nsection .data\n"),
            },
            Effect::Execute {
                program: text("nasm"),
                arguments: vec![
                    text("build/this.ju.asm"),
                    text("-f"),
                    text("elf64"),
                    text("-o"),
                    text("build/this.ju.o"),
                ],
            },
        ]
    );
    assert!(c.data().section_text.is_empty());
}

#[test]
fn number_static_has_its_value() {
    let fixed = Variable::static_(text("n"), Type::Integer, text("42"));
    assert_eq!(define_static(&fixed), "n: dd 42");
}

#[test]
fn sequences() {
    assert_eq!(open_function(&text("main")), vec!["\tglobal main", "main:", "\tpush rbp"]);
    assert_eq!(
        return_sequence(&text("7")),
        vec!["\tnop", "\tpop rbp", "\tmov rax, 7", "\tret"]
    );
    assert_eq!(exit_sequence(&text("3")), vec!["\tmov rax, 60", "\tmov rdi, 3", "\tsyscall"]);
    assert_eq!(
        print_sequence(&text("msg")),
        vec![
            "\tmov rdi, msg",
            "\txor rax, rax",
            "\tmov rcx, -1",
            "\trepne scasb",
            "\tnot rcx",
            "\tdec rcx",
            "\tmov rdx, rcx",
            "\tmov rsi, msg",
            "\tmov rax, 1",
            "\tmov rdi, 1",
            "\tsyscall",
        ]
    );
}

#[test]
fn raw_assembly_line() {
    let tokens = vec![raw("mov"), raw("rax"), Token::Comma, raw("1")];
    assert_eq!(raw_assembly(&tokens), "\tmov rax , 1 ");
    assert_eq!(raw_assembly(&vec![Token::Return]), "\tret ");
    assert_eq!(raw_assembly(&vec![]), "\t");
}

#[test]
fn file_of_two_sections() {
    let content = render_file(&vec![text("main:"), text("\tret")], &vec![text("x: dd 1")]);
    assert_eq!(content, "section .text\nmain:\n\tret\nsection .data\nx: dd 1\n");
    assert_eq!(render_file(&vec![], &vec![]), "section .text\nsection .data\n");
}

#[test]
fn table_keeps_the_last_declaration() {
    let mut table = VariableTable::new();
    assert!(table.get(&text("x")).is_none());
    table.insert(Variable::new(text("x"), Type::Integer, text("1"), 4));
    table.insert(Variable::new(text("y"), Type::Integer, text("2"), 8));
    table.insert(Variable::new(text("x"), Type::BigInteger, text("3"), 16));
    let x = table.get(&text("x")).unwrap();
    assert_eq!(x.current_value(), "3");
    assert_eq!(x.stack_pos(), Some(16));
    assert_eq!(table.get(&text("y")).unwrap().current_value(), "2");
    assert!(table.get(&text("z")).is_none());
}

#[test]
fn options_keep_the_last_value() {
    let mut options = Options::new();
    assert_eq!(options.get('o'), None);
    options.set('o', text("a"));
    options.set('p', text("linux"));
    options.set('o', text("b"));
    assert_eq!(options.get('o'), Some(&text("b")));
    assert_eq!(options.get('p'), Some(&text("linux")));
    assert_eq!(options.clone().get('o'), Some(&text("b")));
    assert_eq!(options.get('l'), None);
}

#[test]
fn two_locals_stack_up() {
    let mut c = compiler();
    assert_eq!(c.when_variable(declaration("a", "int", "1")), Ok(()));
    assert_eq!(c.data().i_variable_stack, 4);
    assert_eq!(c.data().variable_stack.get(&text("a")).unwrap().stack_pos(), Some(4));
    assert_eq!(c.when_variable(declaration("b", "bigint", "2")), Ok(()));
    assert_eq!(c.data().i_variable_stack, 12);
    assert_eq!(c.data().variable_stack.get(&text("b")).unwrap().stack_pos(), Some(12));
    assert_eq!(c.data().variable_stack.get(&text("a")).unwrap().stack_pos(), Some(4));
    assert_eq!(
        c.data().section_text,
        vec!["\tmov [rbp - 4], dword 1 ; a", "\tmov [rbp - 12], qword 2 ; b"]
    );
}

#[test]
fn redeclaration_overwrites() {
    let mut c = compiler();
    assert_eq!(c.when_variable(declaration("a", "int", "1")), Ok(()));
    assert_eq!(c.when_variable(declaration("a", "byte", "9")), Ok(()));
    let a = c.data().variable_stack.get(&text("a")).unwrap().clone();
    assert_eq!(a, Variable::new(text("a"), Type::Byte, text("9"), 5));
    assert_eq!(c.data().i_variable_stack, 5);
}

#[test]
fn variable_needs_a_value() {
    let mut c = compiler();
    let tokens = vec![raw("a"), Token::TypeDef, raw("int")];
    assert_eq!(c.when_variable(tokens), Err(Fault::MalformedDeclaration));
    assert_eq!(c.data().i_variable_stack, 0);
    assert!(c.data().section_text.is_empty());
}

#[test]
fn frame_too_large() {
    let mut c = compiler();
    c.data().i_variable_stack = usize::MAX - 3;
    assert_eq!(c.when_variable(declaration("a", "int", "1")), Err(Fault::FrameTooLarge));
    assert_eq!(c.when_variable(declaration("a", "byte", "1")), Ok(()));
    assert_eq!(c.data().i_variable_stack, usize::MAX - 2);
}

#[test]
fn malformed_declarations() {
    let cases: Vec<Vec<Token>> = vec![
        vec![],
        vec![raw("a")],
        vec![raw("a"), Token::TypeDef],
        vec![raw("a"), Token::TypeDef, raw("int"), Token::Assign],
        vec![Token::Return, Token::TypeDef, raw("int")],
        vec![raw("a"), Token::Assign, raw("int")],
        vec![raw("a"), Token::TypeDef, Token::Static],
        vec![raw("a"), Token::TypeDef, raw("int"), Token::Comma, raw("1")],
        vec![raw("a"), Token::TypeDef, raw("int"), Token::Assign, Token::Comma],
        vec![raw("a"), Token::TypeDef, raw("int"), Token::Assign, raw("1"), raw("2")],
    ];
    for tokens in cases {
        let mut c = compiler();
        assert_eq!(c.when_static(tokens.clone()), Err(Fault::MalformedDeclaration));
        assert_eq!(c.retrieve_variable_info(tokens), Err(Fault::MalformedDeclaration));
        assert!(c.data().section_data.is_empty());
    }
}

#[test]
fn unknown_type() {
    let mut c = compiler();
    assert_eq!(c.when_static(declaration("a", "float", "1")), Err(Fault::UnknownType));
    assert_eq!(c.when_variable(declaration("a", "float", "1")), Err(Fault::UnknownType));
}

#[test]
fn declaration_is_read() {
    let mut c = compiler();
    assert_eq!(
        c.retrieve_variable_info(declaration("a", "str", "x y")),
        Ok((text("a"), Type::Str, Some(text("x y"))))
    );
    assert_eq!(
        c.retrieve_variable_info(vec![raw("a"), Token::TypeDef, raw("byte")]),
        Ok((text("a"), Type::Byte, None))
    );
}

#[test]
fn static_with_and_without_value() {
    let mut c = compiler();
    assert_eq!(c.when_static(declaration("msg", "str", "hi")), Ok(()));
    assert_eq!(c.when_static(vec![raw("n"), Token::TypeDef, raw("int")]), Ok(()));
    assert_eq!(c.when_static(vec![raw("s"), Token::TypeDef, raw("str")]), Ok(()));
    assert_eq!(c.data().section_data, vec!["msg: db `hi`, 0", "n: dd 0", "s: db 0"]);
    assert!(c.data().section_text.is_empty());
    assert!(c.data().variable_stack.get(&text("msg")).is_none());
}

#[test]
fn function_is_declared() {
    let mut c = compiler();
    assert_eq!(c.when_function(vec![raw("main")]), Ok(()));
    assert_eq!(c.data().section_text, vec!["\tglobal main", "main:", "\tpush rbp"]);
    assert_eq!(c.data().functions, vec![Function::new(text("main"), vec![], text(""))]);
    assert_eq!(c.data().current_scope, vec!["main"]);
    assert_eq!(c.when_function(vec![raw("f"), raw("x")]), Ok(()));
    assert_eq!(c.data().current_scope, vec!["main", "f"]);
}

#[test]
fn function_needs_a_name() {
    let mut c = compiler();
    assert_eq!(c.when_function(vec![]), Err(Fault::ExpectedLiteral));
    assert_eq!(c.when_function(vec![Token::Return]), Err(Fault::ExpectedLiteral));
    assert!(c.data().section_text.is_empty());
    assert!(c.data().current_scope.is_empty());
}

#[test]
fn return_with_and_without_value() {
    let mut c = compiler();
    assert_eq!(c.when_return(vec![]), Ok(()));
    assert_eq!(c.when_return(vec![raw("5")]), Ok(()));
    assert_eq!(c.when_return(vec![Token::Comma]), Err(Fault::ExpectedLiteral));
    assert_eq!(
        c.data().section_text,
        vec![
            "\tnop", "\tpop rbp", "\tmov rax, 0", "\tret", "\tnop", "\tpop rbp", "\tmov rax, 5",
            "\tret",
        ]
    );
}

#[test]
fn print_and_exit() {
    let mut c = compiler();
    assert_eq!(c.when_print(vec![]), Err(Fault::ExpectedLiteral));
    assert_eq!(c.when_print(vec![Token::Assign]), Err(Fault::ExpectedLiteral));
    assert_eq!(c.when_exit(vec![Token::Assign]), Err(Fault::ExpectedLiteral));
    assert!(c.data().section_text.is_empty());
    assert_eq!(c.when_exit(vec![]), Ok(()));
    assert_eq!(c.data().section_text, exit_sequence(&text("0")));
    assert_eq!(c.when_exit(vec![raw("2")]), Ok(()));
    assert_eq!(c.when_print(vec![raw("msg")]), Ok(()));
    let mut expected = exit_sequence(&text("0"));
    expected.extend(exit_sequence(&text("2")));
    expected.extend(print_sequence(&text("msg")));
    assert_eq!(c.data().section_text, expected);
}

#[test]
fn assembly_and_others() {
    let mut c = compiler();
    assert_eq!(c.when_assembly_code(vec![raw("mov"), raw("rax"), Token::Comma, raw("1")]), Ok(()));
    c.when_assign(vec![raw("x"), Token::Assign, raw("1")]);
    c.when_other();
    c.write_asm(text("; done"));
    assert_eq!(c.data().section_text, vec!["\tmov rax , 1 ", "; done"]);
}

#[test]
fn backend_refuses_a_local_without_a_fitting_slot() {
    let mut c = compiler();
    let fixed = Variable::static_(text("a"), Type::Integer, text("1"));
    assert_eq!(c.add_variable(fixed.clone()), Err(Fault::NoStackSlot));
    assert_eq!(c.change_variable_value(&fixed), Err(Fault::NoStackSlot));
    let low = Variable::new(text("a"), Type::Integer, text("1"), 3);
    assert_eq!(c.add_variable(low), Err(Fault::NoStackSlot));
    assert_eq!(c.add_variable(Variable::new(text("a"), Type::Integer, text("1"), 4)), Ok(()));
    let overlapping = Variable::new(text("b"), Type::Integer, text("1"), 7);
    assert_eq!(c.add_variable(overlapping), Err(Fault::NoStackSlot));
    assert_eq!(c.data().i_variable_stack, 4);
    assert_eq!(c.add_variable(Variable::new(text("b"), Type::Integer, text("1"), 10)), Ok(()));
    assert_eq!(c.data().i_variable_stack, 10);
    assert_eq!(c.data().section_text.len(), 2);
}

#[test]
fn reassignment_stores_again() {
    let mut c = compiler();
    let local = Variable::new(text("a"), Type::Integer, text("8"), 4);
    assert_eq!(c.change_variable_value(&local), Ok(()));
    assert_eq!(c.data().section_text, vec!["\tmov [rbp - 4], dword 8 ; a"]);
    assert_eq!(c.data().i_variable_stack, 0);
}

#[test]
fn generators_append() {
    let mut c = compiler();
    c.add_function(Function::new(text("f"), vec![], text("")));
    c.return_(text("1"));
    c.print(text("m"));
    c.exit(text("0"));
    c.add_static_variable(Variable::static_(text("m"), Type::Str, text("x")));
    assert_eq!(c.data().section_text.len(), 3 + 4 + 11 + 3);
    assert_eq!(c.data().section_data, vec!["m: db `x`, 0"]);
    assert!(c.data().current_scope.is_empty());
}

#[test]
fn static_then_function_returning_zero() {
    let (mut c, done) = compile("static msg: str = \"hello, world\"\nfunc main\nret 0\n");
    assert_eq!(done, Ok(()));
    assert_eq!(c.data().section_data, vec!["msg: db `hello, world`, 0"]);
    assert_eq!(
        c.data().section_text,
        vec![
            "\tglobal main",
            "main:",
            "\tpush rbp",
            "\tnop",
            "\tpop rbp",
            "\tmov rax, 0",
            "\tret",
        ]
    );
    let effects = c.finish_one(&text("test.ju"));
    assert!(c.data().section_text.is_empty());
    assert!(c.data().section_data.is_empty());
    assert_eq!(effects.len(), 2);
}

#[test]
fn lonely_keyword_decides_for_itself() {
    let (mut c, done) = compile("ret\n");
    assert_eq!(done, Ok(()));
    assert_eq!(c.data().section_text, return_sequence(&text("0")));
    let (mut c, done) = compile("@\n");
    assert_eq!(done, Ok(()));
    assert_eq!(c.data().section_text, vec!["\t"]);
    let (mut c, done) = compile("exit\n");
    assert_eq!(done, Ok(()));
    assert_eq!(c.data().section_text, exit_sequence(&text("0")));
    let (_, done) = compile("func\n");
    assert_eq!(done, Err(Failure { line: 0, fault: Fault::ExpectedLiteral }));
    let (mut c, done) = compile("main\n");
    assert_eq!(done, Ok(()));
    assert!(c.data().section_text.is_empty());
}

#[test]
fn consuming_handlers_end_the_line() {
    let (mut c, done) = compile("@ ret 0\n@ func x\n");
    assert_eq!(done, Ok(()));
    assert_eq!(c.data().section_text, vec!["\tret 0 ", "\tfunc x "]);
    assert!(c.data().functions.is_empty());
}

#[test]
fn handlers_that_do_not_consume_let_the_walk_go_on() {
    let (mut c, done) = compile("func f ret 3\n");
    assert_eq!(done, Ok(()));
    let mut expected = open_function(&text("f"));
    expected.extend(return_sequence(&text("3")));
    assert_eq!(c.data().section_text, expected);
}

#[test]
fn failure_names_the_line() {
    let (mut c, done) = compile("func main\n\nvariable x: int\nret 0\n");
    assert_eq!(done, Err(Failure { line: 2, fault: Fault::MalformedDeclaration }));
    assert_eq!(c.data().section_text, open_function(&text("main")));
    assert_eq!(c.data().current_line, vec![Token::Variable, raw("x"), Token::TypeDef, raw("int")]);
    assert_eq!(c.data().current_token, raw("x"));
    let (_, done) = compile("static x: nothing = 1\n");
    assert_eq!(done, Err(Failure { line: 0, fault: Fault::UnknownType }));
    let (_, done) = compile("ret ,\n");
    assert_eq!(done, Err(Failure { line: 0, fault: Fault::ExpectedLiteral }));
}

#[test]
fn dispatch_at_a_position() {
    let mut c = compiler();
    let line = vec![Token::Return, raw("4")];
    assert_eq!(c.check_for_instruction(&line, 0), Ok(false));
    assert!(c.data().section_text.is_empty());
    assert_eq!(c.check_for_instruction(&line, 1), Ok(false));
    assert_eq!(c.data().section_text, return_sequence(&text("4")));
    assert_eq!(c.check_for_instruction(&line, 2), Ok(false));
    assert_eq!(c.data().section_text.len(), 4);
    let line = vec![Token::Print, raw("msg"), raw("more")];
    assert_eq!(c.check_for_instruction(&line, 1), Ok(true));
    let line = vec![Token::Static, Token::Static];
    assert_eq!(c.check_for_instruction(&line, 1), Err(Fault::MalformedDeclaration));
}

#[test]
fn without_a_lexer_there_is_nothing_to_compile() {
    let mut c = compiler();
    assert_eq!(c.call(), Ok(()));
    assert!(c.data().section_text.is_empty());
}

#[test]
fn locals_through_the_dispatcher() {
    let (mut c, done) = compile("variable a: int = 1\nvariable b: bigint = 2\nvariable a: str = msg\n");
    assert_eq!(done, Ok(()));
    assert_eq!(c.data().i_variable_stack, 20);
    assert_eq!(c.data().variable_stack.get(&text("a")).unwrap().stack_pos(), Some(20));
    assert_eq!(c.data().variable_stack.get(&text("b")).unwrap().stack_pos(), Some(12));
    assert_eq!(
        c.data().section_text,
        vec![
            "\tmov [rbp - 4], dword 1 ; a",
            "\tmov [rbp - 12], qword 2 ; b",
            "\tmov [rbp - 20], qword msg ; a",
        ]
    );
}
