use juc::base::{
    begin, check_sources, copy_texts, module_of, refusal, run_compiler, select_platform, start,
    Compiler,
};
use juc::caller::Caller;
use juc::checking::{run_checkers, Checker, CheckerData, PassThrough};
use juc::data::{CompilerData, Options};
use juc::effects::{assemble, assembly_file, object_file, unreadable, Action, Effect};
use juc::base::Failure;
use juc::data::Fault;
use juc::linux::LinuxCompiler;
use juc::logger::{Log, LogLevel, Logger};
use juc::platform::{get_from_id, name_of, Platform};
use juc::tokens::Token;

fn text(s: &str) -> String {
    s.to_string()
}

fn texts(all: &[&str]) -> Vec<String> {
    all.iter().map(|s| s.to_string()).collect()
}

fn execute(program: &str, arguments: &[&str]) -> Effect {
    Effect::Execute { program: text(program), arguments: texts(arguments) }
}

fn write(path: &str, content: &str) -> Effect {
    Effect::Write { path: text(path), content: text(content) }
}

fn platform_info() -> Log {
    Log::info(text("Platform : 'Linux'"))
}

const STUB: &str = "section .text\n\tglobal _start\nextern main\n_start:\n\tcall main\n";

#[test]
fn module_names() {
    assert_eq!(module_of(&text("main.ju")), "main");
    assert_eq!(module_of(&text("dir/main.ju")), "dir/main");
    assert_eq!(module_of(&text("a.jub.ju.j")), "ab.j");
    assert_eq!(module_of(&text(".ju")), "");
    assert_eq!(module_of(&text("plain")), "plain");
    assert_eq!(module_of(&text("x.j")), "x.j");
    assert_eq!(module_of(&text("..juju")), ".ju");
}

#[test]
fn paths() {
    assert_eq!(assembly_file(&text("a.ju")), "build/a.ju.asm");
    assert_eq!(object_file(&text("a.ju")), "build/a.ju.o");
    assert_eq!(
        assemble(&text("in.asm"), text("out.o")),
        execute("nasm", &["in.asm", "-f", "elf64", "-o", "out.o"])
    );
    assert_eq!(copy_texts(&texts(&["a", "b"])), texts(&["a", "b"]));
}

#[test]
fn platforms_by_identifier() {
    assert_eq!(get_from_id(text("android")), Platform::Android);
    assert_eq!(get_from_id(text("ios")), Platform::IOS);
    assert_eq!(get_from_id(text("linux")), Platform::Linux);
    assert_eq!(get_from_id(text("macos")), Platform::MacOS);
    assert_eq!(get_from_id(text("windows")), Platform::Windows);
    assert_eq!(get_from_id(text("Linux")), Platform::Unknown(text("Linux")));
    assert_eq!(get_from_id(text("bsd")), Platform::Unknown(text("bsd")));
    assert_eq!(name_of(&Platform::MacOS), "MacOS");
    assert_eq!(name_of(&Platform::Unknown(text("bsd"))), "bsd");
    assert_eq!(Platform::IOS.clone(), Platform::IOS);
}

#[test]
fn platform_option_is_read_in_any_case() {
    let mut options = Options::new();
    assert_eq!(select_platform(&options, Platform::Windows), Platform::Windows);
    options.set('p', text("LiNuX"));
    assert_eq!(select_platform(&options, Platform::Windows), Platform::Linux);
    options.set('p', text("Plan9"));
    assert_eq!(select_platform(&options, Platform::Linux), Platform::Unknown(text("plan9")));
}

#[test]
fn logger_gathers() {
    let mut logger = Logger::new();
    assert!(!logger.has_error());
    assert_eq!(logger.len(), 0);
    logger.add_log(Log::info(text("a")));
    logger.add_log(Log::new(LogLevel::Warning, text("t"), text("m")));
    assert!(!logger.has_error());
    let mut other = Logger::new();
    other.add_log(Log::new(LogLevel::Error, text("e"), text("m")).add_hint(text("h")));
    logger.absorb(other);
    assert!(logger.has_error());
    assert_eq!(logger.len(), 3);
    assert_eq!(logger.clone(), logger);
    let logs = logger.logs();
    assert_eq!(logs[0].level(), LogLevel::Info);
    assert_eq!(logs[0].title(), "Info");
    assert_eq!(logs[0].message(), "a");
    assert_eq!(logs[0].hint(), &None);
    assert_eq!(logs[2].hint(), &Some(text("h")));
    assert_eq!(logs[2].clone(), logs[2]);
    assert_eq!(logger.into_logs().len(), 3);
}

#[test]
fn failure_as_a_diagnostic() {
    let log = Failure { line: 12, fault: Fault::UnknownType }.to_log(&text("a.ju"));
    assert_eq!(log, Log::new(LogLevel::Error, text("Unknown type"), text("a.ju: line 12")));
    let titles = [
        (Fault::ExpectedLiteral, "Expected a literal"),
        (Fault::MalformedDeclaration, "Malformed declaration"),
        (Fault::FrameTooLarge, "Frame too large"),
        (Fault::NoStackSlot, "No stack slot"),
    ];
    for (fault, title) in titles {
        assert_eq!(Failure { line: 0, fault }.to_log(&text("s")).title(), title);
    }
    assert_eq!(
        unreadable(&text("a.ju")),
        Log::new(
            LogLevel::Error,
            text("Unreadable file"),
            text("The given source file cannot be read: a.ju")
        )
        .add_hint(text("It's probably corrupted or it's not a text file"))
    );
}

#[test]
fn checkers_find_nothing() {
    let data = CheckerData {
        source: text("a.ju"),
        parsed: vec![vec![Token::Return]],
        logger: Logger::new(),
        line_i: 0,
        token_i: 0,
    };
    assert_eq!(run_checkers(data), Ok(()));
    let mut logger = Logger::new();
    logger.add_log(Log::new(LogLevel::Warning, text("t"), text("m")));
    let data = CheckerData {
        source: text("a.ju"),
        parsed: vec![],
        logger: logger.clone(),
        line_i: 0,
        token_i: 0,
    };
    assert_eq!(run_checkers(data), Err(logger.clone()));
    let data = CheckerData { source: text("a.ju"), parsed: vec![], logger: logger.clone(), line_i: 0, token_i: 0 };
    let mut checker = PassThrough::new(data);
    assert_eq!(checker.run(), Err(logger));
    assert_eq!(checker.data().line_i, 0);
}

#[test]
fn build_of_a_program() {
    let sources = texts(&["main.ju", "lib.ju"]);
    let mut c = run_compiler(&sources, &Options::new(), Platform::Linux).unwrap();
    assert_eq!(
        c.run(),
        Action::Read {
            effects: vec![
                write("build/_start.asm", STUB),
                execute("nasm", &["build/_start.asm", "-f", "elf64", "-o", "build/_start.asm.o"]),
            ],
            source: text("main.ju"),
        }
    );
    let action = c.resume(Some(text("static msg: str = \"hi\"\nfunc main\nret 0\n")));
    assert_eq!(
        action,
        Action::Read {
            effects: vec![
                write(
                    "build/main.ju.asm",
                    "section .text\n\tglobal main\nmain:\n\tpush rbp\n\tnop\n\tpop rbp\n\tmov rax, 0\n\tret\nsection .data\nmsg: db `hi`, 0\n"
                ),
                execute("nasm", &["build/main.ju.asm", "-f", "elf64", "-o", "build/main.ju.o"]),
            ],
            source: text("lib.ju"),
        }
    );
    assert_eq!(c.data().current_scope, vec!["main", "main"]);
    let action = c.resume(Some(text("variable x: int = 1\n")));
    assert_eq!(c.data().current_scope, vec!["lib"]);
    assert_eq!(c.data().i_variable_stack, 4);
    assert_eq!(
        action,
        Action::Finish {
            effects: vec![
                write(
                    "build/lib.ju.asm",
                    "section .text\n\tmov [rbp - 4], dword 1 ; x\nsection .data\n"
                ),
                execute("nasm", &["build/lib.ju.asm", "-f", "elf64", "-o", "build/lib.ju.o"]),
                Effect::Report { logs: vec![platform_info()] },
                execute(
                    "ld",
                    &["-o", "a.out", "build/_start.asm.o", "build/main.ju.o", "build/lib.ju.o"]
                ),
            ],
            status: 0,
        }
    );
    assert_eq!(c.resume(Some(text(""))), Action::Finish { effects: vec![], status: 1 });
    c.finish();
}

#[test]
fn each_file_starts_afresh() {
    let sources = texts(&["a.ju", "b.ju"]);
    let mut c = run_compiler(&sources, &Options::new(), Platform::Linux).unwrap();
    c.run();
    c.resume(Some(text("variable x: bigint = 1\nfunc f\n")));
    assert_eq!(c.data().i_variable_stack, 8);
    assert_eq!(c.init_one(&text("b.ju"), text("ret\n")), Ok(()));
    assert_eq!(c.data().i_variable_stack, 0);
    assert!(c.data().variable_stack.get(&text("x")).is_none());
    assert!(c.data().functions.is_empty());
    assert_eq!(c.data().current_scope, vec!["b"]);
    assert_eq!(c.data().current_source, "build/b.ju.asm");
    assert_eq!(c.data().parser.as_ref().unwrap().parsed(), &vec![vec![Token::Return]]);
}

#[test]
fn build_of_a_library() {
    let mut options = Options::new();
    options.set('l', text(""));
    options.set('o', text("libx.so"));
    let mut c = run_compiler(&texts(&["x.ju"]), &options, Platform::Linux).unwrap();
    assert!(c.data().is_library);
    assert_eq!(c.init(), vec![]);
    assert_eq!(c.run(), Action::Read { effects: vec![], source: text("x.ju") });
    assert_eq!(c.link(), execute("ld", &["-o", "libx.so", "-shared", "build/x.ju.o"]));
    let action = c.resume(Some(text("func f\nret\n")));
    match action {
        Action::Finish { effects, status } => {
            assert_eq!(status, 0);
            assert_eq!(effects.len(), 4);
            assert_eq!(
                effects[2],
                Effect::Report { logs: vec![Log::info(text("Library building")), platform_info()] }
            );
            assert_eq!(effects[3], execute("ld", &["-o", "libx.so", "-shared", "build/x.ju.o"]));
        }
        other => panic!("{:?}", other),
    }
}

#[test]
fn build_without_sources() {
    let mut c = run_compiler(&vec![], &Options::new(), Platform::Linux).unwrap();
    assert_eq!(
        c.run(),
        Action::Finish {
            effects: vec![
                write("build/_start.asm", STUB),
                execute("nasm", &["build/_start.asm", "-f", "elf64", "-o", "build/_start.asm.o"]),
                Effect::Report { logs: vec![platform_info()] },
                execute("ld", &["-o", "a.out", "build/_start.asm.o"]),
            ],
            status: 0,
        }
    );
}

#[test]
fn unreadable_source_ends_the_build() {
    let mut c = run_compiler(&texts(&["gone.ju", "b.ju"]), &Options::new(), Platform::Linux)
        .unwrap();
    c.run();
    assert_eq!(
        c.resume(None),
        Action::Finish {
            effects: vec![Effect::Report { logs: vec![platform_info(), unreadable(&text("gone.ju"))] }],
            status: 1,
        }
    );
}

#[test]
fn fault_ends_the_build() {
    let mut c = run_compiler(&texts(&["a.ju", "b.ju"]), &Options::new(), Platform::Linux).unwrap();
    c.run();
    let action = c.resume(Some(text("ret 0\nstatic x\n")));
    assert_eq!(
        action,
        Action::Finish {
            effects: vec![Effect::Report {
                logs: vec![
                    platform_info(),
                    Log::new(
                        LogLevel::Error,
                        text("Malformed declaration"),
                        text("a.ju: line 1")
                    ),
                ],
            }],
            status: 1,
        }
    );
}

#[test]
fn error_of_the_checking_pass_skips_the_file_and_the_linking() {
    let mut c = run_compiler(&texts(&["a.ju", "b.ju"]), &Options::new(), Platform::Linux).unwrap();
    c.run();
    assert_eq!(c.init_one(&text("a.ju"), text("func main\n")), Ok(()));
    let mut found = Logger::new();
    let error = Log::new(LogLevel::Error, text("Bad"), text("line"));
    found.add_log(error.clone());
    let action = c.proceed(&text("a.ju"), Err(found));
    assert_eq!(action, Action::Read { effects: vec![], source: text("b.ju") });
    assert!(c.data().section_text.is_empty());
    let action = c.resume(Some(text("ret\n")));
    match action {
        Action::Finish { effects, status } => {
            assert_eq!(status, 1);
            assert_eq!(effects.len(), 3);
            assert_eq!(effects[2], Effect::Report { logs: vec![platform_info(), error] });
        }
        other => panic!("{:?}", other),
    }
}

#[test]
fn warning_of_the_checking_pass_lets_the_file_through() {
    let mut c = run_compiler(&texts(&["a.ju"]), &Options::new(), Platform::Linux).unwrap();
    c.run();
    assert_eq!(c.init_one(&text("a.ju"), text("ret 2\n")), Ok(()));
    let mut found = Logger::new();
    let warning = Log::new(LogLevel::Warning, text("Odd"), text("line"));
    found.add_log(warning.clone());
    let action = c.proceed(&text("a.ju"), Err(found));
    match action {
        Action::Finish { effects, status } => {
            assert_eq!(status, 0);
            assert_eq!(effects.len(), 4);
            assert_eq!(effects[2], Effect::Report { logs: vec![platform_info(), warning] });
            assert_eq!(effects[3], execute("ld", &["-o", "a.out", "build/_start.asm.o", "build/a.ju.o"]));
        }
        other => panic!("{:?}", other),
    }
}

#[test]
fn steps_one_by_one() {
    let mut c = LinuxCompiler::new(CompilerData::new(texts(&["a.ju"]), Options::new(), true));
    c.pass();
    assert_eq!(c.data().next_source, 1);
    c.pass();
    assert_eq!(c.data().next_source, 1);
    let action = c.next_step(vec![write("p", "c")]);
    assert_eq!(
        action,
        Action::Finish {
            effects: vec![
                write("p", "c"),
                Effect::Report { logs: vec![] },
                execute("ld", &["-o", "a.out", "-shared", "build/a.ju.o"]),
            ],
            status: 0,
        }
    );
}

#[test]
fn invalid_platform() {
    let mut options = Options::new();
    options.set('p', text("Plan9"));
    options.set('l', text(""));
    let logger = run_compiler(&texts(&["a.ju"]), &options, Platform::Linux).unwrap_err();
    assert!(logger.has_error());
    assert_eq!(
        logger.into_logs(),
        vec![
            Log::info(text("Library building")),
            Log::new(
                LogLevel::Error,
                text("Invalid platform"),
                text("Platform 'plan9' is not compatible with the current version of 'juc'")
            )
            .add_hint(text("Available platforms : Android, IOS, Linux, MacOS, Windows")),
        ]
    );
}

#[test]
fn platform_without_a_backend() {
    for (platform, name) in [
        (Platform::Android, "Android"),
        (Platform::IOS, "IOS"),
        (Platform::MacOS, "MacOS"),
        (Platform::Windows, "Windows"),
    ] {
        let logger = start(&texts(&["a.ju"]), &Options::new(), platform).unwrap_err();
        assert_eq!(
            logger.into_logs(),
            vec![Log::new(
                LogLevel::Error,
                text("Unsupported platform"),
                format!("No compiler exists for platform '{}'", name)
            )
            .add_hint(text("Available platforms : Android, IOS, Linux, MacOS, Windows"))]
        );
    }
}

#[test]
fn host_platform_is_the_default() {
    assert!(run_compiler(&vec![], &Options::new(), Platform::Windows).is_err());
    let mut options = Options::new();
    options.set('p', text("linux"));
    let mut c = run_compiler(&texts(&["a.ju"]), &options, Platform::Windows).unwrap();
    assert!(!c.data().is_library);
    assert_eq!(c.data().sources, texts(&["a.ju"]));
    assert_eq!(c.data().logger.len(), 1);
    assert_eq!(c.data().next_source, 0);
}

fn missing(source: &str) -> Log {
    Log::new(
        LogLevel::Error,
        text("Source file does not exist"),
        format!("The given source file '{}' cannot be found in the current directory", source),
    )
}

#[test]
fn missing_sources_are_found() {
    let sources = texts(&["a.ju", "b.ju", "c.ju"]);
    assert_eq!(check_sources(&sources, &vec![true, true, true]).len(), 0);
    assert_eq!(
        check_sources(&sources, &vec![false, true, false]).into_logs(),
        vec![missing("a.ju"), missing("c.ju")]
    );
    assert_eq!(check_sources(&sources, &vec![true, true]).into_logs(), vec![missing("c.ju")]);
    assert!(check_sources(&sources, &vec![true, false, true]).has_error());
}

#[test]
fn missing_source_ends_the_build_before_any_tool_runs() {
    let sources = texts(&["a.ju", "gone.ju"]);
    let (compiler, action) = begin(&sources, &Options::new(), Platform::Linux, &vec![true, false]);
    assert!(compiler.is_none());
    assert_eq!(
        action,
        Action::Finish { effects: vec![Effect::Report { logs: vec![missing("gone.ju")] }], status: 1 }
    );
}

#[test]
fn build_begins_with_the_stub() {
    let sources = texts(&["a.ju"]);
    let (compiler, action) = begin(&sources, &Options::new(), Platform::Linux, &vec![true]);
    assert!(compiler.is_some());
    assert_eq!(
        action,
        Action::Read {
            effects: vec![
                write("build/_start.asm", STUB),
                execute("nasm", &["build/_start.asm", "-f", "elf64", "-o", "build/_start.asm.o"]),
            ],
            source: text("a.ju"),
        }
    );
}

#[test]
fn build_for_no_backend_does_not_begin() {
    let sources = texts(&["a.ju"]);
    let (compiler, action) = begin(&sources, &Options::new(), Platform::MacOS, &vec![true]);
    assert!(compiler.is_none());
    match action {
        Action::Finish { effects, status } => {
            assert_eq!(status, 1);
            assert_eq!(effects.len(), 1);
        }
        other => panic!("{:?}", other),
    }
    let mut logger = Logger::new();
    logger.add_log(Log::info(text("x")));
    assert_eq!(
        refusal(logger),
        Action::Finish { effects: vec![Effect::Report { logs: vec![Log::info(text("x"))] }], status: 1 }
    );
}

#[test]
fn pass_through_looks_and_finds_nothing() {
    let mut logger = Logger::new();
    logger.add_log(Log::new(LogLevel::Warning, text("t"), text("m")));
    let data = CheckerData {
        source: text("a.ju"),
        parsed: vec![vec![Token::Function, Token::RawString(text("main"))], vec![], vec![Token::Return]],
        logger: logger.clone(),
        line_i: 0,
        token_i: 0,
    };
    let mut checker = PassThrough::new(data);
    checker.init();
    checker.check();
    assert_eq!(checker.data().logger, logger);
    assert_eq!(checker.data().parsed.len(), 3);
    assert_eq!(checker.data().line_i, 0);
    assert_eq!(checker.data().token_i, 0);
    let line = vec![Token::Return, Token::Comma];
    let mut break_line = false;
    let mut previous = Token::Return;
    checker.check_for_instruction(&line, &mut break_line, &line[1], &mut previous);
    assert!(!break_line);
    assert_eq!(previous, Token::Return);
    let mut break_line = true;
    checker.check_for_instruction(&line, &mut break_line, &line[0], &mut previous);
    assert!(break_line);
    assert_eq!(checker.data().logger, logger);
    assert_eq!(checker.finish(), Err(logger));
}
