use luau::ast::{Mode, ParseOptions, Position, Span};
use luau::compiler::{
    compile, compile_sneakily, decode, error_from_raw, CompileError, CompileOptions,
    CompileResult, CoverageLevel, DebugLevel, Error, OptimizationLevel, RawError,
};
use luau::vm::Luau;

fn raw(message: &str, span: [u32; 4]) -> RawError {
    RawError {
        message: String::from(message),
        start_line: span[0],
        start_column: span[1],
        end_line: span[2],
        end_column: span[3],
    }
}

#[test]
fn parse_options_default_and_setters() {
    let mut options = ParseOptions::default();
    assert!(options.allow_type_annotations());
    assert!(options.support_continue_statement());
    assert!(!options.allow_declaration_syntax());
    assert!(!options.capture_comments());
    options.set_allow_type_annotations(false).set_capture_comments(true);
    assert!(!options.allow_type_annotations());
    assert!(options.support_continue_statement());
    assert!(!options.allow_declaration_syntax());
    assert!(options.capture_comments());
    options.set_support_continue_statement(false).set_allow_declaration_syntax(true);
    assert!(!options.support_continue_statement());
    assert!(options.allow_declaration_syntax());
    assert_ne!(Mode::Strict, Mode::Nonstrict);
}

#[test]
fn compile_options_default_and_setters() {
    let options = CompileOptions::default();
    assert_eq!(options.opt_level(), OptimizationLevel::Basic);
    assert_eq!(options.debug_level(), DebugLevel::Traceback);
    assert_eq!(options.coverage_level(), CoverageLevel::Off);
    let mut options =
        CompileOptions::new(OptimizationLevel::Full, DebugLevel::Off, CoverageLevel::Expression);
    assert_eq!(options.opt_level(), OptimizationLevel::Full);
    assert_eq!(options.debug_level(), DebugLevel::Off);
    assert_eq!(options.coverage_level(), CoverageLevel::Expression);
    options.set_opt_level(OptimizationLevel::Off).set_debug_level(DebugLevel::Full);
    options.set_coverage_level(CoverageLevel::Statement);
    assert_eq!(options.opt_level(), OptimizationLevel::Off);
    assert_eq!(options.debug_level(), DebugLevel::Full);
    assert_eq!(options.coverage_level(), CoverageLevel::Statement);
}

#[test]
fn positions_and_spans_as_text() {
    assert_eq!(Position { line: 3, column: 14 }.to_string(), "(3,14)");
    assert_eq!(Position { line: 0, column: 0 }.to_string(), "(0,0)");
    assert_eq!(
        Position { line: u32::MAX, column: 1000 }.to_string(),
        "(4294967295,1000)"
    );
    let span = Span::new(1, 0, 2, 5);
    assert_eq!(span, Span(Position { line: 1, column: 0 }, Position { line: 2, column: 5 }));
    assert_eq!(span.to_string(), "(1,0)..(2,5)");
}

#[test]
fn diagnostics_as_text() {
    let error = Error { message: String::from("expected identifier"), span: Span::new(0, 5, 2, 0) };
    assert_eq!(error.to_string(), "(0,5)..(2,0): expected identifier");
    assert_eq!(CompileError::Compile(error.clone()).to_string(), "(0,5)..(2,0): expected identifier");
    assert_eq!(CompileError::Parse(vec![error]).to_string(), "parse error");
}

#[test]
fn a_reported_diagnostic_keeps_message_and_span() {
    let error = error_from_raw(raw("boom", [1, 2, 3, 4]));
    assert_eq!(error.message, "boom");
    assert_eq!(error.span, Span::new(1, 2, 3, 4));
}

#[test]
fn bytecode_is_taken_as_it_is() {
    let compiled = decode(CompileResult::Success(vec![3, 1, 4, 1, 5])).unwrap();
    assert_eq!(compiled.as_ref(), &[3, 1, 4, 1, 5]);
    let empty = decode(CompileResult::Success(Vec::new())).unwrap();
    assert_eq!(empty.as_ref(), &[] as &[u8]);
}

#[test]
fn an_incomplete_local_statement_is_a_parse_error() {
    let source = "local\nprint(x)";
    let compile_opts = CompileOptions::default();
    let parse_opts = ParseOptions::default();
    let result = compile(source, &compile_opts, &parse_opts, |text, _, _| {
        assert_eq!(text, "local\nprint(x)");
        CompileResult::ParseFailure(vec![
            raw("Expected identifier when parsing variable name, got 'print'", [1, 0, 1, 5]),
            raw("second", [1, 6, 1, 7]),
        ])
    });
    match result {
        Err(CompileError::Parse(errors)) => {
            assert_eq!(errors.len(), 2);
            assert_eq!(
                errors[0].message,
                "Expected identifier when parsing variable name, got 'print'"
            );
            assert_eq!(errors[0].span, Span::new(1, 0, 1, 5));
            assert_eq!(errors[1].message, "second");
            assert_eq!(errors[1].span, Span::new(1, 6, 1, 7));
        }
        other => panic!("{:?}", other),
    }
}

#[test]
fn a_compile_failure_has_one_diagnostic() {
    let result = decode(CompileResult::CompileFailure(raw("too many locals", [7, 1, 7, 9])));
    match result {
        Err(CompileError::Compile(error)) => {
            assert_eq!(error.message, "too many locals");
            assert_eq!(error.span, Span::new(7, 1, 7, 9));
        }
        other => panic!("{:?}", other),
    }
    assert!(matches!(
        decode(CompileResult::ParseFailure(Vec::new())),
        Err(CompileError::Parse(errors)) if errors.is_empty()
    ));
}

#[test]
fn the_vm_compiles_with_default_options() {
    let compiled = Luau::compile("return ...", |source, compile_opts, parse_opts| {
        assert_eq!(source, "return ...");
        assert_eq!(compile_opts.opt_level(), OptimizationLevel::Basic);
        assert_eq!(compile_opts.debug_level(), DebugLevel::Traceback);
        assert_eq!(compile_opts.coverage_level(), CoverageLevel::Off);
        assert!(parse_opts.allow_type_annotations());
        assert!(!parse_opts.capture_comments());
        CompileResult::Success(vec![9, 9])
    })
    .unwrap();
    assert_eq!(compiled.as_ref(), &[9, 9]);
    let sneaky = Luau::compile_sneakily("local", |_, compile_opts, _| {
        assert_eq!(compile_opts.opt_level(), OptimizationLevel::Basic);
        vec![0, b'e', b'r', b'r']
    });
    assert_eq!(sneaky.as_ref(), &[0, b'e', b'r', b'r']);
    let options = CompileOptions::new(OptimizationLevel::Full, DebugLevel::Full, CoverageLevel::Off);
    let direct = compile_sneakily("x", &options, &ParseOptions::default(), |_, compile_opts, _| {
        assert_eq!(compile_opts.opt_level(), OptimizationLevel::Full);
        vec![1]
    });
    assert_eq!(direct.as_ref(), &[1]);
}

#[test]
fn compiling_twice_with_one_compiler_gives_one_bytecode() {
    let compiler = |source: &str, _: &CompileOptions, _: &ParseOptions| {
        CompileResult::Success(source.bytes().rev().collect())
    };
    let options = CompileOptions::default();
    let parse = ParseOptions::default();
    let first = compile("print('Hello, World!')", &options, &parse, compiler).unwrap();
    let second = compile("print('Hello, World!')", &options, &parse, compiler).unwrap();
    assert_eq!(first.as_ref(), second.as_ref());
}
