use luau::compiler::{CompileError, Error};
use luau::native::LuaStatus;
use luau::vm::error::{protect, settle, LError, LResult, LStatus, LoadError, NativeResult};
use luau::vm::raw::registry::Registry;
use luau::vm::raw::stack::RawStack;
use luau::vm::raw::string::RawString;
use luau::vm::raw::table::RawTable;
use luau::vm::raw::thread::RawThread;
use luau::vm::raw::value::RawValue;
use luau::vm::value::string::LString;

fn frame(size: usize) -> RawStack {
    RawStack::for_thread(RawThread::from(0x1000).unwrap(), 0x2000, size, 0).unwrap()
}

fn text(addr: usize) -> RawValue {
    RawValue::new_string(RawString::from(addr).unwrap())
}

fn table(addr: usize) -> RawValue {
    RawValue::new_table(RawTable::from(addr).unwrap())
}

#[test]
fn a_status_and_an_output_make_a_result() {
    assert_eq!(settle(LuaStatus::Success, Some(5)), Ok(5));
    assert_eq!(settle(LuaStatus::Success, None::<u8>), Err(LuaStatus::ErrErr));
    assert_eq!(settle(LuaStatus::ErrRun, Some(5)), Err(LuaStatus::ErrRun));
    assert_eq!(settle(LuaStatus::Yield, None::<u8>), Err(LuaStatus::Yield));
    assert_eq!(protect(|| (LuaStatus::Success, Some("out"))), Ok("out"));
    assert_eq!(protect(|| (LuaStatus::ErrMem, None::<u8>)), Err(LuaStatus::ErrMem));
    assert_eq!(protect(|| (LuaStatus::Break, Some(1))), Err(LuaStatus::Break));
}

#[test]
fn a_runtime_error_carries_its_message() {
    let mut stack = frame(1);
    let mut registry = Registry::new(4);
    let error = LError::classify(&mut stack, &mut registry, true, LuaStatus::ErrRun, Some(text(0x10)));
    match error {
        LError::Runtime(message) => {
            assert_eq!(message.inner().raw().ptr(), 0x10);
            assert_eq!(message.anchor().handle(), 1);
            assert_eq!(message.anchor().get(&registry), text(0x10));
        }
        other => panic!("{:?}", other),
    }
    assert_eq!(stack.used(), 0);
}

#[test]
fn a_syntax_error_carries_its_message() {
    let mut stack = frame(1);
    let mut registry = Registry::new(4);
    let error =
        LError::classify(&mut stack, &mut registry, true, LuaStatus::ErrSyntax, Some(text(0x10)));
    match error {
        LError::Syntax(message) => assert_eq!(message.inner().raw().ptr(), 0x10),
        other => panic!("{:?}", other),
    }
    assert!(registry.is_live(1));
}

#[test]
fn memory_and_double_faults_carry_nothing() {
    let mut stack = frame(1);
    let mut registry = Registry::new(4);
    for proper in [false, true] {
        let error =
            LError::classify(&mut stack, &mut registry, proper, LuaStatus::ErrMem, Some(text(0x10)));
        assert!(matches!(error, LError::OutOfMemory));
        let error =
            LError::classify(&mut stack, &mut registry, proper, LuaStatus::ErrErr, Some(text(0x10)));
        assert!(matches!(error, LError::DoubleError));
    }
    assert!(!registry.is_live(1));
    assert_eq!(stack.used(), 0);
}

#[test]
fn a_malformed_message_degrades_to_a_double_fault() {
    let mut stack = frame(1);
    let mut registry = Registry::new(4);
    for status in [LuaStatus::ErrRun, LuaStatus::ErrSyntax, LuaStatus::ErrMem, LuaStatus::ErrErr] {
        for message in [None, Some(table(0x20)), Some(RawValue::new_nil())] {
            let error = LError::classify(&mut stack, &mut registry, true, status, message);
            assert!(matches!(error, LError::DoubleError));
        }
    }
    // A message that nobody asked for is not looked at.
    let error = LError::classify(&mut stack, &mut registry, false, LuaStatus::ErrRun, Some(text(0x10)));
    assert!(matches!(error, LError::DoubleError));
    // Statuses that are no failures have no error of their own.
    for status in [LuaStatus::Success, LuaStatus::Yield, LuaStatus::Break] {
        let error = LError::classify(&mut stack, &mut registry, true, status, Some(text(0x10)));
        assert!(matches!(error, LError::DoubleError));
    }
    assert!(!registry.is_live(1));
}

#[test]
fn a_message_that_cannot_be_anchored_is_a_double_fault() {
    let mut full = Registry::new(0);
    let mut stack = frame(1);
    let error = LError::classify(&mut stack, &mut full, true, LuaStatus::ErrRun, Some(text(0x10)));
    assert!(matches!(error, LError::DoubleError));
    let mut registry = Registry::new(4);
    let mut none = frame(0);
    let error = LError::classify(&mut none, &mut registry, true, LuaStatus::ErrRun, Some(text(0x10)));
    assert!(matches!(error, LError::DoubleError));
    assert!(!registry.is_live(1));
}

#[test]
fn capture_pops_the_message_off_the_stack() {
    let mut stack = frame(2);
    let mut registry = Registry::new(4);
    stack.push_many([RawValue::new_boolean(true), text(0x10)]).unwrap();
    let error = LError::capture(&mut stack, &mut registry, true, LuaStatus::ErrRun);
    assert!(matches!(error, LError::Runtime(_)));
    assert_eq!(stack.used_slice(), &[RawValue::new_boolean(true)]);

    // Out of memory: the message is popped and dropped.
    stack.push(text(0x20)).unwrap();
    let error = LError::capture(&mut stack, &mut registry, false, LuaStatus::ErrMem);
    assert!(matches!(error, LError::OutOfMemory));
    assert_eq!(stack.used(), 1);

    // Not expected: nothing is popped.
    let error = LError::capture(&mut stack, &mut registry, false, LuaStatus::ErrRun);
    assert!(matches!(error, LError::DoubleError));
    assert_eq!(stack.used(), 1);

    // Expected, but what is on top is no string: popped all the same.
    let error = LError::capture(&mut stack, &mut registry, true, LuaStatus::ErrRun);
    assert!(matches!(error, LError::DoubleError));
    assert_eq!(stack.used(), 0);

    // Expected, but nothing is there.
    let error = LError::capture(&mut stack, &mut registry, true, LuaStatus::ErrSyntax);
    assert!(matches!(error, LError::DoubleError));
}

#[test]
fn protect_runs_the_routine_on_the_stack() {
    let mut stack = frame(2);
    let mut registry = Registry::new(4);
    let done: LResult<u8> =
        LError::protect(&mut stack, &mut registry, true, |_| (LuaStatus::Success, Some(9)));
    assert!(matches!(done, Ok(9)));
    let failed: LResult<u8> = LError::protect(&mut stack, &mut registry, true, |stack| {
        stack.push(text(0x10)).unwrap();
        (LuaStatus::ErrRun, None)
    });
    match failed {
        Err(LError::Runtime(message)) => assert_eq!(message.inner().raw().ptr(), 0x10),
        other => panic!("{:?}", other),
    }
    assert_eq!(stack.used(), 0);
    let yielded: LResult<u8> =
        LError::protect(&mut stack, &mut registry, true, |_| (LuaStatus::Yield, None));
    assert!(matches!(yielded, Err(LError::DoubleError)));
}

#[test]
fn yield_and_break_are_no_failures() {
    let mut stack = frame(2);
    let mut registry = Registry::new(4);
    let done = LStatus::protect(&mut stack, &mut registry, true, |_| (LuaStatus::Success, Some(1)));
    assert!(matches!(done, LStatus::Done(1)));
    let yielded: LStatus<u8> =
        LStatus::protect(&mut stack, &mut registry, true, |_| (LuaStatus::Yield, None));
    assert!(matches!(yielded, LStatus::Yield));
    let broke: LStatus<u8> =
        LStatus::protect(&mut stack, &mut registry, true, |_| (LuaStatus::Break, None));
    assert!(matches!(broke, LStatus::Break));
    let failed: LStatus<u8> =
        LStatus::protect(&mut stack, &mut registry, false, |_| (LuaStatus::ErrErr, None));
    assert!(matches!(failed, LStatus::Failed(LError::DoubleError)));
    let silent: LStatus<u8> =
        LStatus::protect(&mut stack, &mut registry, false, |_| (LuaStatus::Success, None));
    assert!(matches!(silent, LStatus::Failed(LError::DoubleError)));
}

#[test]
fn a_reported_result_is_settled_with_what_was_raised() {
    let mut stack = frame(1);
    let mut registry = Registry::new(4);
    let made = NativeResult { status: LuaStatus::Success, output: Some(7u8), raised: None };
    assert!(matches!(LError::settle(&mut stack, &mut registry, false, made), Ok(7)));
    let failed =
        NativeResult { status: LuaStatus::ErrMem, output: None::<u8>, raised: Some(text(0x10)) };
    assert!(matches!(
        LError::settle(&mut stack, &mut registry, false, failed),
        Err(LError::OutOfMemory)
    ));
    let raised =
        NativeResult { status: LuaStatus::ErrRun, output: Some(1u8), raised: Some(text(0x10)) };
    assert!(matches!(
        LError::settle(&mut stack, &mut registry, true, raised),
        Err(LError::Runtime(_))
    ));
    let created = NativeResult {
        status: LuaStatus::Success,
        output: Some(LString::from_raw(RawString::from(0x30).unwrap())),
        raised: None,
    };
    let string = LString::new(&mut stack, &mut registry, created).unwrap();
    assert_eq!(string.raw().ptr(), 0x30);
    assert_eq!(stack.used(), 0);
}

#[test]
fn load_errors_wrap_their_cause() {
    let compile = CompileError::Parse(Vec::new());
    assert!(matches!(LoadError::from(compile), LoadError::CompileError(CompileError::Parse(_))));
    assert!(matches!(
        LoadError::from(LError::OutOfMemory),
        LoadError::LoadError(LError::OutOfMemory)
    ));
    let diagnostic = Error { message: String::from("m"), span: luau::ast::Span::new(1, 2, 3, 4) };
    assert!(matches!(
        LoadError::from(CompileError::Compile(diagnostic)),
        LoadError::CompileError(CompileError::Compile(_))
    ));
}
