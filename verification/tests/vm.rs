use luau::compiler::CompileResult;
use luau::native::{LuaStatus, TValue};
use luau::vm::call::{begin, finish, CallOutcome};
use luau::vm::data::{Data, GlobalData, ThreadData};
use luau::vm::error::{LError, LStatus, NativeResult};
use luau::vm::raw::closure::RawClosure;
use luau::vm::raw::registry::Registry;
use luau::vm::raw::stack::RawStack;
use luau::vm::raw::state::LuaState;
use luau::vm::raw::string::RawString;
use luau::vm::raw::table::RawTable;
use luau::vm::raw::thread::RawThread;
use luau::vm::raw::userdata::RawUserdata;
use luau::vm::raw::buffer::RawBuffer;
use luau::vm::raw::value::{RawValue, RawValueTag};
use luau::vm::raw::RawGlobal;
use luau::vm::value::buffer::Buffer;
use luau::vm::value::closure::Closure;
use luau::vm::value::dynamic::Dynamic;
use luau::vm::value::stack::StackValue;
use luau::vm::value::string::LString;
use luau::vm::value::table::Table;
use luau::vm::value::thread::Thread;
use luau::vm::value::userdata::Userdata;
use luau::vm::value::LuauValue;
use luau::vm::{Luau, NativeState};

const MAIN: usize = 0x1000;
const CHILD: usize = 0x3000;

fn frame_of(thread: usize, base: usize, size: usize) -> RawStack {
    RawStack::for_thread(RawThread::from(thread).unwrap(), base, size, 0).unwrap()
}

fn native(size: usize, registry_limit: usize) -> Option<NativeState> {
    Some(NativeState {
        global: RawGlobal::from(0x8000).unwrap(),
        main: frame_of(MAIN, 0x10000, size),
        registry_limit,
    })
}

fn vm(size: usize, registry_limit: usize) -> Luau<()> {
    Luau::builder().no_data(native(size, registry_limit)).unwrap().no_libs().no_setup()
}

fn made<T>(value: T) -> NativeResult<T> {
    NativeResult { status: LuaStatus::Success, output: Some(value), raised: None }
}

fn failed<T>(status: LuaStatus, raised: Option<RawValue>) -> NativeResult<T> {
    NativeResult { status, output: None, raised }
}

fn string(addr: usize) -> LString {
    LString::from_raw(RawString::from(addr).unwrap())
}

fn text(addr: usize) -> RawValue {
    RawValue::new_string(RawString::from(addr).unwrap())
}

fn closure(addr: usize) -> Closure {
    Closure::from_raw(RawClosure::from(addr).unwrap())
}

fn used(vm: &Luau<()>, thread: &Thread) -> usize {
    vm.stack_of(thread).used()
}

fn argument(vm: &mut Luau<()>, thread: &Thread, addr: usize) -> LuauValue<Dynamic> {
    vm.hold(thread, Dynamic::from_raw(text(addr))).unwrap()
}

#[derive(Debug, PartialEq)]
struct Depth(u32);

impl ThreadData for Depth {
    fn derive(parent: &Thread, data: &Self) -> Data<Self> {
        assert_ne!(parent.raw().ptr(), 0);
        Box::new(Depth(data.0 + 1))
    }
}

#[derive(Debug, PartialEq)]
struct Name(&'static str);

impl GlobalData for Name {
    type ThreadData = Depth;
}

#[test]
fn a_vm_needs_the_host_to_make_one() {
    assert!(Luau::<()>::new(Box::new(()), Box::new(()), None).is_none());
    assert!(Luau::builder().no_data(None).is_none());
    assert!(Luau::builder().data(Box::new(Name("vm")), Box::new(Depth(0)), None).is_none());
}

#[test]
fn a_new_vm_has_its_main_thread_and_an_empty_registry() {
    let vm = Luau::<()>::new(Box::new(()), Box::new(()), native(8, 16)).unwrap();
    let main = vm.main_thread();
    assert_eq!(main.raw().ptr(), MAIN);
    assert_eq!(vm.global().ptr(), 0x8000);
    assert!(vm.contains(main.raw()));
    assert!(!vm.contains(RawThread::from(CHILD).unwrap()));
    assert_eq!(vm.find(main.raw()), Some(0));
    assert_eq!(vm.find(RawThread::from(CHILD).unwrap()), None);
    assert_eq!(vm.stack_of(&main).len(), 8);
    assert_eq!(used(&vm, &main), 0);
    assert!(!vm.registry().is_live(1));
    assert!(!vm.registry().is_full());
    assert_eq!(vm.data(), &Box::new(()));
    let closed = vm.close();
    assert_eq!(closed.len(), 1);
    assert_eq!(closed[0].ptr(), RawThread::from(MAIN).unwrap());
    assert_eq!(closed[0].userdata, None);
    assert_eq!(closed[0].stack.len(), 8);
}

#[test]
fn the_builder_opens_libraries_and_runs_the_setup() {
    let mut seen = None;
    let vm = Luau::builder()
        .data(Box::new(Name("vm")), Box::new(Depth(0)), native(8, 16))
        .unwrap()
        .all_libs()
        .setup(|vm| {
            seen = Some(vm.main_thread().raw().ptr());
            let main = vm.main_thread();
            let held = vm.hold(&main, string(0x10)).unwrap();
            assert_eq!(held.anchor().handle(), 1);
        });
    assert_eq!(seen, Some(MAIN));
    assert_eq!(vm.data(), &Box::new(Name("vm")));
    assert_eq!(vm.registry().get(1), text(0x10));
}

#[test]
fn the_userthread_hook_derives_and_drops_data() {
    let global = RawGlobal::from(0x8000).unwrap();
    let parent = LuaState {
        global,
        stack: frame_of(MAIN, 0x10000, 4),
        userdata: Some(Box::new(Depth(4))),
        sandboxed: false,
    };
    let mut child: LuaState<Depth> =
        LuaState { global, stack: frame_of(CHILD, 0x20000, 4), userdata: None, sandboxed: false };
    Luau::<Name>::userthread(Some(&parent), &mut child);
    assert_eq!(child.userdata, Some(Box::new(Depth(5))));
    assert_eq!(child.ptr().ptr(), CHILD);
    assert_eq!(child.global(), global);
    Luau::<Name>::userthread(None, &mut child);
    assert_eq!(child.userdata, None);
    child.set_userdata(Box::new(Depth(9)));
    assert_eq!(child.get_userdata(), Some(Box::new(Depth(9))));
    assert_eq!(child.get_userdata(), None);
}

#[test]
fn thread_state_pushes_and_pops_native_cells() {
    let mut state: LuaState<()> = LuaState {
        global: RawGlobal::from(0x8000).unwrap(),
        stack: RawStack::for_thread(RawThread::from(MAIN).unwrap(), 0x10000, 1, 4).unwrap(),
        userdata: None,
        sandboxed: false,
    };
    assert_eq!(state.push(TValue { value: 0, extra: 0, tt: 6 }), None);
    assert_eq!(state.push(TValue { value: 0x42, extra: 0, tt: 5 }), Some(0x10000));
    assert_eq!(state.stack.marked(), 0);
    assert_eq!(state.push(TValue { value: 1, extra: 0, tt: 1 }), None);
    assert_eq!(state.pop(), Some(TValue { value: 0x42, extra: 0, tt: 5 }));
    assert_eq!(state.pop(), None);
    state.stack.set_marked(7);
    state.threadbarrier();
    assert_eq!(state.stack.marked(), 3);
}

#[test]
fn constructors_anchor_what_the_host_made() {
    let mut vm = vm(4, 16);
    let main = vm.main_thread();
    let s = main.new_string(&mut vm, made(string(0x10))).unwrap();
    let t = main.new_table(&mut vm, made(Table::from_raw(RawTable::from(0x20).unwrap()))).unwrap();
    let b = main.new_buffer(&mut vm, made(Buffer::from_raw(RawBuffer::from(0x30).unwrap()))).unwrap();
    let u = main
        .new_userdata(&mut vm, made(Userdata::from_raw(RawUserdata::from(0x40).unwrap())))
        .unwrap();
    let c = main.new_closure(&mut vm, made(closure(0x50))).unwrap();
    assert_eq!(
        [
            s.anchor().handle(),
            t.anchor().handle(),
            b.anchor().handle(),
            u.anchor().handle(),
            c.anchor().handle()
        ],
        [1, 2, 3, 4, 5]
    );
    assert_eq!(s.anchor().get(vm.registry()), text(0x10));
    assert_eq!(t.inner().raw().ptr(), 0x20);
    assert_eq!(
        c.anchor().get(vm.registry()),
        RawValue::new_closure(RawClosure::from(0x50).unwrap())
    );
    assert_eq!(used(&vm, &main), 0);
    vm.release(t);
    assert!(!vm.registry().is_live(2));
    assert!(vm.registry().is_live(1));
}

#[test]
fn a_constructor_that_failed_is_typed() {
    let mut vm = vm(4, 16);
    let main = vm.main_thread();
    let r = main.new_string(&mut vm, failed(LuaStatus::ErrMem, Some(text(0x10))));
    assert!(matches!(r, Err(LError::OutOfMemory)));
    let r = main.new_table(&mut vm, failed(LuaStatus::ErrMem, None));
    assert!(matches!(r, Err(LError::DoubleError)));
    let r = main.new_buffer(&mut vm, failed(LuaStatus::ErrRun, Some(text(0x10))));
    assert!(matches!(r, Err(LError::DoubleError)));
    let r = main.new_userdata(
        &mut vm,
        NativeResult { status: LuaStatus::Success, output: None, raised: None },
    );
    assert!(matches!(r, Err(LError::DoubleError)));
    assert_eq!(used(&vm, &main), 0);
    assert!(!vm.registry().is_live(1));
}

#[test]
fn loading_fails_with_the_loaders_message() {
    let mut vm = vm(4, 16);
    let main = vm.main_thread();
    let r = main.new_closure(&mut vm, failed(LuaStatus::ErrRun, Some(text(0x66))));
    match r {
        Err(LError::Runtime(message)) => {
            assert_eq!(message.inner().raw().ptr(), 0x66);
            assert_eq!(message.anchor().get(vm.registry()), text(0x66));
        }
        other => panic!("{:?}", other),
    }
    let r = main.new_closure(&mut vm, failed(LuaStatus::ErrSyntax, Some(text(0x67))));
    assert!(matches!(r, Err(LError::Syntax(_))));
    assert_eq!(used(&vm, &main), 0);
}

#[test]
fn anchoring_on_a_full_stack_is_a_stack_overflow() {
    let mut vm = vm(1, 16);
    let main = vm.main_thread();
    let f = main.new_closure(&mut vm, made(closure(0x50))).unwrap();
    let base = main.begin_call(&mut vm, &f, &Vec::new()).unwrap();
    assert_eq!(base, 0);
    assert_eq!(used(&vm, &main), 1);
    let r = main.new_string(&mut vm, made(string(0x10)));
    assert!(matches!(r, Err(LError::StackOverflow)));
    let r = vm.hold(&main, string(0x10));
    assert!(matches!(r, Err(LError::StackOverflow)));
    assert_eq!(used(&vm, &main), 1);
    assert!(!vm.registry().is_live(2));
}

#[test]
fn hello_world_returns_nothing() {
    let mut vm = vm(8, 16);
    let main = vm.main_thread();
    let compiled = Luau::compile("print('Hello, World!')", |source, _, _| {
        CompileResult::Success(source.as_bytes().to_vec())
    })
    .unwrap();
    assert_eq!(compiled.as_ref(), b"print('Hello, World!')");
    let function = main.new_closure(&mut vm, made(closure(0x50))).unwrap();
    let mut ran = false;
    let r = main.call_sync(&mut vm, &function, &Vec::new(), || {
        ran = true;
        CallOutcome { status: LuaStatus::Success, values: Vec::new() }
    });
    assert!(ran);
    match r {
        LStatus::Done(results) => assert!(results.is_empty()),
        other => panic!("{:?}", other),
    }
    assert_eq!(used(&vm, &main), 0);
}

#[test]
fn arguments_pass_through_in_order() {
    let mut vm = vm(8, 16);
    let main = vm.main_thread();
    let function = main.new_closure(&mut vm, made(closure(0x50))).unwrap();
    let args = vec![argument(&mut vm, &main, 0xa), argument(&mut vm, &main, 0xb)];
    let base = main.begin_call(&mut vm, &function, &args).unwrap();
    assert_eq!(base, 0);
    assert_eq!(
        vm.stack_of(&main).used_slice(),
        &[RawValue::new_closure(RawClosure::from(0x50).unwrap()), text(0xa), text(0xb)]
    );
    let echoed = vm.stack_of(&main).used_slice()[1..].to_vec();
    let r = main.finish_call(&mut vm, base, CallOutcome { status: LuaStatus::Success, values: echoed });
    match r {
        LStatus::Done(results) => {
            assert_eq!(results.len(), 2);
            let addresses: Vec<usize> = results
                .iter()
                .map(|held| held.inner().get_string().unwrap().raw().ptr())
                .collect();
            assert_eq!(addresses, vec![0xa, 0xb]);
            let handles: Vec<i32> =
                results.iter().map(|held| held.anchor().as_ref().unwrap().handle()).collect();
            assert_eq!(handles, vec![4, 5]);
            assert_eq!(vm.registry().get(4), text(0xa));
            assert_eq!(vm.registry().get(5), text(0xb));
        }
        other => panic!("{:?}", other),
    }
    assert_eq!(used(&vm, &main), 0);
}

#[test]
fn a_runtime_error_keeps_its_message() {
    let mut vm = vm(8, 16);
    let main = vm.main_thread();
    let function = main.new_closure(&mut vm, made(closure(0x50))).unwrap();
    let args = vec![argument(&mut vm, &main, 0xa)];
    let r = main.call_sync(&mut vm, &function, &args, || CallOutcome {
        status: LuaStatus::ErrRun,
        values: vec![text(0xe)],
    });
    match r {
        LStatus::Failed(LError::Runtime(message)) => {
            assert_eq!(message.inner().raw().ptr(), 0xe);
            assert_eq!(message.anchor().get(vm.registry()), text(0xe));
        }
        other => panic!("{:?}", other),
    }
    assert_eq!(used(&vm, &main), 0);
}

#[test]
fn a_call_without_room_is_not_run() {
    let mut vm = vm(2, 16);
    let main = vm.main_thread();
    let function = main.new_closure(&mut vm, made(closure(0x50))).unwrap();
    let args = vec![argument(&mut vm, &main, 0xa), argument(&mut vm, &main, 0xb)];
    let mut ran = false;
    let r = main.call_sync(&mut vm, &function, &args, || {
        ran = true;
        CallOutcome { status: LuaStatus::Success, values: Vec::new() }
    });
    assert!(!ran);
    assert!(matches!(r, LStatus::Failed(LError::StackOverflow)));
    assert!(matches!(main.begin_call(&mut vm, &function, &args), Err(LError::StackOverflow)));
    assert_eq!(used(&vm, &main), 0);
    let one = vec![argument(&mut vm, &main, 0xc)];
    assert!(matches!(main.begin_call(&mut vm, &function, &one), Ok(0)));
    assert_eq!(used(&vm, &main), 2);
}

#[test]
fn yield_and_break_end_a_call_without_failure() {
    let mut vm = vm(4, 16);
    let main = vm.main_thread();
    let function = main.new_closure(&mut vm, made(closure(0x50))).unwrap();
    let r = main.call_sync(&mut vm, &function, &Vec::new(), || CallOutcome {
        status: LuaStatus::Yield,
        values: vec![text(0x1)],
    });
    assert!(matches!(r, LStatus::Yield));
    let r = main.call_sync(&mut vm, &function, &Vec::new(), || CallOutcome {
        status: LuaStatus::Break,
        values: Vec::new(),
    });
    assert!(matches!(r, LStatus::Break));
    let r = main.call_sync(&mut vm, &function, &Vec::new(), || CallOutcome {
        status: LuaStatus::ErrMem,
        values: vec![text(0x1)],
    });
    assert!(matches!(r, LStatus::Failed(LError::OutOfMemory)));
    let r = main.call_sync(&mut vm, &function, &Vec::new(), || CallOutcome {
        status: LuaStatus::ErrErr,
        values: vec![text(0x1)],
    });
    assert!(matches!(r, LStatus::Failed(LError::DoubleError)));
    let r = main.call_sync(&mut vm, &function, &Vec::new(), || CallOutcome {
        status: LuaStatus::ErrRun,
        values: Vec::new(),
    });
    assert!(matches!(r, LStatus::Failed(LError::DoubleError)));
    assert_eq!(used(&vm, &main), 0);
    assert!(!vm.registry().is_live(2));
}

#[test]
fn results_that_cannot_be_anchored_are_let_go_of() {
    let mut stack = frame_of(MAIN, 0x10000, 4);
    let mut registry = Registry::new(2);
    let function = RawValue::new_closure(RawClosure::from(0x50).unwrap());
    stack.push(RawValue::new_boolean(true)).unwrap();
    let base = begin(&mut stack, function, &[text(0xa)]).unwrap();
    assert_eq!(base, 1);
    assert_eq!(stack.used(), 3);
    let outcome = CallOutcome {
        status: LuaStatus::Success,
        values: vec![text(0x1), RawValue::new_number(7), text(0x2), text(0x3)],
    };
    let r = finish(&mut stack, &mut registry, base, outcome);
    assert!(matches!(r, LStatus::Failed(LError::OutOfMemory)));
    assert!(!registry.is_live(1) && !registry.is_live(2));
    assert!(!registry.is_full());
    assert_eq!(stack.used_slice(), &[RawValue::new_boolean(true)]);
    // The handles come back in the order in which they were let go of.
    assert_eq!(registry.reference(text(0x9)), Ok(1));
    assert_eq!(registry.reference(text(0x9)), Ok(2));
}

#[test]
fn results_keep_their_order_and_kind() {
    let mut stack = frame_of(MAIN, 0x10000, 4);
    let mut registry = Registry::new(8);
    let function = RawValue::new_closure(RawClosure::from(0x50).unwrap());
    assert!(matches!(begin(&mut stack, function, &[text(0xa); 4]), Err(LError::StackOverflow)));
    assert_eq!(stack.used(), 0);
    let base = begin(&mut stack, function, &[text(0xa); 3]).unwrap();
    assert_eq!(stack.used(), 4);
    let outcome = CallOutcome {
        status: LuaStatus::Success,
        values: vec![RawValue::new_nil(), text(0x1), RawValue::new_boolean(true), text(0x2)],
    };
    match finish(&mut stack, &mut registry, base, outcome) {
        LStatus::Done(results) => {
            let kinds: Vec<_> = results.iter().map(|held| held.inner().tag()).collect();
            assert_eq!(
                kinds,
                [
                    RawValueTag::Nil,
                    RawValueTag::String,
                    RawValueTag::Boolean,
                    RawValueTag::String
                ]
            );
            let handles: Vec<_> =
                results.iter().map(|held| held.anchor().as_ref().map(|a| a.handle())).collect();
            assert_eq!(handles, [None, Some(1), None, Some(2)]);
        }
        other => panic!("{:?}", other),
    }
    assert_eq!(stack.used(), 0);
}

#[test]
fn child_threads_derive_their_data_and_are_sandboxed() {
    let mut vm = Luau::builder()
        .data(Box::new(Name("vm")), Box::new(Depth(0)), native(4, 16))
        .unwrap()
        .no_libs()
        .no_setup();
    let main = vm.main_thread();
    let child = vm
        .new_thread(made(frame_of(CHILD, 0x20000, 6)), made(()))
        .unwrap();
    assert_eq!(child.inner().raw().ptr(), CHILD);
    assert_eq!(child.anchor().handle(), 1);
    assert_eq!(
        child.anchor().get(vm.registry()),
        RawValue::new_thread(RawThread::from(CHILD).unwrap())
    );
    assert!(vm.contains(RawThread::from(CHILD).unwrap()));
    assert_eq!(vm.find(RawThread::from(CHILD).unwrap()), Some(1));
    assert_eq!(vm.stack_of(child.inner()).len(), 6);
    assert_eq!(vm.stack_of(&main).used(), 0);

    let grandchild = Thread::new(child.inner(), &mut vm, made(frame_of(0x5000, 0x30000, 2))).unwrap();
    assert_eq!(grandchild.raw().ptr(), 0x5000);
    let held = grandchild.new_string(&mut vm, made(string(0x10))).unwrap();
    assert_eq!(held.anchor().thread().ptr(), 0x5000);
    let closed = vm.close();
    let handles: Vec<usize> = closed.iter().map(|state| state.ptr().ptr()).collect();
    assert_eq!(handles, vec![MAIN, CHILD, 0x5000]);
    assert!(closed.iter().all(|state| state.userdata.is_none()));
}

#[test]
fn a_thread_that_could_not_be_made_is_not_added() {
    let mut vm = vm(4, 16);
    let main = vm.main_thread();
    let r = main.new_thread(&mut vm, failed(LuaStatus::ErrMem, Some(text(0x1))), made(()));
    assert!(matches!(r, Err(LError::OutOfMemory)));
    assert!(!vm.contains(RawThread::from(CHILD).unwrap()));
    // A thread that the VM already has is not taken in twice.
    let r = main.new_thread(&mut vm, made(frame_of(MAIN, 0x20000, 4)), made(()));
    assert!(matches!(r, Err(LError::DoubleError)));
    assert_eq!(vm.stack_of(&main).len(), 4);
    // A thread that could not be sandboxed stays, but is not handed out.
    let r = main.new_thread(
        &mut vm,
        made(frame_of(CHILD, 0x20000, 4)),
        failed(LuaStatus::ErrMem, Some(text(0x1))),
    );
    assert!(matches!(r, Err(LError::OutOfMemory)));
    assert!(vm.contains(RawThread::from(CHILD).unwrap()));
    assert!(!vm.registry().is_live(1));
    assert_eq!(used(&vm, &main), 0);
    assert!(vm.adopt(&main, frame_of(CHILD, 0x40000, 4)).is_none());
    assert_eq!(vm.adopt(&main, frame_of(0x7000, 0x40000, 4)).unwrap().raw().ptr(), 0x7000);
}

#[test]
fn the_values_on_a_stack_can_be_listed() {
    let mut state: LuaState<()> = LuaState {
        global: RawGlobal::from(0x8000).unwrap(),
        stack: frame_of(MAIN, 0x10000, 4),
        userdata: None,
        sandboxed: false,
    };
    assert_eq!(StackValue::stack(&state), Vec::new());
    state.stack.push_many([RawValue::new_boolean(true), text(0x10)]).unwrap();
    state.stack.reserve::<1>().unwrap();
    assert_eq!(
        StackValue::stack(&state),
        vec![
            StackValue::Boolean(true),
            StackValue::String(RawString::from(0x10).unwrap()),
            StackValue::Nil
        ]
    );
}

#[test]
fn pushes_through_the_vm_tell_the_collector() {
    let mut vm = vm(4, 16);
    let main = vm.main_thread();
    vm.mark(&main, 4);
    assert_eq!(vm.stack_of(&main).marked(), 4);
    let held = main.new_string(&mut vm, made(string(0x10))).unwrap();
    assert_eq!(vm.stack_of(&main).marked(), 0);
    vm.mark(&main, 6);
    let function = main.new_closure(&mut vm, made(closure(0x50))).unwrap();
    vm.mark(&main, 5);
    let _ = main.begin_call(&mut vm, &function, &Vec::new()).unwrap();
    assert_eq!(vm.stack_of(&main).marked(), 1);
    vm.release(held);
}

#[test]
fn each_thread_has_its_own_data() {
    let mut vm = Luau::builder()
        .data(Box::new(Name("vm")), Box::new(Depth(7)), native(4, 16))
        .unwrap()
        .no_libs()
        .no_setup();
    let main = vm.main_thread();
    let child = vm.new_thread(made(frame_of(CHILD, 0x20000, 6)), made(())).unwrap();
    let grandchild = child
        .inner()
        .new_thread(&mut vm, made(frame_of(0x5000, 0x30000, 2)), made(()))
        .unwrap();
    assert_eq!(**vm.userdata(&main), Depth(7));
    assert_eq!(**vm.userdata(child.inner()), Depth(8));
    assert_eq!(**vm.userdata(grandchild.inner()), Depth(9));
    assert_eq!(grandchild.anchor().thread().ptr(), CHILD);
}
