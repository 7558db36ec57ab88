use luau::native::LuaStatus;
use luau::vm::error::LError;
use luau::vm::raw::registry::Registry;
use luau::vm::raw::stack::RawStack;
use luau::vm::raw::string::RawString;
use luau::vm::raw::table::RawTable;
use luau::vm::raw::thread::RawThread;
use luau::vm::raw::value::RawValue;
use luau::vm::value::boolean::Boolean;
use luau::vm::value::dynamic::Dynamic;
use luau::vm::value::gc::{Datatype, LuauRef};
use luau::vm::value::string::LString;
use luau::vm::value::table::Table;
use luau::vm::value::LuauValue;

fn frame(size: usize) -> RawStack {
    RawStack::for_thread(RawThread::from(0x1000).unwrap(), 0x2000, size, 0).unwrap()
}

fn text(addr: usize) -> RawValue {
    RawValue::new_string(RawString::from(addr).unwrap())
}

#[test]
fn handles_count_up_from_one() {
    let mut registry = Registry::new(8);
    assert!(!registry.is_full());
    assert_eq!(registry.reference(text(0x10)), Ok(1));
    assert_eq!(registry.reference(text(0x20)), Ok(2));
    assert_eq!(registry.reference(text(0x10)), Ok(3));
    assert_eq!(registry.get(1), text(0x10));
    assert_eq!(registry.get(2), text(0x20));
    assert_eq!(registry.get(3), text(0x10));
    assert!(registry.is_live(1) && registry.is_live(2) && registry.is_live(3));
    assert!(!registry.is_live(0) && !registry.is_live(4) && !registry.is_live(-1));
}

#[test]
fn lookups_of_dead_handles_give_nil() {
    let mut registry = Registry::new(8);
    assert_eq!(registry.get(1), RawValue::new_nil());
    assert_eq!(registry.get(0), RawValue::new_nil());
    assert_eq!(registry.get(-5), RawValue::new_nil());
    assert_eq!(registry.get(i32::MAX), RawValue::new_nil());
    assert_eq!(registry.reference(text(0x10)), Ok(1));
    registry.unreference(1);
    assert_eq!(registry.get(1), RawValue::new_nil());
}

#[test]
fn released_handles_are_reused_last_first() {
    let mut registry = Registry::new(8);
    for addr in [0x10usize, 0x20, 0x30] {
        registry.reference(text(addr)).unwrap();
    }
    registry.unreference(1);
    registry.unreference(3);
    assert!(!registry.is_live(1) && registry.is_live(2) && !registry.is_live(3));
    assert_eq!(registry.reference(text(0x40)), Ok(3));
    assert_eq!(registry.reference(text(0x50)), Ok(1));
    assert_eq!(registry.reference(text(0x60)), Ok(4));
    assert_eq!(registry.get(2), text(0x20));
    assert_eq!(registry.get(3), text(0x40));
    assert_eq!(registry.get(1), text(0x50));
}

#[test]
fn releasing_twice_or_what_was_never_taken_changes_nothing() {
    let mut registry = Registry::new(8);
    registry.reference(text(0x10)).unwrap();
    registry.reference(text(0x20)).unwrap();
    registry.unreference(1);
    registry.unreference(1);
    registry.unreference(7);
    registry.unreference(0);
    registry.unreference(-3);
    assert_eq!(registry.reference(text(0x30)), Ok(1));
    assert_eq!(registry.reference(text(0x40)), Ok(3));
    assert_eq!(registry.get(2), text(0x20));
}

#[test]
fn a_full_registry_refuses_and_recovers_on_release() {
    let mut registry = Registry::new(2);
    assert_eq!(registry.reference(text(0x10)), Ok(1));
    assert_eq!(registry.reference(text(0x20)), Ok(2));
    assert!(registry.is_full());
    assert_eq!(registry.reference(text(0x30)), Err(LuaStatus::ErrMem));
    assert_eq!(registry.get(1), text(0x10));
    assert_eq!(registry.get(2), text(0x20));
    registry.unreference(1);
    assert!(!registry.is_full());
    assert_eq!(registry.reference(text(0x30)), Ok(1));
    assert!(registry.is_full());
    let mut none = Registry::new(0);
    assert!(none.is_full());
    assert_eq!(none.reference(text(0x10)), Err(LuaStatus::ErrMem));
}

#[test]
fn an_anchor_registers_through_the_stack() {
    let mut stack = frame(2);
    let mut registry = Registry::new(8);
    stack.push(RawValue::new_boolean(true)).unwrap();
    let anchor = LuauRef::new(&mut stack, &mut registry, text(0x10)).unwrap();
    assert_eq!(anchor.handle(), 1);
    assert_eq!(anchor.thread(), RawThread::from(0x1000).unwrap());
    assert_eq!(anchor.get(&registry), text(0x10));
    assert_eq!(anchor.get(&registry), text(0x10));
    assert_eq!(stack.used(), 1);
    assert_eq!(stack.used_slice(), &[RawValue::new_boolean(true)]);
    assert_eq!(stack.free_slice(), &[RawValue::new_nil()]);
    anchor.release(&mut registry);
    assert!(!registry.is_live(1));
}

#[test]
fn an_anchor_needs_a_free_cell() {
    let mut stack = frame(1);
    let mut registry = Registry::new(8);
    stack.push(RawValue::new_boolean(true)).unwrap();
    let refused = LuauRef::new(&mut stack, &mut registry, text(0x10));
    assert!(matches!(refused, Err(LError::StackOverflow)));
    assert_eq!(stack.used(), 1);
    assert_eq!(stack.used_slice(), &[RawValue::new_boolean(true)]);
    assert!(!registry.is_live(1));
}

#[test]
fn an_anchor_refused_by_the_registry_leaves_the_stack_balanced() {
    let mut stack = frame(2);
    let mut registry = Registry::new(1);
    let first = LuauRef::new(&mut stack, &mut registry, text(0x10)).unwrap();
    let refused = LuauRef::new(&mut stack, &mut registry, text(0x20));
    assert!(matches!(refused, Err(LError::OutOfMemory)));
    assert_eq!(stack.used(), 0);
    assert_eq!(first.get(&registry), text(0x10));
}

#[test]
fn anchors_stay_apart_while_outstanding() {
    let mut stack = frame(2);
    let mut registry = Registry::new(8);
    let a = LuauRef::new(&mut stack, &mut registry, text(0x10)).unwrap();
    let b = LuauRef::new(&mut stack, &mut registry, text(0x20)).unwrap();
    let c = a.clone_ref(&mut stack, &mut registry);
    assert_eq!((a.handle(), b.handle(), c.handle()), (1, 2, 3));
    assert_eq!(c.get(&registry), text(0x10));
    b.release(&mut registry);
    let d = LuauRef::new(&mut stack, &mut registry, text(0x30)).unwrap();
    assert_eq!(d.handle(), 2);
    assert_eq!(a.get(&registry), text(0x10));
    assert_eq!(c.get(&registry), text(0x10));
    assert_eq!(d.get(&registry), text(0x30));
    a.release(&mut registry);
    assert_eq!(c.get(&registry), text(0x10));
    assert_eq!(stack.used(), 0);
}

#[test]
fn inline_values_need_no_anchor() {
    let mut stack = frame(0);
    let mut registry = Registry::new(0);
    let held = LuauValue::new(&mut stack, &mut registry, Boolean(true)).unwrap();
    assert_eq!(*held.inner(), Boolean(true));
    assert_eq!(*held.anchor(), ());
    let dynamic = LuauValue::from_raw(&mut stack, &mut registry, RawValue::new_number(3)).unwrap();
    assert!(dynamic.anchor().is_none());
    assert!(matches!(dynamic.inner(), Dynamic::Number(_)));
    dynamic.release(&mut registry);
    held.release(&mut registry);
}

#[test]
fn collectible_values_are_held_by_an_anchor() {
    let mut stack = frame(1);
    let mut registry = Registry::new(8);
    let held = LuauValue::new(&mut stack, &mut registry, LString::from_raw(RawString::from(0x10).unwrap()))
        .unwrap();
    assert_eq!(held.inner().raw().ptr(), 0x10);
    assert_eq!(held.raw().ptr(), 0x10);
    assert_eq!(held.anchor().handle(), 1);
    assert_eq!(held.anchor().get(&registry), text(0x10));
    let table = Table::from_raw(RawTable::from(0x20).unwrap());
    let anchor = table.acquire_ref(&mut stack, &mut registry).unwrap();
    assert_eq!(anchor.handle(), 2);
    assert_eq!(anchor.get(&registry), table.raw_value());
    Table::release_ref(anchor, &mut registry);
    assert!(!registry.is_live(2));
    held.release(&mut registry);
    assert!(!registry.is_live(1));
    assert_eq!(stack.used(), 0);
}

#[test]
fn pop_takes_hold_of_the_topmost_value() {
    let mut stack = frame(2);
    let mut registry = Registry::new(8);
    assert!(LuauValue::pop(&mut stack, &mut registry).is_none());
    stack.push_many([RawValue::new_boolean(false), text(0x10)]).unwrap();
    let top = LuauValue::pop(&mut stack, &mut registry).unwrap().unwrap();
    assert!(matches!(top.inner(), Dynamic::String(_)));
    assert_eq!(top.anchor().as_ref().unwrap().handle(), 1);
    assert_eq!(stack.used(), 1);
    let next = LuauValue::pop(&mut stack, &mut registry).unwrap().unwrap();
    assert!(matches!(next.inner(), Dynamic::Boolean(Boolean(false))));
    assert!(next.anchor().is_none());
    assert_eq!(stack.used(), 0);
}

#[test]
fn a_held_dynamic_value_hands_out_its_own_kind() {
    let mut stack = frame(1);
    let mut registry = Registry::new(8);
    let held = LuauValue::from_raw(&mut stack, &mut registry, text(0x10)).unwrap();
    assert!(held.get_nil(&mut stack, &mut registry).is_none());
    assert!(held.get_boolean(&mut stack, &mut registry).is_none());
    assert!(held.get_lightuserdata(&mut stack, &mut registry).is_none());
    assert!(held.get_number(&mut stack, &mut registry).is_none());
    assert!(held.get_vector(&mut stack, &mut registry).is_none());
    assert!(held.get_table(&mut stack, &mut registry).is_none());
    assert!(held.get_closure(&mut stack, &mut registry).is_none());
    assert!(held.get_userdata(&mut stack, &mut registry).is_none());
    assert!(held.get_thread(&mut stack, &mut registry).is_none());
    assert!(held.get_buffer(&mut stack, &mut registry).is_none());
    let string = held.get_string(&mut stack, &mut registry).unwrap().unwrap();
    assert_eq!(string.inner().raw().ptr(), 0x10);
    assert_eq!(string.anchor().handle(), 2);
    held.release(&mut registry);
    assert_eq!(string.anchor().get(&registry), text(0x10));
    assert_eq!(stack.used(), 0);

    let plain = LuauValue::from_raw(&mut stack, &mut registry, RawValue::new_boolean(true)).unwrap();
    let boolean = plain.get_boolean(&mut stack, &mut registry).unwrap().unwrap();
    assert_eq!(*boolean.inner(), Boolean(true));
    assert!(plain.get_string(&mut stack, &mut registry).is_none());
}
