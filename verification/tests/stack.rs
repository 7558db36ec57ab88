use luau::native::BLACK_MASK;
use luau::vm::raw::stack::{RawStack, SLOT_SIZE};
use luau::vm::raw::string::RawString;
use luau::vm::raw::thread::RawThread;
use luau::vm::raw::value::RawValue;

const BASE: usize = 0x2000;

fn thread() -> RawThread {
    RawThread::from(0x1000).unwrap()
}

fn stack(size: usize) -> RawStack {
    RawStack::for_thread(thread(), BASE, size, 0).unwrap()
}

fn number(n: u64) -> RawValue {
    RawValue::new_number(n)
}

#[test]
fn a_new_frame_is_empty() {
    let stack = stack(4);
    assert_eq!(SLOT_SIZE, 16);
    assert_eq!(stack.thread(), thread());
    assert_eq!(stack.min(), BASE);
    assert_eq!(stack.max(), BASE + 64);
    assert_eq!(stack.top(), BASE);
    assert_eq!(stack.len(), 4);
    assert_eq!(stack.used(), 0);
    assert_eq!(stack.left(), 4);
    assert_eq!(stack.used_slice(), &[] as &[RawValue]);
    assert_eq!(stack.free_slice(), &[RawValue::new_nil(); 4]);
}

#[test]
fn a_frame_must_fit_the_address_space() {
    assert!(RawStack::for_thread(thread(), 0, 4, 0).is_none());
    assert!(RawStack::for_thread(thread(), usize::MAX - 15, 1, 0).is_none());
    assert!(RawStack::for_thread(thread(), usize::MAX - 16, 1, 0).is_some());
    assert!(RawStack::for_thread(thread(), usize::MAX, 0, 0).is_some());
    assert!(RawStack::for_thread(thread(), 16, usize::MAX / 16, 0).is_none());
}

#[test]
fn push_then_pop_restores_usage() {
    let mut stack = stack(4);
    assert_eq!(stack.push(RawValue::new_boolean(true)), Some(BASE));
    assert_eq!(stack.used(), 1);
    assert_eq!(stack.left(), 3);
    assert_eq!(stack.top(), BASE + 16);
    assert_eq!(stack.used_slice(), &[RawValue::new_boolean(true)]);
    assert_eq!(stack.pop(), Some(RawValue::new_boolean(true)));
    assert_eq!(stack.used(), 0);
    assert_eq!(stack.pop(), None);
    assert_eq!(stack.used(), 0);
}

#[test]
fn push_beyond_the_frame_is_refused() {
    let mut stack = stack(2);
    assert_eq!(stack.push(number(1)), Some(BASE));
    assert_eq!(stack.push(number(2)), Some(BASE + 16));
    assert_eq!(stack.push(number(3)), None);
    assert_eq!(stack.used(), 2);
    assert_eq!(stack.used_slice(), &[number(1), number(2)]);
    assert_eq!(stack.push_many([number(4)]), None);
    assert_eq!(stack.push_slice(&[number(4)]), None);
    assert_eq!(stack.reserve::<1>(), None);
    assert_eq!(stack.used(), 2);
}

#[test]
fn reserve_and_free_move_the_cursor() {
    let mut stack = stack(4);
    assert_eq!(stack.reserve::<3>(), Some(BASE));
    assert_eq!(stack.used(), 3);
    assert_eq!(stack.reserve::<2>(), None);
    assert_eq!(stack.used(), 3);
    assert_eq!(stack.reserve::<0>(), Some(BASE + 48));
    assert_eq!(stack.free::<4>(), None);
    assert_eq!(stack.free::<2>(), Some([RawValue::new_nil(); 2]));
    assert_eq!(stack.used(), 1);
    assert_eq!(stack.alloc_unchecked::<1>(), BASE + 16);
    assert_eq!(stack.free_unchecked::<2>(), [RawValue::new_nil(); 2]);
    assert_eq!(stack.used(), 0);
}

#[test]
fn free_returns_and_wipes_the_cells() {
    let mut stack = stack(4);
    stack.push_many([number(1), number(2), number(3)]).unwrap();
    assert_eq!(stack.free::<2>(), Some([number(2), number(3)]));
    assert_eq!(stack.used_slice(), &[number(1)]);
    assert_eq!(stack.free_slice(), &[RawValue::new_nil(); 3]);
    assert_eq!(stack.pop_many::<1>(), Some([number(1)]));
    assert_eq!(stack.pop_many::<1>(), None);
}

#[test]
fn many_values_are_pushed_lowest_first() {
    let mut stack = stack(4);
    assert_eq!(stack.push_many([number(1), number(2)]), Some(BASE));
    assert_eq!(stack.push_slice(&[number(3), number(4)]), Some(BASE + 32));
    assert_eq!(stack.used_slice(), &[number(1), number(2), number(3), number(4)]);
    assert_eq!(stack.pop(), Some(number(4)));
}

#[test]
fn push_with_calls_its_maker_only_when_there_is_room() {
    let mut stack = stack(1);
    assert_eq!(stack.push_with(|| number(7)), Some(BASE));
    let mut called = false;
    assert_eq!(
        stack.push_with(|| {
            called = true;
            number(8)
        }),
        None
    );
    assert!(!called);
    assert_eq!(stack.push_many_with(|| [number(8), number(9)]), None);
    assert_eq!(stack.used_slice(), &[number(7)]);
    assert_eq!(stack.pop(), Some(number(7)));
    assert_eq!(stack.push_many_with(|| [number(5)]), Some(BASE));
    assert_eq!(stack.used_slice(), &[number(5)]);
}

#[test]
fn slots_have_addresses() {
    let mut stack = stack(4);
    stack.push(number(9)).unwrap();
    assert_eq!(stack.get(0), Some(BASE));
    assert_eq!(stack.get(3), Some(BASE + 48));
    assert_eq!(stack.get(4), None);
    assert_eq!(stack.get_unchecked(2), BASE + 32);
    assert_eq!(stack.index_of(BASE), Some(0));
    assert_eq!(stack.index_of(BASE + 48), Some(3));
    assert_eq!(stack.index_of(BASE + 64), Some(4));
    assert_eq!(stack.index_of(BASE + 80), None);
    assert_eq!(stack.index_of(BASE - 16), None);
    assert_eq!(stack.index_of(BASE + 8), None);
    assert_eq!(stack.index_of_unchecked(BASE + 32), 2);
    assert_eq!(stack.read(BASE), Some(number(9)));
    assert_eq!(stack.read(BASE + 16), Some(RawValue::new_nil()));
    assert_eq!(stack.read(BASE + 64), None);
    assert_eq!(stack.read(BASE + 1), None);
}

#[test]
fn set_top_moves_only_to_slots_of_the_frame() {
    let mut stack = stack(4);
    stack.set_top(BASE + 32);
    assert_eq!(stack.used(), 2);
    stack.set_top(BASE + 64);
    assert_eq!(stack.used(), 4);
    stack.set_top(BASE + 80);
    assert_eq!(stack.used(), 4);
    stack.set_top(BASE + 17);
    assert_eq!(stack.used(), 4);
    stack.set_top_unchecked(BASE);
    assert_eq!(stack.used(), 0);
}

#[test]
fn unwind_gives_up_what_is_above() {
    let mut stack = stack(4);
    stack.push_many([number(1), number(2), number(3)]).unwrap();
    stack.unwind(5);
    assert_eq!(stack.used(), 3);
    stack.unwind(1);
    assert_eq!(stack.used_slice(), &[number(1)]);
    assert_eq!(stack.free_slice(), &[RawValue::new_nil(); 3]);
}

#[test]
fn save_restore_puts_the_cursor_back() {
    let mut stack = stack(4);
    stack.push(number(1)).unwrap();
    let seen = stack.save_restore(|inner| {
        inner.push(number(2)).unwrap();
        inner.push(number(3)).unwrap();
        inner.used()
    });
    assert_eq!(seen, 3);
    assert_eq!(stack.used(), 1);
    assert_eq!(stack.used_slice(), &[number(1)]);
    let popped = stack.save_restore(|inner| inner.pop());
    assert_eq!(popped, Some(number(1)));
    assert_eq!(stack.used(), 1);
    assert_eq!(stack.used_slice(), &[RawValue::new_nil()]);
}

#[test]
fn every_push_goes_through_the_barrier() {
    let black = BLACK_MASK | 1;
    let text = RawValue::new_string(RawString::from(0x500).unwrap());

    let mut stack = RawStack::for_thread(thread(), BASE, 4, black).unwrap();
    assert_eq!(stack.marked(), 5);
    stack.push(text).unwrap();
    assert_eq!(stack.marked(), 1);

    stack.set_marked(black);
    stack.push_many([text]).unwrap();
    assert_eq!(stack.marked(), 1);

    stack.set_marked(black);
    stack.push_with(|| text).unwrap();
    assert_eq!(stack.marked(), 1);

    stack.set_marked(black);
    stack.push_slice(&[text]).unwrap();
    assert_eq!(stack.marked(), 1);

    stack.set_marked(black);
    assert_eq!(stack.push(text), None);
    assert_eq!(stack.marked(), 5);
    stack.threadbarrier();
    assert_eq!(stack.marked(), 1);
    stack.threadbarrier();
    assert_eq!(stack.marked(), 1);
}
