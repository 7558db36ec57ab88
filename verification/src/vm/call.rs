//! Synchronous calls: what is put on the stack before the VM runs a
//! function, and what is made of that which the VM leaves behind.

use vstd::prelude::*;

use crate::native::LuaStatus;
use crate::vm::error::{classified, lemma_classified, LError, LResult, LStatus};
use crate::vm::raw::registry::{Registry, RegistryView};
use crate::vm::raw::stack::{RawStack, StackView};
use crate::vm::raw::value::RawValue;
use crate::vm::value::dynamic::Dynamic;
use crate::vm::value::gc::{acquire, lemma_acquired_balanced, Datatype};
use crate::vm::value::LuauValue;

verus! {

/// What the VM left behind when a call returned: its status, and the values
/// that stand where the function and its arguments stood, lowest first. For
/// a call that succeeded these are its results; for one that failed, the
/// last of them is the error it raised.
#[derive(Debug)]
pub struct CallOutcome {
    pub status: LuaStatus,
    pub values: Vec<RawValue>,
}

/// What a stack holds when a function and its arguments have been pushed.
pub open spec fn pushed(s0: StackView, function: RawValue, args: Seq<RawValue>) -> StackView {
    s0.push_many(seq![function] + args)
}

/// The states that anchoring `values` one after the other, lowest first,
/// leads to from `s0` and `g0`, with the handles taken, in the same order,
/// and the error on which the anchoring stopped, if it did.
pub open spec fn acquire_all(values: Seq<RawValue>, s0: StackView, g0: RegistryView) -> (
    StackView,
    RegistryView,
    Seq<Option<i32>>,
    Option<LError>,
)
    decreases values.len(),
{
    if values.len() == 0 {
        (s0, g0, Seq::empty(), None)
    } else {
        let (s, g, handles, stopped) = acquire_all(values.drop_last(), s0, g0);
        if stopped is Some {
            (s, g, handles, stopped)
        } else {
            let (s1, g1, r) = acquire(values.last(), s, g);
            match r {
                Ok(h) => (s1, g1, handles.push(h), None),
                Err(e) => (s1, g1, handles, Some(e)),
            }
        }
    }
}

/// The registry after the given handles were released, the last first.
pub open spec fn release_all(handles: Seq<Option<i32>>, g: RegistryView) -> RegistryView
    decreases handles.len(),
{
    if handles.len() == 0 {
        g
    } else {
        release_all(
            handles.drop_last(),
            match handles.last() {
                Some(h) => g.unreference(h),
                None => g,
            },
        )
    }
}

/// The handles under which a list of held values is anchored.
pub open spec fn handles_of(held: Seq<LuauValue<Dynamic>>) -> Seq<Option<i32>> {
    held.map_values(|v: LuauValue<Dynamic>| v.spec_handle())
}

/// What is made of the outcome of a call that was begun when `base` cells
/// of the stack were in use.
///
/// First the stack is unwound to `base`. If the call succeeded, each of its
/// results is taken hold of, lowest first, and the held values are returned
/// in that order; should one of them fail to be anchored, those already
/// held are let go of, the last first, and the call has failed with that
/// error. A yield and a break are reported as such. Any other status is a
/// failure, typed with the topmost value left behind as its message.
pub open spec fn finished(
    base: nat,
    status: LuaStatus,
    values: Seq<RawValue>,
    s0: StackView,
    g0: RegistryView,
    s1: StackView,
    g1: RegistryView,
    r: LStatus<Vec<LuauValue<Dynamic>>>,
) -> bool {
    let s = s0.unwind(base);
    match status {
        LuaStatus::Success => {
            let (sa, ga, handles, stopped) = acquire_all(values, s, g0);
            match stopped {
                None => {
                    &&& s1 == sa
                    &&& g1 == ga
                    &&& r matches LStatus::Done(held)
                    &&& held@.len() == values.len()
                    &&& handles_of(held@) == handles
                    &&& forall|i: int|
                        0 <= i < values.len() ==> (#[trigger] held@[i]).spec_inner()
                            == Dynamic::spec_from_raw(values[i])
                },
                Some(e) => {
                    &&& s1 == sa
                    &&& g1 == release_all(handles, ga)
                    &&& r matches LStatus::Failed(failure)
                    &&& failure == e
                },
            }
        },
        LuaStatus::Yield => r is Yield && s1 == s && g1 == g0,
        LuaStatus::Break => r is Break && s1 == s && g1 == g0,
        _ => {
            &&& r matches LStatus::Failed(e)
            &&& classified(
                true,
                status,
                if values.len() > 0 {
                    Some(values.last())
                } else {
                    None
                },
                s,
                g0,
                s1,
                g1,
                e,
            )
        },
    }
}

/// Anchoring a list of values leaves as many cells of the stack in use as
/// before, holding what they held, and leaves every handle that was
/// outstanding with its value.
pub proof fn lemma_acquire_all(values: Seq<RawValue>, s0: StackView, g0: RegistryView)
    requires
        s0.wf(),
        g0.wf(),
    ensures
        acquire_all(values, s0, g0).0.wf(),
        acquire_all(values, s0, g0).1.wf(),
        acquire_all(values, s0, g0).0.used() == s0.used(),
        acquire_all(values, s0, g0).0.len() == s0.len(),
        acquire_all(values, s0, g0).0.live() == s0.live(),
        acquire_all(values, s0, g0).0.thread == s0.thread,
        acquire_all(values, s0, g0).3 is None ==> acquire_all(values, s0, g0).2.len()
            == values.len(),
        forall|h: i32|
            g0.live(h) ==> acquire_all(values, s0, g0).1.live(h) && acquire_all(
                values,
                s0,
                g0,
            ).1.value(h) == g0.value(h),
    decreases values.len(),
{
    if values.len() > 0 {
        lemma_acquire_all(values.drop_last(), s0, g0);
        let (s, g, handles, stopped) = acquire_all(values.drop_last(), s0, g0);
        if stopped is None {
            let (s1, g1, r) = acquire(values.last(), s, g);
            lemma_acquired_balanced(values.last(), s, g, s1, g1, r);
        }
    }
}

/// Releasing handles keeps a registry well-formed.
pub proof fn lemma_release_all(handles: Seq<Option<i32>>, g: RegistryView)
    requires
        g.wf(),
    ensures
        release_all(handles, g).wf(),
    decreases handles.len(),
{
    if handles.len() > 0 {
        let next = match handles.last() {
            Some(h) => g.unreference(h),
            None => g,
        };
        if handles.last() is Some {
            g.lemma_unreference(handles.last().unwrap());
        }
        lemma_release_all(handles.drop_last(), next);
    }
}

/// However a call ends, once it is finished exactly as many cells of the
/// stack are in use as when it was begun, and they hold what they held.
pub proof fn lemma_finished_balanced(
    base: nat,
    status: LuaStatus,
    values: Seq<RawValue>,
    s0: StackView,
    g0: RegistryView,
    s1: StackView,
    g1: RegistryView,
    r: LStatus<Vec<LuauValue<Dynamic>>>,
)
    requires
        s0.wf(),
        g0.wf(),
        finished(base, status, values, s0, g0, s1, g1, r),
    ensures
        s1.wf(),
        g1.wf(),
        s1.thread == s0.thread,
        s1.len() == s0.len(),
        base <= s0.used() ==> s1.used() == base && s1.live() == s0.live().take(base as int),
        base > s0.used() ==> s1.used() == s0.used() && s1.live() == s0.live(),
{
    let s = s0.unwind(base);
    if base <= s0.used() {
        assert(s.live() =~= s0.live().take(base as int));
    }
    match status {
        LuaStatus::Success => {
            lemma_acquire_all(values, s, g0);
            let (sa, ga, handles, stopped) = acquire_all(values, s, g0);
            if stopped is Some {
                lemma_release_all(handles, ga);
            }
        },
        LuaStatus::Yield => {},
        LuaStatus::Break => {},
        _ => {
            let e = r->Failed_0;
            lemma_classified(
                true,
                status,
                if values.len() > 0 {
                    Some(values.last())
                } else {
                    None
                },
                s,
                g0,
                s1,
                g1,
                e,
            );
        },
    }
}

/// A call that ends in a runtime error whose message is a string fails with
/// a `Runtime` error that holds exactly that string, provided the message
/// can be anchored.
pub proof fn lemma_runtime_error(
    base: nat,
    values: Seq<RawValue>,
    s0: StackView,
    g0: RegistryView,
    s1: StackView,
    g1: RegistryView,
    r: LStatus<Vec<LuauValue<Dynamic>>>,
)
    requires
        s0.wf(),
        g0.wf(),
        values.len() > 0,
        values.last().data is String,
        s0.unwind(base).left() > 0,
        !g0.is_full(),
        finished(base, LuaStatus::ErrRun, values, s0, g0, s1, g1, r),
    ensures
        r matches LStatus::Failed(LError::Runtime(held)) && held.spec_inner().raw_spec()
            == values.last() && held.spec_handle() == Some(g0.next_handle()) && g1.get(
            g0.next_handle(),
        ) == values.last(),
{
    lemma_classified(
        true,
        LuaStatus::ErrRun,
        Some(values.last()),
        s0.unwind(base),
        g0,
        s1,
        g1,
        r->Failed_0,
    );
}

/// A call that is begun and then finished leaves as many cells of the stack
/// in use as there were before it was begun, holding what they held.
pub proof fn lemma_call_balanced(
    function: RawValue,
    args: Seq<RawValue>,
    status: LuaStatus,
    values: Seq<RawValue>,
    s0: StackView,
    g0: RegistryView,
    s1: StackView,
    g1: RegistryView,
    r: LStatus<Vec<LuauValue<Dynamic>>>,
)
    requires
        s0.wf(),
        g0.wf(),
        s0.left() >= args.len() + 1,
        finished(s0.used(), status, values, pushed(s0, function, args), g0, s1, g1, r),
    ensures
        s1.wf(),
        g1.wf(),
        s1.used() == s0.used(),
        s1.len() == s0.len(),
        s1.live() == s0.live(),
{
    let begun = pushed(s0, function, args);
    s0.lemma_push_many_free(seq![function] + args);
    lemma_finished_balanced(s0.used(), status, values, begun, g0, s1, g1, r);
    assert(begun.live().take(s0.used() as int) =~= s0.live());
}

/// Pushes `function` and then `args`, lowest first, ready for the VM to run
/// the call, and returns the number of cells that were in use before. With
/// fewer cells left than the function and its arguments need, nothing is
/// pushed and the call fails with `StackOverflow`.
pub fn begin(stack: &mut RawStack, function: RawValue, args: &[RawValue]) -> (r: LResult<usize>)
    ensures
        r is Ok <==> old(stack)@.left() >= args@.len() + 1,
        r matches Ok(base) ==> base == old(stack)@.used() && final(stack)@ == pushed(
            old(stack)@,
            function,
            args@,
        ),
        r matches Err(e) ==> e is StackOverflow && final(stack)@ == old(stack)@,
{
    let base = stack.used();
    let left = stack.left();
    if left == 0 || args.len() > left - 1 {
        return Err(LError::StackOverflow);
    }
    let _ = stack.push(function);
    let _ = stack.push_slice(args);
    proof {
        let m = old(stack)@.marked;
        assert((m & !4u8) & !4u8 == m & !4u8) by (bit_vector);
        assert(stack@.cells =~= pushed(old(stack)@, function, args@).cells);
    }
    Ok(base)
}

/// Makes of the outcome of a call, begun when `base` cells of the stack
/// were in use, what the caller gets.
#[verifier::loop_isolation(false)]
pub fn finish(stack: &mut RawStack, registry: &mut Registry, base: usize, outcome: CallOutcome) -> (r:
    LStatus<Vec<LuauValue<Dynamic>>>)
    ensures
        finished(
            base as nat,
            outcome.status,
            outcome.values@,
            old(stack)@,
            old(registry)@,
            final(stack)@,
            final(registry)@,
            r,
        ),
{
    stack.unwind(base);
    let ghost s = stack@;
    let ghost g0 = registry@;
    let values = outcome.values;
    match outcome.status {
        LuaStatus::Success => {
            let mut held: Vec<LuauValue<Dynamic>> = Vec::new();
            let mut i: usize = 0;
            while i < values.len()
                invariant
                    i <= values@.len(),
                    held@.len() == i,
                    acquire_all(values@.take(i as int), s, g0) == (
                        stack@,
                        registry@,
                        handles_of(held@),
                        None::<LError>,
                    ),
                    forall|k: int|
                        0 <= k < i ==> (#[trigger] held@[k]).spec_inner() == Dynamic::spec_from_raw(
                            values@[k],
                        ),
                decreases values@.len() - i,
            {
                let ghost sk = stack@;
                let ghost gk = registry@;
                let ghost before = held@;
                let taken = LuauValue::from_raw(stack, registry, values[i]);
                proof {
                    let prefix = values@.take(i as int + 1);
                    assert(prefix.drop_last() =~= values@.take(i as int));
                    assert(prefix.last() == values@[i as int]);
                }
                match taken {
                    Ok(value) => {
                        held.push(value);
                        proof {
                            assert(handles_of(held@) =~= handles_of(before).push(
                                value.spec_handle(),
                            ));
                        }
                    },
                    Err(e) => {
                        let ghost failed_at = registry@;
                        let ghost handles = handles_of(held@);
                        proof {
                            assert(values@.take(values@.len() as int) =~= values@);
                            lemma_stopped(values@, i as int + 1, s, g0);
                        }
                        while held.len() > 0
                            invariant
                                release_all(handles_of(held@), registry@) == release_all(
                                    handles,
                                    failed_at,
                                ),
                            decreases held@.len(),
                        {
                            let ghost rest = held@;
                            let last = held.pop().unwrap();
                            proof {
                                assert(handles_of(rest).drop_last() =~= handles_of(held@));
                                assert(handles_of(rest).last() == last.spec_handle());
                            }
                            last.release(registry);
                        }
                        return LStatus::Failed(e);
                    },
                }
                i = i + 1;
            }
            proof {
                assert(values@.take(values@.len() as int) =~= values@);
            }
            LStatus::Done(held)
        },
        LuaStatus::Yield => LStatus::Yield,
        LuaStatus::Break => LStatus::Break,
        status => {
            let message = if values.len() > 0 {
                Some(values[values.len() - 1])
            } else {
                None
            };
            LStatus::Failed(LError::classify(stack, registry, true, status, message))
        },
    }
}

/// Once the anchoring of a list has stopped on an error, it has stopped on
/// that error for every longer list.
proof fn lemma_stopped(values: Seq<RawValue>, n: int, s0: StackView, g0: RegistryView)
    requires
        0 <= n <= values.len(),
        acquire_all(values.take(n), s0, g0).3 is Some,
    ensures
        acquire_all(values, s0, g0) == acquire_all(values.take(n), s0, g0),
    decreases values.len() - n,
{
    if n < values.len() {
        assert(values.drop_last().take(n) =~= values.take(n));
        lemma_stopped(values.drop_last(), n, s0, g0);
    } else {
        assert(values.take(n) =~= values);
    }
}

} // verus!
