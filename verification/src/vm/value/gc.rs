//! Anchors: registrations in the VM's reference registry that keep a
//! collectible value alive for as long as they are held.

use vstd::prelude::*;

use crate::vm::error::{LError, LResult};
use crate::vm::raw::registry::{Registry, RegistryView};
use crate::vm::raw::stack::{RawStack, StackView};
use crate::vm::raw::thread::RawThread;
use crate::vm::raw::value::RawValue;

verus! {

/// The states and the result that registering `value` leads to, from a
/// stack in state `s0` and a registry in state `g0`.
///
/// The value is pushed, registered from the top of the stack and popped
/// again. With no cell left the attempt ends in `StackOverflow` and nothing
/// has changed; with a full registry it ends in `OutOfMemory` and the push
/// has been undone. In every case as many cells are in use afterwards as
/// before.
pub open spec fn register(value: RawValue, s0: StackView, g0: RegistryView) -> (
    StackView,
    RegistryView,
    Result<i32, LError>,
) {
    if s0.left() == 0 {
        (s0, g0, Err(LError::StackOverflow))
    } else if g0.is_full() {
        (s0.push(value).pop(), g0, Err(LError::OutOfMemory))
    } else {
        (s0.push(value).pop(), g0.reference(value), Ok(g0.next_handle()))
    }
}

/// Whether registering `value` from the states `s0` and `g0` leads to the
/// states `s1` and `g1` and the result `r`.
pub open spec fn registered(
    value: RawValue,
    s0: StackView,
    g0: RegistryView,
    s1: StackView,
    g1: RegistryView,
    r: Result<i32, LError>,
) -> bool {
    register(value, s0, g0) == (s1, g1, r)
}

/// The states and the result that anchoring `value` leads to. A value that
/// is stored inline needs no anchor, so nothing changes and no handle is
/// taken; a collectible value is registered.
pub open spec fn acquire(value: RawValue, s0: StackView, g0: RegistryView) -> (
    StackView,
    RegistryView,
    Result<Option<i32>, LError>,
) {
    if value.spec_is_collectible() {
        let (s1, g1, r) = register(value, s0, g0);
        (
            s1,
            g1,
            match r {
                Ok(h) => Ok(Some(h)),
                Err(e) => Err(e),
            },
        )
    } else {
        (s0, g0, Ok(None))
    }
}

/// Whether anchoring `value` from the states `s0` and `g0` leads to the
/// states `s1` and `g1` and the result `r`.
pub open spec fn acquired(
    value: RawValue,
    s0: StackView,
    g0: RegistryView,
    s1: StackView,
    g1: RegistryView,
    r: Result<Option<i32>, LError>,
) -> bool {
    acquire(value, s0, g0) == (s1, g1, r)
}

/// Anchoring never changes how many cells of the stack are in use, nor the
/// frame itself, and it leaves every handle that was outstanding with its
/// value.
pub proof fn lemma_acquired_balanced(
    value: RawValue,
    s0: StackView,
    g0: RegistryView,
    s1: StackView,
    g1: RegistryView,
    r: Result<Option<i32>, LError>,
)
    requires
        s0.wf(),
        g0.wf(),
        acquired(value, s0, g0, s1, g1, r),
    ensures
        s1.wf(),
        g1.wf(),
        s1.used() == s0.used(),
        s1.len() == s0.len(),
        s1.live() == s0.live(),
        s1.thread == s0.thread,
        s1.min == s0.min,
        forall|h: i32| g0.live(h) ==> g1.live(h) && g1.value(h) == g0.value(h),
        r matches Ok(Some(h)) ==> !g0.live(h) && g1.live(h) && g1.value(h) == value,
        r is Err ==> g1 == g0,
{
    if value.spec_is_collectible() && s0.left() > 0 {
        s0.lemma_push_pop(value);
        if !g0.is_full() {
            g0.lemma_reference(value);
        }
    }
}

/// An anchor: one registration of one value in the registry of the VM that
/// the owning thread belongs to. While the anchor is outstanding the
/// collector treats the value as reachable, whatever else refers to it.
#[derive(Debug)]
pub struct LuauRef {
    thread: RawThread,
    handle: i32,
}

impl LuauRef {
    /// The handle under which the value is registered.
    pub closed spec fn spec_handle(&self) -> i32 {
        self.handle
    }

    /// The thread through whose stack the value was registered.
    pub closed spec fn spec_thread(&self) -> RawThread {
        self.thread
    }

    #[verifier::when_used_as_spec(spec_handle)]
    pub fn handle(&self) -> (h: i32)
        ensures
            h == self.spec_handle(),
    {
        self.handle
    }

    #[verifier::when_used_as_spec(spec_thread)]
    pub fn thread(&self) -> (t: RawThread)
        ensures
            t == self.spec_thread(),
    {
        self.thread
    }

    /// Anchors `value`: pushes it on `stack`, registers it from there, and
    /// pops it again.
    pub fn new(stack: &mut RawStack, registry: &mut Registry, value: RawValue) -> (r: LResult<
        Self,
    >)
        ensures
            registered(
                value,
                old(stack)@,
                old(registry)@,
                final(stack)@,
                final(registry)@,
                match r {
                    Ok(anchor) => Ok(anchor.spec_handle()),
                    Err(e) => Err(e),
                },
            ),
            r matches Ok(anchor) ==> anchor.spec_thread() == old(stack)@.thread,
            final(stack)@.used() == old(stack)@.used(),
    {
        let thread = stack.thread();
        let ghost s0 = stack@;
        let _ = stack.used();
        proof {
            if s0.left() > 0 {
                s0.lemma_push_pop(value);
            }
        }
        if stack.push(value).is_none() {
            return Err(LError::StackOverflow);
        }
        let registration = registry.reference(value);
        let _ = stack.pop();
        match registration {
            Ok(handle) => Ok(LuauRef { thread, handle }),
            Err(_) => Err(LError::OutOfMemory),
        }
    }

    /// The value that the anchor holds, read afresh from the registry; nil
    /// once the anchor has been released.
    pub fn get(&self, registry: &Registry) -> (v: RawValue)
        ensures
            v == registry@.get(self.spec_handle()),
    {
        registry.get(self.handle)
    }

    /// Gives the anchor up: the value is no longer kept alive on its account.
    pub fn release(self, registry: &mut Registry)
        ensures
            final(registry)@ == old(registry)@.unreference(self.spec_handle()),
    {
        registry.unreference(self.handle)
    }

    /// A second anchor for the value that this one holds, taken through the
    /// given stack. The stack must have a cell left and the registry must
    /// not be full.
    pub fn clone_ref(&self, stack: &mut RawStack, registry: &mut Registry) -> (copy: Self)
        requires
            old(stack)@.left() >= 1,
            !old(registry)@.is_full(),
        ensures
            registered(
                old(registry)@.get(self.spec_handle()),
                old(stack)@,
                old(registry)@,
                final(stack)@,
                final(registry)@,
                Ok(copy.spec_handle()),
            ),
            copy.spec_handle() == old(registry)@.next_handle(),
            copy.spec_thread() == old(stack)@.thread,
            final(stack)@.used() == old(stack)@.used(),
    {
        let value = self.get(registry);
        match LuauRef::new(stack, registry, value) {
            Ok(copy) => copy,
            Err(_) => vstd::pervasive::unreached(),
        }
    }
}

/// A kind of value that can be held through a `LuauValue`.
pub trait Datatype: Sized {
    /// What keeps a value of this kind alive: nothing for an inline value,
    /// an anchor for a collectible one.
    type Ref;

    /// The cell that stands for the value.
    spec fn raw_spec(&self) -> RawValue;

    /// The registry handle that an anchor of this kind holds, if any.
    spec fn handle_of(anchor: &Self::Ref) -> Option<i32>;

    /// Takes what keeps the value alive.
    fn acquire_ref(&self, stack: &mut RawStack, registry: &mut Registry) -> (r: LResult<Self::Ref>)
        ensures
            acquired(
                self.raw_spec(),
                old(stack)@,
                old(registry)@,
                final(stack)@,
                final(registry)@,
                match r {
                    Ok(anchor) => Ok(Self::handle_of(&anchor)),
                    Err(e) => Err(e),
                },
            ),
    ;

    /// Gives up what kept a value alive.
    fn release_ref(anchor: Self::Ref, registry: &mut Registry)
        ensures
            final(registry)@ == match Self::handle_of(&anchor) {
                Some(h) => old(registry)@.unreference(h),
                None => old(registry)@,
            },
    ;

    /// The cell that stands for the value.
    fn raw_value(&self) -> (v: RawValue)
        ensures
            v == self.raw_spec(),
    ;
}

} // verus!
