//! Typed values, and the holder that keeps a value alive while it is held.

pub mod boolean;
pub mod buffer;
pub mod closure;
pub mod dynamic;
pub mod gc;
pub mod lightuserdata;
pub mod nil;
pub mod number;
pub mod stack;
pub mod string;
pub mod table;
pub mod thread;
pub mod userdata;
pub mod vector;

use vstd::prelude::*;

use crate::vm::error::{classified, protected, LError, LResult, NativeResult};
use crate::vm::raw::registry::{Registry, RegistryView};
use crate::vm::raw::stack::{RawStack, StackView};
use crate::vm::raw::value::{RawValue, RawValueTag};
use crate::vm::value::boolean::Boolean;
use crate::vm::value::buffer::Buffer;
use crate::vm::value::closure::Closure;
use crate::vm::value::dynamic::Dynamic;
use crate::vm::value::gc::{acquired, Datatype};
use crate::vm::value::lightuserdata::LightUserdata;
use crate::vm::value::nil::Nil;
use crate::vm::value::number::Number;
use crate::vm::value::string::LString;
use crate::vm::value::table::Table;
use crate::vm::value::thread::Thread;
use crate::vm::value::userdata::Userdata;
use crate::vm::value::vector::Vector;

verus! {

/// A value together with what keeps it alive. Every operation that makes a
/// collectible value hands it out in this form, so that no caller ever holds
/// a collectible value that the collector is free to reclaim.
#[derive(Debug)]
pub struct LuauValue<T: Datatype> {
    handle: T::Ref,
    inner: T,
}

impl<T: Datatype> core::ops::Deref for LuauValue<T> {
    type Target = T;

    fn deref(&self) -> (v: &T)
        ensures
            *v == self.spec_inner(),
    {
        &self.inner
    }
}

/// What an attempt to take hold of a value came to: the handle under which
/// the value is anchored, if it needs an anchor, or the error.
pub open spec fn outcome<T: Datatype>(r: LResult<LuauValue<T>>) -> Result<Option<i32>, LError> {
    match r {
        Ok(held) => Ok(held.spec_handle()),
        Err(e) => Err(e),
    }
}

/// What is made of a value that a native constructor reports to have made.
/// Where the constructor succeeded, the value is taken hold of; where it
/// failed, the failure is typed.
pub open spec fn constructed<T: Datatype>(
    proper: bool,
    created: NativeResult<T>,
    s0: StackView,
    g0: RegistryView,
    s1: StackView,
    g1: RegistryView,
    r: LResult<LuauValue<T>>,
) -> bool {
    match protected(created.status, created.output) {
        Ok(value) => acquired(value.raw_spec(), s0, g0, s1, g1, outcome(r)) && (r matches Ok(
            held,
        ) ==> held.spec_inner() == value),
        Err(status) => r matches Err(e) && classified(
            proper,
            status,
            created.raised,
            s0,
            g0,
            s1,
            g1,
            e,
        ),
    }
}

/// Whether the constructor succeeded or failed, and whether its value could
/// be anchored or not, as many cells of the stack are in use afterwards as
/// before, holding what they held, and every handle that was outstanding
/// still has its value.
pub proof fn lemma_constructed<T: Datatype>(
    proper: bool,
    created: NativeResult<T>,
    s0: StackView,
    g0: RegistryView,
    s1: StackView,
    g1: RegistryView,
    r: LResult<LuauValue<T>>,
)
    requires
        s0.wf(),
        g0.wf(),
        constructed(proper, created, s0, g0, s1, g1, r),
    ensures
        s1.wf(),
        g1.wf(),
        s1.used() == s0.used(),
        s1.len() == s0.len(),
        s1.live() == s0.live(),
        s1.thread == s0.thread,
        forall|h: i32| g0.live(h) ==> g1.live(h) && g1.value(h) == g0.value(h),
{
    match protected(created.status, created.output) {
        Ok(value) => {
            crate::vm::value::gc::lemma_acquired_balanced(
                value.raw_spec(),
                s0,
                g0,
                s1,
                g1,
                outcome(r),
            );
        },
        Err(status) => {
            crate::vm::error::lemma_classified(
                proper,
                status,
                created.raised,
                s0,
                g0,
                s1,
                g1,
                r->Err_0,
            );
        },
    }
}

impl<T: Datatype> LuauValue<T> {
    /// Takes hold of the value that a native constructor reports to have
    /// made, or types the constructor's failure.
    pub fn construct(
        stack: &mut RawStack,
        registry: &mut Registry,
        proper: bool,
        created: NativeResult<T>,
    ) -> (r: LResult<Self>)
        ensures
            constructed(
                proper,
                created,
                old(stack)@,
                old(registry)@,
                final(stack)@,
                final(registry)@,
                r,
            ),
    {
        match LError::settle(stack, registry, proper, created) {
            Ok(value) => LuauValue::new(stack, registry, value),
            Err(e) => Err(e),
        }
    }

    /// The value that is held.
    pub closed spec fn spec_inner(&self) -> T {
        self.inner
    }

    /// The registry handle under which the value is anchored, if it needs an
    /// anchor.
    pub closed spec fn spec_handle(&self) -> Option<i32> {
        T::handle_of(&self.handle)
    }

    /// Takes hold of `value`, anchoring it if it is collectible.
    pub fn new(stack: &mut RawStack, registry: &mut Registry, value: T) -> (r: LResult<Self>)
        ensures
            acquired(
                value.raw_spec(),
                old(stack)@,
                old(registry)@,
                final(stack)@,
                final(registry)@,
                outcome(r),
            ),
            r matches Ok(held) ==> held.spec_inner() == value,
    {
        match value.acquire_ref(stack, registry) {
            Ok(handle) => Ok(LuauValue { handle, inner: value }),
            Err(e) => Err(e),
        }
    }

    /// The value that is held.
    pub fn inner(&self) -> (v: &T)
        ensures
            *v == self.spec_inner(),
    {
        &self.inner
    }

    /// What keeps the value alive.
    pub fn anchor(&self) -> (a: &T::Ref)
        ensures
            T::handle_of(a) == self.spec_handle(),
    {
        &self.handle
    }

    /// Lets go of the value: its anchor, if it has one, is given up.
    pub fn release(self, registry: &mut Registry)
        ensures
            final(registry)@ == match self.spec_handle() {
                Some(h) => old(registry)@.unreference(h),
                None => old(registry)@,
            },
    {
        T::release_ref(self.handle, registry)
    }
}

impl LuauValue<Dynamic> {
    /// Takes hold of the value in a cell, as the kind that the cell's tag
    /// names.
    pub fn from_raw(stack: &mut RawStack, registry: &mut Registry, value: RawValue) -> (r:
        LResult<Self>)
        ensures
            acquired(
                value,
                old(stack)@,
                old(registry)@,
                final(stack)@,
                final(registry)@,
                outcome(r),
            ),
            r matches Ok(held) ==> held.spec_inner() == Dynamic::spec_from_raw(value),
    {
        LuauValue::new(stack, registry, Dynamic::from_raw(value))
    }

    /// Pops the topmost value off the stack and takes hold of it. `None`,
    /// with nothing changed, if no cell is in use.
    pub fn pop(stack: &mut RawStack, registry: &mut Registry) -> (r: Option<LResult<Self>>)
        ensures
            r is Some <==> old(stack)@.used() >= 1,
            r is None ==> final(stack)@ == old(stack)@ && final(registry)@ == old(registry)@,
            r matches Some(taken) ==> acquired(
                old(stack)@.cells[old(stack)@.top - 1],
                old(stack)@.pop(),
                old(registry)@,
                final(stack)@,
                final(registry)@,
                outcome(taken),
            ) && (taken matches Ok(held) ==> held.spec_inner() == Dynamic::spec_from_raw(
                old(stack)@.cells[old(stack)@.top - 1],
            )),
    {
        match stack.pop() {
            Some(value) => Some(LuauValue::from_raw(stack, registry, value)),
            None => None,
        }
    }

    /// The value as nil, held in its own right, if that is its kind; `None`,
    /// with nothing changed, if it is of another kind.
    pub fn get_nil(&self, stack: &mut RawStack, registry: &mut Registry) -> (r: Option<
        LResult<LuauValue<Nil>>,
    >)
        ensures
            r is Some <==> self.spec_inner().spec_tag() == RawValueTag::Nil,
            r is None ==> final(stack)@ == old(stack)@ && final(registry)@ == old(registry)@,
            r matches Some(taken) ==> acquired(
                self.spec_inner().raw_spec(),
                old(stack)@,
                old(registry)@,
                final(stack)@,
                final(registry)@,
                outcome(taken),
            ) && (taken matches Ok(held) ==> Some(held.spec_inner())
                == self.spec_inner().spec_get_nil()),
    {
        match self.inner.get_nil() {
            Some(inner) => Some(LuauValue::new(stack, registry, inner)),
            None => None,
        }
    }

    /// The value as a boolean, held in its own right, if that is its kind; `None`,
    /// with nothing changed, if it is of another kind.
    pub fn get_boolean(&self, stack: &mut RawStack, registry: &mut Registry) -> (r: Option<
        LResult<LuauValue<Boolean>>,
    >)
        ensures
            r is Some <==> self.spec_inner().spec_tag() == RawValueTag::Boolean,
            r is None ==> final(stack)@ == old(stack)@ && final(registry)@ == old(registry)@,
            r matches Some(taken) ==> acquired(
                self.spec_inner().raw_spec(),
                old(stack)@,
                old(registry)@,
                final(stack)@,
                final(registry)@,
                outcome(taken),
            ) && (taken matches Ok(held) ==> Some(held.spec_inner())
                == self.spec_inner().spec_get_boolean()),
    {
        match self.inner.get_boolean() {
            Some(inner) => Some(LuauValue::new(stack, registry, inner)),
            None => None,
        }
    }

    /// The value as a light userdata, held in its own right, if that is its kind; `None`,
    /// with nothing changed, if it is of another kind.
    pub fn get_lightuserdata(&self, stack: &mut RawStack, registry: &mut Registry) -> (r: Option<
        LResult<LuauValue<LightUserdata>>,
    >)
        ensures
            r is Some <==> self.spec_inner().spec_tag() == RawValueTag::LightUserdata,
            r is None ==> final(stack)@ == old(stack)@ && final(registry)@ == old(registry)@,
            r matches Some(taken) ==> acquired(
                self.spec_inner().raw_spec(),
                old(stack)@,
                old(registry)@,
                final(stack)@,
                final(registry)@,
                outcome(taken),
            ) && (taken matches Ok(held) ==> Some(held.spec_inner())
                == self.spec_inner().spec_get_lightuserdata()),
    {
        match self.inner.get_lightuserdata() {
            Some(inner) => Some(LuauValue::new(stack, registry, inner)),
            None => None,
        }
    }

    /// The value as a number, held in its own right, if that is its kind; `None`,
    /// with nothing changed, if it is of another kind.
    pub fn get_number(&self, stack: &mut RawStack, registry: &mut Registry) -> (r: Option<
        LResult<LuauValue<Number>>,
    >)
        ensures
            r is Some <==> self.spec_inner().spec_tag() == RawValueTag::Number,
            r is None ==> final(stack)@ == old(stack)@ && final(registry)@ == old(registry)@,
            r matches Some(taken) ==> acquired(
                self.spec_inner().raw_spec(),
                old(stack)@,
                old(registry)@,
                final(stack)@,
                final(registry)@,
                outcome(taken),
            ) && (taken matches Ok(held) ==> Some(held.spec_inner())
                == self.spec_inner().spec_get_number()),
    {
        match self.inner.get_number() {
            Some(inner) => Some(LuauValue::new(stack, registry, inner)),
            None => None,
        }
    }

    /// The value as a vector, held in its own right, if that is its kind; `None`,
    /// with nothing changed, if it is of another kind.
    pub fn get_vector(&self, stack: &mut RawStack, registry: &mut Registry) -> (r: Option<
        LResult<LuauValue<Vector>>,
    >)
        ensures
            r is Some <==> self.spec_inner().spec_tag() == RawValueTag::Vector,
            r is None ==> final(stack)@ == old(stack)@ && final(registry)@ == old(registry)@,
            r matches Some(taken) ==> acquired(
                self.spec_inner().raw_spec(),
                old(stack)@,
                old(registry)@,
                final(stack)@,
                final(registry)@,
                outcome(taken),
            ) && (taken matches Ok(held) ==> Some(held.spec_inner())
                == self.spec_inner().spec_get_vector()),
    {
        match self.inner.get_vector() {
            Some(inner) => Some(LuauValue::new(stack, registry, inner)),
            None => None,
        }
    }

    /// The value as a string, held in its own right, if that is its kind; `None`,
    /// with nothing changed, if it is of another kind.
    pub fn get_string(&self, stack: &mut RawStack, registry: &mut Registry) -> (r: Option<
        LResult<LuauValue<LString>>,
    >)
        ensures
            r is Some <==> self.spec_inner().spec_tag() == RawValueTag::String,
            r is None ==> final(stack)@ == old(stack)@ && final(registry)@ == old(registry)@,
            r matches Some(taken) ==> acquired(
                self.spec_inner().raw_spec(),
                old(stack)@,
                old(registry)@,
                final(stack)@,
                final(registry)@,
                outcome(taken),
            ) && (taken matches Ok(held) ==> Some(held.spec_inner())
                == self.spec_inner().spec_get_string()),
    {
        match self.inner.get_string() {
            Some(inner) => Some(LuauValue::new(stack, registry, inner)),
            None => None,
        }
    }

    /// The value as a table, held in its own right, if that is its kind; `None`,
    /// with nothing changed, if it is of another kind.
    pub fn get_table(&self, stack: &mut RawStack, registry: &mut Registry) -> (r: Option<
        LResult<LuauValue<Table>>,
    >)
        ensures
            r is Some <==> self.spec_inner().spec_tag() == RawValueTag::Table,
            r is None ==> final(stack)@ == old(stack)@ && final(registry)@ == old(registry)@,
            r matches Some(taken) ==> acquired(
                self.spec_inner().raw_spec(),
                old(stack)@,
                old(registry)@,
                final(stack)@,
                final(registry)@,
                outcome(taken),
            ) && (taken matches Ok(held) ==> Some(held.spec_inner())
                == self.spec_inner().spec_get_table()),
    {
        match self.inner.get_table() {
            Some(inner) => Some(LuauValue::new(stack, registry, inner)),
            None => None,
        }
    }

    /// The value as a closure, held in its own right, if that is its kind; `None`,
    /// with nothing changed, if it is of another kind.
    pub fn get_closure(&self, stack: &mut RawStack, registry: &mut Registry) -> (r: Option<
        LResult<LuauValue<Closure>>,
    >)
        ensures
            r is Some <==> self.spec_inner().spec_tag() == RawValueTag::Closure,
            r is None ==> final(stack)@ == old(stack)@ && final(registry)@ == old(registry)@,
            r matches Some(taken) ==> acquired(
                self.spec_inner().raw_spec(),
                old(stack)@,
                old(registry)@,
                final(stack)@,
                final(registry)@,
                outcome(taken),
            ) && (taken matches Ok(held) ==> Some(held.spec_inner())
                == self.spec_inner().spec_get_closure()),
    {
        match self.inner.get_closure() {
            Some(inner) => Some(LuauValue::new(stack, registry, inner)),
            None => None,
        }
    }

    /// The value as a full userdata, held in its own right, if that is its kind; `None`,
    /// with nothing changed, if it is of another kind.
    pub fn get_userdata(&self, stack: &mut RawStack, registry: &mut Registry) -> (r: Option<
        LResult<LuauValue<Userdata>>,
    >)
        ensures
            r is Some <==> self.spec_inner().spec_tag() == RawValueTag::Userdata,
            r is None ==> final(stack)@ == old(stack)@ && final(registry)@ == old(registry)@,
            r matches Some(taken) ==> acquired(
                self.spec_inner().raw_spec(),
                old(stack)@,
                old(registry)@,
                final(stack)@,
                final(registry)@,
                outcome(taken),
            ) && (taken matches Ok(held) ==> Some(held.spec_inner())
                == self.spec_inner().spec_get_userdata()),
    {
        match self.inner.get_userdata() {
            Some(inner) => Some(LuauValue::new(stack, registry, inner)),
            None => None,
        }
    }

    /// The value as a thread, held in its own right, if that is its kind; `None`,
    /// with nothing changed, if it is of another kind.
    pub fn get_thread(&self, stack: &mut RawStack, registry: &mut Registry) -> (r: Option<
        LResult<LuauValue<Thread>>,
    >)
        ensures
            r is Some <==> self.spec_inner().spec_tag() == RawValueTag::Thread,
            r is None ==> final(stack)@ == old(stack)@ && final(registry)@ == old(registry)@,
            r matches Some(taken) ==> acquired(
                self.spec_inner().raw_spec(),
                old(stack)@,
                old(registry)@,
                final(stack)@,
                final(registry)@,
                outcome(taken),
            ) && (taken matches Ok(held) ==> Some(held.spec_inner())
                == self.spec_inner().spec_get_thread()),
    {
        match self.inner.get_thread() {
            Some(inner) => Some(LuauValue::new(stack, registry, inner)),
            None => None,
        }
    }

    /// The value as a buffer, held in its own right, if that is its kind; `None`,
    /// with nothing changed, if it is of another kind.
    pub fn get_buffer(&self, stack: &mut RawStack, registry: &mut Registry) -> (r: Option<
        LResult<LuauValue<Buffer>>,
    >)
        ensures
            r is Some <==> self.spec_inner().spec_tag() == RawValueTag::Buffer,
            r is None ==> final(stack)@ == old(stack)@ && final(registry)@ == old(registry)@,
            r matches Some(taken) ==> acquired(
                self.spec_inner().raw_spec(),
                old(stack)@,
                old(registry)@,
                final(stack)@,
                final(registry)@,
                outcome(taken),
            ) && (taken matches Ok(held) ==> Some(held.spec_inner())
                == self.spec_inner().spec_get_buffer()),
    {
        match self.inner.get_buffer() {
            Some(inner) => Some(LuauValue::new(stack, registry, inner)),
            None => None,
        }
    }
}

} // verus!
