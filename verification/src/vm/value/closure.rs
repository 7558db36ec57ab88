//! Function closures.

use vstd::prelude::*;

use crate::vm::error::LResult;
use crate::vm::raw::registry::Registry;
use crate::vm::raw::stack::RawStack;
use crate::vm::raw::closure::RawClosure;
use crate::vm::raw::value::{RawValue, RawValueData};
use crate::vm::value::gc::{Datatype, LuauRef};

verus! {

/// A value known to be a function closure.
#[derive(Debug)]
pub struct Closure(pub RawClosure);

impl Datatype for Closure {
    type Ref = LuauRef;

    open spec fn raw_spec(&self) -> RawValue {
        RawValue { data: RawValueData::Closure(self.0) }
    }

    open spec fn handle_of(anchor: &LuauRef) -> Option<i32> {
        Some(anchor.spec_handle())
    }

    fn acquire_ref(&self, stack: &mut RawStack, registry: &mut Registry) -> (r: LResult<LuauRef>) {
        LuauRef::new(stack, registry, RawValue::new_closure(self.0))
    }

    fn release_ref(anchor: LuauRef, registry: &mut Registry) {
        anchor.release(registry)
    }

    fn raw_value(&self) -> (v: RawValue) {
        RawValue::new_closure(self.0)
    }
}

impl Closure {
    /// The function closure behind a handle.
    pub fn from_raw(raw: RawClosure) -> (r: Self)
        ensures
            r.0 == raw,
    {
        Closure(raw)
    }

    /// The handle of the function closure.
    pub fn raw(&self) -> (r: RawClosure)
        ensures
            r == self.0,
    {
        self.0
    }
}

} // verus!
