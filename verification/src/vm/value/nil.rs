//! Nil.

use vstd::prelude::*;

use crate::vm::error::LResult;
use crate::vm::raw::registry::Registry;
use crate::vm::raw::stack::RawStack;
use crate::vm::raw::value::{RawValue, RawValueData};
use crate::vm::value::gc::Datatype;

verus! {

/// The value nil.
#[derive(Copy, Clone, PartialEq, Eq, Debug, Structural)]
pub struct Nil;

impl Datatype for Nil {
    type Ref = ();

    open spec fn raw_spec(&self) -> RawValue {
        RawValue { data: RawValueData::Nil }
    }

    open spec fn handle_of(anchor: &()) -> Option<i32> {
        None
    }

    fn acquire_ref(&self, stack: &mut RawStack, registry: &mut Registry) -> (r: LResult<()>) {
        Ok(())
    }

    fn release_ref(anchor: (), registry: &mut Registry) {
    }

    fn raw_value(&self) -> (v: RawValue) {
        RawValue::new_nil()
    }
}

impl Default for Nil {
    fn default() -> (r: Self)
        ensures
            r == Nil,
    {
        Nil
    }
}

} // verus!
