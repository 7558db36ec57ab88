//! Numbers.

use vstd::prelude::*;

use crate::vm::error::LResult;
use crate::vm::raw::registry::Registry;
use crate::vm::raw::stack::RawStack;
use crate::vm::raw::value::{RawValue, RawValueData};
use crate::vm::value::gc::Datatype;

verus! {

/// A number, held as the bits of a 64-bit float.
#[derive(Copy, Clone, PartialEq, Eq, Debug, Structural)]
pub struct Number(pub u64);

impl Datatype for Number {
    type Ref = ();

    open spec fn raw_spec(&self) -> RawValue {
        RawValue { data: RawValueData::Number(self.0) }
    }

    open spec fn handle_of(anchor: &()) -> Option<i32> {
        None
    }

    fn acquire_ref(&self, stack: &mut RawStack, registry: &mut Registry) -> (r: LResult<()>) {
        Ok(())
    }

    fn release_ref(anchor: (), registry: &mut Registry) {
    }

    fn raw_value(&self) -> (v: RawValue) {
        RawValue::new_number(self.0)
    }
}

impl Default for Number {
    fn default() -> (r: Self)
        ensures
            r == Number(0),
    {
        Number(0)
    }
}

impl From<u64> for Number {
    fn from(value: u64) -> (r: Self) {
        Number(value)
    }
}

impl vstd::std_specs::convert::FromSpecImpl<u64> for Number {
    open spec fn obeys_from_spec() -> bool {
        true
    }

    open spec fn from_spec(value: u64) -> Self {
        Number(value)
    }
}

impl From<Number> for u64 {
    fn from(value: Number) -> (r: Self) {
        value.0
    }
}

impl vstd::std_specs::convert::FromSpecImpl<Number> for u64 {
    open spec fn obeys_from_spec() -> bool {
        true
    }

    open spec fn from_spec(value: Number) -> Self {
        value.0
    }
}

} // verus!
