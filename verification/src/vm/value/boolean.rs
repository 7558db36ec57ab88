//! Booleans.

use vstd::prelude::*;

use crate::vm::error::LResult;
use crate::vm::raw::registry::Registry;
use crate::vm::raw::stack::RawStack;
use crate::vm::raw::value::{RawValue, RawValueData};
use crate::vm::value::gc::Datatype;

verus! {

/// A boolean.
#[derive(Copy, Clone, PartialEq, Eq, Debug, Structural)]
pub struct Boolean(pub bool);

impl Datatype for Boolean {
    type Ref = ();

    open spec fn raw_spec(&self) -> RawValue {
        RawValue { data: RawValueData::Boolean(self.0) }
    }

    open spec fn handle_of(anchor: &()) -> Option<i32> {
        None
    }

    fn acquire_ref(&self, stack: &mut RawStack, registry: &mut Registry) -> (r: LResult<()>) {
        Ok(())
    }

    fn release_ref(anchor: (), registry: &mut Registry) {
    }

    fn raw_value(&self) -> (v: RawValue) {
        RawValue::new_boolean(self.0)
    }
}

impl Default for Boolean {
    fn default() -> (r: Self)
        ensures
            r == Boolean(false),
    {
        Boolean(false)
    }
}

impl From<bool> for Boolean {
    fn from(value: bool) -> (r: Self) {
        Boolean(value)
    }
}

impl vstd::std_specs::convert::FromSpecImpl<bool> for Boolean {
    open spec fn obeys_from_spec() -> bool {
        true
    }

    open spec fn from_spec(value: bool) -> Self {
        Boolean(value)
    }
}

impl From<Boolean> for bool {
    fn from(value: Boolean) -> (r: Self) {
        value.0
    }
}

impl vstd::std_specs::convert::FromSpecImpl<Boolean> for bool {
    open spec fn obeys_from_spec() -> bool {
        true
    }

    open spec fn from_spec(value: Boolean) -> Self {
        value.0
    }
}

} // verus!
