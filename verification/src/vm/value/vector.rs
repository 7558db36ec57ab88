//! Vectors.

use vstd::prelude::*;

use crate::vm::error::LResult;
use crate::vm::raw::registry::Registry;
use crate::vm::raw::stack::RawStack;
use crate::vm::raw::value::{RawValue, RawValueData};
use crate::vm::value::gc::Datatype;

verus! {

/// A vector, held as the bits of its three 32-bit floats.
#[derive(Copy, Clone, PartialEq, Eq, Debug)]
pub struct Vector(pub [u32; 3]);

impl Datatype for Vector {
    type Ref = ();

    open spec fn raw_spec(&self) -> RawValue {
        RawValue { data: RawValueData::Vector(self.0[0], self.0[1], self.0[2]) }
    }

    open spec fn handle_of(anchor: &()) -> Option<i32> {
        None
    }

    fn acquire_ref(&self, stack: &mut RawStack, registry: &mut Registry) -> (r: LResult<()>) {
        Ok(())
    }

    fn release_ref(anchor: (), registry: &mut Registry) {
    }

    fn raw_value(&self) -> (v: RawValue) {
        RawValue::new_vector(self.0)
    }
}

impl Default for Vector {
    fn default() -> (r: Self)
        ensures
            r == Vector([0, 0, 0]),
    {
        Vector([0, 0, 0])
    }
}

impl From<[u32; 3]> for Vector {
    fn from(value: [u32; 3]) -> (r: Self) {
        Vector(value)
    }
}

impl vstd::std_specs::convert::FromSpecImpl<[u32; 3]> for Vector {
    open spec fn obeys_from_spec() -> bool {
        true
    }

    open spec fn from_spec(value: [u32; 3]) -> Self {
        Vector(value)
    }
}

impl From<Vector> for [u32; 3] {
    fn from(value: Vector) -> (r: Self) {
        value.0
    }
}

impl vstd::std_specs::convert::FromSpecImpl<Vector> for [u32; 3] {
    open spec fn obeys_from_spec() -> bool {
        true
    }

    open spec fn from_spec(value: Vector) -> Self {
        value.0
    }
}

} // verus!
