//! Light userdata.

use vstd::prelude::*;

use crate::vm::error::LResult;
use crate::vm::raw::registry::Registry;
use crate::vm::raw::stack::RawStack;
use crate::vm::raw::value::{RawValue, RawValueData};
use crate::vm::value::gc::Datatype;

verus! {

/// Implemented by what a light userdata may point to.
pub trait LightUserdataTarget {

}

/// A light userdata: a bare address that the VM carries around and never
/// follows. It may be null.
#[derive(Copy, Clone, PartialEq, Eq, Debug, Structural)]
pub struct LightUserdata(pub usize);

impl Datatype for LightUserdata {
    type Ref = ();

    open spec fn raw_spec(&self) -> RawValue {
        RawValue { data: RawValueData::LightUserdata(self.0) }
    }

    open spec fn handle_of(anchor: &()) -> Option<i32> {
        None
    }

    fn acquire_ref(&self, stack: &mut RawStack, registry: &mut Registry) -> (r: LResult<()>) {
        Ok(())
    }

    fn release_ref(anchor: (), registry: &mut Registry) {
    }

    fn raw_value(&self) -> (v: RawValue) {
        RawValue::new_lightuserdata(self.0)
    }
}

impl From<usize> for LightUserdata {
    fn from(value: usize) -> (r: Self) {
        LightUserdata(value)
    }
}

impl vstd::std_specs::convert::FromSpecImpl<usize> for LightUserdata {
    open spec fn obeys_from_spec() -> bool {
        true
    }

    open spec fn from_spec(value: usize) -> Self {
        LightUserdata(value)
    }
}

impl From<LightUserdata> for usize {
    fn from(value: LightUserdata) -> (r: Self) {
        value.0
    }
}

impl vstd::std_specs::convert::FromSpecImpl<LightUserdata> for usize {
    open spec fn obeys_from_spec() -> bool {
        true
    }

    open spec fn from_spec(value: LightUserdata) -> Self {
        value.0
    }
}

} // verus!
