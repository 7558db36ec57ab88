//! Full userdata.

use vstd::prelude::*;

use crate::vm::error::{classified, protected, LError, LResult, NativeResult};
use crate::vm::raw::registry::Registry;
use crate::vm::raw::stack::RawStack;
use crate::vm::raw::userdata::RawUserdata;
use crate::vm::raw::value::{RawValue, RawValueData};
use crate::vm::value::gc::{Datatype, LuauRef};
use crate::vm::value::lightuserdata::LightUserdataTarget;

verus! {

/// Implemented by what a full userdata may hold.
pub trait UserdataTarget: LightUserdataTarget {

}

/// A value known to be a full userdata block.
#[derive(Debug)]
pub struct Userdata(pub RawUserdata);

impl Datatype for Userdata {
    type Ref = LuauRef;

    open spec fn raw_spec(&self) -> RawValue {
        RawValue { data: RawValueData::Userdata(self.0) }
    }

    open spec fn handle_of(anchor: &LuauRef) -> Option<i32> {
        Some(anchor.spec_handle())
    }

    fn acquire_ref(&self, stack: &mut RawStack, registry: &mut Registry) -> (r: LResult<LuauRef>) {
        LuauRef::new(stack, registry, RawValue::new_userdata(self.0))
    }

    fn release_ref(anchor: LuauRef, registry: &mut Registry) {
        anchor.release(registry)
    }

    fn raw_value(&self) -> (v: RawValue) {
        RawValue::new_userdata(self.0)
    }
}

impl Userdata {
    /// The full userdata that the host reports to have made, not yet held; where the
    /// host failed, the failure, typed with the value it raised.
    pub fn new(stack: &mut RawStack, registry: &mut Registry, created: NativeResult<Self>) -> (r:
        LResult<Self>)
        ensures
            match protected(created.status, created.output) {
                Ok(value) => r == Ok::<Self, LError>(value) && final(stack)@ == old(stack)@
                    && final(registry)@ == old(registry)@,
                Err(status) => r matches Err(e) && classified(
                    false,
                    status,
                    created.raised,
                    old(stack)@,
                    old(registry)@,
                    final(stack)@,
                    final(registry)@,
                    e,
                ),
            },
    {
        LError::settle(stack, registry, false, created)
    }

    /// The full userdata block behind a handle.
    pub fn from_raw(raw: RawUserdata) -> (r: Self)
        ensures
            r.0 == raw,
    {
        Userdata(raw)
    }

    /// The handle of the full userdata block.
    pub fn raw(&self) -> (r: RawUserdata)
        ensures
            r == self.0,
    {
        self.0
    }
}

} // verus!
