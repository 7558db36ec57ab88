//! Byte buffers.

use vstd::prelude::*;

use crate::vm::error::{classified, protected, LError, LResult, NativeResult};
use crate::vm::raw::registry::Registry;
use crate::vm::raw::stack::RawStack;
use crate::vm::raw::buffer::RawBuffer;
use crate::vm::raw::value::{RawValue, RawValueData};
use crate::vm::value::gc::{Datatype, LuauRef};

verus! {

/// A value known to be a byte buffer.
#[derive(Debug)]
pub struct Buffer(pub RawBuffer);

impl Datatype for Buffer {
    type Ref = LuauRef;

    open spec fn raw_spec(&self) -> RawValue {
        RawValue { data: RawValueData::Buffer(self.0) }
    }

    open spec fn handle_of(anchor: &LuauRef) -> Option<i32> {
        Some(anchor.spec_handle())
    }

    fn acquire_ref(&self, stack: &mut RawStack, registry: &mut Registry) -> (r: LResult<LuauRef>) {
        LuauRef::new(stack, registry, RawValue::new_buffer(self.0))
    }

    fn release_ref(anchor: LuauRef, registry: &mut Registry) {
        anchor.release(registry)
    }

    fn raw_value(&self) -> (v: RawValue) {
        RawValue::new_buffer(self.0)
    }
}

impl Buffer {
    /// The buffer that the host reports to have made, not yet held; where the
    /// host failed, the failure, typed with the value it raised.
    pub fn new(stack: &mut RawStack, registry: &mut Registry, created: NativeResult<Self>) -> (r:
        LResult<Self>)
        ensures
            match protected(created.status, created.output) {
                Ok(value) => r == Ok::<Self, LError>(value) && final(stack)@ == old(stack)@
                    && final(registry)@ == old(registry)@,
                Err(status) => r matches Err(e) && classified(
                    false,
                    status,
                    created.raised,
                    old(stack)@,
                    old(registry)@,
                    final(stack)@,
                    final(registry)@,
                    e,
                ),
            },
    {
        LError::settle(stack, registry, false, created)
    }

    /// The byte buffer behind a handle.
    pub fn from_raw(raw: RawBuffer) -> (r: Self)
        ensures
            r.0 == raw,
    {
        Buffer(raw)
    }

    /// The handle of the byte buffer.
    pub fn raw(&self) -> (r: RawBuffer)
        ensures
            r == self.0,
    {
        self.0
    }
}

} // verus!
