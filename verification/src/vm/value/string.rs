//! Strings.

use vstd::prelude::*;
use vstd::string::StringExecFns;

use crate::vm::error::{classified, protected, LError, LResult, NativeResult};
use crate::vm::raw::registry::Registry;
use crate::vm::raw::stack::RawStack;
use crate::vm::raw::string::RawString;
use crate::vm::raw::value::{RawValue, RawValueData};
use crate::vm::value::gc::{Datatype, LuauRef};

verus! {

/// A value known to be a string.
#[derive(Debug)]
pub struct LString(pub RawString);

impl Datatype for LString {
    type Ref = LuauRef;

    open spec fn raw_spec(&self) -> RawValue {
        RawValue { data: RawValueData::String(self.0) }
    }

    open spec fn handle_of(anchor: &LuauRef) -> Option<i32> {
        Some(anchor.spec_handle())
    }

    fn acquire_ref(&self, stack: &mut RawStack, registry: &mut Registry) -> (r: LResult<LuauRef>) {
        LuauRef::new(stack, registry, RawValue::new_string(self.0))
    }

    fn release_ref(anchor: LuauRef, registry: &mut Registry) {
        anchor.release(registry)
    }

    fn raw_value(&self) -> (v: RawValue) {
        RawValue::new_string(self.0)
    }
}

impl LString {
    /// The string that the host reports to have made, not yet held; where the
    /// host failed, the failure, typed with the value it raised.
    pub fn new(stack: &mut RawStack, registry: &mut Registry, created: NativeResult<Self>) -> (r:
        LResult<Self>)
        ensures
            match protected(created.status, created.output) {
                Ok(value) => r == Ok::<Self, LError>(value) && final(stack)@ == old(stack)@
                    && final(registry)@ == old(registry)@,
                Err(status) => r matches Err(e) && classified(
                    false,
                    status,
                    created.raised,
                    old(stack)@,
                    old(registry)@,
                    final(stack)@,
                    final(registry)@,
                    e,
                ),
            },
    {
        LError::settle(stack, registry, false, created)
    }

    /// The string behind a handle.
    pub fn from_raw(raw: RawString) -> (r: Self)
        ensures
            r.0 == raw,
    {
        LString(raw)
    }

    /// The handle of the string.
    pub fn raw(&self) -> (r: RawString)
        ensures
            r == self.0,
    {
        self.0
    }
}

/// The text that `bstr` gives for a byte string when it is formatted for
/// debugging: the bytes between double quotes, with what is not printable
/// or not valid UTF-8 written as escapes.
pub uninterp spec fn bstr_debug(bytes: Seq<u8>) -> Seq<char>;

/// The `Debug` form of `bstr::BStr`. The result depends on the bytes alone.
#[verifier::external_body]
fn debug_bytes(bytes: &[u8]) -> (s: String)
    ensures
        s@ == bstr_debug(bytes@),
{
    format!("{:?}", bstr::BStr::new(bytes))
}

impl LString {
    /// How a string with the given contents is shown: the word `String` and,
    /// in parentheses, the contents as `bstr` shows a byte string.
    pub open spec fn shown(bytes: Seq<u8>) -> Seq<char> {
        "String("@ + bstr_debug(bytes) + ")"@
    }

    /// How a string with the given contents is shown, such as
    /// `String("hello")`.
    pub fn show(bytes: &[u8]) -> (s: String)
        ensures
            s@ == Self::shown(bytes@),
    {
        let mut s = String::from_str("String(");
        let contents = debug_bytes(bytes);
        s.append(contents.as_str());
        s.append(")");
        s
    }
}

} // verus!
