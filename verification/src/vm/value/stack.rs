//! Values as they sit on a stack, and how they are shown.

use vstd::prelude::*;
use vstd::string::StringExecFns;

use crate::text::{hex_string, hexadecimal};
use crate::vm::raw::state::LuaState;
use crate::vm::raw::value::{RawValue, RawValueData};

verus! {

/// A value as it sits on a stack: a payload with its kind, and nothing that
/// would keep the object behind it alive. It is safe to look at while it is
/// on the stack, and to make a held value of.
pub type StackValue = RawValueData;

/// How an address is shown: `0x` and the address in hexadecimal.
pub open spec fn address_text(addr: usize) -> Seq<char> {
    "0x"@ + hexadecimal(addr as nat)
}

/// How a kind with an address is shown: the kind and, in parentheses, the
/// address.
pub open spec fn tagged_text(kind: Seq<char>, addr: usize) -> Seq<char> {
    kind + "("@ + address_text(addr) + ")"@
}

/// Shows a kind with an address.
fn show_tagged(kind: &str, addr: usize) -> (s: String)
    ensures
        s@ == tagged_text(kind@, addr),
{
    let mut s = String::from_str(kind);
    s.append("(");
    s.append("0x");
    let digits = hex_string(addr);
    s.append(digits.as_str());
    s.append(")");
    proof {
        assert(s@ =~= tagged_text(kind@, addr));
    }
    s
}

impl RawValueData {
    /// Whether the value designates an object that the collector owns:
    /// false for nil, booleans, light userdata, numbers and vectors, true
    /// for strings, tables, closures, full userdata, threads and buffers.
    pub fn is_collectible(&self) -> (r: bool)
        ensures
            r == self.spec_tag().spec_is_collectible(),
    {
        self.tag().is_collectible()
    }

    /// The values in use on a thread's stack, bottom first.
    pub fn stack<TD>(state: &LuaState<TD>) -> (values: Vec<StackValue>)
        ensures
            values@ == state.stack@.live().map_values(|cell: RawValue| cell.data),
    {
        let cells = state.stack.used_slice();
        let mut values: Vec<StackValue> = Vec::new();
        let mut i: usize = 0;
        while i < cells.len()
            invariant
                i <= cells@.len(),
                values@.len() == i,
                forall|k: int| 0 <= k < i ==> values@[k] == cells@[k].data,
            decreases cells@.len() - i,
        {
            values.push(*cells[i].data());
            i = i + 1;
        }
        proof {
            assert(values@ =~= state.stack@.live().map_values(|cell: RawValue| cell.data));
        }
        values
    }

    /// How the value is shown, for every kind whose text is made of the
    /// kind's name, a boolean and an address alone. A number and a vector
    /// are shown by their floats and a string by its contents, which are not
    /// in the cell: for these there is no text here.
    pub open spec fn plain_text(&self) -> Option<Seq<char>> {
        match *self {
            RawValueData::Nil => Some("Nil"@),
            RawValueData::Boolean(b) => Some(
                if b {
                    "Boolean(true)"@
                } else {
                    "Boolean(false)"@
                },
            ),
            RawValueData::LightUserdata(p) => Some(tagged_text("LightUserdata"@, p)),
            RawValueData::Number(_) => None,
            RawValueData::Vector(_, _, _) => None,
            RawValueData::String(_) => None,
            RawValueData::Table(h) => Some(tagged_text("Table"@, h.addr())),
            RawValueData::Closure(h) => Some(tagged_text("Function"@, h.addr())),
            RawValueData::Userdata(h) => Some(tagged_text("Userdata"@, h.addr())),
            RawValueData::Thread(h) => Some(tagged_text("Thread"@, h.addr())),
            RawValueData::Buffer(h) => Some(tagged_text("Buffer"@, h.addr())),
        }
    }

    /// The value as text, such as `Boolean(true)` or `Table(0x7f00)`; `None`
    /// for a number, a vector and a string.
    pub fn show_plain(&self) -> (s: Option<String>)
        ensures
            s is Some <==> self.plain_text() is Some,
            s matches Some(text) ==> text@ == self.plain_text().unwrap(),
    {
        match self {
            RawValueData::Nil => Some(String::from_str("Nil")),
            RawValueData::Boolean(b) => Some(
                if *b {
                    String::from_str("Boolean(true)")
                } else {
                    String::from_str("Boolean(false)")
                },
            ),
            RawValueData::LightUserdata(p) => Some(show_tagged("LightUserdata", *p)),
            RawValueData::Number(_) => None,
            RawValueData::Vector(_, _, _) => None,
            RawValueData::String(_) => None,
            RawValueData::Table(h) => Some(show_tagged("Table", h.ptr())),
            RawValueData::Closure(h) => Some(show_tagged("Function", h.ptr())),
            RawValueData::Userdata(h) => Some(show_tagged("Userdata", h.ptr())),
            RawValueData::Thread(h) => Some(show_tagged("Thread", h.ptr())),
            RawValueData::Buffer(h) => Some(show_tagged("Buffer", h.ptr())),
        }
    }
}

} // verus!
