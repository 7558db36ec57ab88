//! Values whose kind is known only at run time.

use vstd::prelude::*;

use crate::vm::error::LResult;
use crate::vm::raw::registry::Registry;
use crate::vm::raw::stack::RawStack;
use crate::vm::raw::value::{RawValue, RawValueData, RawValueTag};
use crate::vm::value::boolean::Boolean;
use crate::vm::value::buffer::Buffer;
use crate::vm::value::closure::Closure;
use crate::vm::value::gc::{Datatype, LuauRef};
use crate::vm::value::lightuserdata::LightUserdata;
use crate::vm::value::nil::Nil;
use crate::vm::value::number::Number;
use crate::vm::value::string::LString;
use crate::vm::value::table::Table;
use crate::vm::value::thread::Thread;
use crate::vm::value::userdata::Userdata;
use crate::vm::value::vector::Vector;

verus! {

/// A value of any kind, wrapped as the kind it is. This is the one checked
/// way from an untyped cell to a typed value: the wrapper is chosen by the
/// cell's tag, so the two cannot disagree.
#[derive(Debug)]
pub enum Dynamic {
    Nil(Nil),
    Boolean(Boolean),
    LightUserdata(LightUserdata),
    Number(Number),
    Vector(Vector),
    String(LString),
    Table(Table),
    Closure(Closure),
    Userdata(Userdata),
    Thread(Thread),
    Buffer(Buffer),
}

impl Datatype for Dynamic {
    type Ref = Option<LuauRef>;

    open spec fn raw_spec(&self) -> RawValue {
        match *self {
            Dynamic::Nil(inner) => inner.raw_spec(),
            Dynamic::Boolean(inner) => inner.raw_spec(),
            Dynamic::LightUserdata(inner) => inner.raw_spec(),
            Dynamic::Number(inner) => inner.raw_spec(),
            Dynamic::Vector(inner) => inner.raw_spec(),
            Dynamic::String(inner) => inner.raw_spec(),
            Dynamic::Table(inner) => inner.raw_spec(),
            Dynamic::Closure(inner) => inner.raw_spec(),
            Dynamic::Userdata(inner) => inner.raw_spec(),
            Dynamic::Thread(inner) => inner.raw_spec(),
            Dynamic::Buffer(inner) => inner.raw_spec(),
        }
    }

    open spec fn handle_of(anchor: &Option<LuauRef>) -> Option<i32> {
        match *anchor {
            Some(held) => Some(held.spec_handle()),
            None => None,
        }
    }

    fn acquire_ref(&self, stack: &mut RawStack, registry: &mut Registry) -> (r: LResult<
        Option<LuauRef>,
    >) {
        match self {
            Dynamic::Nil(inner) => match inner.acquire_ref(stack, registry) {
                Ok(_) => Ok(None),
                Err(e) => Err(e),
            },
            Dynamic::Boolean(inner) => match inner.acquire_ref(stack, registry) {
                Ok(_) => Ok(None),
                Err(e) => Err(e),
            },
            Dynamic::LightUserdata(inner) => match inner.acquire_ref(stack, registry) {
                Ok(_) => Ok(None),
                Err(e) => Err(e),
            },
            Dynamic::Number(inner) => match inner.acquire_ref(stack, registry) {
                Ok(_) => Ok(None),
                Err(e) => Err(e),
            },
            Dynamic::Vector(inner) => match inner.acquire_ref(stack, registry) {
                Ok(_) => Ok(None),
                Err(e) => Err(e),
            },
            Dynamic::String(inner) => match inner.acquire_ref(stack, registry) {
                Ok(anchor) => Ok(Some(anchor)),
                Err(e) => Err(e),
            },
            Dynamic::Table(inner) => match inner.acquire_ref(stack, registry) {
                Ok(anchor) => Ok(Some(anchor)),
                Err(e) => Err(e),
            },
            Dynamic::Closure(inner) => match inner.acquire_ref(stack, registry) {
                Ok(anchor) => Ok(Some(anchor)),
                Err(e) => Err(e),
            },
            Dynamic::Userdata(inner) => match inner.acquire_ref(stack, registry) {
                Ok(anchor) => Ok(Some(anchor)),
                Err(e) => Err(e),
            },
            Dynamic::Thread(inner) => match inner.acquire_ref(stack, registry) {
                Ok(anchor) => Ok(Some(anchor)),
                Err(e) => Err(e),
            },
            Dynamic::Buffer(inner) => match inner.acquire_ref(stack, registry) {
                Ok(anchor) => Ok(Some(anchor)),
                Err(e) => Err(e),
            },
        }
    }

    fn release_ref(anchor: Option<LuauRef>, registry: &mut Registry) {
        match anchor {
            Some(held) => held.release(registry),
            None => {},
        }
    }

    fn raw_value(&self) -> (v: RawValue) {
        match self {
            Dynamic::Nil(inner) => inner.raw_value(),
            Dynamic::Boolean(inner) => inner.raw_value(),
            Dynamic::LightUserdata(inner) => inner.raw_value(),
            Dynamic::Number(inner) => inner.raw_value(),
            Dynamic::Vector(inner) => inner.raw_value(),
            Dynamic::String(inner) => inner.raw_value(),
            Dynamic::Table(inner) => inner.raw_value(),
            Dynamic::Closure(inner) => inner.raw_value(),
            Dynamic::Userdata(inner) => inner.raw_value(),
            Dynamic::Thread(inner) => inner.raw_value(),
            Dynamic::Buffer(inner) => inner.raw_value(),
        }
    }
}

impl Dynamic {
    /// The typed value that a cell holds.
    pub open spec fn spec_from_raw(data: RawValue) -> Dynamic {
        match data.data {
            RawValueData::Nil => Dynamic::Nil(Nil),
            RawValueData::Boolean(b) => Dynamic::Boolean(Boolean(b)),
            RawValueData::LightUserdata(p) => Dynamic::LightUserdata(LightUserdata(p)),
            RawValueData::Number(n) => Dynamic::Number(Number(n)),
            RawValueData::Vector(x, y, z) => Dynamic::Vector(Vector([x, y, z])),
            RawValueData::String(h) => Dynamic::String(LString(h)),
            RawValueData::Table(h) => Dynamic::Table(Table(h)),
            RawValueData::Closure(h) => Dynamic::Closure(Closure(h)),
            RawValueData::Userdata(h) => Dynamic::Userdata(Userdata(h)),
            RawValueData::Thread(h) => Dynamic::Thread(Thread(h)),
            RawValueData::Buffer(h) => Dynamic::Buffer(Buffer(h)),
        }
    }

    /// The kind of the value.
    pub open spec fn spec_tag(&self) -> RawValueTag {
        match *self {
            Dynamic::Nil(_) => RawValueTag::Nil,
            Dynamic::Boolean(_) => RawValueTag::Boolean,
            Dynamic::LightUserdata(_) => RawValueTag::LightUserdata,
            Dynamic::Number(_) => RawValueTag::Number,
            Dynamic::Vector(_) => RawValueTag::Vector,
            Dynamic::String(_) => RawValueTag::String,
            Dynamic::Table(_) => RawValueTag::Table,
            Dynamic::Closure(_) => RawValueTag::Closure,
            Dynamic::Userdata(_) => RawValueTag::Userdata,
            Dynamic::Thread(_) => RawValueTag::Thread,
            Dynamic::Buffer(_) => RawValueTag::Buffer,
        }
    }

    /// The typed value that a cell holds: the wrapper that belongs to the
    /// cell's tag, around the cell's payload.
    #[verifier::when_used_as_spec(spec_from_raw)]
    pub fn from_raw(data: RawValue) -> (r: Self)
        ensures
            r == Self::spec_from_raw(data),
            r.spec_tag() == data.spec_tag(),
            r.raw_spec() == data,
    {
        match *data.data() {
            RawValueData::Nil => Dynamic::Nil(Nil),
            RawValueData::Boolean(b) => Dynamic::Boolean(Boolean(b)),
            RawValueData::LightUserdata(p) => Dynamic::LightUserdata(LightUserdata(p)),
            RawValueData::Number(n) => Dynamic::Number(Number(n)),
            RawValueData::Vector(x, y, z) => Dynamic::Vector(Vector([x, y, z])),
            RawValueData::String(h) => Dynamic::String(LString::from_raw(h)),
            RawValueData::Table(h) => Dynamic::Table(Table::from_raw(h)),
            RawValueData::Closure(h) => Dynamic::Closure(Closure::from_raw(h)),
            RawValueData::Userdata(h) => Dynamic::Userdata(Userdata::from_raw(h)),
            RawValueData::Thread(h) => Dynamic::Thread(Thread::from_raw(h)),
            RawValueData::Buffer(h) => Dynamic::Buffer(Buffer::from_raw(h)),
        }
    }

    /// The kind of the value.
    #[verifier::when_used_as_spec(spec_tag)]
    pub fn tag(&self) -> (t: RawValueTag)
        ensures
            t == self.spec_tag(),
            t == self.raw_spec().spec_tag(),
    {
        match self {
            Dynamic::Nil(_) => RawValueTag::Nil,
            Dynamic::Boolean(_) => RawValueTag::Boolean,
            Dynamic::LightUserdata(_) => RawValueTag::LightUserdata,
            Dynamic::Number(_) => RawValueTag::Number,
            Dynamic::Vector(_) => RawValueTag::Vector,
            Dynamic::String(_) => RawValueTag::String,
            Dynamic::Table(_) => RawValueTag::Table,
            Dynamic::Closure(_) => RawValueTag::Closure,
            Dynamic::Userdata(_) => RawValueTag::Userdata,
            Dynamic::Thread(_) => RawValueTag::Thread,
            Dynamic::Buffer(_) => RawValueTag::Buffer,
        }
    }

    pub open spec fn spec_get_nil(&self) -> Option<Nil> {
        match *self {
            Dynamic::Nil(inner) => Some(inner),
            _ => None,
        }
    }

    /// The value as nil, if that is its kind.
    #[verifier::when_used_as_spec(spec_get_nil)]
    pub fn get_nil(&self) -> (r: Option<Nil>)
        ensures
            r == self.spec_get_nil(),
            r is Some <==> self.spec_tag() == RawValueTag::Nil,
    {
        match self {
            Dynamic::Nil(inner) => Some(*inner),
            _ => None,
        }
    }

    pub open spec fn spec_get_boolean(&self) -> Option<Boolean> {
        match *self {
            Dynamic::Boolean(inner) => Some(inner),
            _ => None,
        }
    }

    /// The value as Boolean, if that is its kind.
    #[verifier::when_used_as_spec(spec_get_boolean)]
    pub fn get_boolean(&self) -> (r: Option<Boolean>)
        ensures
            r == self.spec_get_boolean(),
            r is Some <==> self.spec_tag() == RawValueTag::Boolean,
    {
        match self {
            Dynamic::Boolean(inner) => Some(*inner),
            _ => None,
        }
    }

    pub open spec fn spec_get_lightuserdata(&self) -> Option<LightUserdata> {
        match *self {
            Dynamic::LightUserdata(inner) => Some(inner),
            _ => None,
        }
    }

    /// The value as LightUserdata, if that is its kind.
    #[verifier::when_used_as_spec(spec_get_lightuserdata)]
    pub fn get_lightuserdata(&self) -> (r: Option<LightUserdata>)
        ensures
            r == self.spec_get_lightuserdata(),
            r is Some <==> self.spec_tag() == RawValueTag::LightUserdata,
    {
        match self {
            Dynamic::LightUserdata(inner) => Some(*inner),
            _ => None,
        }
    }

    pub open spec fn spec_get_number(&self) -> Option<Number> {
        match *self {
            Dynamic::Number(inner) => Some(inner),
            _ => None,
        }
    }

    /// The value as Number, if that is its kind.
    #[verifier::when_used_as_spec(spec_get_number)]
    pub fn get_number(&self) -> (r: Option<Number>)
        ensures
            r == self.spec_get_number(),
            r is Some <==> self.spec_tag() == RawValueTag::Number,
    {
        match self {
            Dynamic::Number(inner) => Some(*inner),
            _ => None,
        }
    }

    pub open spec fn spec_get_vector(&self) -> Option<Vector> {
        match *self {
            Dynamic::Vector(inner) => Some(inner),
            _ => None,
        }
    }

    /// The value as Vector, if that is its kind.
    #[verifier::when_used_as_spec(spec_get_vector)]
    pub fn get_vector(&self) -> (r: Option<Vector>)
        ensures
            r == self.spec_get_vector(),
            r is Some <==> self.spec_tag() == RawValueTag::Vector,
    {
        match self {
            Dynamic::Vector(inner) => Some(*inner),
            _ => None,
        }
    }

    pub open spec fn spec_get_string(&self) -> Option<LString> {
        match *self {
            Dynamic::String(inner) => Some(inner),
            _ => None,
        }
    }

    /// The value as LString, if that is its kind.
    #[verifier::when_used_as_spec(spec_get_string)]
    pub fn get_string(&self) -> (r: Option<LString>)
        ensures
            r == self.spec_get_string(),
            r is Some <==> self.spec_tag() == RawValueTag::String,
    {
        match self {
            Dynamic::String(inner) => Some(LString::from_raw(inner.raw())),
            _ => None,
        }
    }

    pub open spec fn spec_get_table(&self) -> Option<Table> {
        match *self {
            Dynamic::Table(inner) => Some(inner),
            _ => None,
        }
    }

    /// The value as Table, if that is its kind.
    #[verifier::when_used_as_spec(spec_get_table)]
    pub fn get_table(&self) -> (r: Option<Table>)
        ensures
            r == self.spec_get_table(),
            r is Some <==> self.spec_tag() == RawValueTag::Table,
    {
        match self {
            Dynamic::Table(inner) => Some(Table::from_raw(inner.raw())),
            _ => None,
        }
    }

    pub open spec fn spec_get_closure(&self) -> Option<Closure> {
        match *self {
            Dynamic::Closure(inner) => Some(inner),
            _ => None,
        }
    }

    /// The value as Closure, if that is its kind.
    #[verifier::when_used_as_spec(spec_get_closure)]
    pub fn get_closure(&self) -> (r: Option<Closure>)
        ensures
            r == self.spec_get_closure(),
            r is Some <==> self.spec_tag() == RawValueTag::Closure,
    {
        match self {
            Dynamic::Closure(inner) => Some(Closure::from_raw(inner.raw())),
            _ => None,
        }
    }

    pub open spec fn spec_get_userdata(&self) -> Option<Userdata> {
        match *self {
            Dynamic::Userdata(inner) => Some(inner),
            _ => None,
        }
    }

    /// The value as Userdata, if that is its kind.
    #[verifier::when_used_as_spec(spec_get_userdata)]
    pub fn get_userdata(&self) -> (r: Option<Userdata>)
        ensures
            r == self.spec_get_userdata(),
            r is Some <==> self.spec_tag() == RawValueTag::Userdata,
    {
        match self {
            Dynamic::Userdata(inner) => Some(Userdata::from_raw(inner.raw())),
            _ => None,
        }
    }

    pub open spec fn spec_get_thread(&self) -> Option<Thread> {
        match *self {
            Dynamic::Thread(inner) => Some(inner),
            _ => None,
        }
    }

    /// The value as Thread, if that is its kind.
    #[verifier::when_used_as_spec(spec_get_thread)]
    pub fn get_thread(&self) -> (r: Option<Thread>)
        ensures
            r == self.spec_get_thread(),
            r is Some <==> self.spec_tag() == RawValueTag::Thread,
    {
        match self {
            Dynamic::Thread(inner) => Some(Thread::from_raw(inner.raw())),
            _ => None,
        }
    }

    pub open spec fn spec_get_buffer(&self) -> Option<Buffer> {
        match *self {
            Dynamic::Buffer(inner) => Some(inner),
            _ => None,
        }
    }

    /// The value as Buffer, if that is its kind.
    #[verifier::when_used_as_spec(spec_get_buffer)]
    pub fn get_buffer(&self) -> (r: Option<Buffer>)
        ensures
            r == self.spec_get_buffer(),
            r is Some <==> self.spec_tag() == RawValueTag::Buffer,
    {
        match self {
            Dynamic::Buffer(inner) => Some(Buffer::from_raw(inner.raw())),
            _ => None,
        }
    }

    /// A cell read as a typed value answers to the accessor of its own kind
    /// with the payload it was made with, and to no other accessor.
    pub proof fn lemma_round_trip(data: RawValue)
        ensures
            Self::spec_from_raw(data).spec_tag() == data.spec_tag(),
            Self::spec_from_raw(data).raw_spec() == data,
            Self::spec_from_raw(data).spec_get_nil() is Some <==> data.spec_tag() == RawValueTag::Nil,
            Self::spec_from_raw(data).spec_get_boolean() is Some <==> data.spec_tag() == RawValueTag::Boolean,
            Self::spec_from_raw(data).spec_get_lightuserdata() is Some <==> data.spec_tag() == RawValueTag::LightUserdata,
            Self::spec_from_raw(data).spec_get_number() is Some <==> data.spec_tag() == RawValueTag::Number,
            Self::spec_from_raw(data).spec_get_vector() is Some <==> data.spec_tag() == RawValueTag::Vector,
            Self::spec_from_raw(data).spec_get_string() is Some <==> data.spec_tag() == RawValueTag::String,
            Self::spec_from_raw(data).spec_get_table() is Some <==> data.spec_tag() == RawValueTag::Table,
            Self::spec_from_raw(data).spec_get_closure() is Some <==> data.spec_tag() == RawValueTag::Closure,
            Self::spec_from_raw(data).spec_get_userdata() is Some <==> data.spec_tag() == RawValueTag::Userdata,
            Self::spec_from_raw(data).spec_get_thread() is Some <==> data.spec_tag() == RawValueTag::Thread,
            Self::spec_from_raw(data).spec_get_buffer() is Some <==> data.spec_tag() == RawValueTag::Buffer,
    {
    }
}

} // verus!
