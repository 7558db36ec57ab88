//! Tagged value cells: the eleven kinds of value, the payload each carries,
//! and the conversion to and from the host VM's own cell layout.

use vstd::prelude::*;

use crate::native::{LuaType, TValue};
use crate::vm::raw::buffer::RawBuffer;
use crate::vm::raw::closure::RawClosure;
use crate::vm::raw::string::RawString;
use crate::vm::raw::table::RawTable;
use crate::vm::raw::thread::RawThread;
use crate::vm::raw::userdata::RawUserdata;

verus! {

/// The kind of a value. Five kinds are stored inline in the cell; the other
/// six designate an object that the collector owns.
#[derive(Copy, Clone, PartialEq, Eq, Debug, Structural)]
pub enum RawValueTag {
    Nil,
    Boolean,
    LightUserdata,
    Number,
    Vector,
    String,
    Table,
    Closure,
    Userdata,
    Thread,
    Buffer,
}

impl Default for RawValueTag {
    fn default() -> (r: Self)
        ensures
            r == RawValueTag::Nil,
    {
        RawValueTag::Nil
    }
}

impl From<LuaType> for RawValueTag {
    /// The kind of value that a native type code stands for. The three codes
    /// that never reach a stack read as nil.
    fn from(value: LuaType) -> (r: Self) {
        match value {
            LuaType::Nil => RawValueTag::Nil,
            LuaType::Boolean => RawValueTag::Boolean,
            LuaType::LightUserdata => RawValueTag::LightUserdata,
            LuaType::Number => RawValueTag::Number,
            LuaType::Vector => RawValueTag::Vector,
            LuaType::String => RawValueTag::String,
            LuaType::Table => RawValueTag::Table,
            LuaType::Function => RawValueTag::Closure,
            LuaType::Userdata => RawValueTag::Userdata,
            LuaType::Thread => RawValueTag::Thread,
            LuaType::Buffer => RawValueTag::Buffer,
            LuaType::Proto | LuaType::Upval | LuaType::DeadKey => RawValueTag::Nil,
        }
    }
}

impl vstd::std_specs::convert::FromSpecImpl<LuaType> for RawValueTag {
    open spec fn obeys_from_spec() -> bool {
        true
    }

    open spec fn from_spec(value: LuaType) -> Self {
        match value {
            LuaType::Nil => RawValueTag::Nil,
            LuaType::Boolean => RawValueTag::Boolean,
            LuaType::LightUserdata => RawValueTag::LightUserdata,
            LuaType::Number => RawValueTag::Number,
            LuaType::Vector => RawValueTag::Vector,
            LuaType::String => RawValueTag::String,
            LuaType::Table => RawValueTag::Table,
            LuaType::Function => RawValueTag::Closure,
            LuaType::Userdata => RawValueTag::Userdata,
            LuaType::Thread => RawValueTag::Thread,
            LuaType::Buffer => RawValueTag::Buffer,
            LuaType::Proto => RawValueTag::Nil,
            LuaType::Upval => RawValueTag::Nil,
            LuaType::DeadKey => RawValueTag::Nil,
        }
    }
}

impl From<RawValueTag> for LuaType {
    /// The native type code of a kind of value.
    fn from(value: RawValueTag) -> (r: Self) {
        match value {
            RawValueTag::Nil => LuaType::Nil,
            RawValueTag::Boolean => LuaType::Boolean,
            RawValueTag::LightUserdata => LuaType::LightUserdata,
            RawValueTag::Number => LuaType::Number,
            RawValueTag::Vector => LuaType::Vector,
            RawValueTag::String => LuaType::String,
            RawValueTag::Table => LuaType::Table,
            RawValueTag::Closure => LuaType::Function,
            RawValueTag::Userdata => LuaType::Userdata,
            RawValueTag::Thread => LuaType::Thread,
            RawValueTag::Buffer => LuaType::Buffer,
        }
    }
}

impl vstd::std_specs::convert::FromSpecImpl<RawValueTag> for LuaType {
    open spec fn obeys_from_spec() -> bool {
        true
    }

    open spec fn from_spec(value: RawValueTag) -> Self {
        match value {
            RawValueTag::Nil => LuaType::Nil,
            RawValueTag::Boolean => LuaType::Boolean,
            RawValueTag::LightUserdata => LuaType::LightUserdata,
            RawValueTag::Number => LuaType::Number,
            RawValueTag::Vector => LuaType::Vector,
            RawValueTag::String => LuaType::String,
            RawValueTag::Table => LuaType::Table,
            RawValueTag::Closure => LuaType::Function,
            RawValueTag::Userdata => LuaType::Userdata,
            RawValueTag::Thread => LuaType::Thread,
            RawValueTag::Buffer => LuaType::Buffer,
        }
    }
}

impl RawValueTag {
    /// Whether values of this kind are stored inline, with no object behind
    /// them.
    pub open spec fn spec_is_value(&self) -> bool {
        *self is Nil || *self is Boolean || *self is LightUserdata || *self is Number
            || *self is Vector
    }

    /// Whether values of this kind designate an object that the collector
    /// owns.
    pub open spec fn spec_is_collectible(&self) -> bool {
        *self is String || *self is Table || *self is Closure || *self is Userdata
            || *self is Thread || *self is Buffer
    }

    #[verifier::when_used_as_spec(spec_is_value)]
    pub fn is_value(&self) -> (r: bool)
        ensures
            r == self.spec_is_value(),
            r == !self.spec_is_collectible(),
    {
        matches!(
            self,
            RawValueTag::Nil | RawValueTag::Boolean | RawValueTag::LightUserdata
                | RawValueTag::Number | RawValueTag::Vector
        )
    }

    #[verifier::when_used_as_spec(spec_is_collectible)]
    pub fn is_collectible(&self) -> (r: bool)
        ensures
            r == self.spec_is_collectible(),
            r == !self.spec_is_value(),
    {
        matches!(
            self,
            RawValueTag::String | RawValueTag::Table | RawValueTag::Closure
                | RawValueTag::Userdata | RawValueTag::Thread | RawValueTag::Buffer
        )
    }

    /// A kind of value is recovered from its own native type code.
    pub proof fn lemma_lua_type_round_trip(tag: RawValueTag)
        ensures
            <RawValueTag as vstd::std_specs::convert::FromSpec<LuaType>>::from_spec(
                <LuaType as vstd::std_specs::convert::FromSpec<RawValueTag>>::from_spec(tag),
            ) == tag,
    {
    }
}

/// What a cell carries. A number is held as the bits of a 64-bit float, a
/// vector as the bits of three 32-bit floats, a light userdata as a bare
/// address that may be null; the six collectible kinds hold a handle.
#[derive(Copy, Clone, PartialEq, Eq, Debug, Structural)]
pub enum RawValueData {
    Nil,
    Boolean(bool),
    LightUserdata(usize),
    Number(u64),
    Vector(u32, u32, u32),
    String(RawString),
    Table(RawTable),
    Closure(RawClosure),
    Userdata(RawUserdata),
    Thread(RawThread),
    Buffer(RawBuffer),
}

impl RawValueData {
    /// The kind of value that this payload belongs to.
    pub open spec fn spec_tag(&self) -> RawValueTag {
        match *self {
            RawValueData::Nil => RawValueTag::Nil,
            RawValueData::Boolean(_) => RawValueTag::Boolean,
            RawValueData::LightUserdata(_) => RawValueTag::LightUserdata,
            RawValueData::Number(_) => RawValueTag::Number,
            RawValueData::Vector(_, _, _) => RawValueTag::Vector,
            RawValueData::String(_) => RawValueTag::String,
            RawValueData::Table(_) => RawValueTag::Table,
            RawValueData::Closure(_) => RawValueTag::Closure,
            RawValueData::Userdata(_) => RawValueTag::Userdata,
            RawValueData::Thread(_) => RawValueTag::Thread,
            RawValueData::Buffer(_) => RawValueTag::Buffer,
        }
    }

    #[verifier::when_used_as_spec(spec_tag)]
    pub fn tag(&self) -> (t: RawValueTag)
        ensures
            t == self.spec_tag(),
    {
        match self {
            RawValueData::Nil => RawValueTag::Nil,
            RawValueData::Boolean(_) => RawValueTag::Boolean,
            RawValueData::LightUserdata(_) => RawValueTag::LightUserdata,
            RawValueData::Number(_) => RawValueTag::Number,
            RawValueData::Vector(_, _, _) => RawValueTag::Vector,
            RawValueData::String(_) => RawValueTag::String,
            RawValueData::Table(_) => RawValueTag::Table,
            RawValueData::Closure(_) => RawValueTag::Closure,
            RawValueData::Userdata(_) => RawValueTag::Userdata,
            RawValueData::Thread(_) => RawValueTag::Thread,
            RawValueData::Buffer(_) => RawValueTag::Buffer,
        }
    }
}

/// A tagged value cell. The tag is read off the payload, so the two cannot
/// disagree. A cell says nothing of lifetimes: the object behind a
/// collectible cell may be gone unless something else anchors it.
#[derive(Copy, Clone, PartialEq, Eq, Debug, Structural)]
pub struct RawValue {
    pub data: RawValueData,
}

/// The low word of a native payload.
pub open spec fn low_word(value: u64) -> u32 {
    (value & 0xffff_ffff) as u32
}

/// The high word of a native payload.
pub open spec fn high_word(value: u64) -> u32 {
    (value >> 32) as u32
}

/// The native payload with the given low and high words.
pub open spec fn join_words(low: u32, high: u32) -> u64 {
    (low as u64) | ((high as u64) << 32)
}

/// Splitting a payload made of two words gives the two words back.
pub proof fn lemma_words_round_trip(low: u32, high: u32)
    ensures
        low_word(join_words(low, high)) == low,
        high_word(join_words(low, high)) == high,
{
    assert((((low as u64) | ((high as u64) << 32)) & 0xffff_ffff) as u32 == low) by (bit_vector);
    assert((((low as u64) | ((high as u64) << 32)) >> 32) as u32 == high) by (bit_vector);
}

impl RawValue {
    /// The cell with the given payload, whose kind the caller names.
    pub fn new(data: RawValueData, tag: RawValueTag) -> (r: Self)
        requires
            data.spec_tag() == tag,
        ensures
            r.data == data,
            r.spec_tag() == tag,
    {
        RawValue { data }
    }

    pub fn new_nil() -> (r: Self)
        ensures
            r.data == RawValueData::Nil,
    {
        RawValue { data: RawValueData::Nil }
    }

    pub fn new_boolean(value: bool) -> (r: Self)
        ensures
            r.data == RawValueData::Boolean(value),
    {
        RawValue { data: RawValueData::Boolean(value) }
    }

    pub fn new_lightuserdata(value: usize) -> (r: Self)
        ensures
            r.data == RawValueData::LightUserdata(value),
    {
        RawValue { data: RawValueData::LightUserdata(value) }
    }

    /// A number, given as the bits of a 64-bit float.
    pub fn new_number(value: u64) -> (r: Self)
        ensures
            r.data == RawValueData::Number(value),
    {
        RawValue { data: RawValueData::Number(value) }
    }

    /// A vector, given as the bits of its three 32-bit floats.
    pub fn new_vector(value: [u32; 3]) -> (r: Self)
        ensures
            r.data == RawValueData::Vector(value[0], value[1], value[2]),
    {
        RawValue { data: RawValueData::Vector(value[0], value[1], value[2]) }
    }

    pub fn new_string(value: RawString) -> (r: Self)
        ensures
            r.data == RawValueData::String(value),
    {
        RawValue { data: RawValueData::String(value) }
    }

    pub fn new_table(value: RawTable) -> (r: Self)
        ensures
            r.data == RawValueData::Table(value),
    {
        RawValue { data: RawValueData::Table(value) }
    }

    pub fn new_closure(value: RawClosure) -> (r: Self)
        ensures
            r.data == RawValueData::Closure(value),
    {
        RawValue { data: RawValueData::Closure(value) }
    }

    pub fn new_userdata(value: RawUserdata) -> (r: Self)
        ensures
            r.data == RawValueData::Userdata(value),
    {
        RawValue { data: RawValueData::Userdata(value) }
    }

    pub fn new_thread(value: RawThread) -> (r: Self)
        ensures
            r.data == RawValueData::Thread(value),
    {
        RawValue { data: RawValueData::Thread(value) }
    }

    pub fn new_buffer(value: RawBuffer) -> (r: Self)
        ensures
            r.data == RawValueData::Buffer(value),
    {
        RawValue { data: RawValueData::Buffer(value) }
    }

    /// The nil cell, which is also what an all-zero cell reads as.
    pub open spec fn nil() -> Self {
        RawValue { data: RawValueData::Nil }
    }

    /// The kind of the value in the cell.
    pub open spec fn spec_tag(&self) -> RawValueTag {
        self.data.spec_tag()
    }

    pub fn data(&self) -> (d: &RawValueData)
        ensures
            *d == self.data,
    {
        &self.data
    }

    #[verifier::when_used_as_spec(spec_tag)]
    pub fn tag(&self) -> (t: RawValueTag)
        ensures
            t == self.spec_tag(),
    {
        self.data.tag()
    }

    pub open spec fn spec_is_value_type(&self) -> bool {
        self.spec_tag().spec_is_value()
    }

    pub open spec fn spec_is_collectible(&self) -> bool {
        self.spec_tag().spec_is_collectible()
    }

    /// Whether the value is stored inline in the cell.
    #[verifier::when_used_as_spec(spec_is_value_type)]
    pub fn is_value_type(&self) -> (r: bool)
        ensures
            r == self.spec_is_value_type(),
    {
        self.tag().is_value()
    }

    /// Whether the value designates an object that the collector owns.
    #[verifier::when_used_as_spec(spec_is_collectible)]
    pub fn is_collectible(&self) -> (r: bool)
        ensures
            r == self.spec_is_collectible(),
    {
        self.tag().is_collectible()
    }

    /// The address in a collectible cell, 0 for an inline value.
    pub open spec fn object_addr(&self) -> usize {
        match self.data {
            RawValueData::String(h) => h.addr(),
            RawValueData::Table(h) => h.addr(),
            RawValueData::Closure(h) => h.addr(),
            RawValueData::Userdata(h) => h.addr(),
            RawValueData::Thread(h) => h.addr(),
            RawValueData::Buffer(h) => h.addr(),
            _ => 0,
        }
    }

    /// The cell as the host VM lays it out. A boolean is the word 1 or 0, a
    /// vector has its first two components in the payload and the third in
    /// the spare word, a collectible value is the address of its object.
    pub open spec fn spec_to_tvalue(&self) -> TValue {
        let tt = <LuaType as vstd::std_specs::convert::FromSpec<RawValueTag>>::from_spec(
            self.spec_tag(),
        ).spec_code();
        match self.data {
            RawValueData::Nil => TValue { value: 0, extra: 0, tt },
            RawValueData::Boolean(b) => TValue { value: if b { 1 } else { 0 }, extra: 0, tt },
            RawValueData::LightUserdata(p) => TValue { value: p as u64, extra: 0, tt },
            RawValueData::Number(n) => TValue { value: n, extra: 0, tt },
            RawValueData::Vector(x, y, z) => TValue { value: join_words(x, y), extra: z, tt },
            _ => TValue { value: self.object_addr() as u64, extra: 0, tt },
        }
    }

    /// The value in a native cell: `None` where the tag word names no kind of
    /// value that can sit on a stack, or where a collectible cell holds the
    /// null address.
    pub open spec fn spec_from_tvalue(cell: TValue) -> Option<RawValue> {
        let addr = cell.value as usize;
        if cell.tt == 0 {
            Some(RawValue { data: RawValueData::Nil })
        } else if cell.tt == 1 {
            Some(RawValue { data: RawValueData::Boolean(low_word(cell.value) != 0) })
        } else if cell.tt == 2 {
            Some(RawValue { data: RawValueData::LightUserdata(addr) })
        } else if cell.tt == 3 {
            Some(RawValue { data: RawValueData::Number(cell.value) })
        } else if cell.tt == 4 {
            Some(
                RawValue {
                    data: RawValueData::Vector(
                        low_word(cell.value),
                        high_word(cell.value),
                        cell.extra,
                    ),
                },
            )
        } else if addr == 0 {
            None
        } else if cell.tt == 5 {
            Some(RawValue { data: RawValueData::String(RawString::at(addr)) })
        } else if cell.tt == 6 {
            Some(RawValue { data: RawValueData::Table(RawTable::at(addr)) })
        } else if cell.tt == 7 {
            Some(RawValue { data: RawValueData::Closure(RawClosure::at(addr)) })
        } else if cell.tt == 8 {
            Some(RawValue { data: RawValueData::Userdata(RawUserdata::at(addr)) })
        } else if cell.tt == 9 {
            Some(RawValue { data: RawValueData::Thread(RawThread::at(addr)) })
        } else if cell.tt == 10 {
            Some(RawValue { data: RawValueData::Buffer(RawBuffer::at(addr)) })
        } else {
            None
        }
    }

    #[verifier::when_used_as_spec(spec_to_tvalue)]
    pub fn to_tvalue(&self) -> (cell: TValue)
        ensures
            cell == self.spec_to_tvalue(),
    {
        let tt = LuaType::from(self.tag()).code();
        match self.data {
            RawValueData::Nil => TValue { value: 0, extra: 0, tt },
            RawValueData::Boolean(b) => TValue { value: if b { 1 } else { 0 }, extra: 0, tt },
            RawValueData::LightUserdata(p) => TValue { value: p as u64, extra: 0, tt },
            RawValueData::Number(n) => TValue { value: n, extra: 0, tt },
            RawValueData::Vector(x, y, z) => TValue {
                value: (x as u64) | ((y as u64) << 32),
                extra: z,
                tt,
            },
            RawValueData::String(h) => TValue { value: h.ptr() as u64, extra: 0, tt },
            RawValueData::Table(h) => TValue { value: h.ptr() as u64, extra: 0, tt },
            RawValueData::Closure(h) => TValue { value: h.ptr() as u64, extra: 0, tt },
            RawValueData::Userdata(h) => TValue { value: h.ptr() as u64, extra: 0, tt },
            RawValueData::Thread(h) => TValue { value: h.ptr() as u64, extra: 0, tt },
            RawValueData::Buffer(h) => TValue { value: h.ptr() as u64, extra: 0, tt },
        }
    }

    #[verifier::when_used_as_spec(spec_from_tvalue)]
    pub fn from_tvalue(cell: TValue) -> (r: Option<RawValue>)
        ensures
            r == Self::spec_from_tvalue(cell),
    {
        let addr: usize = #[verifier::truncate] (cell.value as usize);
        let low: u32 = #[verifier::truncate] ((cell.value & 0xffff_ffff) as u32);
        let high: u32 = #[verifier::truncate] ((cell.value >> 32) as u32);
        match cell.tt {
            0 => Some(RawValue::new_nil()),
            1 => Some(RawValue::new_boolean(low != 0)),
            2 => Some(RawValue::new_lightuserdata(addr)),
            3 => Some(RawValue::new_number(cell.value)),
            4 => Some(RawValue { data: RawValueData::Vector(low, high, cell.extra) }),
            5 => match RawString::from(addr) {
                Some(h) => Some(RawValue::new_string(h)),
                None => None,
            },
            6 => match RawTable::from(addr) {
                Some(h) => Some(RawValue::new_table(h)),
                None => None,
            },
            7 => match RawClosure::from(addr) {
                Some(h) => Some(RawValue::new_closure(h)),
                None => None,
            },
            8 => match RawUserdata::from(addr) {
                Some(h) => Some(RawValue::new_userdata(h)),
                None => None,
            },
            9 => match RawThread::from(addr) {
                Some(h) => Some(RawValue::new_thread(h)),
                None => None,
            },
            10 => match RawBuffer::from(addr) {
                Some(h) => Some(RawValue::new_buffer(h)),
                None => None,
            },
            _ => None,
        }
    }

    /// Whether no handle in the cell is null. Every cell that executable code
    /// holds is so.
    pub open spec fn nonnull(&self) -> bool {
        self.spec_is_collectible() ==> self.object_addr() != 0
    }

    /// Writing a cell in the native layout and reading it back gives the
    /// cell, bit for bit.
    pub proof fn lemma_tvalue_round_trip(v: RawValue)
        requires
            v.nonnull(),
        ensures
            Self::spec_from_tvalue(v.spec_to_tvalue()) == Some(v),
    {
        let cell = v.spec_to_tvalue();
        match v.data {
            RawValueData::Nil => {},
            RawValueData::Boolean(b) => {
                assert(low_word(1) == 1 && low_word(0) == 0) by {
                    assert((1u64 & 0xffff_ffff) as u32 == 1u32) by (bit_vector);
                    assert((0u64 & 0xffff_ffff) as u32 == 0u32) by (bit_vector);
                }
            },
            RawValueData::LightUserdata(p) => {},
            RawValueData::Number(n) => {},
            RawValueData::Vector(x, y, z) => {
                lemma_words_round_trip(x, y);
            },
            RawValueData::String(h) => {
                RawString::lemma_at_addr(h);
            },
            RawValueData::Table(h) => {
                RawTable::lemma_at_addr(h);
            },
            RawValueData::Closure(h) => {
                RawClosure::lemma_at_addr(h);
            },
            RawValueData::Userdata(h) => {
                RawUserdata::lemma_at_addr(h);
            },
            RawValueData::Thread(h) => {
                RawThread::lemma_at_addr(h);
            },
            RawValueData::Buffer(h) => {
                RawBuffer::lemma_at_addr(h);
            },
        }
    }
}

} // verus!
