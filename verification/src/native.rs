//! Plain-value mirrors of the host VM's binary interface: the type codes and
//! status codes it reports, and the tagged cell in which it stores a value.

use vstd::prelude::*;

verus! {

/// Mark bit that the collector sets on an object it has finished scanning.
pub const BLACK_MASK: u8 = 4;

/// The kind of object a tagged cell of the host VM designates. The last three
/// kinds are internal to the VM and never appear on an evaluation stack.
#[derive(Copy, Clone, PartialEq, Eq, Debug, Structural)]
pub enum LuaType {
    Nil,
    Boolean,
    LightUserdata,
    Number,
    Vector,
    String,
    Table,
    Function,
    Userdata,
    Thread,
    Buffer,
    Proto,
    Upval,
    DeadKey,
}

impl LuaType {
    /// The number the host VM writes into a cell's tag word for this kind.
    pub open spec fn spec_code(self) -> u32 {
        match self {
            LuaType::Nil => 0,
            LuaType::Boolean => 1,
            LuaType::LightUserdata => 2,
            LuaType::Number => 3,
            LuaType::Vector => 4,
            LuaType::String => 5,
            LuaType::Table => 6,
            LuaType::Function => 7,
            LuaType::Userdata => 8,
            LuaType::Thread => 9,
            LuaType::Buffer => 10,
            LuaType::Proto => 11,
            LuaType::Upval => 12,
            LuaType::DeadKey => 13,
        }
    }

    /// The kind that a tag word stands for, if it stands for any.
    pub open spec fn spec_from_code(code: u32) -> Option<LuaType> {
        if code == 0 {
            Some(LuaType::Nil)
        } else if code == 1 {
            Some(LuaType::Boolean)
        } else if code == 2 {
            Some(LuaType::LightUserdata)
        } else if code == 3 {
            Some(LuaType::Number)
        } else if code == 4 {
            Some(LuaType::Vector)
        } else if code == 5 {
            Some(LuaType::String)
        } else if code == 6 {
            Some(LuaType::Table)
        } else if code == 7 {
            Some(LuaType::Function)
        } else if code == 8 {
            Some(LuaType::Userdata)
        } else if code == 9 {
            Some(LuaType::Thread)
        } else if code == 10 {
            Some(LuaType::Buffer)
        } else if code == 11 {
            Some(LuaType::Proto)
        } else if code == 12 {
            Some(LuaType::Upval)
        } else if code == 13 {
            Some(LuaType::DeadKey)
        } else {
            None
        }
    }

    #[verifier::when_used_as_spec(spec_code)]
    pub fn code(self) -> (c: u32)
        ensures
            c == self.spec_code(),
            c <= 13,
    {
        match self {
            LuaType::Nil => 0,
            LuaType::Boolean => 1,
            LuaType::LightUserdata => 2,
            LuaType::Number => 3,
            LuaType::Vector => 4,
            LuaType::String => 5,
            LuaType::Table => 6,
            LuaType::Function => 7,
            LuaType::Userdata => 8,
            LuaType::Thread => 9,
            LuaType::Buffer => 10,
            LuaType::Proto => 11,
            LuaType::Upval => 12,
            LuaType::DeadKey => 13,
        }
    }

    #[verifier::when_used_as_spec(spec_from_code)]
    pub fn from_code(code: u32) -> (t: Option<LuaType>)
        ensures
            t == Self::spec_from_code(code),
            t is Some <==> code <= 13,
    {
        match code {
            0 => Some(LuaType::Nil),
            1 => Some(LuaType::Boolean),
            2 => Some(LuaType::LightUserdata),
            3 => Some(LuaType::Number),
            4 => Some(LuaType::Vector),
            5 => Some(LuaType::String),
            6 => Some(LuaType::Table),
            7 => Some(LuaType::Function),
            8 => Some(LuaType::Userdata),
            9 => Some(LuaType::Thread),
            10 => Some(LuaType::Buffer),
            11 => Some(LuaType::Proto),
            12 => Some(LuaType::Upval),
            13 => Some(LuaType::DeadKey),
            _ => None,
        }
    }

    /// Every kind is recovered from its own tag word.
    pub proof fn lemma_code_round_trip(t: LuaType)
        ensures
            Self::spec_from_code(t.spec_code()) == Some(t),
    {
    }

    /// Two kinds with one tag word are one kind, and a tag word that stands
    /// for a kind is that kind's own.
    pub proof fn lemma_code_injective(code: u32)
        ensures
            Self::spec_from_code(code) matches Some(t) ==> t.spec_code() == code,
    {
    }
}

/// What a call into the host VM reports when it returns.
#[derive(Copy, Clone, PartialEq, Eq, Debug, Structural)]
pub enum LuaStatus {
    /// The call ran to completion.
    Success,
    /// The running coroutine asked to be suspended.
    Yield,
    /// A script raised an error; its message is on top of the stack.
    ErrRun,
    /// The source could not be parsed; the message is on top of the stack.
    ErrSyntax,
    /// An allocation failed.
    ErrMem,
    /// An error was raised while another error was being handled.
    ErrErr,
    /// A debugger breakpoint was hit.
    Break,
}

impl LuaStatus {
    /// The number the host VM returns for this status.
    pub open spec fn spec_code(self) -> u32 {
        match self {
            LuaStatus::Success => 0,
            LuaStatus::Yield => 1,
            LuaStatus::ErrRun => 2,
            LuaStatus::ErrSyntax => 3,
            LuaStatus::ErrMem => 4,
            LuaStatus::ErrErr => 5,
            LuaStatus::Break => 6,
        }
    }

    /// The status that a returned number stands for, if it stands for any.
    pub open spec fn spec_from_code(code: u32) -> Option<LuaStatus> {
        if code == 0 {
            Some(LuaStatus::Success)
        } else if code == 1 {
            Some(LuaStatus::Yield)
        } else if code == 2 {
            Some(LuaStatus::ErrRun)
        } else if code == 3 {
            Some(LuaStatus::ErrSyntax)
        } else if code == 4 {
            Some(LuaStatus::ErrMem)
        } else if code == 5 {
            Some(LuaStatus::ErrErr)
        } else if code == 6 {
            Some(LuaStatus::Break)
        } else {
            None
        }
    }

    #[verifier::when_used_as_spec(spec_code)]
    pub fn code(self) -> (c: u32)
        ensures
            c == self.spec_code(),
            c <= 6,
    {
        match self {
            LuaStatus::Success => 0,
            LuaStatus::Yield => 1,
            LuaStatus::ErrRun => 2,
            LuaStatus::ErrSyntax => 3,
            LuaStatus::ErrMem => 4,
            LuaStatus::ErrErr => 5,
            LuaStatus::Break => 6,
        }
    }

    #[verifier::when_used_as_spec(spec_from_code)]
    pub fn from_code(code: u32) -> (s: Option<LuaStatus>)
        ensures
            s == Self::spec_from_code(code),
            s is Some <==> code <= 6,
    {
        match code {
            0 => Some(LuaStatus::Success),
            1 => Some(LuaStatus::Yield),
            2 => Some(LuaStatus::ErrRun),
            3 => Some(LuaStatus::ErrSyntax),
            4 => Some(LuaStatus::ErrMem),
            5 => Some(LuaStatus::ErrErr),
            6 => Some(LuaStatus::Break),
            _ => None,
        }
    }

    /// Every status is recovered from its own number.
    pub proof fn lemma_code_round_trip(s: LuaStatus)
        ensures
            Self::spec_from_code(s.spec_code()) == Some(s),
    {
    }
}

/// A value cell as the host VM lays it out: eight bytes of payload, four
/// spare bytes that a vector uses for its third component, and the tag word.
#[derive(Copy, Clone, PartialEq, Eq, Debug, Structural)]
pub struct TValue {
    pub value: u64,
    pub extra: u32,
    pub tt: u32,
}

} // verus!
