//! Handle to a table on the VM's heap.

use vstd::prelude::*;

use crate::native::{LuaStatus, LuaType, TValue};
use crate::vm::error::{protected, settle};

verus! {

/// Non-owning handle to a table that the VM's collector owns. It
/// carries the object's address and nothing else: holding one keeps nothing
/// alive, and it is never null.
#[derive(Copy, Clone, PartialEq, Eq, Debug, Structural)]
pub struct RawTable {
    addr: usize,
}

impl RawTable {
    #[verifier::type_invariant]
    closed spec fn nonnull(self) -> bool {
        self.addr != 0
    }

    /// The address that the handle designates.
    pub closed spec fn addr(self) -> usize {
        self.addr
    }

    /// The handle that designates `ptr`.
    pub closed spec fn at(ptr: usize) -> Self {
        RawTable { addr: ptr }
    }

    /// A handle is the one that designates its own address, so two handles
    /// with one address are one handle.
    pub proof fn lemma_at_addr(h: Self)
        ensures
            Self::at(h.addr()) == h,
    {
    }

    /// The handle that designates an address has that address.
    pub proof fn lemma_addr_at(ptr: usize)
        ensures
            Self::at(ptr).addr() == ptr,
    {
    }

    /// The handle for `ptr`, or `None` for the null address.
    pub fn from(ptr: usize) -> (r: Option<Self>)
        ensures
            r is None <==> ptr == 0,
            r matches Some(h) ==> h == Self::at(ptr),
    {
        if ptr == 0 {
            None
        } else {
            Some(RawTable { addr: ptr })
        }
    }

    /// The handle for an address known not to be null.
    pub fn from_unchecked(ptr: usize) -> (r: Self)
        requires
            ptr != 0,
        ensures
            r == Self::at(ptr),
    {
        RawTable { addr: ptr }
    }

    /// The table that a native cell designates: `None` unless the cell is
    /// tagged as a table and its payload is not null.
    pub fn from_tvalue(tvalue: TValue) -> (r: Option<Self>)
        ensures
            r is Some <==> tvalue.tt == LuaType::Table.spec_code() && tvalue.value as usize != 0,
            r matches Some(h) ==> h == Self::at(tvalue.value as usize),
    {
        if tvalue.tt == LuaType::Table.code() {
            Self::from(#[verifier::truncate] (tvalue.value as usize))
        } else {
            None
        }
    }

    /// Has the host make a table with room for `narray` array elements and
    /// two to the power of `lnhash` hashed ones. The two sizes are handed to
    /// `make` as the host takes them, and what `make` reports becomes a
    /// `Result`. Sizes that the host cannot take are not accepted.
    pub fn new<F: FnOnce(i32, i32) -> (LuaStatus, Option<RawTable>)>(
        narray: usize,
        lnhash: usize,
        make: F,
    ) -> (r: Result<Self, LuaStatus>)
        requires
            narray <= i32::MAX,
            lnhash <= i32::MAX,
            call_requires(make, (narray as i32, lnhash as i32)),
        ensures
            exists|out: (LuaStatus, Option<RawTable>)| #[trigger]
                call_ensures(make, (narray as i32, lnhash as i32), out) && r == protected(
                    out.0,
                    out.1,
                ),
    {
        let (status, output) = make(narray as i32, lnhash as i32);
        settle(status, output)
    }

    /// The address of the object, never null.
    pub fn ptr(&self) -> (p: usize)
        ensures
            p == self.addr(),
            p != 0,
    {
        proof {
            use_type_invariant(self);
        }
        self.addr
    }
}

} // verus!
