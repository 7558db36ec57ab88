//! The raw layer: handles to objects on the VM's heap, tagged value cells,
//! the evaluation stack of a thread and the VM's reference registry.

pub mod buffer;
pub mod closure;
pub mod registry;
pub mod stack;
pub mod state;
pub mod string;
pub mod table;
pub mod thread;
pub mod userdata;
pub mod value;

use vstd::prelude::*;

verus! {

/// Non-owning handle to the global state that all threads of one VM share.
/// It carries the state's address and is never null.
#[derive(Copy, Clone, PartialEq, Eq, Debug, Structural)]
pub struct RawGlobal {
    addr: usize,
}

impl RawGlobal {
    #[verifier::type_invariant]
    closed spec fn nonnull(self) -> bool {
        self.addr != 0
    }

    /// The address that the handle designates.
    pub closed spec fn addr(self) -> usize {
        self.addr
    }

    /// The handle that designates `ptr`.
    pub closed spec fn at(ptr: usize) -> Self {
        RawGlobal { addr: ptr }
    }

    /// A handle is the one that designates its own address, so two handles
    /// with one address are one handle.
    pub proof fn lemma_at_addr(h: Self)
        ensures
            Self::at(h.addr()) == h,
    {
    }

    /// The handle that designates an address has that address.
    pub proof fn lemma_addr_at(ptr: usize)
        ensures
            Self::at(ptr).addr() == ptr,
    {
    }

    /// The handle for `ptr`, or `None` for the null address.
    pub fn from(ptr: usize) -> (r: Option<Self>)
        ensures
            r is None <==> ptr == 0,
            r matches Some(h) ==> h == Self::at(ptr),
    {
        if ptr == 0 {
            None
        } else {
            Some(RawGlobal { addr: ptr })
        }
    }

    /// The handle for an address known not to be null.
    pub fn from_unchecked(ptr: usize) -> (r: Self)
        requires
            ptr != 0,
        ensures
            r == Self::at(ptr),
    {
        RawGlobal { addr: ptr }
    }

    /// The address of the global state, never null.
    pub fn ptr(&self) -> (p: usize)
        ensures
            p == self.addr(),
            p != 0,
    {
        proof {
            use_type_invariant(self);
        }
        self.addr
    }
}

} // verus!
