//! Handle to a function closure on the VM's heap.

use vstd::prelude::*;

verus! {

/// Non-owning handle to a function closure that the VM's collector owns. It
/// carries the object's address and nothing else: holding one keeps nothing
/// alive, and it is never null.
#[derive(Copy, Clone, PartialEq, Eq, Debug, Structural)]
pub struct RawClosure {
    addr: usize,
}

impl RawClosure {
    #[verifier::type_invariant]
    closed spec fn nonnull(self) -> bool {
        self.addr != 0
    }

    /// The address that the handle designates.
    pub closed spec fn addr(self) -> usize {
        self.addr
    }

    /// The handle that designates `ptr`.
    pub closed spec fn at(ptr: usize) -> Self {
        RawClosure { addr: ptr }
    }

    /// A handle is the one that designates its own address, so two handles
    /// with one address are one handle.
    pub proof fn lemma_at_addr(h: Self)
        ensures
            Self::at(h.addr()) == h,
    {
    }

    /// The handle that designates an address has that address.
    pub proof fn lemma_addr_at(ptr: usize)
        ensures
            Self::at(ptr).addr() == ptr,
    {
    }

    /// The handle for `ptr`, or `None` for the null address.
    pub fn from(ptr: usize) -> (r: Option<Self>)
        ensures
            r is None <==> ptr == 0,
            r matches Some(h) ==> h == Self::at(ptr),
    {
        if ptr == 0 {
            None
        } else {
            Some(RawClosure { addr: ptr })
        }
    }

    /// The handle for an address known not to be null.
    pub fn from_unchecked(ptr: usize) -> (r: Self)
        requires
            ptr != 0,
        ensures
            r == Self::at(ptr),
    {
        RawClosure { addr: ptr }
    }

    /// The address of the object, never null.
    pub fn ptr(&self) -> (p: usize)
        ensures
            p == self.addr(),
            p != 0,
    {
        proof {
            use_type_invariant(self);
        }
        self.addr
    }
}

} // verus!
