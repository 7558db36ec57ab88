//! The host's debug flags: named switches and numbers that change how its
//! compiler and VM behave.

use std::marker::PhantomData;
use vstd::prelude::*;

verus! {

/// The kinds of value that a flag can have: a switch or a number.
pub trait FValueType: Copy {

}

impl FValueType for bool {

}

impl FValueType for i32 {

}

/// What the host answers when asked for a flag by name: whether there is
/// one, and if so, where.
#[derive(Copy, Clone, Debug)]
pub struct OptionalFValue {
    pub present: bool,
    pub value: usize,
}

/// A flag of the host, known by where the host keeps it.
#[derive(PartialEq, Eq, Debug)]
pub struct FValue<T: FValueType> {
    inner: usize,
    phantom: PhantomData<T>,
}

/// The addresses in a list that ends with the first null address.
pub open spec fn until_null(cells: Seq<usize>) -> Seq<usize>
    decreases cells.len(),
{
    if cells.len() == 0 || cells[0] == 0 {
        Seq::empty()
    } else {
        seq![cells[0]] + until_null(cells.drop_first())
    }
}

/// A list cut at its first null address is a beginning of the list, holds no
/// null address, and stops where the list has its first null address or
/// ends.
pub proof fn lemma_until_null(cells: Seq<usize>)
    ensures
        until_null(cells).len() <= cells.len(),
        until_null(cells) == cells.take(until_null(cells).len() as int),
        forall|i: int| 0 <= i < until_null(cells).len() ==> until_null(cells)[i] != 0,
        until_null(cells).len() < cells.len() ==> cells[until_null(cells).len() as int] == 0,
    decreases cells.len(),
{
    if cells.len() > 0 && cells[0] != 0 {
        let rest = cells.drop_first();
        lemma_until_null(rest);
        let n = until_null(rest).len() as int;
        assert(until_null(cells) =~= cells.take(n + 1)) by {
            assert(rest.take(n) =~= cells.take(n + 1).drop_first());
        }
        if n < rest.len() {
            assert(rest[n] == cells[n + 1]);
        }
    } else {
        assert(until_null(cells) =~= cells.take(0));
    }
}

impl<T: FValueType> FValue<T> {
    /// Where the host keeps the flag.
    pub closed spec fn spec_inner(&self) -> usize {
        self.inner
    }

    /// Where the host keeps the flag.
    #[verifier::when_used_as_spec(spec_inner)]
    pub fn inner(&self) -> (p: usize)
        ensures
            p == self.spec_inner(),
    {
        self.inner
    }

    /// The flag with the given name, which `lookup` asks the host for.
    /// `None` if the host has no such flag.
    pub fn find<F: FnOnce(&str) -> OptionalFValue>(name: &str, lookup: F) -> (r: Option<Self>)
        requires
            call_requires(lookup, (name,)),
        ensures
            exists|found: OptionalFValue| #[trigger]
                call_ensures(lookup, (name,), found) && (r is Some <==> found.present) && (
                r matches Some(flag) ==> flag.spec_inner() == found.value),
    {
        let found = lookup(name);
        if found.present {
            Some(FValue { inner: found.value, phantom: PhantomData })
        } else {
            None
        }
    }

    /// The flags in the list that the host keeps: one for each address, up
    /// to the first null address, in the order of the list.
    pub fn list(cells: &[usize]) -> (flags: Vec<FValue<T>>)
        ensures
            flags@.len() == until_null(cells@).len(),
            forall|i: int|
                0 <= i < flags@.len() ==> (#[trigger] flags@[i]).spec_inner() == until_null(
                    cells@,
                )[i],
    {
        let mut flags: Vec<FValue<T>> = Vec::new();
        let mut i: usize = 0;
        proof {
            lemma_until_null(cells@);
        }
        while i < cells.len() && cells[i] != 0
            invariant
                i <= cells@.len(),
                flags@.len() == i,
                i <= until_null(cells@).len(),
                until_null(cells@).len() <= cells@.len(),
                until_null(cells@) == cells@.take(until_null(cells@).len() as int),
                until_null(cells@).len() < cells@.len() ==> cells@[until_null(
                    cells@,
                ).len() as int] == 0,
                forall|k: int| 0 <= k < until_null(cells@).len() ==> until_null(cells@)[k] != 0,
                forall|k: int| 0 <= k < i ==> (#[trigger] flags@[k]).spec_inner() == cells@[k],
            decreases cells@.len() - i,
        {
            proof {
                let n = until_null(cells@).len() as int;
                if i == n {
                    assert(n < cells@.len());
                }
            }
            flags.push(FValue { inner: cells[i], phantom: PhantomData });
            i = i + 1;
        }
        proof {
            let n = until_null(cells@).len() as int;
            if i < n {
                assert(until_null(cells@)[i as int] == cells@[i as int]);
            }
            assert forall|k: int| 0 <= k < flags@.len() implies (#[trigger] flags@[k]).spec_inner()
                == until_null(cells@)[k] by {
                assert(until_null(cells@)[k] == cells@[k]);
            }
        }
        flags
    }

    /// The flag's name, which `read` asks the host for.
    pub fn name<F: FnOnce(usize) -> String>(&self, read: F) -> (name: String)
        requires
            call_requires(read, (self.spec_inner(),)),
        ensures
            call_ensures(read, (self.spec_inner(),), name),
    {
        read(self.inner)
    }

    /// The flag's value, which `read` asks the host for.
    pub fn value<F: FnOnce(usize) -> T>(&self, read: F) -> (value: T)
        requires
            call_requires(read, (self.spec_inner(),)),
        ensures
            call_ensures(read, (self.spec_inner(),), value),
    {
        read(self.inner)
    }

    /// Sets the flag: `write` hands the host the flag and its new value.
    pub fn set<F: FnOnce(usize, T)>(&mut self, value: T, write: F)
        requires
            call_requires(write, (old(self).spec_inner(), value)),
        ensures
            call_ensures(write, (old(self).spec_inner(), value), ()),
            final(self).spec_inner() == old(self).spec_inner(),
    {
        write(self.inner, value)
    }
}

} // verus!
