//! The reference registry: the table through which code outside the VM keeps
//! values alive. The collector treats every value in the table as reachable.

use vstd::prelude::*;

use crate::native::LuaStatus;
use crate::vm::raw::value::RawValue;

verus! {

/// What a registry is, mathematically: an arena of slots, of which slot
/// number `h - 1` belongs to handle `h`, with the handles of the empty slots
/// listed in the order in which they were given back.
pub struct RegistryView {
    /// The slots; an empty one holds `None`.
    pub slots: Seq<Option<RawValue>>,
    /// Handles of the empty slots, the most recently released last.
    pub free: Seq<i32>,
    /// The number of slots beyond which the table cannot grow.
    pub limit: nat,
}

impl RegistryView {
    /// The table is within its limit, and the free list names empty slots,
    /// each once.
    pub open spec fn wf(self) -> bool {
        &&& self.slots.len() <= self.limit <= i32::MAX
        &&& forall|i: int|
            0 <= i < self.free.len() ==> 1 <= #[trigger] self.free[i] <= self.slots.len()
                && self.slots[self.free[i] - 1] is None
        &&& forall|i: int, j: int|
            0 <= i < j < self.free.len() ==> #[trigger] self.free[i] != #[trigger] self.free[j]
    }

    /// Whether `handle` is outstanding: registered and not yet released.
    pub open spec fn live(self, handle: i32) -> bool {
        1 <= handle <= self.slots.len() && self.slots[handle - 1] is Some
    }

    /// The value that an outstanding handle anchors.
    pub open spec fn value(self, handle: i32) -> RawValue {
        self.slots[handle - 1].unwrap()
    }

    /// What a lookup of `handle` gives: the anchored value, or nil for a
    /// handle that is not outstanding.
    pub open spec fn get(self, handle: i32) -> RawValue {
        if self.live(handle) {
            self.value(handle)
        } else {
            RawValue::nil()
        }
    }

    /// Whether no further value can be registered.
    pub open spec fn is_full(self) -> bool {
        self.free.len() == 0 && self.slots.len() >= self.limit
    }

    /// The handle that the next registration returns: the most recently
    /// released one, or else the first never used.
    pub open spec fn next_handle(self) -> i32 {
        if self.free.len() > 0 {
            self.free.last()
        } else {
            (self.slots.len() + 1) as i32
        }
    }

    /// The registry after `value` was registered under `next_handle()`.
    pub open spec fn reference(self, value: RawValue) -> Self {
        if self.free.len() > 0 {
            RegistryView {
                slots: self.slots.update(self.free.last() - 1, Some(value)),
                free: self.free.drop_last(),
                ..self
            }
        } else {
            RegistryView { slots: self.slots.push(Some(value)), ..self }
        }
    }

    /// The registry after `handle` was released; releasing a handle that is
    /// not outstanding changes nothing.
    pub open spec fn unreference(self, handle: i32) -> Self {
        if self.live(handle) {
            RegistryView {
                slots: self.slots.update(handle - 1, None),
                free: self.free.push(handle),
                ..self
            }
        } else {
            self
        }
    }

    /// A registration returns a handle that was not outstanding, anchors
    /// the value under it, and leaves every outstanding handle with its
    /// value.
    pub proof fn lemma_reference(self, value: RawValue)
        requires
            self.wf(),
            !self.is_full(),
        ensures
            !self.live(self.next_handle()),
            self.reference(value).wf(),
            self.reference(value).live(self.next_handle()),
            self.reference(value).value(self.next_handle()) == value,
            forall|h: i32|
                self.live(h) ==> self.reference(value).live(h) && self.reference(value).value(h)
                    == self.value(h),
            forall|h: i32|
                self.reference(value).live(h) ==> self.live(h) || h == self.next_handle(),
    {
        let after = self.reference(value);
        if self.free.len() > 0 {
            let last = self.free.len() - 1;
            assert(self.free[last] == self.free.last());
            assert forall|i: int| 0 <= i < after.free.len() implies 1 <= #[trigger] after.free[i]
                <= after.slots.len() && after.slots[after.free[i] - 1] is None by {
                assert(after.free[i] == self.free[i]);
                assert(self.free[i] != self.free[last]);
            }
            assert forall|i: int, j: int| 0 <= i < j < after.free.len() implies #[trigger] after.free[i]
                != #[trigger] after.free[j] by {
                assert(after.free[i] == self.free[i]);
                assert(after.free[j] == self.free[j]);
            }
        } else {
            assert forall|i: int| 0 <= i < after.free.len() implies 1 <= #[trigger] after.free[i]
                <= after.slots.len() && after.slots[after.free[i] - 1] is None by {}
        }
    }

    /// A release ends the handle's life, makes room for a registration, and
    /// leaves every other outstanding handle with its value.
    pub proof fn lemma_unreference(self, handle: i32)
        requires
            self.wf(),
        ensures
            self.unreference(handle).wf(),
            !self.unreference(handle).live(handle),
            self.live(handle) ==> !self.unreference(handle).is_full() && self.unreference(
                handle,
            ).next_handle() == handle,
            forall|h: i32|
                h != handle && self.live(h) ==> self.unreference(handle).live(h)
                    && self.unreference(handle).value(h) == self.value(h),
            forall|h: i32| self.unreference(handle).live(h) ==> self.live(h),
    {
        let after = self.unreference(handle);
        if self.live(handle) {
            assert forall|i: int| 0 <= i < after.free.len() implies 1 <= #[trigger] after.free[i]
                <= after.slots.len() && after.slots[after.free[i] - 1] is None by {
                if i < self.free.len() {
                    assert(after.free[i] == self.free[i]);
                }
            }
            assert forall|i: int, j: int| 0 <= i < j < after.free.len() implies #[trigger] after.free[i]
                != #[trigger] after.free[j] by {
                assert(after.free[i] == self.free[i]);
                if j < self.free.len() {
                    assert(after.free[j] == self.free[j]);
                }
            }
        }
    }
}

/// One step in the life of a registry: a value is registered, or a handle
/// is released.
pub enum RegistryOp {
    Reference(RawValue),
    Unreference(i32),
}

impl RegistryView {
    /// The registry after one step. Registering with a full registry fails
    /// and changes nothing.
    pub open spec fn step(self, op: RegistryOp) -> Self {
        match op {
            RegistryOp::Reference(value) => if self.is_full() {
                self
            } else {
                self.reference(value)
            },
            RegistryOp::Unreference(handle) => self.unreference(handle),
        }
    }

    /// The registry after the given steps, the first first.
    pub open spec fn run(self, ops: Seq<RegistryOp>) -> Self
        decreases ops.len(),
    {
        if ops.len() == 0 {
            self
        } else {
            self.run(ops.drop_last()).step(ops.last())
        }
    }

    /// From its registration until its release an anchor holds the value it
    /// was made for: whatever else is registered or released in between, a
    /// lookup of the handle gives that value, and no registration in between
    /// returns the handle a second time.
    pub proof fn lemma_anchor_holds(self, handle: i32, ops: Seq<RegistryOp>)
        requires
            self.wf(),
            self.live(handle),
            forall|i: int| 0 <= i < ops.len() ==> ops[i] != RegistryOp::Unreference(handle),
        ensures
            self.run(ops).wf(),
            self.run(ops).live(handle),
            self.run(ops).get(handle) == self.get(handle),
            forall|i: int|
                0 <= i < ops.len() && ops[i] is Reference && !self.run(ops.take(i)).is_full()
                    ==> self.run(ops.take(i)).next_handle() != handle,
        decreases ops.len(),
    {
        if ops.len() > 0 {
            let front = ops.drop_last();
            self.lemma_anchor_holds(handle, front);
            let before = self.run(front);
            match ops.last() {
                RegistryOp::Reference(value) => {
                    if !before.is_full() {
                        before.lemma_reference(value);
                    }
                },
                RegistryOp::Unreference(other) => {
                    assert(ops[ops.len() - 1] != RegistryOp::Unreference(handle));
                    before.lemma_unreference(other);
                },
            }
            assert forall|i: int|
                0 <= i < ops.len() && ops[i] is Reference && !self.run(ops.take(i)).is_full() implies self.run(
                ops.take(i),
            ).next_handle() != handle by {
                if i < front.len() {
                    assert(front.take(i) =~= ops.take(i));
                    assert(front[i] == ops[i]);
                } else {
                    assert(ops.take(i) =~= front);
                    let value = ops[i]->Reference_0;
                    before.lemma_reference(value);
                }
            }
        }
    }
}

/// The reference registry of one VM.
#[derive(Debug)]
pub struct Registry {
    slots: Vec<Option<RawValue>>,
    free: Vec<i32>,
    limit: usize,
}

impl View for Registry {
    type V = RegistryView;

    closed spec fn view(&self) -> RegistryView {
        RegistryView { slots: self.slots@, free: self.free@, limit: self.limit as nat }
    }
}

impl Registry {
    #[verifier::type_invariant]
    closed spec fn inv(&self) -> bool {
        self@.wf()
    }

    /// An empty registry that can grow to `limit` slots, or to as many as a
    /// handle can number if `limit` is more than that.
    pub fn new(limit: usize) -> (r: Self)
        ensures
            r@.wf(),
            r@.slots.len() == 0,
            r@.free.len() == 0,
            r@.limit == if limit <= i32::MAX {
                limit as nat
            } else {
                i32::MAX as nat
            },
    {
        let limit = if limit <= i32::MAX as usize {
            limit
        } else {
            i32::MAX as usize
        };
        Registry { slots: Vec::new(), free: Vec::new(), limit }
    }

    /// Whether no further value can be registered.
    pub fn is_full(&self) -> (r: bool)
        ensures
            r == self@.is_full(),
            self@.wf(),
    {
        proof {
            use_type_invariant(self);
        }
        self.free.len() == 0 && self.slots.len() >= self.limit
    }

    /// Whether `handle` is outstanding.
    pub fn is_live(&self, handle: i32) -> (r: bool)
        ensures
            r == self@.live(handle),
            self@.wf(),
    {
        proof {
            use_type_invariant(self);
        }
        handle >= 1 && handle as usize <= self.slots.len() && self.slots[(handle - 1) as usize].is_some()
    }

    /// Registers `value` and returns the handle under which it is anchored.
    /// Fails with `ErrMem`, changing nothing, exactly when the registry is
    /// full.
    pub fn reference(&mut self, value: RawValue) -> (r: Result<i32, LuaStatus>)
        ensures
            r is Err <==> old(self)@.is_full(),
            r is Err ==> r == Err::<i32, LuaStatus>(LuaStatus::ErrMem) && final(self)@ == old(
                self,
            )@,
            r matches Ok(h) ==> h == old(self)@.next_handle() && final(self)@ == old(
                self,
            )@.reference(value),
            final(self)@.wf(),
    {
        proof {
            use_type_invariant(&*self);
            if !self@.is_full() {
                self@.lemma_reference(value);
            }
        }
        if self.free.len() > 0 {
            let ghost before = self@;
            let mut free: Vec<i32> = Vec::new();
            core::mem::swap(&mut self.free, &mut free);
            let h = free.pop().unwrap();
            proof {
                assert(free@ =~= before.free.drop_last());
                assert(h == before.free[before.free.len() - 1]);
                assert forall|i: int| 0 <= i < free@.len() implies 1 <= #[trigger] free@[i]
                    <= self.slots@.len() && self.slots@[free@[i] - 1] is None by {
                    assert(free@[i] == before.free[i]);
                }
                assert forall|i: int, j: int| 0 <= i < j < free@.len() implies #[trigger] free@[i]
                    != #[trigger] free@[j] by {
                    assert(free@[i] == before.free[i]);
                    assert(free@[j] == before.free[j]);
                }
            }
            core::mem::swap(&mut self.free, &mut free);
            self.slots[(h - 1) as usize] = Some(value);
            Ok(h)
        } else if self.slots.len() < self.limit {
            let mut slots: Vec<Option<RawValue>> = Vec::new();
            core::mem::swap(&mut self.slots, &mut slots);
            slots.push(Some(value));
            core::mem::swap(&mut self.slots, &mut slots);
            Ok(self.slots.len() as i32)
        } else {
            Err(LuaStatus::ErrMem)
        }
    }

    /// Releases `handle`. A handle that is not outstanding is ignored.
    pub fn unreference(&mut self, handle: i32)
        ensures
            final(self)@ == old(self)@.unreference(handle),
            final(self)@.wf(),
    {
        proof {
            use_type_invariant(&*self);
            self@.lemma_unreference(handle);
        }
        if self.is_live(handle) {
            let ghost before = self@;
            self.slots[(handle - 1) as usize] = None;
            proof {
                assert forall|i: int| 0 <= i < self.free@.len() implies #[trigger] self.free@[i]
                    != handle by {
                    assert(before.slots[before.free[i] - 1] is None);
                }
            }
            let mut free: Vec<i32> = Vec::new();
            core::mem::swap(&mut self.free, &mut free);
            free.push(handle);
            core::mem::swap(&mut self.free, &mut free);
        }
    }

    /// The value anchored under `handle`, or nil for a handle that is not
    /// outstanding.
    pub fn get(&self, handle: i32) -> (v: RawValue)
        ensures
            v == self@.get(handle),
    {
        if self.is_live(handle) {
            match self.slots[(handle - 1) as usize] {
                Some(v) => v,
                None => RawValue::new_nil(),
            }
        } else {
            RawValue::new_nil()
        }
    }
}

} // verus!
