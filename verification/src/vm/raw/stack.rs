//! The evaluation stack of one thread: the cells between a frame's base and
//! its limit, and the cursor that separates the cells in use from the rest.

use vstd::prelude::*;

use crate::native::BLACK_MASK;
use crate::vm::raw::thread::RawThread;
use crate::vm::raw::value::RawValue;

verus! {

/// Bytes between one cell of a stack and the next.
pub const SLOT_SIZE: usize = 16;

/// What a stack is, mathematically: where it lies, what its cells hold, how
/// many of them are in use, and the collector's mark on the owning thread.
pub struct StackView {
    /// The thread that owns the stack.
    pub thread: RawThread,
    /// Address of the first cell.
    pub min: usize,
    /// Every cell between base and limit, in use or not.
    pub cells: Seq<RawValue>,
    /// Number of cells in use; the cursor stands on the cell with this index.
    pub top: nat,
    /// The owning thread's mark bits.
    pub marked: u8,
}

impl StackView {
    /// The cursor is within the frame and the frame within the address space.
    pub open spec fn wf(self) -> bool {
        &&& self.min != 0
        &&& self.top <= self.cells.len()
        &&& self.min + SLOT_SIZE * self.cells.len() <= usize::MAX
    }

    /// Cells between base and limit.
    pub open spec fn len(self) -> nat {
        self.cells.len()
    }

    /// Cells between base and cursor.
    pub open spec fn used(self) -> nat {
        self.top
    }

    /// Cells between cursor and limit.
    pub open spec fn left(self) -> nat {
        (self.cells.len() - self.top) as nat
    }

    /// Address of the cell with index `i`; for `i == len()`, the limit.
    pub open spec fn slot_ptr(self, i: int) -> int {
        self.min + SLOT_SIZE * i
    }

    /// Address just past the last cell.
    pub open spec fn max(self) -> int {
        self.slot_ptr(self.cells.len() as int)
    }

    /// Address of the cell under the cursor.
    pub open spec fn top_ptr(self) -> int {
        self.slot_ptr(self.top as int)
    }

    /// Whether `ptr` is the address of a cell of the frame, or its limit.
    pub open spec fn is_slot_ptr(self, ptr: int) -> bool {
        &&& self.min <= ptr <= self.max()
        &&& (ptr - self.min) % (SLOT_SIZE as int) == 0
    }

    /// The index of the cell at `ptr`.
    pub open spec fn index_of(self, ptr: int) -> int {
        (ptr - self.min) / (SLOT_SIZE as int)
    }

    /// The cells in use, bottom first.
    pub open spec fn live(self) -> Seq<RawValue> {
        self.cells.take(self.top as int)
    }

    /// The cells not in use.
    pub open spec fn spare(self) -> Seq<RawValue> {
        self.cells.skip(self.top as int)
    }

    /// Whether the collector has finished scanning the owning thread.
    pub open spec fn black(self) -> bool {
        self.marked & BLACK_MASK != 0
    }

    /// The stack once the collector has been told that the owning thread is
    /// about to be written to: the thread is no longer black.
    pub open spec fn barrier(self) -> Self {
        StackView { marked: self.marked & !BLACK_MASK, ..self }
    }

    /// The stack with the cursor on the cell with index `top`.
    pub open spec fn with_top(self, top: nat) -> Self {
        StackView { top, ..self }
    }

    /// The stack with `n` more cells in use; their contents are whatever the
    /// cells held.
    pub open spec fn reserve(self, n: nat) -> Self {
        self.with_top(self.top + n)
    }

    /// What the topmost `n` cells in use hold, lowest first.
    pub open spec fn topmost(self, n: nat) -> Seq<RawValue> {
        self.cells.subrange(self.top - n, self.top as int)
    }

    /// The stack with the topmost `n` cells given up and wiped.
    pub open spec fn free(self, n: nat) -> Self {
        StackView {
            cells: Seq::new(
                self.cells.len(),
                |i: int|
                    if self.top - n <= i < self.top {
                        RawValue::nil()
                    } else {
                        self.cells[i]
                    },
            ),
            top: (self.top - n) as nat,
            ..self
        }
    }

    /// The stack after `values` were pushed, lowest first, behind a write
    /// barrier.
    pub open spec fn push_many(self, values: Seq<RawValue>) -> Self {
        StackView {
            cells: Seq::new(
                self.cells.len(),
                |i: int|
                    if self.top <= i < self.top + values.len() {
                        values[i - self.top]
                    } else {
                        self.cells[i]
                    },
            ),
            top: self.top + values.len(),
            marked: self.marked & !BLACK_MASK,
            ..self
        }
    }

    /// The stack with every cell in use from index `used` on given up and
    /// wiped; the stack itself if fewer than `used` cells are in use.
    pub open spec fn unwind(self, used: nat) -> Self {
        if used <= self.top {
            self.free((self.top - used) as nat)
        } else {
            self
        }
    }

    /// The stack after one value was pushed.
    pub open spec fn push(self, value: RawValue) -> Self {
        self.push_many(seq![value])
    }

    /// The stack after its topmost value was popped.
    pub open spec fn pop(self) -> Self {
        self.free(1)
    }

    /// After a barrier the owning thread is not black, and nothing else has
    /// changed.
    pub proof fn lemma_barrier_clears(self)
        ensures
            !self.barrier().black(),
            self.barrier().cells == self.cells,
            self.barrier().top == self.top,
            !self.black() ==> self.barrier() == self,
    {
        let m = self.marked;
        assert((m & !4u8) & 4u8 == 0) by (bit_vector);
        assert(m & 4u8 == 0 ==> m & !4u8 == m) by (bit_vector);
    }

    /// Pushing leaves the owning thread not black, whatever is pushed.
    pub proof fn lemma_push_clears(self, values: Seq<RawValue>)
        ensures
            !self.push_many(values).black(),
    {
        self.lemma_barrier_clears();
    }

    /// A push followed by a pop gives back the pushed value and leaves as
    /// many cells in use as before, holding what they held.
    pub proof fn lemma_push_pop(self, value: RawValue)
        requires
            self.wf(),
            self.left() >= 1,
        ensures
            self.push(value).topmost(1) == seq![value],
            self.push(value).pop().wf(),
            self.push(value).pop().used() == self.used(),
            self.push(value).pop().len() == self.len(),
            self.push(value).pop().live() == self.live(),
    {
        let pushed = self.push(value);
        assert(pushed.topmost(1) =~= seq![value]);
        assert(pushed.pop().live() =~= self.live());
    }

    /// Pushing `values` and then giving up as many cells gives the values
    /// back in the order in which they were pushed, and leaves as many cells
    /// in use as before, holding what they held.
    pub proof fn lemma_push_many_free(self, values: Seq<RawValue>)
        requires
            self.wf(),
            self.left() >= values.len(),
        ensures
            self.push_many(values).wf(),
            self.push_many(values).used() == self.used() + values.len(),
            self.push_many(values).topmost(values.len()) == values,
            self.push_many(values).free(values.len()).used() == self.used(),
            self.push_many(values).free(values.len()).live() == self.live(),
    {
        let pushed = self.push_many(values);
        assert(pushed.topmost(values.len()) =~= values);
        assert(pushed.free(values.len()).live() =~= self.live());
    }
}

/// A bounds-checked accessor for the evaluation stack of one thread.
///
/// The frame is the run of cells from `min()` to `max()`; the cursor `top()`
/// separates the cells in use, below it, from the spare ones. The accessor
/// also carries the collector's mark on the owning thread, because every
/// push has to consult it.
#[derive(Debug)]
pub struct RawStack {
    thread: RawThread,
    min: usize,
    slots: Vec<RawValue>,
    top: usize,
    marked: u8,
}

impl View for RawStack {
    type V = StackView;

    closed spec fn view(&self) -> StackView {
        StackView {
            thread: self.thread,
            min: self.min,
            cells: self.slots@,
            top: self.top as nat,
            marked: self.marked,
        }
    }
}

impl RawStack {
    #[verifier::type_invariant]
    closed spec fn inv(&self) -> bool {
        &&& self.min != 0
        &&& self.top <= self.slots.len()
        &&& self.min + SLOT_SIZE * self.slots.len() <= usize::MAX
    }

    /// The accessor for a frame of `size` cells that starts at address
    /// `base` and belongs to `thread`, whose mark bits are `marked`. No cell
    /// is in use and every cell holds nil. `None` if `base` is null or the
    /// frame would not fit in the address space.
    pub fn for_thread(thread: RawThread, base: usize, size: usize, marked: u8) -> (r: Option<Self>)
        ensures
            r is Some <==> base != 0 && base + SLOT_SIZE * size <= usize::MAX,
            r matches Some(s) ==> s@ == (StackView {
                thread,
                min: base,
                cells: Seq::new(size as nat, |i: int| RawValue::nil()),
                top: 0,
                marked,
            }) && s@.wf(),
    {
        if base == 0 || size > (usize::MAX - base) / SLOT_SIZE {
            return None;
        }
        let mut slots: Vec<RawValue> = Vec::new();
        let mut i: usize = 0;
        while i < size
            invariant
                i <= size,
                slots@.len() == i,
                forall|k: int| 0 <= k < i ==> slots@[k] == RawValue::nil(),
            decreases size - i,
        {
            slots.push(RawValue::new_nil());
            i = i + 1;
        }
        proof {
            assert(slots@ =~= Seq::new(size as nat, |i: int| RawValue::nil()));
        }
        Some(RawStack { thread, min: base, slots, top: 0, marked })
    }

    /// The thread that owns the stack.
    pub fn thread(&self) -> (t: RawThread)
        ensures
            t == self@.thread,
    {
        self.thread
    }

    /// The owning thread's mark bits.
    pub fn marked(&self) -> (m: u8)
        ensures
            m == self@.marked,
    {
        self.marked
    }

    /// Records the mark bits that the collector has given the owning thread.
    pub fn set_marked(&mut self, marked: u8)
        ensures
            final(self)@ == (StackView { marked, ..old(self)@ }),
    {
        proof {
            use_type_invariant(&*self);
        }
        self.marked = marked;
    }

    /// Address of the first cell of the frame.
    pub fn min(&self) -> (p: usize)
        ensures
            p == self@.min,
            self@.wf(),
    {
        proof {
            use_type_invariant(self);
        }
        self.min
    }

    /// Address just past the last cell of the frame.
    pub fn max(&self) -> (p: usize)
        ensures
            p == self@.max(),
            self@.wf(),
    {
        proof {
            use_type_invariant(self);
        }
        self.min + SLOT_SIZE * self.slots.len()
    }

    /// Address of the cell under the cursor.
    pub fn top(&self) -> (p: usize)
        ensures
            p == self@.top_ptr(),
            self@.wf(),
    {
        proof {
            use_type_invariant(self);
        }
        self.min + SLOT_SIZE * self.top
    }

    /// Number of cells between base and limit.
    pub fn len(&self) -> (n: usize)
        ensures
            n == self@.len(),
            self@.wf(),
    {
        proof {
            use_type_invariant(self);
        }
        self.slots.len()
    }

    /// Number of cells in use.
    pub fn used(&self) -> (n: usize)
        ensures
            n == self@.used(),
            self@.wf(),
    {
        proof {
            use_type_invariant(self);
        }
        self.top
    }

    /// Number of cells that can still be taken into use.
    pub fn left(&self) -> (n: usize)
        ensures
            n == self@.left(),
            self@.wf(),
    {
        proof {
            use_type_invariant(self);
        }
        self.slots.len() - self.top
    }

    /// The index of the cell at `value`, if `value` is the address of a cell
    /// of the frame, or its limit.
    pub fn index_of(&self, value: usize) -> (r: Option<usize>)
        ensures
            r is Some <==> self@.is_slot_ptr(value as int),
            r matches Some(i) ==> i == self@.index_of(value as int) && i <= self@.len()
                && self@.slot_ptr(i as int) == value,
    {
        proof {
            use_type_invariant(self);
        }
        if value >= self.min && value <= self.max() && (value - self.min) % SLOT_SIZE == 0 {
            Some(self.index_of_unchecked(value))
        } else {
            None
        }
    }

    /// The index of the cell at `value`, which is the address of a cell of
    /// the frame, or its limit.
    pub fn index_of_unchecked(&self, value: usize) -> (i: usize)
        requires
            self@.is_slot_ptr(value as int),
        ensures
            i == self@.index_of(value as int),
            i <= self@.len(),
            self@.slot_ptr(i as int) == value,
    {
        proof {
            use_type_invariant(self);
        }
        (value - self.min) / SLOT_SIZE
    }

    /// The address of the cell with the given index, if the frame has one.
    pub fn get(&self, index: usize) -> (r: Option<usize>)
        ensures
            r is Some <==> index < self@.len(),
            r matches Some(p) ==> p == self@.slot_ptr(index as int),
    {
        if index < self.len() {
            Some(self.get_unchecked(index))
        } else {
            None
        }
    }

    /// The address of the cell with the given index.
    pub fn get_unchecked(&self, index: usize) -> (p: usize)
        requires
            index < self@.len(),
        ensures
            p == self@.slot_ptr(index as int),
    {
        proof {
            use_type_invariant(self);
        }
        self.min + SLOT_SIZE * index
    }

    /// What the cell at address `slot` holds, if `slot` is the address of a
    /// cell of the frame.
    pub fn read(&self, slot: usize) -> (r: Option<RawValue>)
        ensures
            r is Some <==> self@.is_slot_ptr(slot as int) && slot != self@.max(),
            r matches Some(v) ==> v == self@.cells[self@.index_of(slot as int)],
    {
        match self.index_of(slot) {
            Some(i) => {
                if i < self.slots.len() {
                    Some(self.slots[i])
                } else {
                    None
                }
            },
            None => None,
        }
    }

    /// Moves the cursor to the cell at `top`, if `top` is the address of a
    /// cell of the frame, or its limit; otherwise changes nothing.
    pub fn set_top(&mut self, top: usize)
        ensures
            old(self)@.is_slot_ptr(top as int) ==> final(self)@ == old(self)@.with_top(
                old(self)@.index_of(top as int) as nat,
            ),
            !old(self)@.is_slot_ptr(top as int) ==> final(self)@ == old(self)@,
    {
        if self.index_of(top).is_some() {
            self.set_top_unchecked(top)
        }
    }

    /// Moves the cursor to the cell at `top`.
    pub fn set_top_unchecked(&mut self, top: usize)
        requires
            old(self)@.is_slot_ptr(top as int),
        ensures
            final(self)@ == old(self)@.with_top(old(self)@.index_of(top as int) as nat),
            final(self)@.top_ptr() == top,
    {
        proof {
            use_type_invariant(&*self);
        }
        let i = self.index_of_unchecked(top);
        self.top = i;
    }

    /// Tells the collector that the owning thread is about to be written to:
    /// a thread that was black is black no longer.
    pub fn threadbarrier(&mut self)
        ensures
            final(self)@ == old(self)@.barrier(),
            !final(self)@.black(),
    {
        proof {
            use_type_invariant(&*self);
            self@.lemma_barrier_clears();
        }
        if (self.marked & BLACK_MASK) > 0 {
            self.marked = self.marked & !BLACK_MASK;
        }
    }

    /// Takes `N` more cells into use, if that many are left, and returns the
    /// address of the first of them. The cells keep what they held.
    pub fn reserve<const N: usize>(&mut self) -> (r: Option<usize>)
        ensures
            r is Some <==> old(self)@.left() >= N,
            r matches Some(p) ==> p == old(self)@.top_ptr() && final(self)@ == old(self)@.reserve(
                N as nat,
            ),
            r is None ==> final(self)@ == old(self)@,
    {
        if self.left() >= N {
            Some(self.alloc_unchecked::<N>())
        } else {
            None
        }
    }

    /// Gives up the topmost `N` cells in use, if that many are in use, and
    /// returns what they held, lowest first. The cells are wiped.
    pub fn free<const N: usize>(&mut self) -> (r: Option<[RawValue; N]>)
        ensures
            r is Some <==> old(self)@.used() >= N,
            r matches Some(a) ==> a@ == old(self)@.topmost(N as nat) && final(self)@ == old(
                self,
            )@.free(N as nat),
            r is None ==> final(self)@ == old(self)@,
    {
        if self.used() >= N {
            Some(self.free_unchecked::<N>())
        } else {
            None
        }
    }

    /// Takes `N` more cells into use and returns the address of the first of
    /// them.
    pub fn alloc_unchecked<const N: usize>(&mut self) -> (p: usize)
        requires
            old(self)@.left() >= N,
        ensures
            p == old(self)@.top_ptr(),
            final(self)@ == old(self)@.reserve(N as nat),
            final(self)@.wf(),
    {
        proof {
            use_type_invariant(&*self);
        }
        let region = self.top();
        self.top = self.top + N;
        region
    }

    /// Gives up the topmost `N` cells in use and returns what they held,
    /// lowest first. The cells are wiped.
    pub fn free_unchecked<const N: usize>(&mut self) -> (a: [RawValue; N])
        requires
            old(self)@.used() >= N,
        ensures
            a@ == old(self)@.topmost(N as nat),
            final(self)@ == old(self)@.free(N as nat),
            final(self)@.wf(),
    {
        proof {
            use_type_invariant(&*self);
        }
        let start = self.top - N;
        let mut out = [RawValue::new_nil(); N];
        let mut i: usize = 0;
        while i < N
            invariant
                self.inv(),
                i <= N,
                start + N == self.top,
                self.top == old(self).top,
                self.min == old(self).min,
                self.thread == old(self).thread,
                self.marked == old(self).marked,
                self.slots@.len() == old(self).slots@.len(),
                forall|k: int| 0 <= k < i ==> out@[k] == old(self).slots@[start + k],
                forall|k: int|
                    0 <= k < self.slots@.len() ==> self.slots@[k] == if start <= k < start + i {
                        RawValue::nil()
                    } else {
                        old(self).slots@[k]
                    },
            decreases N - i,
        {
            out[i] = self.slots[start + i];
            self.slots[start + i] = RawValue::new_nil();
            i = i + 1;
        }
        self.top = start;
        proof {
            assert(out@ =~= old(self)@.topmost(N as nat));
            assert(self@.cells =~= old(self)@.free(N as nat).cells);
        }
        out
    }

    /// The cells in use, bottom first.
    pub fn used_slice(&self) -> (cells: &[RawValue])
        ensures
            cells@ == self@.live(),
    {
        proof {
            use_type_invariant(self);
        }
        vstd::slice::slice_subrange(self.slots.as_slice(), 0, self.top)
    }

    /// The cells not in use.
    pub fn free_slice(&self) -> (cells: &[RawValue])
        ensures
            cells@ == self@.spare(),
    {
        proof {
            use_type_invariant(self);
        }
        vstd::slice::slice_subrange(self.slots.as_slice(), self.top, self.slots.len())
    }

    /// Writes `values` into the cells from index `start` on.
    fn write_cells(&mut self, start: usize, values: &[RawValue])
        requires
            start + values@.len() <= old(self)@.len(),
        ensures
            final(self)@ == (StackView {
                cells: Seq::new(
                    old(self)@.cells.len(),
                    |i: int|
                        if start <= i < start + values@.len() {
                            values@[i - start]
                        } else {
                            old(self)@.cells[i]
                        },
                ),
                ..old(self)@
            }),
    {
        proof {
            use_type_invariant(&*self);
        }
        let n = values.len();
        let mut i: usize = 0;
        while i < n
            invariant
                self.inv(),
                i <= n,
                n == values@.len(),
                start + values@.len() <= self.slots@.len(),
                self.top == old(self).top,
                self.min == old(self).min,
                self.thread == old(self).thread,
                self.marked == old(self).marked,
                self.slots@.len() == old(self).slots@.len(),
                forall|k: int|
                    0 <= k < self.slots@.len() ==> self.slots@[k] == if start <= k < start + i {
                        values@[k - start]
                    } else {
                        old(self).slots@[k]
                    },
            decreases n - i,
        {
            self.slots[start + i] = values[i];
            i = i + 1;
        }
        proof {
            assert(self@.cells =~= Seq::new(
                old(self)@.cells.len(),
                |i: int|
                    if start <= i < start + values@.len() {
                        values@[i - start]
                    } else {
                        old(self)@.cells[i]
                    },
            ));
        }
    }

    /// Pushes the `N` values that `with` makes, lowest first, if `N` cells
    /// are left, and returns the address of the first. The collector is told
    /// of the write before it happens. With fewer than `N` cells left,
    /// nothing changes and `with` is not called.
    pub fn push_many_with<const N: usize, F: FnOnce() -> [RawValue; N]>(&mut self, with: F) -> (r:
        Option<usize>)
        requires
            call_requires(with, ()),
        ensures
            r is Some <==> old(self)@.left() >= N,
            r matches Some(p) ==> p == old(self)@.top_ptr() && exists|values: [RawValue; N]|
                call_ensures(with, (), values) && final(self)@ == old(self)@.push_many(values@),
            r is None ==> final(self)@ == old(self)@,
    {
        let start = self.used();
        match self.reserve::<N>() {
            None => None,
            Some(space) => {
                self.threadbarrier();
                let values = with();
                self.write_cells(start, values.as_slice());
                proof {
                    assert(self@.cells =~= old(self)@.push_many(values@).cells);
                }
                Some(space)
            },
        }
    }

    /// Pushes the value that `with` makes, if a cell is left, and returns the
    /// cell's address.
    pub fn push_with<F: FnOnce() -> RawValue>(&mut self, with: F) -> (r: Option<usize>)
        requires
            call_requires(with, ()),
        ensures
            r is Some <==> old(self)@.left() >= 1,
            r matches Some(p) ==> p == old(self)@.top_ptr() && exists|value: RawValue|
                call_ensures(with, (), value) && final(self)@ == old(self)@.push(value),
            r is None ==> final(self)@ == old(self)@,
    {
        let start = self.used();
        match self.reserve::<1>() {
            None => None,
            Some(space) => {
                self.threadbarrier();
                let value = with();
                self.write_cells(start, [value].as_slice());
                proof {
                    assert(self@.cells =~= old(self)@.push(value).cells);
                }
                Some(space)
            },
        }
    }

    /// Pushes `values`, lowest first, if that many cells are left, and
    /// returns the address of the first.
    pub fn push_many<const N: usize>(&mut self, values: [RawValue; N]) -> (r: Option<usize>)
        ensures
            r is Some <==> old(self)@.left() >= N,
            r matches Some(p) ==> p == old(self)@.top_ptr() && final(self)@ == old(
                self,
            )@.push_many(values@),
            r is None ==> final(self)@ == old(self)@,
    {
        let start = self.used();
        match self.reserve::<N>() {
            None => None,
            Some(space) => {
                self.threadbarrier();
                self.write_cells(start, values.as_slice());
                proof {
                    assert(self@.cells =~= old(self)@.push_many(values@).cells);
                }
                Some(space)
            },
        }
    }

    /// Pushes `value`, if a cell is left, and returns the cell's address.
    pub fn push(&mut self, value: RawValue) -> (r: Option<usize>)
        ensures
            r is Some <==> old(self)@.left() >= 1,
            r matches Some(p) ==> p == old(self)@.top_ptr() && final(self)@ == old(self)@.push(
                value,
            ),
            r is None ==> final(self)@ == old(self)@,
            final(self)@.wf(),
    {
        proof {
            use_type_invariant(&*self);
        }
        let r = self.push_many([value]);
        proof {
            assert([value]@ =~= seq![value]);
            use_type_invariant(&*self);
        }
        r
    }

    /// Pops the topmost `N` values, if that many cells are in use, and
    /// returns them, lowest first.
    pub fn pop_many<const N: usize>(&mut self) -> (r: Option<[RawValue; N]>)
        ensures
            r is Some <==> old(self)@.used() >= N,
            r matches Some(a) ==> a@ == old(self)@.topmost(N as nat) && final(self)@ == old(
                self,
            )@.free(N as nat),
            r is None ==> final(self)@ == old(self)@,
    {
        self.free::<N>()
    }

    /// Pops the topmost value, if any cell is in use.
    pub fn pop(&mut self) -> (r: Option<RawValue>)
        ensures
            r is Some <==> old(self)@.used() >= 1,
            r matches Some(v) ==> v == old(self)@.cells[old(self)@.top - 1] && final(self)@
                == old(self)@.pop(),
            r is None ==> final(self)@ == old(self)@,
            final(self)@.wf(),
    {
        proof {
            use_type_invariant(&*self);
        }
        let r = match self.pop_many::<1>() {
            Some(values) => Some(values[0]),
            None => None,
        };
        proof {
            use_type_invariant(&*self);
        }
        r
    }

    /// Pushes `values`, lowest first, if that many cells are left, and
    /// returns the address of the first.
    pub fn push_slice(&mut self, values: &[RawValue]) -> (r: Option<usize>)
        ensures
            r is Some <==> old(self)@.left() >= values@.len(),
            r matches Some(p) ==> p == old(self)@.top_ptr() && final(self)@ == old(
                self,
            )@.push_many(values@),
            r is None ==> final(self)@ == old(self)@,
            final(self)@.wf(),
    {
        proof {
            use_type_invariant(&*self);
        }
        let n = values.len();
        if self.left() < n {
            return None;
        }
        let start = self.top;
        let space = self.top();
        self.top = self.top + n;
        self.threadbarrier();
        self.write_cells(start, values);
        proof {
            use_type_invariant(&*self);
            assert(self@.cells =~= old(self)@.push_many(values@).cells);
        }
        Some(space)
    }

    /// Gives up every cell in use from index `used` on, and wipes them.
    /// Nothing changes if fewer than `used` cells are in use.
    pub fn unwind(&mut self, used: usize)
        ensures
            final(self)@ == old(self)@.unwind(used as nat),
            final(self)@.wf(),
    {
        proof {
            use_type_invariant(&*self);
        }
        if used <= self.top {
            let mut i: usize = used;
            while i < self.top
                invariant
                    self.inv(),
                    used <= i <= self.top,
                    self.top == old(self).top,
                    self.min == old(self).min,
                    self.thread == old(self).thread,
                    self.marked == old(self).marked,
                    self.slots@.len() == old(self).slots@.len(),
                    forall|k: int|
                        0 <= k < self.slots@.len() ==> self.slots@[k] == if used <= k < i {
                            RawValue::nil()
                        } else {
                            old(self).slots@[k]
                        },
                decreases self.top - i,
            {
                self.slots[i] = RawValue::new_nil();
                i = i + 1;
            }
            self.top = used;
            proof {
                assert(self@.cells =~= old(self)@.unwind(used as nat).cells);
            }
        }
    }

    /// Runs `closure` on the stack and then puts the cursor back where it
    /// stood, whatever `closure` pushed or popped. Should `closure` have left
    /// a frame too short for that, the cursor goes to the frame's limit.
    pub fn save_restore<T, F: FnOnce(&mut RawStack) -> T>(&mut self, closure: F) -> (r: T)
        requires
            forall|s: &mut RawStack| *s == *old(self) ==> call_requires(closure, (s,)),
        ensures
            exists|s: &mut RawStack|
                *s == *old(self) && #[trigger] call_ensures(closure, (s,), r)
                    && final(self)@ == final(s)@.with_top(
                    if old(self)@.top <= final(s)@.len() {
                        old(self)@.top
                    } else {
                        final(s)@.len()
                    },
                ),
            final(self)@.len() >= old(self)@.used() ==> final(self)@.used() == old(self)@.used(),
    {
        let top = self.top;
        let value = closure(self);
        proof {
            use_type_invariant(&*self);
        }
        if top <= self.slots.len() {
            self.top = top;
        } else {
            self.top = self.slots.len();
        }
        value
    }
}

} // verus!
