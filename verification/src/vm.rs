//! The virtual machine: its raw state, the typed values that live in it and
//! the errors it reports.

pub mod builder;
pub mod call;
pub mod data;
pub mod error;
pub mod raw;
pub mod value;

use vstd::prelude::*;

use crate::ast::ParseOptions;
use crate::compiler::{
    compile, compile_sneakily, decodes, CompileError, CompileOptions, CompileResult,
    CompiledFunction,
};
use crate::vm::data::{Data, GlobalData, ThreadData};
use crate::vm::error::{LResult, NativeResult};
use crate::vm::raw::registry::{Registry, RegistryView};
use crate::vm::raw::stack::{RawStack, StackView};
use crate::vm::raw::state::LuaState;
use crate::vm::raw::thread::RawThread;
use crate::vm::raw::RawGlobal;
use crate::vm::value::gc::{acquired, Datatype};
use crate::vm::value::thread::{spawned, Thread};
use crate::vm::value::{outcome, LuauValue};

verus! {

/// What the host reports when it has made a new VM: the handle of the
/// global state, the frame of the main thread, and the number of slots to
/// which the reference registry can grow.
pub struct NativeState {
    pub global: RawGlobal,
    pub main: RawStack,
    pub registry_limit: usize,
}

/// One virtual machine: one reference registry, one main thread, and the
/// threads made from it. The VM owns all of them; nothing in it is shared
/// with another VM.
pub struct Luau<D: GlobalData> {
    global: RawGlobal,
    registry: Registry,
    threads: Vec<LuaState<D::ThreadData>>,
    data: Data<D>,
    libs: bool,
}

impl<D: GlobalData> Luau<D> {
    /// The handle of the VM's global state.
    pub closed spec fn spec_global(&self) -> RawGlobal {
        self.global
    }

    /// The VM's registry.
    pub closed spec fn spec_registry(&self) -> RegistryView {
        self.registry@
    }

    /// The VM's threads, the main thread first, then the others in the
    /// order in which they were made.
    pub closed spec fn threads(&self) -> Seq<RawThread> {
        self.threads@.map_values(|state: LuaState<D::ThreadData>| state.spec_ptr())
    }

    /// Whether `thread` is a thread of this VM.
    pub open spec fn has_thread(&self, thread: RawThread) -> bool {
        self.threads().contains(thread)
    }

    /// The place of `thread` among the VM's threads.
    pub closed spec fn index(&self, thread: RawThread) -> int {
        choose|i: int| 0 <= i < self.threads@.len() && self.threads@[i].spec_ptr() == thread
    }

    /// The stack of a thread of this VM.
    pub closed spec fn stack(&self, thread: RawThread) -> StackView {
        self.threads@[self.index(thread)].stack@
    }

    /// The application's data for a thread of this VM.
    pub closed spec fn thread_data(&self, thread: RawThread) -> Option<Data<D::ThreadData>> {
        self.threads@[self.index(thread)].userdata
    }

    /// Whether a thread of this VM has been sandboxed.
    pub closed spec fn sandboxed(&self, thread: RawThread) -> bool {
        self.threads@[self.index(thread)].sandboxed
    }

    /// The application's data for the VM as a whole.
    pub closed spec fn global_data(&self) -> Data<D> {
        self.data
    }

    /// Whether the standard libraries have been opened.
    pub closed spec fn libs_open(&self) -> bool {
        self.libs
    }

    /// The VM has a main thread; its threads are distinct, belong to its
    /// global state, and each have their application data.
    pub closed spec fn wf(&self) -> bool {
        &&& self.threads@.len() >= 1
        &&& self.registry@.wf()
        &&& forall|i: int|
            0 <= i < self.threads@.len() ==> (#[trigger] self.threads@[i]).global == self.global
                && self.threads@[i].userdata is Some && self.threads@[i].stack@.wf()
        &&& forall|i: int, j: int|
            0 <= i < j < self.threads@.len() ==> (#[trigger] self.threads@[i]).spec_ptr() != (
            #[trigger] self.threads@[j]).spec_ptr()
    }

    /// Whether this VM differs from `before` at most in its registry and in
    /// the stack of `thread`.
    pub open spec fn same_except(&self, before: &Self, thread: RawThread) -> bool {
        &&& self.threads() == before.threads()
        &&& self.spec_global() == before.spec_global()
        &&& self.global_data() == before.global_data()
        &&& self.libs_open() == before.libs_open()
        &&& forall|other: RawThread|
            before.has_thread(other) ==> self.thread_data(other) == before.thread_data(other)
                && self.sandboxed(other) == before.sandboxed(other)
        &&& forall|other: RawThread|
            before.has_thread(other) && other != thread ==> self.stack(other) == before.stack(
                other,
            )
    }

    /// What holds of every well-formed VM: it has a main thread, every one
    /// of its threads has its application data and a well-formed stack of
    /// its own, and its registry is well-formed.
    pub proof fn lemma_wf(&self)
        requires
            self.wf(),
        ensures
            self.threads().len() >= 1,
            self.threads().no_duplicates(),
            self.spec_registry().wf(),
            forall|t: RawThread|
                self.has_thread(t) ==> self.thread_data(t) is Some && self.stack(t).wf()
                    && self.stack(t).thread == t,
    {
        assert forall|t: RawThread| self.has_thread(t) implies self.thread_data(t) is Some
            && self.stack(t).wf() && self.stack(t).thread == t by {
            self.lemma_index(t);
        }
        assert forall|i: int, j: int|
            0 <= i < self.threads().len() && 0 <= j < self.threads().len() && i
                != j implies self.threads()[i] != self.threads()[j] by {
            if i < j {
                assert(self.threads@[i].spec_ptr() != self.threads@[j].spec_ptr());
            } else {
                assert(self.threads@[j].spec_ptr() != self.threads@[i].spec_ptr());
            }
        }
    }

    /// A thread of the VM has a place among its threads.
    proof fn lemma_index(&self, thread: RawThread)
        requires
            self.has_thread(thread),
        ensures
            0 <= self.index(thread) < self.threads@.len(),
            self.threads@[self.index(thread)].spec_ptr() == thread,
    {
        let i = choose|i: int| 0 <= i < self.threads().len() && self.threads()[i] == thread;
        assert(self.threads@[i].spec_ptr() == thread);
    }

    /// The thread at a place among the VM's threads has that place.
    proof fn lemma_index_at(&self, i: int)
        requires
            self.wf(),
            0 <= i < self.threads@.len(),
        ensures
            self.has_thread(self.threads@[i].spec_ptr()),
            self.index(self.threads@[i].spec_ptr()) == i,
    {
        let t = self.threads@[i].spec_ptr();
        assert(self.threads()[i] == t);
        self.lemma_index(t);
        let k = self.index(t);
        if k < i {
            assert(self.threads@[k].spec_ptr() != self.threads@[i].spec_ptr());
        } else if i < k {
            assert(self.threads@[i].spec_ptr() != self.threads@[k].spec_ptr());
        }
    }

    /// Makes the VM that the host has created, with the application's data
    /// for the VM and for its main thread. `None` if the host could not
    /// create one. The new VM has an empty registry and only its main
    /// thread, whose stack is the frame that the host reported.
    pub fn new(global_data: Data<D>, thread_data: Data<D::ThreadData>, created: Option<
        NativeState,
    >) -> (r: Option<Self>)
        ensures
            r is Some <==> created is Some,
            r matches Some(vm) ==> {
                let state = created.unwrap();
                &&& vm.wf()
                &&& vm.spec_global() == state.global
                &&& vm.threads() == seq![state.main@.thread]
                &&& vm.stack(state.main@.thread) == state.main@
                &&& vm.thread_data(state.main@.thread) == Some(thread_data)
                &&& !vm.sandboxed(state.main@.thread)
                &&& vm.global_data() == global_data
                &&& !vm.libs_open()
                &&& vm.spec_registry().slots.len() == 0
                &&& vm.spec_registry().free.len() == 0
                &&& vm.spec_registry().limit == if state.registry_limit <= i32::MAX {
                    state.registry_limit as nat
                } else {
                    i32::MAX as nat
                }
            },
    {
        match created {
            None => None,
            Some(state) => {
                let global = state.global;
                let registry = Registry::new(state.registry_limit);
                let _ = state.main.used();
                let mut main = LuaState { global, stack: state.main, userdata: None, sandboxed: false };
                main.set_userdata(thread_data);
                let mut threads = Vec::new();
                threads.push(main);
                let vm = Luau { global, registry, threads, data: global_data, libs: false };
                proof {
                    assert(vm.threads() =~= seq![state.main@.thread]);
                    assert(vm.threads()[0] == state.main@.thread);
                    vm.lemma_index(state.main@.thread);
                }
                Some(vm)
            },
        }
    }

    /// What the VM does for a thread when the host makes it or tears it
    /// down. For a new thread, which comes with its parent, the thread's
    /// data is derived from the parent's; for a thread that is torn down,
    /// which comes without one, its data is dropped.
    pub fn userthread(parent: Option<&LuaState<D::ThreadData>>, child: &mut LuaState<D::ThreadData>)
        requires
            parent matches Some(p) ==> p.userdata is Some,
        ensures
            final(child).userdata is Some <==> parent is Some,
            final(child).global == old(child).global,
            final(child).stack == old(child).stack,
            final(child).sandboxed == old(child).sandboxed,
    {
        match parent {
            Some(parent) => {
                let handle = Thread::from_raw(parent.ptr());
                match &parent.userdata {
                    Some(data) => {
                        let derived = D::ThreadData::derive(&handle, data);
                        child.set_userdata(derived);
                    },
                    None => {},
                }
            },
            None => {
                let _ = child.get_userdata();
            },
        }
    }

    /// The handle of the VM's global state.
    #[verifier::when_used_as_spec(spec_global)]
    pub fn global(&self) -> (g: RawGlobal)
        ensures
            g == self.spec_global(),
    {
        self.global
    }

    /// The VM's registry.
    pub fn registry(&self) -> (registry: &Registry)
        ensures
            registry@ == self.spec_registry(),
    {
        &self.registry
    }

    /// The application's data for the VM.
    pub fn data(&self) -> (data: &Data<D>)
        ensures
            *data == self.global_data(),
    {
        &self.data
    }

    /// The main thread, which exists for as long as the VM does.
    pub fn main_thread(&self) -> (t: Thread)
        requires
            self.wf(),
        ensures
            t.0 == self.threads()[0],
            self.has_thread(t.0),
    {
        proof {
            self.lemma_index_at(0);
        }
        Thread::from_raw(self.threads[0].ptr())
    }

    /// The place of `thread` among the VM's threads, if it is one of them.
    pub fn find(&self, thread: RawThread) -> (r: Option<usize>)
        requires
            self.wf(),
        ensures
            r is Some <==> self.has_thread(thread),
            r matches Some(i) ==> i == self.index(thread) && i < self.threads().len()
                && self.threads()[i as int] == thread,
    {
        let mut i: usize = 0;
        while i < self.threads.len()
            invariant
                self.wf(),
                i <= self.threads@.len(),
                forall|k: int| 0 <= k < i ==> self.threads@[k].spec_ptr() != thread,
            decreases self.threads@.len() - i,
        {
            if self.threads[i].ptr() == thread {
                proof {
                    self.lemma_index_at(i as int);
                    assert(self.threads()[i as int] == thread);
                }
                return Some(i);
            }
            i = i + 1;
        }
        proof {
            if self.has_thread(thread) {
                self.lemma_index(thread);
            }
        }
        None
    }

    /// Whether `thread` is a thread of this VM.
    pub fn contains(&self, thread: RawThread) -> (r: bool)
        requires
            self.wf(),
        ensures
            r == self.has_thread(thread),
    {
        self.find(thread).is_some()
    }

    /// The stack of a thread of this VM.
    pub fn stack_of(&self, thread: &Thread) -> (stack: &RawStack)
        requires
            self.wf(),
            self.has_thread(thread.0),
        ensures
            stack@ == self.stack(thread.0),
            stack@.wf(),
    {
        match self.find(thread.raw()) {
            Some(i) => &self.threads[i].stack,
            None => vstd::pervasive::unreached(),
        }
    }

    /// Takes hold of `value` through the stack of `thread`, anchoring it in
    /// the VM's registry if it is collectible.
    pub fn hold<T: Datatype>(&mut self, thread: &Thread, value: T) -> (r: LResult<LuauValue<T>>)
        requires
            old(self).wf(),
            old(self).has_thread(thread.0),
        ensures
            final(self).wf(),
            final(self).same_except(old(self), thread.0),
            acquired(
                value.raw_spec(),
                old(self).stack(thread.0),
                old(self).spec_registry(),
                final(self).stack(thread.0),
                final(self).spec_registry(),
                outcome(r),
            ),
            r matches Ok(held) ==> held.spec_inner() == value,
            final(self).stack(thread.0).used() == old(self).stack(thread.0).used(),
    {
        let i = match self.find(thread.raw()) {
            Some(i) => i,
            None => vstd::pervasive::unreached(),
        };
        let r = LuauValue::new(&mut self.threads[i].stack, &mut self.registry, value);
        proof {
            crate::vm::value::gc::lemma_acquired_balanced(
                value.raw_spec(),
                old(self).threads@[i as int].stack@,
                old(self).registry@,
                self.threads@[i as int].stack@,
                self.registry@,
                outcome(r),
            );
            self.lemma_touched(old(self), i as int);
        }
        r
    }

    /// A VM in which one thread's stack and the registry have changed, the
    /// stack still being that thread's, is well-formed and the same as
    /// before in everything else.
    proof fn lemma_touched(&self, before: &Self, i: int)
        requires
            before.wf(),
            0 <= i < before.threads@.len(),
            self.threads@.len() == before.threads@.len(),
            self.global == before.global,
            self.data == before.data,
            self.libs == before.libs,
            self.registry@.wf(),
            forall|k: int|
                0 <= k < before.threads@.len() && k != i ==> self.threads@[k]
                    == before.threads@[k],
            self.threads@[i].global == before.threads@[i].global,
            self.threads@[i].userdata == before.threads@[i].userdata,
            self.threads@[i].sandboxed == before.threads@[i].sandboxed,
            self.threads@[i].stack@.thread == before.threads@[i].stack@.thread,
            self.threads@[i].stack@.wf(),
        ensures
            self.wf(),
            self.same_except(before, before.threads@[i].spec_ptr()),
            self.index(before.threads@[i].spec_ptr()) == i,
            before.index(before.threads@[i].spec_ptr()) == i,
            self.stack(before.threads@[i].spec_ptr()) == self.threads@[i].stack@,
            before.stack(before.threads@[i].spec_ptr()) == before.threads@[i].stack@,
    {
        assert forall|k: int| 0 <= k < self.threads@.len() implies (#[trigger] self.threads@[k]).spec_ptr()
            == before.threads@[k].spec_ptr() by {}
        assert(self.threads() =~= before.threads());
        assert forall|k: int, j: int| 0 <= k < j < self.threads@.len() implies (
        #[trigger] self.threads@[k]).spec_ptr() != (#[trigger] self.threads@[j]).spec_ptr() by {
            assert(before.threads@[k].spec_ptr() != before.threads@[j].spec_ptr());
        }
        assert(self.wf());
        before.lemma_index_at(i);
        self.lemma_index_at(i);
        assert forall|other: RawThread| before.has_thread(other) implies self.thread_data(other)
            == before.thread_data(other) && self.sandboxed(other) == before.sandboxed(other) && (
        other != before.threads@[i].spec_ptr() ==> self.stack(other) == before.stack(other)) by {
            before.lemma_index(other);
            let k = before.index(other);
            self.lemma_index_at(k);
        }
    }

    /// Whether this VM is `before` with one more thread, `child`, and
    /// nothing else changed.
    pub open spec fn grown_from(&self, before: &Self, child: RawThread) -> bool {
        &&& self.threads() == before.threads().push(child)
        &&& self.spec_global() == before.spec_global()
        &&& self.global_data() == before.global_data()
        &&& self.libs_open() == before.libs_open()
        &&& self.spec_registry() == before.spec_registry()
        &&& forall|other: RawThread|
            before.has_thread(other) ==> self.thread_data(other) == before.thread_data(other)
                && self.sandboxed(other) == before.sandboxed(other) && self.stack(other)
                == before.stack(other)
    }

    /// Whether this VM is `before` with one more thread, `child`, and
    /// otherwise differs from it at most in its registry and in the stack of
    /// `parent`.
    pub open spec fn grown_except(&self, before: &Self, parent: RawThread, child: RawThread) -> bool {
        &&& self.threads() == before.threads().push(child)
        &&& self.spec_global() == before.spec_global()
        &&& self.global_data() == before.global_data()
        &&& self.libs_open() == before.libs_open()
        &&& forall|other: RawThread|
            before.has_thread(other) ==> self.thread_data(other) == before.thread_data(other)
                && self.sandboxed(other) == before.sandboxed(other) && (other != parent
                ==> self.stack(other) == before.stack(other))
    }

    /// A VM that has grown by a thread has that thread and those it had, and
    /// had not that thread before.
    proof fn lemma_grown(&self, before: &Self, parent: RawThread, child: RawThread)
        requires
            self.wf(),
            self.grown_except(before, parent, child),
        ensures
            self.has_thread(child),
            !before.has_thread(child),
            forall|other: RawThread| before.has_thread(other) ==> self.has_thread(other),
    {
        self.lemma_wf();
        let n = before.threads().len() as int;
        assert(self.threads()[n] == child);
        assert forall|other: RawThread| before.has_thread(other) implies self.has_thread(
            other,
        ) && other != child by {
            let k = choose|k: int| 0 <= k < before.threads().len() && before.threads()[k] == other;
            assert(self.threads()[k] == other);
        }
    }

    /// What changes a VM at most in its registry and in the stack of
    /// `parent` leaves a VM that has grown by a thread grown by that
    /// thread, and leaves the new thread as it was.
    proof fn lemma_grown_then_same(
        &self,
        mid: &Self,
        before: &Self,
        parent: RawThread,
        child: RawThread,
    )
        requires
            mid.wf(),
            before.has_thread(parent),
            mid.grown_except(before, parent, child),
            self.same_except(mid, parent),
        ensures
            self.grown_except(before, parent, child),
            self.stack(child) == mid.stack(child),
            self.thread_data(child) == mid.thread_data(child),
            self.sandboxed(child) == mid.sandboxed(child),
    {
        mid.lemma_grown(before, parent, child);
        assert forall|other: RawThread| before.has_thread(other) implies self.thread_data(other)
            == before.thread_data(other) && self.sandboxed(other) == before.sandboxed(other) && (
        other != parent ==> self.stack(other) == before.stack(other)) by {
            assert(mid.has_thread(other));
        }
    }

    /// Takes in the thread that the host has made from `parent`, whose frame
    /// is `frame`, and derives its application data from the parent's. A
    /// thread that the VM already has is not taken in a second time: then
    /// nothing changes and the result is `None`.
    pub fn adopt(&mut self, parent: &Thread, frame: RawStack) -> (r: Option<Thread>)
        requires
            old(self).wf(),
            old(self).has_thread(parent.0),
        ensures
            final(self).wf(),
            r is None <==> old(self).has_thread(frame@.thread),
            r is None ==> *final(self) == *old(self),
            r matches Some(child) ==> {
                &&& child.0 == frame@.thread
                &&& final(self).grown_from(old(self), child.0)
                &&& final(self).stack(child.0) == frame@
                &&& final(self).thread_data(child.0) is Some
                &&& !final(self).sandboxed(child.0)
            },
    {
        let child = frame.thread();
        if self.contains(child) {
            return None;
        }
        let i = match self.find(parent.raw()) {
            Some(i) => i,
            None => vstd::pervasive::unreached(),
        };
        let _ = frame.used();
        let mut state = LuaState { global: self.global, stack: frame, userdata: None, sandboxed: false };
        Self::userthread(Some(&self.threads[i]), &mut state);
        self.threads.push(state);
        proof {
            let n = old(self).threads@.len() as int;
            assert(self.threads() =~= old(self).threads().push(child));
            assert forall|k: int, j: int| 0 <= k < j < self.threads@.len() implies (
            #[trigger] self.threads@[k]).spec_ptr() != (#[trigger] self.threads@[j]).spec_ptr() by {
                if j < n {
                    assert(old(self).threads@[k].spec_ptr() != old(self).threads@[j].spec_ptr());
                } else {
                    old(self).lemma_index_at(k);
                }
            }
            assert(self.wf());
            self.lemma_index_at(n);
            assert forall|other: RawThread| old(self).has_thread(other) implies self.thread_data(
                other,
            ) == old(self).thread_data(other) && self.sandboxed(other) == old(self).sandboxed(
                other,
            ) && self.stack(other) == old(self).stack(other) by {
                old(self).lemma_index(other);
                let k = old(self).index(other);
                self.lemma_index_at(k);
            }
        }
        Some(Thread::from_raw(child))
    }

    /// Whether this VM is `before` with `thread` sandboxed and nothing else
    /// changed.
    pub open spec fn sandboxed_from(&self, before: &Self, thread: RawThread) -> bool {
        &&& self.threads() == before.threads()
        &&& self.spec_global() == before.spec_global()
        &&& self.global_data() == before.global_data()
        &&& self.libs_open() == before.libs_open()
        &&& self.spec_registry() == before.spec_registry()
        &&& self.sandboxed(thread)
        &&& forall|other: RawThread|
            before.has_thread(other) ==> self.thread_data(other) == before.thread_data(other)
                && self.stack(other) == before.stack(other) && (other != thread
                ==> self.sandboxed(other) == before.sandboxed(other))
    }

    /// Sandboxing the new thread of a VM that has grown by it leaves the VM
    /// grown by it, and the new thread as it was but for being sandboxed.
    proof fn lemma_grown_then_sandboxed(
        &self,
        mid: &Self,
        before: &Self,
        parent: RawThread,
        child: RawThread,
    )
        requires
            mid.wf(),
            before.has_thread(parent),
            mid.grown_except(before, parent, child),
            self.sandboxed_from(mid, child),
        ensures
            self.grown_except(before, parent, child),
            self.stack(child) == mid.stack(child),
            self.stack(parent) == mid.stack(parent),
            self.thread_data(child) == mid.thread_data(child),
            self.sandboxed(child),
    {
        mid.lemma_grown(before, parent, child);
        assert forall|other: RawThread| before.has_thread(other) implies self.thread_data(other)
            == before.thread_data(other) && self.sandboxed(other) == before.sandboxed(other) && (
        other != parent ==> self.stack(other) == before.stack(other)) by {
            assert(mid.has_thread(other));
        }
    }

    /// Records that the host has sandboxed a thread of this VM.
    pub fn mark_sandboxed(&mut self, thread: &Thread)
        requires
            old(self).wf(),
            old(self).has_thread(thread.0),
        ensures
            final(self).wf(),
            final(self).sandboxed_from(old(self), thread.0),
    {
        let i = match self.find(thread.raw()) {
            Some(i) => i,
            None => vstd::pervasive::unreached(),
        };
        self.threads[i].sandboxed = true;
        proof {
            assert forall|k: int| 0 <= k < self.threads@.len() implies (#[trigger] self.threads@[k]).spec_ptr()
                == old(self).threads@[k].spec_ptr() by {}
            assert(self.threads() =~= old(self).threads());
            assert forall|k: int, j: int| 0 <= k < j < self.threads@.len() implies (
            #[trigger] self.threads@[k]).spec_ptr() != (#[trigger] self.threads@[j]).spec_ptr() by {
                assert(old(self).threads@[k].spec_ptr() != old(self).threads@[j].spec_ptr());
            }
            assert(self.wf());
            old(self).lemma_index_at(i as int);
            self.lemma_index_at(i as int);
            assert forall|other: RawThread| old(self).has_thread(other) implies self.thread_data(
                other,
            ) == old(self).thread_data(other) && self.stack(other) == old(self).stack(other) && (
            other != thread.0 ==> self.sandboxed(other) == old(self).sandboxed(other)) by {
                old(self).lemma_index(other);
                let k = old(self).index(other);
                self.lemma_index_at(k);
            }
        }
    }

    /// Records the mark bits that the collector has given a thread of this
    /// VM.
    pub fn mark(&mut self, thread: &Thread, marked: u8)
        requires
            old(self).wf(),
            old(self).has_thread(thread.0),
        ensures
            final(self).wf(),
            final(self).same_except(old(self), thread.0),
            final(self).spec_registry() == old(self).spec_registry(),
            final(self).stack(thread.0) == (StackView { marked, ..old(self).stack(thread.0) }),
    {
        let i = match self.find(thread.raw()) {
            Some(i) => i,
            None => vstd::pervasive::unreached(),
        };
        self.threads[i].stack.set_marked(marked);
        proof {
            self.lemma_touched(old(self), i as int);
        }
    }

    /// The application's data for a thread of this VM.
    pub fn userdata(&self, thread: &Thread) -> (data: &Data<D::ThreadData>)
        requires
            self.wf(),
            self.has_thread(thread.0),
        ensures
            self.thread_data(thread.0) == Some(*data),
    {
        match self.find(thread.raw()) {
            Some(i) => match &self.threads[i].userdata {
                Some(data) => data,
                None => vstd::pervasive::unreached(),
            },
            None => vstd::pervasive::unreached(),
        }
    }

    /// Records that the host has opened the standard libraries.
    pub fn open_libs(&mut self)
        requires
            old(self).wf(),
        ensures
            final(self).wf(),
            final(self).libs_open(),
            final(self).threads() == old(self).threads(),
            final(self).spec_global() == old(self).spec_global(),
            final(self).global_data() == old(self).global_data(),
            final(self).spec_registry() == old(self).spec_registry(),
            forall|other: RawThread|
                old(self).has_thread(other) ==> final(self).thread_data(other) == old(
                    self,
                ).thread_data(other) && final(self).stack(other) == old(self).stack(other)
                    && final(self).sandboxed(other) == old(self).sandboxed(other),
    {
        self.libs = true;
    }

    /// Lets go of a held value: its anchor, if it has one, is given up.
    /// Nothing but the registry changes.
    pub fn release<T: Datatype>(&mut self, held: LuauValue<T>)
        requires
            old(self).wf(),
        ensures
            final(self).wf(),
            final(self).spec_registry() == match held.spec_handle() {
                Some(h) => old(self).spec_registry().unreference(h),
                None => old(self).spec_registry(),
            },
            final(self).threads() == old(self).threads(),
            final(self).spec_global() == old(self).spec_global(),
            final(self).global_data() == old(self).global_data(),
            final(self).libs_open() == old(self).libs_open(),
            forall|other: RawThread|
                old(self).has_thread(other) ==> final(self).thread_data(other) == old(
                    self,
                ).thread_data(other) && final(self).stack(other) == old(self).stack(other)
                    && final(self).sandboxed(other) == old(self).sandboxed(other),
    {
        proof {
            if held.spec_handle() is Some {
                self.registry@.lemma_unreference(held.spec_handle().unwrap());
            }
        }
        held.release(&mut self.registry)
    }

    /// Closes the VM. Every thread is torn down, the main thread first, and
    /// its application data is dropped; what is returned are the threads as
    /// the teardown left them, in that order, for the host to free.
    pub fn close(self) -> (closed: Vec<LuaState<D::ThreadData>>)
        requires
            self.wf(),
        ensures
            closed@.len() == self.threads().len(),
            forall|i: int|
                0 <= i < closed@.len() ==> (#[trigger] closed@[i]).spec_ptr() == self.threads()[i]
                    && closed@[i].userdata is None && closed@[i].stack@ == self.stack(
                    self.threads()[i],
                ),
    {
        let mut threads = self.threads;
        let mut i: usize = 0;
        while i < threads.len()
            invariant
                i <= threads@.len(),
                threads@.len() == self.threads@.len(),
                forall|k: int|
                    0 <= k < threads@.len() ==> (#[trigger] threads@[k]).stack
                        == self.threads@[k].stack,
                forall|k: int| 0 <= k < i ==> (#[trigger] threads@[k]).userdata is None,
            decreases threads@.len() - i,
        {
            Self::userthread(None, &mut threads[i]);
            i = i + 1;
        }
        proof {
            assert forall|i: int| 0 <= i < threads@.len() implies (#[trigger] threads@[i]).spec_ptr()
                == self.threads()[i] && threads@[i].userdata is None && threads@[i].stack@
                == self.stack(self.threads()[i]) by {
                self.lemma_index_at(i);
            }
        }
        threads
    }
}

impl<D: GlobalData> Luau<D> {
    /// Takes in the thread that the host reports to have made from the main
    /// thread and to have sandboxed, and takes hold of it.
    pub fn new_thread(&mut self, created: NativeResult<RawStack>, sandboxed: NativeResult<()>) -> (r:
        LResult<LuauValue<Thread>>)
        requires
            old(self).wf(),
        ensures
            final(self).wf(),
            spawned(old(self).threads()[0], created, sandboxed, old(self), final(self), r),
            final(self).stack(old(self).threads()[0]).used() == old(self).stack(
                old(self).threads()[0],
            ).used(),
    {
        let main = self.main_thread();
        main.new_thread(self, created, sandboxed)
    }
}

impl Luau<()> {
    /// Compiles source text with the default options. The compiled function
    /// can then be loaded into a thread and run.
    pub fn compile<F: FnOnce(&str, &CompileOptions, &ParseOptions) -> CompileResult>(
        source: &str,
        compiler: F,
    ) -> (r: Result<CompiledFunction, CompileError>)
        requires
            forall|c: &CompileOptions, p: &ParseOptions| call_requires(compiler, (source, c, p)),
        ensures
            exists|c: &CompileOptions, p: &ParseOptions, result: CompileResult|
                {
                    &&& #[trigger] call_ensures(compiler, (source, c, p), result)
                    &&& decodes(result, r)
                    &&& c.spec_optimization_level() == 1
                    &&& c.spec_debug_level() == 1
                    &&& c.spec_coverage_level() == 0
                    &&& p.spec_allow_type_annotations()
                    &&& p.spec_support_continue_statement()
                    &&& !p.spec_allow_declaration_syntax()
                    &&& !p.spec_capture_comments()
                },
    {
        let compile_opts = CompileOptions::default();
        let parse_opts = ParseOptions::default();
        compile(source, &compile_opts, &parse_opts, compiler)
    }

    /// Compiles source text with the default options and a compiler that
    /// never fails: an error in the source comes back as bytecode that
    /// raises it when the VM runs it.
    pub fn compile_sneakily<F: FnOnce(&str, &CompileOptions, &ParseOptions) -> Vec<u8>>(
        source: &str,
        compiler: F,
    ) -> (r: CompiledFunction)
        requires
            forall|c: &CompileOptions, p: &ParseOptions| call_requires(compiler, (source, c, p)),
        ensures
            exists|c: &CompileOptions, p: &ParseOptions, bytecode: Vec<u8>|
                {
                    &&& #[trigger] call_ensures(compiler, (source, c, p), bytecode)
                    &&& r@ == bytecode@
                    &&& c.spec_optimization_level() == 1
                    &&& c.spec_debug_level() == 1
                    &&& c.spec_coverage_level() == 0
                    &&& p.spec_allow_type_annotations()
                    &&& p.spec_support_continue_statement()
                    &&& !p.spec_allow_declaration_syntax()
                    &&& !p.spec_capture_comments()
                },
    {
        let compile_opts = CompileOptions::default();
        let parse_opts = ParseOptions::default();
        compile_sneakily(source, &compile_opts, &parse_opts, compiler)
    }
}

} // verus!
