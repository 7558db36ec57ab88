//! Threads.

use vstd::prelude::*;

use crate::vm::call::{
    begin, finish, finished, lemma_call_balanced, lemma_finished_balanced, pushed, CallOutcome,
};
use crate::vm::data::GlobalData;
use crate::vm::error::{
    classified, lemma_classified, protected, LError, LResult, LStatus, NativeResult,
};
use crate::vm::raw::registry::Registry;
use crate::vm::raw::stack::RawStack;
use crate::vm::raw::thread::RawThread;
use crate::vm::raw::value::{RawValue, RawValueData};
use crate::vm::value::buffer::Buffer;
use crate::vm::value::closure::Closure;
use crate::vm::value::dynamic::Dynamic;
use crate::vm::value::gc::{acquired, Datatype, LuauRef};
use crate::vm::value::string::LString;
use crate::vm::value::table::Table;
use crate::vm::value::userdata::Userdata;
use crate::vm::value::{constructed, lemma_constructed, outcome, LuauValue};
use crate::vm::Luau;

verus! {

/// A value known to be a thread.
#[derive(Debug)]
pub struct Thread(pub RawThread);

impl Datatype for Thread {
    type Ref = LuauRef;

    open spec fn raw_spec(&self) -> RawValue {
        RawValue { data: RawValueData::Thread(self.0) }
    }

    open spec fn handle_of(anchor: &LuauRef) -> Option<i32> {
        Some(anchor.spec_handle())
    }

    fn acquire_ref(&self, stack: &mut RawStack, registry: &mut Registry) -> (r: LResult<LuauRef>) {
        LuauRef::new(stack, registry, RawValue::new_thread(self.0))
    }

    fn release_ref(anchor: LuauRef, registry: &mut Registry) {
        anchor.release(registry)
    }

    fn raw_value(&self) -> (v: RawValue) {
        RawValue::new_thread(self.0)
    }
}

impl Thread {
    /// The thread behind a handle.
    pub fn from_raw(raw: RawThread) -> (r: Self)
        ensures
            r.0 == raw,
    {
        Thread(raw)
    }

    /// The handle of the thread.
    pub fn raw(&self) -> (r: RawThread)
        ensures
            r == self.0,
    {
        self.0
    }
}

/// The cells that stand for a list of held values.
pub open spec fn raw_values(held: Seq<LuauValue<Dynamic>>) -> Seq<RawValue> {
    held.map_values(|v: LuauValue<Dynamic>| v.spec_inner().raw_spec())
}

impl Thread {
    /// Takes hold, through this thread's stack, of the value that a native
    /// constructor reports to have made, or types the constructor's failure
    /// with the value it raised. A message is looked for if `proper`, and
    /// in any case where memory ran out or the failure is a double fault.
    pub fn construct<D: GlobalData, T: Datatype>(
        &self,
        vm: &mut Luau<D>,
        proper: bool,
        created: NativeResult<T>,
    ) -> (r: LResult<LuauValue<T>>)
        requires
            old(vm).wf(),
            old(vm).has_thread(self.0),
        ensures
            final(vm).wf(),
            final(vm).same_except(old(vm), self.0),
            constructed(
                proper,
                created,
                old(vm).stack(self.0),
                old(vm).spec_registry(),
                final(vm).stack(self.0),
                final(vm).spec_registry(),
                r,
            ),
            final(vm).stack(self.0).used() == old(vm).stack(self.0).used(),
            final(vm).stack(self.0).live() == old(vm).stack(self.0).live(),
    {
        let i = match vm.find(self.0) {
            Some(i) => i,
            None => vstd::pervasive::unreached(),
        };
        let r = LuauValue::construct(&mut vm.threads[i].stack, &mut vm.registry, proper, created);
        proof {
            lemma_constructed(
                proper,
                created,
                old(vm).threads@[i as int].stack@,
                old(vm).registry@,
                vm.threads@[i as int].stack@,
                vm.registry@,
                r,
            );
            vm.lemma_touched(old(vm), i as int);
        }
        r
    }

    /// The string that the host reports to have made, held and anchored.
    pub fn new_string<D: GlobalData>(&self, vm: &mut Luau<D>, created: NativeResult<LString>) -> (r:
        LResult<LuauValue<LString>>)
        requires
            old(vm).wf(),
            old(vm).has_thread(self.0),
        ensures
            final(vm).wf(),
            final(vm).same_except(old(vm), self.0),
            constructed(
                false,
                created,
                old(vm).stack(self.0),
                old(vm).spec_registry(),
                final(vm).stack(self.0),
                final(vm).spec_registry(),
                r,
            ),
            final(vm).stack(self.0).used() == old(vm).stack(self.0).used(),
    {
        self.construct(vm, false, created)
    }

    /// The table that the host reports to have made, held and anchored.
    pub fn new_table<D: GlobalData>(&self, vm: &mut Luau<D>, created: NativeResult<Table>) -> (r:
        LResult<LuauValue<Table>>)
        requires
            old(vm).wf(),
            old(vm).has_thread(self.0),
        ensures
            final(vm).wf(),
            final(vm).same_except(old(vm), self.0),
            constructed(
                false,
                created,
                old(vm).stack(self.0),
                old(vm).spec_registry(),
                final(vm).stack(self.0),
                final(vm).spec_registry(),
                r,
            ),
            final(vm).stack(self.0).used() == old(vm).stack(self.0).used(),
    {
        self.construct(vm, false, created)
    }

    /// The buffer that the host reports to have made, held and anchored.
    pub fn new_buffer<D: GlobalData>(&self, vm: &mut Luau<D>, created: NativeResult<Buffer>) -> (r:
        LResult<LuauValue<Buffer>>)
        requires
            old(vm).wf(),
            old(vm).has_thread(self.0),
        ensures
            final(vm).wf(),
            final(vm).same_except(old(vm), self.0),
            constructed(
                false,
                created,
                old(vm).stack(self.0),
                old(vm).spec_registry(),
                final(vm).stack(self.0),
                final(vm).spec_registry(),
                r,
            ),
            final(vm).stack(self.0).used() == old(vm).stack(self.0).used(),
    {
        self.construct(vm, false, created)
    }

    /// The full userdata that the host reports to have made, held and
    /// anchored.
    pub fn new_userdata<D: GlobalData>(&self, vm: &mut Luau<D>, created: NativeResult<Userdata>) -> (r:
        LResult<LuauValue<Userdata>>)
        requires
            old(vm).wf(),
            old(vm).has_thread(self.0),
        ensures
            final(vm).wf(),
            final(vm).same_except(old(vm), self.0),
            constructed(
                false,
                created,
                old(vm).stack(self.0),
                old(vm).spec_registry(),
                final(vm).stack(self.0),
                final(vm).spec_registry(),
                r,
            ),
            final(vm).stack(self.0).used() == old(vm).stack(self.0).used(),
    {
        self.construct(vm, false, created)
    }

    /// The closure that the host reports to have loaded from bytecode, held
    /// and anchored. Where loading failed, the loader's message is expected
    /// and the failure is typed with it.
    pub fn new_closure<D: GlobalData>(&self, vm: &mut Luau<D>, loaded: NativeResult<Closure>) -> (r:
        LResult<LuauValue<Closure>>)
        requires
            old(vm).wf(),
            old(vm).has_thread(self.0),
        ensures
            final(vm).wf(),
            final(vm).same_except(old(vm), self.0),
            constructed(
                true,
                loaded,
                old(vm).stack(self.0),
                old(vm).spec_registry(),
                final(vm).stack(self.0),
                final(vm).spec_registry(),
                r,
            ),
            final(vm).stack(self.0).used() == old(vm).stack(self.0).used(),
    {
        self.construct(vm, true, loaded)
    }
}

/// What comes of the host's report that it has made a thread from `parent`.
///
/// Where the host failed, the failure is typed on the parent's stack and no
/// thread is added. Where it succeeded, the new thread joins the VM's
/// threads with the frame that the host reported, with application data
/// derived from its parent's, and not yet sandboxed. A report that names a
/// thread which the VM already has is a `DoubleError`, and changes nothing.
pub open spec fn made<D: GlobalData>(
    parent: RawThread,
    created: NativeResult<RawStack>,
    before: &Luau<D>,
    after: &Luau<D>,
    r: LResult<Thread>,
) -> bool {
    match protected(created.status, created.output) {
        Ok(frame) => if before.has_thread(frame@.thread) {
            &&& r matches Err(e)
            &&& e is DoubleError
            &&& after.same_except(before, parent)
            &&& after.stack(parent) == before.stack(parent)
            &&& after.spec_registry() == before.spec_registry()
        } else {
            &&& r matches Ok(child)
            &&& child.0 == frame@.thread
            &&& after.grown_from(before, child.0)
            &&& after.stack(child.0) == frame@
            &&& after.thread_data(child.0) is Some
            &&& !after.sandboxed(child.0)
        },
        Err(status) => {
            &&& r matches Err(e)
            &&& after.same_except(before, parent)
            &&& classified(
                false,
                status,
                created.raised,
                before.stack(parent),
                before.spec_registry(),
                after.stack(parent),
                after.spec_registry(),
                e,
            )
        },
    }
}

/// What comes of the host's reports that it has made a thread from `parent`
/// and then sandboxed it.
///
/// Where no thread was added nothing more happens. Otherwise, if the
/// sandboxing failed, the failure is typed on the parent's stack and the new
/// thread stays as it is; if it succeeded, the thread is marked sandboxed
/// and is taken hold of through the parent's stack.
pub open spec fn spawned<D: GlobalData>(
    parent: RawThread,
    created: NativeResult<RawStack>,
    sandboxed: NativeResult<()>,
    before: &Luau<D>,
    after: &Luau<D>,
    r: LResult<LuauValue<Thread>>,
) -> bool {
    match protected(created.status, created.output) {
        Ok(frame) if !before.has_thread(frame@.thread) => {
            let child = frame@.thread;
            &&& after.grown_except(before, parent, child)
            &&& after.stack(child) == frame@
            &&& after.thread_data(child) is Some
            &&& match protected(sandboxed.status, sandboxed.output) {
                Ok(_) => {
                    &&& after.sandboxed(child)
                    &&& acquired(
                        Thread(child).raw_spec(),
                        before.stack(parent),
                        before.spec_registry(),
                        after.stack(parent),
                        after.spec_registry(),
                        outcome(r),
                    )
                    &&& r matches Ok(held) ==> held.spec_inner() == Thread(child)
                },
                Err(status) => {
                    &&& !after.sandboxed(child)
                    &&& r matches Err(e)
                    &&& classified(
                        false,
                        status,
                        sandboxed.raised,
                        before.stack(parent),
                        before.spec_registry(),
                        after.stack(parent),
                        after.spec_registry(),
                        e,
                    )
                },
            }
        },
        _ => {
            &&& r matches Err(e)
            &&& made(parent, created, before, after, Err(e))
        },
    }
}

impl Thread {
    /// Takes in the thread that the host reports to have made from `parent`.
    pub fn new<D: GlobalData>(parent: &Thread, vm: &mut Luau<D>, created: NativeResult<RawStack>) -> (r:
        LResult<Thread>)
        requires
            old(vm).wf(),
            old(vm).has_thread(parent.0),
        ensures
            final(vm).wf(),
            made(parent.0, created, old(vm), final(vm), r),
    {
        let i = match vm.find(parent.0) {
            Some(i) => i,
            None => vstd::pervasive::unreached(),
        };
        let ghost s0 = vm.threads@[i as int].stack@;
        let ghost g0 = vm.registry@;
        let settled = LError::settle(&mut vm.threads[i].stack, &mut vm.registry, false, created);
        proof {
            if settled is Err {
                lemma_classified(
                    false,
                    protected(created.status, created.output)->Err_0,
                    created.raised,
                    s0,
                    g0,
                    vm.threads@[i as int].stack@,
                    vm.registry@,
                    settled->Err_0,
                );
            }
            vm.lemma_touched(old(vm), i as int);
        }
        match settled {
            Err(e) => Err(e),
            Ok(frame) => {
                match vm.adopt(parent, frame) {
                    Some(child) => Ok(child),
                    None => Err(LError::DoubleError),
                }
            },
        }
    }

    /// Takes in the thread that the host reports to have made from this one
    /// and to have sandboxed, and takes hold of it.
    pub fn new_thread<D: GlobalData>(
        &self,
        vm: &mut Luau<D>,
        created: NativeResult<RawStack>,
        sandboxed: NativeResult<()>,
    ) -> (r: LResult<LuauValue<Thread>>)
        requires
            old(vm).wf(),
            old(vm).has_thread(self.0),
        ensures
            final(vm).wf(),
            spawned(self.0, created, sandboxed, old(vm), final(vm), r),
            final(vm).has_thread(self.0),
            final(vm).stack(self.0).used() == old(vm).stack(self.0).used(),
    {
        proof {
            old(vm).lemma_wf();
        }
        let child = match Thread::new(self, vm, created) {
            Ok(child) => child,
            Err(e) => {
                proof {
                    vm.lemma_wf();
                    if protected(created.status, created.output) is Err {
                        lemma_classified(
                            false,
                            protected(created.status, created.output)->Err_0,
                            created.raised,
                            old(vm).stack(self.0),
                            old(vm).spec_registry(),
                            vm.stack(self.0),
                            vm.spec_registry(),
                            e,
                        );
                    }
                }
                return Err(e);
            },
        };
        let ghost grown = *vm;
        proof {
            grown.lemma_wf();
            grown.lemma_grown(old(vm), self.0, child.0);
        }
        let i = match vm.find(self.0) {
            Some(i) => i,
            None => vstd::pervasive::unreached(),
        };
        let settled = LError::settle(&mut vm.threads[i].stack, &mut vm.registry, false, sandboxed);
        let ghost checked = *vm;
        proof {
            if settled is Err {
                lemma_classified(
                    false,
                    protected(sandboxed.status, sandboxed.output)->Err_0,
                    sandboxed.raised,
                    grown.threads@[i as int].stack@,
                    grown.registry@,
                    vm.threads@[i as int].stack@,
                    vm.registry@,
                    settled->Err_0,
                );
            }
            vm.lemma_touched(&grown, i as int);
            checked.lemma_grown_then_same(&grown, old(vm), self.0, child.0);
            checked.lemma_grown(old(vm), self.0, child.0);
        }
        match settled {
            Err(e) => Err(e),
            Ok(_) => {
                vm.mark_sandboxed(&child);
                let ghost sealed = *vm;
                proof {
                    sealed.lemma_grown_then_sandboxed(&checked, old(vm), self.0, child.0);
                    sealed.lemma_grown(old(vm), self.0, child.0);
                }
                let r = vm.hold(self, child);
                proof {
                    vm.lemma_grown_then_same(&sealed, old(vm), self.0, child.0);
                    vm.lemma_grown(old(vm), self.0, child.0);
                    assert(Thread(child.0) == child);
                }
                r
            },
        }
    }

    /// Pushes `function` and then `args` on this thread's stack, ready for
    /// the host to run the call, and returns the number of cells that were
    /// in use before. With fewer cells left than the function and its
    /// arguments need, nothing is pushed and the call fails with
    /// `StackOverflow`.
    pub fn begin_call<D: GlobalData>(
        &self,
        vm: &mut Luau<D>,
        function: &LuauValue<Closure>,
        args: &Vec<LuauValue<Dynamic>>,
    ) -> (r: LResult<usize>)
        requires
            old(vm).wf(),
            old(vm).has_thread(self.0),
        ensures
            final(vm).wf(),
            final(vm).same_except(old(vm), self.0),
            final(vm).spec_registry() == old(vm).spec_registry(),
            r is Ok <==> old(vm).stack(self.0).left() >= args@.len() + 1,
            r matches Ok(base) ==> base == old(vm).stack(self.0).used() && final(vm).stack(self.0)
                == pushed(
                old(vm).stack(self.0),
                function.spec_inner().raw_spec(),
                raw_values(args@),
            ),
            r matches Err(e) ==> e is StackOverflow && final(vm).stack(self.0) == old(vm).stack(
                self.0,
            ),
    {
        let mut cells: Vec<RawValue> = Vec::new();
        let mut k: usize = 0;
        while k < args.len()
            invariant
                k <= args@.len(),
                cells@.len() == k,
                forall|j: int| 0 <= j < k ==> cells@[j] == args@[j].spec_inner().raw_spec(),
            decreases args@.len() - k,
        {
            cells.push(args[k].inner().raw_value());
            k = k + 1;
        }
        proof {
            assert(cells@ =~= raw_values(args@));
        }
        let i = match vm.find(self.0) {
            Some(i) => i,
            None => vstd::pervasive::unreached(),
        };
        let ghost s0 = vm.threads@[i as int].stack@;
        let r = begin(&mut vm.threads[i].stack, function.inner().raw_value(), cells.as_slice());
        proof {
            if r is Ok {
                s0.lemma_push_many_free(seq![function.spec_inner().raw_spec()] + raw_values(args@));
            }
            vm.lemma_touched(old(vm), i as int);
        }
        r
    }

    /// Makes of the outcome of a call on this thread, begun when `base`
    /// cells of its stack were in use, what the caller gets.
    pub fn finish_call<D: GlobalData>(&self, vm: &mut Luau<D>, base: usize, outcome: CallOutcome) -> (r:
        LStatus<Vec<LuauValue<Dynamic>>>)
        requires
            old(vm).wf(),
            old(vm).has_thread(self.0),
        ensures
            final(vm).wf(),
            final(vm).same_except(old(vm), self.0),
            finished(
                base as nat,
                outcome.status,
                outcome.values@,
                old(vm).stack(self.0),
                old(vm).spec_registry(),
                final(vm).stack(self.0),
                final(vm).spec_registry(),
                r,
            ),
    {
        let i = match vm.find(self.0) {
            Some(i) => i,
            None => vstd::pervasive::unreached(),
        };
        let ghost s0 = vm.threads@[i as int].stack@;
        let ghost g0 = vm.registry@;
        let ghost status = outcome.status;
        let ghost values = outcome.values@;
        let r = finish(&mut vm.threads[i].stack, &mut vm.registry, base, outcome);
        proof {
            lemma_finished_balanced(
                base as nat,
                status,
                values,
                s0,
                g0,
                vm.threads@[i as int].stack@,
                vm.registry@,
                r,
            );
            vm.lemma_touched(old(vm), i as int);
        }
        r
    }

    /// Calls `function` with `args` on this thread and waits for it to
    /// return. The function and its arguments are pushed, `run` has the host
    /// run the call and reports its outcome, and the outcome is made into
    /// held results or a typed failure. With too few cells left for the
    /// function and its arguments the call fails with `StackOverflow` and
    /// `run` is not called. However the call ends, as many cells of the
    /// stack are in use afterwards as before.
    pub fn call_sync<D: GlobalData, F: FnOnce() -> CallOutcome>(
        &self,
        vm: &mut Luau<D>,
        function: &LuauValue<Closure>,
        args: &Vec<LuauValue<Dynamic>>,
        run: F,
    ) -> (r: LStatus<Vec<LuauValue<Dynamic>>>)
        requires
            old(vm).wf(),
            old(vm).has_thread(self.0),
            call_requires(run, ()),
        ensures
            final(vm).wf(),
            final(vm).same_except(old(vm), self.0),
            final(vm).stack(self.0).used() == old(vm).stack(self.0).used(),
            final(vm).stack(self.0).live() == old(vm).stack(self.0).live(),
            old(vm).stack(self.0).left() < args@.len() + 1 ==> (r matches LStatus::Failed(e)
                && e is StackOverflow) && final(vm).stack(self.0) == old(vm).stack(self.0)
                && final(vm).spec_registry() == old(vm).spec_registry(),
            old(vm).stack(self.0).left() >= args@.len() + 1 ==> exists|outcome: CallOutcome| #[trigger]
                call_ensures(run, (), outcome) && finished(
                    old(vm).stack(self.0).used(),
                    outcome.status,
                    outcome.values@,
                    pushed(
                        old(vm).stack(self.0),
                        function.spec_inner().raw_spec(),
                        raw_values(args@),
                    ),
                    old(vm).spec_registry(),
                    final(vm).stack(self.0),
                    final(vm).spec_registry(),
                    r,
                ),
    {
        proof {
            old(vm).lemma_wf();
        }
        let base = match self.begin_call(vm, function, args) {
            Ok(base) => base,
            Err(e) => {
                return LStatus::Failed(e);
            },
        };
        let ghost begun = *vm;
        let outcome = run();
        let ghost status = outcome.status;
        let ghost values = outcome.values@;
        let r = self.finish_call(vm, base, outcome);
        proof {
            begun.lemma_wf();
            lemma_call_balanced(
                function.spec_inner().raw_spec(),
                raw_values(args@),
                status,
                values,
                old(vm).stack(self.0),
                old(vm).spec_registry(),
                vm.stack(self.0),
                vm.spec_registry(),
                r,
            );
        }
        r
    }
}

} // verus!
