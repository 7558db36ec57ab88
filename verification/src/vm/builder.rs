//! Building a VM step by step: its data, its libraries, its environment.

use vstd::prelude::*;

use crate::vm::data::{Data, GlobalData};
use crate::vm::raw::thread::RawThread;
use crate::vm::{Luau, NativeState};

verus! {

/// First step: the application's data.
pub struct LuauBuildData;

/// Second step: whether the standard libraries are opened.
pub struct LuauBuildLibs<D: GlobalData>(Luau<D>);

/// Third step: what is set up in the global environment before it is sealed.
pub struct LuauBuildEnv<D: GlobalData>(Luau<D>);

/// Whether `after` is `before` with its main thread sandboxed and nothing
/// else changed.
pub open spec fn sealed<D: GlobalData>(before: &Luau<D>, after: &Luau<D>) -> bool {
    after.wf() && after.sandboxed_from(before, before.threads()[0])
}

impl LuauBuildData {
    /// Makes the VM that the host has created, with the application's data
    /// for the VM and for its main thread. `None` if the host could not
    /// create one.
    pub fn data<D: GlobalData>(
        self,
        global_data: Data<D>,
        thread_data: Data<D::ThreadData>,
        created: Option<NativeState>,
    ) -> (r: Option<LuauBuildLibs<D>>)
        ensures
            r is Some <==> created is Some,
            r matches Some(next) ==> {
                let state = created.unwrap();
                &&& next.vm().wf()
                &&& next.vm().spec_global() == state.global
                &&& next.vm().threads() == seq![state.main@.thread]
                &&& next.vm().stack(state.main@.thread) == state.main@
                &&& next.vm().thread_data(state.main@.thread) == Some(thread_data)
                &&& next.vm().global_data() == global_data
                &&& !next.vm().libs_open()
                &&& !next.vm().sandboxed(state.main@.thread)
                &&& next.vm().spec_registry().slots.len() == 0
            },
    {
        match Luau::new(global_data, thread_data, created) {
            Some(vm) => Some(LuauBuildLibs(vm)),
            None => None,
        }
    }

    /// Makes the VM that the host has created, without application data.
    pub fn no_data(self, created: Option<NativeState>) -> (r: Option<LuauBuildLibs<()>>)
        ensures
            r is Some <==> created is Some,
            r matches Some(next) ==> {
                let state = created.unwrap();
                &&& next.vm().wf()
                &&& next.vm().spec_global() == state.global
                &&& next.vm().threads() == seq![state.main@.thread]
                &&& next.vm().stack(state.main@.thread) == state.main@
                &&& !next.vm().libs_open()
                &&& !next.vm().sandboxed(state.main@.thread)
                &&& next.vm().spec_registry().slots.len() == 0
            },
    {
        self.data(Box::new(()), Box::new(()), created)
    }
}

impl<D: GlobalData> LuauBuildLibs<D> {
    #[verifier::type_invariant]
    closed spec fn inv(&self) -> bool {
        self.0.wf()
    }

    /// The VM being built.
    pub closed spec fn vm(&self) -> Luau<D> {
        self.0
    }

    /// Records that the host has opened the standard libraries.
    pub fn all_libs(self) -> (next: LuauBuildEnv<D>)
        ensures
            next.vm().wf(),
            next.vm().libs_open(),
            next.vm().threads() == self.vm().threads(),
            next.vm().spec_global() == self.vm().spec_global(),
            next.vm().global_data() == self.vm().global_data(),
            next.vm().spec_registry() == self.vm().spec_registry(),
            forall|other: RawThread|
                self.vm().has_thread(other) ==> next.vm().thread_data(other)
                    == self.vm().thread_data(other) && next.vm().stack(other) == self.vm().stack(
                    other,
                ) && next.vm().sandboxed(other) == self.vm().sandboxed(other),
    {
        proof {
            use_type_invariant(&self);
        }
        let mut vm = self.0;
        vm.open_libs();
        LuauBuildEnv(vm)
    }

    /// Goes on without the standard libraries.
    pub fn no_libs(self) -> (next: LuauBuildEnv<D>)
        ensures
            next.vm() == self.vm(),
            next.vm().wf(),
    {
        proof {
            use_type_invariant(&self);
        }
        LuauBuildEnv(self.0)
    }
}

impl<D: GlobalData> LuauBuildEnv<D> {
    #[verifier::type_invariant]
    closed spec fn inv(&self) -> bool {
        self.0.wf()
    }

    /// The VM being built.
    pub closed spec fn vm(&self) -> Luau<D> {
        self.0
    }

    /// Lets `closure` set up the global environment, then seals it: the main
    /// thread is sandboxed. `closure` has to leave the VM well-formed.
    pub fn setup<F: FnOnce(&mut Luau<D>)>(self, closure: F) -> (vm: Luau<D>)
        requires
            forall|given: &mut Luau<D>| *given == self.vm() ==> call_requires(closure, (given,)),
            forall|given: &mut Luau<D>|
                *given == self.vm() && call_ensures(closure, (given,), ()) ==> final(given).wf(),
        ensures
            exists|given: &mut Luau<D>|
                *given == self.vm() && #[trigger] call_ensures(closure, (given,), ()) && sealed(
                    final(given),
                    &vm,
                ),
    {
        proof {
            use_type_invariant(&self);
        }
        let mut vm = self.0;
        closure(&mut vm);
        LuauBuildEnv(vm).no_setup()
    }

    /// Seals the global environment as it is: the main thread is sandboxed.
    pub fn no_setup(self) -> (vm: Luau<D>)
        ensures
            self.vm().wf(),
            sealed(&self.vm(), &vm),
    {
        proof {
            use_type_invariant(&self);
        }
        let mut vm = self.0;
        let main = vm.main_thread();
        vm.mark_sandboxed(&main);
        vm
    }
}

impl Luau<()> {
    /// Begins building a VM.
    pub fn builder() -> LuauBuildData {
        LuauBuildData
    }
}

} // verus!
