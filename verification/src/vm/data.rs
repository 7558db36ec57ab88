//! Application data attached to a VM and to each of its threads.

use vstd::prelude::*;

use crate::vm::value::thread::Thread;
use crate::vm::value::LuauValue;
use crate::vm::Luau;

verus! {

/// How application data is held by the VM.
pub type Data<T> = Box<T>;

/// Data that an application attaches to each thread of a VM. The main
/// thread's data is given when the VM is made; every other thread's data is
/// derived from that of the thread that creates it.
pub trait ThreadData: Sized {
    /// The data for a new thread whose parent is `parent` and whose parent's
    /// data is `data`.
    fn derive(parent: &Thread, data: &Self) -> Data<Self>;
}

/// Data that an application attaches to a VM as a whole.
pub trait GlobalData: Sized {
    /// The data that each thread of the VM carries.
    type ThreadData: ThreadData;

    /// Called when the VM is interrupted while `thread` runs.
    fn interrupt(global: &Luau<Self>, thread: &LuauValue<Thread>) {
    }

    /// Called when `thread` hits a breakpoint.
    fn debug_break(global: &Luau<Self>, thread: &LuauValue<Thread>) {
    }

    /// Called after `thread` has run one step under the debugger.
    fn debug_step(global: &Luau<Self>, thread: &LuauValue<Thread>) {
    }

    /// Called when `thread` is interrupted under the debugger.
    fn debug_interrupt(global: &Luau<Self>, thread: &LuauValue<Thread>) {
    }

    /// Called when an error is raised in `thread` inside a protected call.
    fn debug_protectederror(global: &Luau<Self>, thread: &LuauValue<Thread>) {
    }
}

impl GlobalData for () {
    type ThreadData = ();
}

impl ThreadData for () {
    fn derive(parent: &Thread, data: &Self) -> Data<Self> {
        Box::new(())
    }
}

} // verus!
