//! The state of one thread.

use vstd::prelude::*;

use crate::native::TValue;
use crate::vm::data::Data;
use crate::vm::raw::stack::RawStack;
use crate::vm::raw::thread::RawThread;
use crate::vm::raw::value::RawValue;
use crate::vm::raw::RawGlobal;

verus! {

/// What the VM keeps for one thread: the global state it belongs to, its
/// evaluation stack, the application's data for it, and whether its globals
/// have been sealed off.
pub struct LuaState<TD> {
    /// The global state that the thread shares with the VM's other threads.
    pub global: RawGlobal,
    /// The thread's evaluation stack, which also names the thread.
    pub stack: RawStack,
    /// The application's data for the thread; `None` only while the thread
    /// is being made or torn down.
    pub userdata: Option<Data<TD>>,
    /// Whether the thread has been sandboxed.
    pub sandboxed: bool,
}

impl<TD> LuaState<TD> {
    /// The handle of the thread.
    pub open spec fn spec_ptr(&self) -> RawThread {
        self.stack@.thread
    }

    /// The handle of the thread.
    #[verifier::when_used_as_spec(spec_ptr)]
    pub fn ptr(&self) -> (t: RawThread)
        ensures
            t == self.spec_ptr(),
    {
        self.stack.thread()
    }

    /// The handle of the global state that the thread belongs to.
    pub fn global(&self) -> (g: RawGlobal)
        ensures
            g == self.global,
    {
        self.global
    }

    /// Takes the application's data out of the thread, which is left without
    /// any.
    pub fn get_userdata(&mut self) -> (data: Option<Data<TD>>)
        ensures
            data == old(self).userdata,
            final(self).userdata is None,
            final(self).global == old(self).global,
            final(self).stack == old(self).stack,
            final(self).sandboxed == old(self).sandboxed,
    {
        self.userdata.take()
    }

    /// Gives the thread its application data, replacing what it had.
    pub fn set_userdata(&mut self, to: Data<TD>)
        ensures
            final(self).userdata == Some(to),
            final(self).global == old(self).global,
            final(self).stack == old(self).stack,
            final(self).sandboxed == old(self).sandboxed,
    {
        self.userdata = Some(to);
    }

    /// Tells the collector that the thread is about to be written to.
    pub fn threadbarrier(&mut self)
        ensures
            final(self).stack@ == old(self).stack@.barrier(),
            !final(self).stack@.black(),
            final(self).userdata == old(self).userdata,
            final(self).global == old(self).global,
            final(self).sandboxed == old(self).sandboxed,
    {
        self.stack.threadbarrier()
    }

    /// Pushes a native cell, if it holds a value and a cell of the stack is
    /// left, and returns the address of the cell it went to.
    pub fn push(&mut self, value: TValue) -> (r: Option<usize>)
        ensures
            r is Some <==> RawValue::spec_from_tvalue(value) is Some && old(self).stack@.left()
                >= 1,
            r matches Some(p) ==> p == old(self).stack@.top_ptr() && final(self).stack@ == old(
                self,
            ).stack@.push(RawValue::spec_from_tvalue(value).unwrap()),
            r is None ==> final(self).stack@ == old(self).stack@,
            final(self).userdata == old(self).userdata,
            final(self).global == old(self).global,
            final(self).sandboxed == old(self).sandboxed,
    {
        match RawValue::from_tvalue(value) {
            Some(cell) => self.stack.push(cell),
            None => None,
        }
    }

    /// Pops the topmost value, if any cell is in use, and returns it as a
    /// native cell.
    pub fn pop(&mut self) -> (r: Option<TValue>)
        ensures
            r is Some <==> old(self).stack@.used() >= 1,
            r matches Some(cell) ==> cell == old(self).stack@.cells[old(self).stack@.top
                - 1].spec_to_tvalue() && final(self).stack@ == old(self).stack@.pop(),
            r is None ==> final(self).stack@ == old(self).stack@,
            final(self).userdata == old(self).userdata,
            final(self).global == old(self).global,
            final(self).sandboxed == old(self).sandboxed,
    {
        match self.stack.pop() {
            Some(value) => Some(value.to_tvalue()),
            None => None,
        }
    }
}

} // verus!
