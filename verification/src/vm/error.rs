//! The VM's status codes as typed results.
//!
//! A native routine reports a status and, on success, an output. From these
//! two this module makes a `Result`, and where the routine failed it makes the
//! typed error, taking the message that the routine raised.

use vstd::prelude::*;

use crate::compiler::CompileError;
use crate::native::LuaStatus;
use crate::vm::raw::registry::{Registry, RegistryView};
use crate::vm::raw::stack::{RawStack, StackView};
use crate::vm::raw::string::RawString;
use crate::vm::raw::value::{RawValue, RawValueData};
use crate::vm::value::gc::{acquired, Datatype};
use crate::vm::value::string::LString;
use crate::vm::value::LuauValue;

verus! {

/// Why an operation on the VM failed.
#[derive(Debug)]
pub enum LError {
    /// A script raised an error; the message is anchored.
    Runtime(LuauValue<LString>),
    /// The source could not be parsed; the message is anchored.
    Syntax(LuauValue<LString>),
    /// An allocation failed.
    OutOfMemory,
    /// An error was raised while another was being handled, or an error
    /// arrived without a well-formed message.
    DoubleError,
    /// The frame has no cell left for a value that had to be pushed.
    StackOverflow,
    /// The frame holds fewer values than had to be popped.
    StackUnderflow,
}

pub type LResult<T> = Result<T, LError>;

/// Why source text could not be made into a function of a thread: it did
/// not compile, or the VM did not load what the compiler made of it.
#[derive(Debug)]
pub enum LoadError {
    CompileError(CompileError),
    LoadError(LError),
}

impl From<CompileError> for LoadError {
    fn from(error: CompileError) -> (r: Self) {
        LoadError::CompileError(error)
    }
}

impl vstd::std_specs::convert::FromSpecImpl<CompileError> for LoadError {
    open spec fn obeys_from_spec() -> bool {
        true
    }

    open spec fn from_spec(error: CompileError) -> Self {
        LoadError::CompileError(error)
    }
}

impl From<LError> for LoadError {
    fn from(error: LError) -> (r: Self) {
        LoadError::LoadError(error)
    }
}

impl vstd::std_specs::convert::FromSpecImpl<LError> for LoadError {
    open spec fn obeys_from_spec() -> bool {
        true
    }

    open spec fn from_spec(error: LError) -> Self {
        LoadError::LoadError(error)
    }
}

/// How a native routine ended, with a yield and a debugger break told apart
/// from failure: a script that wants to be suspended has not failed.
#[derive(Debug)]
pub enum LStatus<T> {
    /// The routine ran to completion and wrote this output.
    Done(T),
    /// The running coroutine asked to be suspended.
    Yield,
    /// A debugger breakpoint was hit.
    Break,
    /// The routine failed.
    Failed(LError),
}

/// What a native routine reported when it returned: its status, the output
/// if it wrote one, and the value it raised, if it raised one, which the VM
/// leaves on top of the stack.
#[derive(Debug)]
pub struct NativeResult<T> {
    pub status: LuaStatus,
    pub output: Option<T>,
    pub raised: Option<RawValue>,
}

/// The result that a status and an output amount to: the output where the
/// routine succeeded, the status where it failed. A routine that reports
/// success without an output has broken its word, which counts as `ErrErr`.
pub open spec fn protected<T>(status: LuaStatus, output: Option<T>) -> Result<T, LuaStatus> {
    if status is Success {
        match output {
            Some(value) => Ok(value),
            None => Err(LuaStatus::ErrErr),
        }
    } else {
        Err(status)
    }
}

/// Whether a failure with the given status is looked at for a message:
/// always where the caller expects one, and for `ErrMem` and `ErrErr` in any
/// case.
pub open spec fn wants_message(proper: bool, status: LuaStatus) -> bool {
    proper || status is ErrMem || status is ErrErr
}

/// The string that a raised value is, if it is one.
pub open spec fn message_string(message: Option<RawValue>) -> Option<RawString> {
    match message {
        Some(RawValue { data: RawValueData::String(h) }) => Some(h),
        _ => None,
    }
}

/// What anchoring the message `h` of a failure leads to. If the stack has
/// no cell left or the registry is full, the message is lost and the failure
/// is a `DoubleError`; otherwise the error carries the message, anchored
/// under the registry's next handle: a `Runtime` error if `runtime`, else a
/// `Syntax` error.
pub open spec fn carried(
    h: RawString,
    runtime: bool,
    s0: StackView,
    g0: RegistryView,
    s1: StackView,
    g1: RegistryView,
    e: LError,
) -> bool {
    let value = LString(h).raw_spec();
    if s0.left() == 0 {
        e is DoubleError && acquired(value, s0, g0, s1, g1, Err(LError::StackOverflow))
    } else if g0.is_full() {
        e is DoubleError && acquired(value, s0, g0, s1, g1, Err(LError::OutOfMemory))
    } else {
        &&& acquired(value, s0, g0, s1, g1, Ok(Some(g0.next_handle())))
        &&& match e {
            LError::Runtime(held) => runtime && held.spec_inner() == LString(h)
                && held.spec_handle() == Some(g0.next_handle()),
            LError::Syntax(held) => !runtime && held.spec_inner() == LString(h)
                && held.spec_handle() == Some(g0.next_handle()),
            _ => false,
        }
    }
}

/// How a failure with status `status` and raised value `message` is typed,
/// starting from a stack in state `s0` and a registry in state `g0`.
///
/// Without a message that is a string, where one is looked for, the failure
/// is a `DoubleError`. With one, `ErrMem` is `OutOfMemory` and `ErrErr` a
/// `DoubleError`, and for both nothing changes. `ErrRun` and `ErrSyntax`
/// carry the message, anchored. Any other status is a `DoubleError`.
pub open spec fn classified(
    proper: bool,
    status: LuaStatus,
    message: Option<RawValue>,
    s0: StackView,
    g0: RegistryView,
    s1: StackView,
    g1: RegistryView,
    e: LError,
) -> bool {
    let text = message_string(message);
    if wants_message(proper, status) && text is Some && status is ErrRun {
        carried(text.unwrap(), true, s0, g0, s1, g1, e)
    } else if wants_message(proper, status) && text is Some && status is ErrSyntax {
        carried(text.unwrap(), false, s0, g0, s1, g1, e)
    } else if wants_message(proper, status) && text is Some && status is ErrMem {
        e is OutOfMemory && s1 == s0 && g1 == g0
    } else {
        e is DoubleError && s1 == s0 && g1 == g0
    }
}

/// How a failure with status `status` is typed when the message is taken
/// from the stack: where a message is looked for, the topmost value is
/// popped and is the message.
pub open spec fn captured(
    proper: bool,
    status: LuaStatus,
    s0: StackView,
    g0: RegistryView,
    s1: StackView,
    g1: RegistryView,
    e: LError,
) -> bool {
    if wants_message(proper, status) && s0.used() > 0 {
        classified(proper, status, Some(s0.cells[s0.top - 1]), s0.pop(), g0, s1, g1, e)
    } else {
        classified(proper, status, None, s0, g0, s1, g1, e)
    }
}

/// A failure with status `ErrRun` whose message is a string becomes a
/// `Runtime` error that holds exactly that string, anchored, whenever the
/// stack has a cell left and the registry is not full; and typing a failure
/// never changes how many cells of the stack are in use, nor what they hold.
pub proof fn lemma_classified(
    proper: bool,
    status: LuaStatus,
    message: Option<RawValue>,
    s0: StackView,
    g0: RegistryView,
    s1: StackView,
    g1: RegistryView,
    e: LError,
)
    requires
        s0.wf(),
        g0.wf(),
        classified(proper, status, message, s0, g0, s1, g1, e),
    ensures
        s1.wf(),
        g1.wf(),
        s1.used() == s0.used(),
        s1.len() == s0.len(),
        s1.live() == s0.live(),
        s1.thread == s0.thread,
        s1.min == s0.min,
        forall|h: i32| g0.live(h) ==> g1.live(h) && g1.value(h) == g0.value(h),
        !(e is StackOverflow) && !(e is StackUnderflow),
        (status is ErrRun && proper && message_string(message) is Some && s0.left() > 0
            && !g0.is_full()) ==> (e matches LError::Runtime(held) && held.spec_inner() == LString(
            message_string(message).unwrap(),
        ) && held.spec_handle() == Some(g0.next_handle()) && g1.get(g0.next_handle())
            == message.unwrap()),
        (status is ErrSyntax && proper && message_string(message) is Some && s0.left() > 0
            && !g0.is_full()) ==> (e matches LError::Syntax(held) && held.spec_inner() == LString(
            message_string(message).unwrap(),
        ) && held.spec_handle() == Some(g0.next_handle()) && g1.get(g0.next_handle())
            == message.unwrap()),
        (e is Runtime) ==> status is ErrRun,
        (e is Syntax) ==> status is ErrSyntax,
        (e is OutOfMemory) ==> status is ErrMem,
{
    let text = message_string(message);
    if wants_message(proper, status) && text is Some && (status is ErrRun || status is ErrSyntax) {
        let value = LString(text.unwrap()).raw_spec();
        let outcome: Result<Option<i32>, LError> = if s0.left() == 0 {
            Err(LError::StackOverflow)
        } else if g0.is_full() {
            Err(LError::OutOfMemory)
        } else {
            Ok(Some(g0.next_handle()))
        };
        crate::vm::value::gc::lemma_acquired_balanced(value, s0, g0, s1, g1, outcome);
    }
}

/// Makes a `Result` of what a native routine reported.
pub fn protect<T, F: FnOnce() -> (LuaStatus, Option<T>)>(writer: F) -> (r: Result<T, LuaStatus>)
    requires
        call_requires(writer, ()),
    ensures
        exists|out: (LuaStatus, Option<T>)| #[trigger]
            call_ensures(writer, (), out) && r == protected(out.0, out.1),
{
    let (status, output) = writer();
    settle(status, output)
}

/// The result that a status and an output amount to.
pub fn settle<T>(status: LuaStatus, output: Option<T>) -> (r: Result<T, LuaStatus>)
    ensures
        r == protected(status, output),
{
    match status {
        LuaStatus::Success => match output {
            Some(value) => Ok(value),
            None => Err(LuaStatus::ErrErr),
        },
        _ => Err(status),
    }
}

impl LError {
    /// Types a failure whose raised value, if any, is `message`.
    pub fn classify(
        stack: &mut RawStack,
        registry: &mut Registry,
        proper: bool,
        status: LuaStatus,
        message: Option<RawValue>,
    ) -> (e: Self)
        ensures
            classified(
                proper,
                status,
                message,
                old(stack)@,
                old(registry)@,
                final(stack)@,
                final(registry)@,
                e,
            ),
    {
        let wanted = proper || matches!(status, LuaStatus::ErrMem | LuaStatus::ErrErr);
        let text = match message {
            Some(value) => match *value.data() {
                RawValueData::String(h) => Some(h),
                _ => None,
            },
            None => None,
        };
        if !wanted {
            return LError::DoubleError;
        }
        match text {
            Some(h) => match status {
                LuaStatus::ErrRun => match LuauValue::new(stack, registry, LString::from_raw(h)) {
                    Ok(held) => LError::Runtime(held),
                    Err(_) => LError::DoubleError,
                },
                LuaStatus::ErrSyntax => match LuauValue::new(
                    stack,
                    registry,
                    LString::from_raw(h),
                ) {
                    Ok(held) => LError::Syntax(held),
                    Err(_) => LError::DoubleError,
                },
                LuaStatus::ErrMem => LError::OutOfMemory,
                _ => LError::DoubleError,
            },
            None => LError::DoubleError,
        }
    }

    /// Types a failure whose message, if it has one, is on top of the stack.
    /// Where a message is looked for, the topmost value is popped, whatever
    /// it is.
    pub fn capture(stack: &mut RawStack, registry: &mut Registry, proper: bool, status: LuaStatus) -> (e:
        Self)
        ensures
            captured(
                proper,
                status,
                old(stack)@,
                old(registry)@,
                final(stack)@,
                final(registry)@,
                e,
            ),
    {
        let message = if proper || matches!(status, LuaStatus::ErrMem | LuaStatus::ErrErr) {
            stack.pop()
        } else {
            None
        };
        LError::classify(stack, registry, proper, status, message)
    }

    /// Runs a native routine on the stack and makes a `Result` of what it
    /// reports; a failure is typed with the message that the routine left on
    /// top of the stack.
    pub fn protect<T, F: FnOnce(&mut RawStack) -> (LuaStatus, Option<T>)>(
        stack: &mut RawStack,
        registry: &mut Registry,
        proper: bool,
        writer: F,
    ) -> (r: LResult<T>)
        requires
            forall|s: &mut RawStack| *s == *old(stack) ==> call_requires(writer, (s,)),
        ensures
            exists|s: &mut RawStack, out: (LuaStatus, Option<T>)|
                *s == *old(stack) && #[trigger] call_ensures(writer, (s,), out) && match protected(
                    out.0,
                    out.1,
                ) {
                    Ok(value) => r == Ok::<T, LError>(value) && final(stack)@ == final(s)@
                        && final(registry)@ == old(registry)@,
                    Err(status) => r matches Err(e) && captured(
                        proper,
                        status,
                        final(s)@,
                        old(registry)@,
                        final(stack)@,
                        final(registry)@,
                        e,
                    ),
                },
    {
        let (status, output) = writer(stack);
        match settle(status, output) {
            Ok(value) => Ok(value),
            Err(status) => Err(LError::capture(stack, registry, proper, status)),
        }
    }

    /// Makes a `Result` of what a native routine reported; a failure is
    /// typed with the value that the routine raised.
    pub fn settle<T>(
        stack: &mut RawStack,
        registry: &mut Registry,
        proper: bool,
        result: NativeResult<T>,
    ) -> (r: LResult<T>)
        ensures
            match protected(result.status, result.output) {
                Ok(value) => r == Ok::<T, LError>(value) && final(stack)@ == old(stack)@
                    && final(registry)@ == old(registry)@,
                Err(status) => r matches Err(e) && classified(
                    proper,
                    status,
                    result.raised,
                    old(stack)@,
                    old(registry)@,
                    final(stack)@,
                    final(registry)@,
                    e,
                ),
            },
    {
        let raised = result.raised;
        match settle(result.status, result.output) {
            Ok(value) => Ok(value),
            Err(status) => Err(LError::classify(stack, registry, proper, status, raised)),
        }
    }
}

impl<T> LStatus<T> {
    /// Runs a native routine on the stack and tells how it ended; a failure
    /// is typed with the message that the routine left on top of the stack.
    pub fn protect<F: FnOnce(&mut RawStack) -> (LuaStatus, Option<T>)>(
        stack: &mut RawStack,
        registry: &mut Registry,
        proper: bool,
        writer: F,
    ) -> (r: Self)
        requires
            forall|s: &mut RawStack| *s == *old(stack) ==> call_requires(writer, (s,)),
        ensures
            exists|s: &mut RawStack, out: (LuaStatus, Option<T>)|
                *s == *old(stack) && #[trigger] call_ensures(writer, (s,), out) && match protected(
                    out.0,
                    out.1,
                ) {
                    Ok(value) => r == LStatus::Done(value) && final(stack)@ == final(s)@
                        && final(registry)@ == old(registry)@,
                    Err(LuaStatus::Yield) => r is Yield && final(stack)@ == final(s)@
                        && final(registry)@ == old(registry)@,
                    Err(LuaStatus::Break) => r is Break && final(stack)@ == final(s)@
                        && final(registry)@ == old(registry)@,
                    Err(status) => r matches LStatus::Failed(e) && captured(
                        proper,
                        status,
                        final(s)@,
                        old(registry)@,
                        final(stack)@,
                        final(registry)@,
                        e,
                    ),
                },
    {
        let (status, output) = writer(stack);
        match settle(status, output) {
            Ok(value) => LStatus::Done(value),
            Err(LuaStatus::Yield) => LStatus::Yield,
            Err(LuaStatus::Break) => LStatus::Break,
            Err(status) => LStatus::Failed(LError::capture(stack, registry, proper, status)),
        }
    }
}

} // verus!
