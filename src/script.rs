use vstd::prelude::*;

verus! {

/// A value that a script unit can produce as its result.
#[derive(Debug, PartialEq, Eq)]
pub enum Value {
    Undefined,
    Bool(bool),
    Int(i64),
    Text(String),
}

/// The argument that a script hands to the exit function.
#[derive(Clone, Copy, Debug, PartialEq, Eq)]
pub enum ExitArg {
    /// Called with no argument.
    Missing,
    /// Called with an integer.
    Int(i64),
    /// Called with a value that is not an integer.
    NotInteger,
}

/// One instruction of a script unit. Globals are numbered slots; the unit ends
/// when the program counter leaves the instruction list.
#[derive(Debug)]
pub enum Instr {
    /// Writes a line to the console.
    Log(String),
    /// Sets a global.
    Store { slot: usize, value: i64 },
    /// Adds one to a global.
    Incr { slot: usize },
    /// Jumps to `target` when the global is above `limit`.
    JumpIfAbove { slot: usize, limit: i64, target: usize },
    /// Jumps to `target`.
    Jump { target: usize },
    /// Calls the exit function.
    Exit(ExitArg),
    /// Throws an exception with a message.
    Throw(String),
    /// Makes a value the unit's result.
    Push(Value),
    /// Makes the unit's result whether a global is set.
    IsDefined { slot: usize },
    /// Makes the unit's result whether the exit function is registered.
    HasExitFunction,
    /// Makes the unit's result the exit function's declared parameter count.
    ExitArity,
}

/// Why a script unit failed, other than by an abort.
#[derive(Debug, PartialEq, Eq)]
pub enum Failure {
    /// The script threw an exception.
    Thrown(String),
    /// A global that does not exist or was never set was read.
    UnknownGlobal { slot: usize },
    /// An increment went past the largest integer.
    Overflow { slot: usize },
    /// The exit function was called with an argument that is not an exit code.
    ArgumentInvalid,
    /// The exit function was called but is not registered.
    ExitUnavailable,
}

/// How the engine reports one run of a script unit.
#[derive(Debug, PartialEq, Eq)]
pub enum Status {
    /// The unit ran to its end with this result.
    Completed(Value),
    /// The run was stopped through the interrupt.
    Aborted,
    /// The run failed.
    Failed(Failure),
}

/// The exit code that an argument stands for: none is the default 0, an
/// integer is kept when it fits in an `i32`; anything else is no exit code.
pub open spec fn exit_code_spec(arg: ExitArg) -> Option<i32> {
    match arg {
        ExitArg::Missing => Some(0i32),
        ExitArg::Int(v) => if i32::MIN <= v <= i32::MAX {
            Some(v as i32)
        } else {
            None
        },
        ExitArg::NotInteger => None,
    }
}

/// Checks the exit function's argument before anything else happens.
pub fn exit_code_of(arg: ExitArg) -> (r: Option<i32>)
    ensures
        r == exit_code_spec(arg),
{
    match arg {
        ExitArg::Missing => Some(0),
        ExitArg::Int(v) => {
            if i32::MIN as i64 <= v && v <= i32::MAX as i64 {
                Some(v as i32)
            } else {
                None
            }
        },
        ExitArg::NotInteger => None,
    }
}

/// A copy of a value, equal to it.
pub fn copy_value(v: &Value) -> (r: Value)
    ensures
        r == *v,
{
    match v {
        Value::Undefined => Value::Undefined,
        Value::Bool(b) => Value::Bool(*b),
        Value::Int(i) => Value::Int(*i),
        Value::Text(s) => Value::Text(s.clone()),
    }
}

} // verus!
