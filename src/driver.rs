use vstd::prelude::*;

use crate::engine::{run, start, Runtime, RuntimeModel};
use crate::script::{Failure, Instr, Status, Value};
use crate::store::{ScriptExitRequest, SideState};

verus! {

/// How a script unit failed, as the host sees it.
#[derive(Debug, PartialEq, Eq)]
pub enum ScriptError {
    /// The script called the exit function with this code.
    ExitRequested { code: i32 },
    /// The exit function was called with an argument that is not an exit code.
    ArgumentInvalid,
    /// The run was stopped through the interrupt, but not by the exit function.
    UnrelatedAbort,
    /// The script failed on its own (an exception, a bad global).
    ScriptFailure(Failure),
}

impl ScriptError {
    /// The exit code, where the script asked to exit.
    pub fn as_script_exit(&self) -> (r: Option<i32>)
        ensures
            r == match *self {
                ScriptError::ExitRequested { code } => Some(code),
                _ => None,
            },
    {
        match self {
            ScriptError::ExitRequested { code } => Some(*code),
            _ => None,
        }
    }
}

/// The runtime after an abort has been dealt with: no request is pending and
/// the interrupt is reset. Globals and console stay as the run left them.
pub open spec fn recovered(rt: RuntimeModel) -> RuntimeModel {
    RuntimeModel { pending: None, terminating: false, ..rt }
}

/// What an abort was: an exit where a request was pending, else something else.
pub open spec fn abort_outcome_spec(req: Option<ScriptExitRequest>) -> ScriptError {
    match req {
        Some(req) => ScriptError::ExitRequested { code: req.code },
        None => ScriptError::UnrelatedAbort,
    }
}

/// Tells an exit from an unrelated abort by the request taken after the abort.
pub fn abort_outcome(req: Option<ScriptExitRequest>) -> (r: ScriptError)
    ensures
        r == abort_outcome_spec(req),
{
    match req {
        Some(req) => ScriptError::ExitRequested { code: req.code },
        None => ScriptError::UnrelatedAbort,
    }
}

/// How a failed evaluation on a real engine is classified: it was aborted when
/// the engine reports termination or when an exit request is pending (the
/// exit function always signals the interrupt); otherwise the script failed
/// on its own with this message.
pub open spec fn failed_run_spec(terminated: bool, req: Option<ScriptExitRequest>, message: String) -> ScriptError {
    if terminated || req.is_some() {
        abort_outcome_spec(req)
    } else {
        ScriptError::ScriptFailure(Failure::Thrown(message))
    }
}

/// Classifies an evaluation that came back with an error, from whether the
/// engine reported termination and the request taken from the op state.
pub fn classify_failed_run(terminated: bool, req: Option<ScriptExitRequest>, message: String) -> (r: ScriptError)
    ensures
        r == failed_run_spec(terminated, req, message),
{
    if terminated || req.is_some() {
        abort_outcome(req)
    } else {
        ScriptError::ScriptFailure(Failure::Thrown(message))
    }
}

/// What the driver makes of how a run ended, and the runtime it leaves.
pub open spec fn finish_spec(rt: RuntimeModel, st: Status) -> (RuntimeModel, Result<Value, ScriptError>) {
    match st {
        Status::Completed(v) => (rt, Ok(v)),
        Status::Failed(Failure::ArgumentInvalid) => (rt, Err(ScriptError::ArgumentInvalid)),
        Status::Failed(f) => (rt, Err(ScriptError::ScriptFailure(f))),
        Status::Aborted => (recovered(rt), Err(abort_outcome_spec(rt.pending))),
    }
}

/// One script unit run through the driver on a runtime.
pub open spec fn execute_spec(rt: RuntimeModel, prog: Seq<Instr>) -> (RuntimeModel, Result<Value, ScriptError>) {
    let (m, st) = run(prog, start(rt), rt.max_steps);
    finish_spec(m.rt, st)
}

/// Settings of a new runtime.
#[derive(Clone, Copy, Debug)]
pub struct RuntimeOptions {
    /// Whether scripts get the exit function.
    pub exit_enabled: bool,
    /// How many instructions one unit may run before the host cancels it from
    /// outside. This stands for an outside cancellation, which the driver
    /// reports as an unrelated abort; it is no timeout of exit handling. The
    /// default is the machine limit, so only the host's own choice cuts a
    /// unit short.
    pub max_steps: u64,
    /// How many globals scripts can use.
    pub global_slots: usize,
}

impl Default for RuntimeOptions {
    fn default() -> (r: RuntimeOptions)
        ensures
            r.exit_enabled,
            r.max_steps == u64::MAX,
            r.global_slots == 16,
    {
        RuntimeOptions { exit_enabled: true, max_steps: u64::MAX, global_slots: 16 }
    }
}

/// A named script unit.
#[derive(Debug)]
pub struct Module {
    pub name: String,
    pub code: Vec<Instr>,
}

impl Module {
    pub fn new(name: String, code: Vec<Instr>) -> (r: Module)
        ensures
            r.name == name,
            r.code == code,
    {
        Module { name, code }
    }
}

impl Runtime {
    /// A fresh runtime: every global unset, an empty console, no pending
    /// request and the interrupt clear.
    pub fn new(options: RuntimeOptions) -> (r: Runtime)
        ensures
            r@.globals.len() == options.global_slots,
            forall|i: int| 0 <= i < r@.globals.len() ==> r@.globals[i].is_none(),
            r@.console.len() == 0,
            r@.pending.is_none(),
            !r@.terminating,
            r@.exit_enabled == options.exit_enabled,
            r@.max_steps == options.max_steps,
    {
        let mut globals: Vec<Option<i64>> = Vec::new();
        while globals.len() < options.global_slots
            invariant
                globals.len() <= options.global_slots,
                forall|i: int| 0 <= i < globals.len() ==> globals@[i].is_none(),
            decreases options.global_slots - globals.len(),
        {
            globals.push(None);
        }
        Runtime {
            globals,
            console: Vec::new(),
            state: SideState::new(),
            exit_enabled: options.exit_enabled,
            max_steps: options.max_steps,
        }
    }

    /// Classifies how a run ended. After an abort it takes the pending exit
    /// request, if any, and resets the interrupt so the runtime can run again.
    pub fn finish_run(&mut self, st: Status) -> (r: Result<Value, ScriptError>)
        ensures
            (final(self)@, r) == finish_spec(old(self)@, st),
    {
        match st {
            Status::Completed(v) => Ok(v),
            Status::Failed(Failure::ArgumentInvalid) => Err(ScriptError::ArgumentInvalid),
            Status::Failed(f) => Err(ScriptError::ScriptFailure(f)),
            Status::Aborted => {
                let req = self.state.take_exit_request();
                self.state.interrupt.cancel_terminate_execution();
                Err(abort_outcome(req))
            },
        }
    }

    fn execute(&mut self, prog: &Vec<Instr>) -> (r: Result<Value, ScriptError>)
        ensures
            (final(self)@, r) == execute_spec(old(self)@, prog@),
    {
        let st = self.run_unit(prog);
        self.finish_run(st)
    }

    /// Loads and evaluates a module; its result is the module's last pushed value.
    pub fn load_module(&mut self, module: &Module) -> (r: Result<Value, ScriptError>)
        ensures
            (final(self)@, r) == execute_spec(old(self)@, module.code@),
    {
        self.execute(&module.code)
    }

    /// Evaluates a piece of code on this runtime.
    pub fn eval(&mut self, code: &Vec<Instr>) -> (r: Result<Value, ScriptError>)
        ensures
            (final(self)@, r) == execute_spec(old(self)@, code@),
    {
        self.execute(code)
    }
}

} // verus!
