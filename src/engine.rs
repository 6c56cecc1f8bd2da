use vstd::prelude::*;

use crate::script::{copy_value, exit_code_of, exit_code_spec, Failure, Instr, Status, Value};
use crate::store::{op_script_exit, ScriptExitRequest, SideState};

verus! {

/// What a runtime holds from one run to the next.
pub struct RuntimeModel {
    pub globals: Seq<Option<i64>>,
    pub console: Seq<String>,
    pub pending: Option<ScriptExitRequest>,
    pub terminating: bool,
    pub exit_enabled: bool,
    pub max_steps: nat,
}

/// The state of one run: the runtime, the program counter and the unit's
/// result so far.
pub struct Machine {
    pub rt: RuntimeModel,
    pub pc: int,
    pub result: Value,
}

/// A runtime is ready when nothing of an earlier abort is left in it.
pub open spec fn ready(rt: RuntimeModel) -> bool {
    &&& rt.pending.is_none()
    &&& !rt.terminating
}

pub open spec fn start(rt: RuntimeModel) -> Machine {
    Machine { rt, pc: 0, result: Value::Undefined }
}

pub open spec fn next(m: Machine) -> Machine {
    Machine { pc: m.pc + 1, ..m }
}

pub open spec fn with_rt(m: Machine, rt: RuntimeModel) -> Machine {
    Machine { rt, pc: m.pc + 1, ..m }
}

pub open spec fn set_global(m: Machine, slot: usize, v: i64) -> Machine {
    with_rt(m, RuntimeModel { globals: m.rt.globals.update(slot as int, Some(v)), ..m.rt })
}

pub open spec fn has_global(m: Machine, slot: usize) -> bool {
    slot < m.rt.globals.len() && m.rt.globals[slot as int].is_some()
}

pub open spec fn global(m: Machine, slot: usize) -> i64 {
    m.rt.globals[slot as int].unwrap()
}

pub open spec fn set_result(m: Machine, v: Value) -> Machine {
    Machine { result: v, pc: m.pc + 1, ..m }
}

/// The state right after the exit function returned: the request is recorded
/// and the interrupt signalled; nothing else has changed.
pub open spec fn exited(m: Machine, code: i32) -> Machine {
    with_rt(
        m,
        RuntimeModel {
            pending: Some(ScriptExitRequest { code }),
            terminating: true,
            ..m.rt
        },
    )
}

/// One instruction: the next state, or the failure that ends the run.
pub open spec fn step(prog: Seq<Instr>, m: Machine) -> Result<Machine, Failure>
    recommends
        0 <= m.pc < prog.len(),
{
    match prog[m.pc] {
        Instr::Log(s) => Ok(with_rt(m, RuntimeModel { console: m.rt.console.push(s), ..m.rt })),
        Instr::Store { slot, value } => if slot < m.rt.globals.len() {
            Ok(set_global(m, slot, value))
        } else {
            Err(Failure::UnknownGlobal { slot })
        },
        Instr::Incr { slot } => if !has_global(m, slot) {
            Err(Failure::UnknownGlobal { slot })
        } else if global(m, slot) == i64::MAX {
            Err(Failure::Overflow { slot })
        } else {
            Ok(set_global(m, slot, (global(m, slot) + 1) as i64))
        },
        Instr::JumpIfAbove { slot, limit, target } => if !has_global(m, slot) {
            Err(Failure::UnknownGlobal { slot })
        } else if global(m, slot) > limit {
            Ok(Machine { pc: target as int, ..m })
        } else {
            Ok(next(m))
        },
        Instr::Jump { target } => Ok(Machine { pc: target as int, ..m }),
        Instr::Exit(arg) => if !m.rt.exit_enabled {
            Err(Failure::ExitUnavailable)
        } else {
            match exit_code_spec(arg) {
                Some(code) => Ok(exited(m, code)),
                None => Err(Failure::ArgumentInvalid),
            }
        },
        Instr::Throw(msg) => Err(Failure::Thrown(msg)),
        Instr::Push(v) => Ok(set_result(m, v)),
        Instr::IsDefined { slot } => if slot < m.rt.globals.len() {
            Ok(set_result(m, Value::Bool(m.rt.globals[slot as int].is_some())))
        } else {
            Err(Failure::UnknownGlobal { slot })
        },
        Instr::HasExitFunction => Ok(set_result(m, Value::Bool(m.rt.exit_enabled))),
        Instr::ExitArity => Ok(
            set_result(
                m,
                if m.rt.exit_enabled {
                    Value::Int(1)
                } else {
                    Value::Undefined
                },
            ),
        ),
    }
}

/// A run with at most `fuel` instructions. Before each instruction the
/// interrupt is checked: once signalled, the run is aborted there. A run that
/// uses up its budget is stopped through the interrupt as well.
pub open spec fn run(prog: Seq<Instr>, m: Machine, fuel: nat) -> (Machine, Status)
    decreases fuel,
{
    if m.rt.terminating {
        (m, Status::Aborted)
    } else if !(0 <= m.pc < prog.len()) {
        (m, Status::Completed(m.result))
    } else if fuel == 0 {
        (Machine { rt: RuntimeModel { terminating: true, ..m.rt }, ..m }, Status::Aborted)
    } else {
        match step(prog, m) {
            Ok(m2) => run(prog, m2, (fuel - 1) as nat),
            Err(f) => (m, Status::Failed(f)),
        }
    }
}

/// A model runtime: an instruction machine standing for the script engine,
/// with its globals, its console, its side state and the budget after which
/// the host cancels a unit from outside.
#[derive(Debug)]
pub struct Runtime {
    pub globals: Vec<Option<i64>>,
    pub console: Vec<String>,
    pub state: SideState,
    pub exit_enabled: bool,
    pub max_steps: u64,
}

impl View for Runtime {
    type V = RuntimeModel;

    open spec fn view(&self) -> RuntimeModel {
        RuntimeModel {
            globals: self.globals@,
            console: self.console@,
            pending: self.state.exit_request,
            terminating: self.state.interrupt.terminating,
            exit_enabled: self.exit_enabled,
            max_steps: self.max_steps as nat,
        }
    }
}

impl Runtime {
    /// Runs one unit on the engine and reports how the run ended, without
    /// looking at why it was aborted.
    pub fn run_unit(&mut self, prog: &Vec<Instr>) -> (st: Status)
        ensures
            ({
                let (m, s) = run(prog@, start(old(self)@), old(self)@.max_steps);
                final(self)@ == m.rt && st == s
            }),
    {
        let mut pc: usize = 0;
        let mut result = Value::Undefined;
        let mut steps: u64 = 0;
        loop
            invariant
                steps <= self.max_steps,
                self.max_steps == old(self).max_steps,
                run(prog@, start(old(self)@), old(self)@.max_steps) == run(
                    prog@,
                    Machine { rt: self@, pc: pc as int, result },
                    (self.max_steps - steps) as nat,
                ),
            decreases self.max_steps - steps,
        {
            if self.state.interrupt.is_execution_terminating() {
                return Status::Aborted;
            }
            if pc >= prog.len() {
                return Status::Completed(result);
            }
            if steps == self.max_steps {
                self.state.interrupt.terminate_execution();
                return Status::Aborted;
            }
            match &prog[pc] {
                Instr::Log(s) => {
                    self.console.push(s.clone());
                    pc = pc + 1;
                },
                Instr::Store { slot, value } => {
                    if *slot >= self.globals.len() {
                        return Status::Failed(Failure::UnknownGlobal { slot: *slot });
                    }
                    self.globals.set(*slot, Some(*value));
                    pc = pc + 1;
                },
                Instr::Incr { slot } => {
                    if *slot >= self.globals.len() {
                        return Status::Failed(Failure::UnknownGlobal { slot: *slot });
                    }
                    match self.globals[*slot] {
                        None => {
                            return Status::Failed(Failure::UnknownGlobal { slot: *slot });
                        },
                        Some(v) => {
                            if v == i64::MAX {
                                return Status::Failed(Failure::Overflow { slot: *slot });
                            }
                            self.globals.set(*slot, Some(v + 1));
                        },
                    }
                    pc = pc + 1;
                },
                Instr::JumpIfAbove { slot, limit, target } => {
                    if *slot >= self.globals.len() {
                        return Status::Failed(Failure::UnknownGlobal { slot: *slot });
                    }
                    match self.globals[*slot] {
                        None => {
                            return Status::Failed(Failure::UnknownGlobal { slot: *slot });
                        },
                        Some(v) => {
                            if v > *limit {
                                pc = *target;
                            } else {
                                pc = pc + 1;
                            }
                        },
                    }
                },
                Instr::Jump { target } => {
                    pc = *target;
                },
                Instr::Exit(arg) => {
                    if !self.exit_enabled {
                        return Status::Failed(Failure::ExitUnavailable);
                    }
                    match exit_code_of(*arg) {
                        Some(code) => {
                            op_script_exit(&mut self.state, code);
                        },
                        None => {
                            return Status::Failed(Failure::ArgumentInvalid);
                        },
                    }
                    pc = pc + 1;
                },
                Instr::Throw(msg) => {
                    return Status::Failed(Failure::Thrown(msg.clone()));
                },
                Instr::Push(v) => {
                    result = copy_value(v);
                    pc = pc + 1;
                },
                Instr::IsDefined { slot } => {
                    if *slot >= self.globals.len() {
                        return Status::Failed(Failure::UnknownGlobal { slot: *slot });
                    }
                    result = Value::Bool(self.globals[*slot].is_some());
                    pc = pc + 1;
                },
                Instr::HasExitFunction => {
                    result = Value::Bool(self.exit_enabled);
                    pc = pc + 1;
                },
                Instr::ExitArity => {
                    result = if self.exit_enabled {
                        Value::Int(1)
                    } else {
                        Value::Undefined
                    };
                    pc = pc + 1;
                },
            }
            steps = steps + 1;
        }
    }
}

} // verus!
