use vstd::prelude::*;

use crate::driver::{execute_spec, finish_spec, ScriptError};
use crate::engine::{exited, next, ready, run, set_global, start, step, Machine, RuntimeModel};
use crate::script::{exit_code_spec, ExitArg, Failure, Instr, Status, Value};
use crate::store::ScriptExitRequest;

verus! {

/// A pending request always comes with a signalled interrupt.
pub open spec fn linked(rt: RuntimeModel) -> bool {
    rt.pending.is_some() ==> rt.terminating
}

/// What a run leaves of the runtime's shape.
pub open spec fn same_shape(a: RuntimeModel, b: RuntimeModel) -> bool {
    &&& a.globals.len() == b.globals.len()
    &&& a.exit_enabled == b.exit_enabled
    &&& a.max_steps == b.max_steps
}

/// A run keeps a pending request tied to the interrupt, keeps the runtime's
/// shape, and ends with the interrupt clear unless it was aborted.
pub proof fn lemma_run_linked(prog: Seq<Instr>, m: Machine, fuel: nat)
    requires
        linked(m.rt),
    ensures
        linked(run(prog, m, fuel).0.rt),
        same_shape(run(prog, m, fuel).0.rt, m.rt),
        run(prog, m, fuel).1 != Status::Aborted ==> !run(prog, m, fuel).0.rt.terminating,
    decreases fuel,
{
    if !m.rt.terminating && 0 <= m.pc < prog.len() && fuel > 0 {
        match step(prog, m) {
            Ok(m2) => {
                lemma_run_linked(prog, m2, (fuel - 1) as nat);
            },
            Err(_) => {},
        }
    }
}

/// Once the exit function returns, no further instruction runs: the run is
/// aborted at the next boundary, the driver reports the code, and the globals
/// and console are those of the moment of the call, whatever follows it.
pub proof fn law_immediate_termination(prog: Seq<Instr>, m: Machine, fuel: nat, arg: ExitArg)
    requires
        0 <= m.pc < prog.len(),
        prog[m.pc] == Instr::Exit(arg),
        exit_code_spec(arg).is_some(),
        m.rt.exit_enabled,
        !m.rt.terminating,
        fuel > 0,
    ensures
        run(prog, m, fuel) == (exited(m, exit_code_spec(arg).unwrap()), Status::Aborted),
        finish_spec(run(prog, m, fuel).0.rt, run(prog, m, fuel).1).1 == Err::<Value, ScriptError>(
            ScriptError::ExitRequested { code: exit_code_spec(arg).unwrap() },
        ),
        finish_spec(run(prog, m, fuel).0.rt, run(prog, m, fuel).1).0.globals == m.rt.globals,
        finish_spec(run(prog, m, fuel).0.rt, run(prog, m, fuel).1).0.console == m.rt.console,
{
    let m2 = exited(m, exit_code_spec(arg).unwrap());
    assert(step(prog, m) == Ok::<Machine, Failure>(m2));
    assert(run(prog, m2, (fuel - 1) as nat) == (m2, Status::Aborted));
}

/// A unit that starts by calling the exit function with an integer that fits
/// an exit code ends with exactly that code.
pub proof fn law_code_fidelity(rt: RuntimeModel, prog: Seq<Instr>, n: i32)
    requires
        ready(rt),
        rt.exit_enabled,
        rt.max_steps > 0,
        prog.len() > 0,
        prog[0] == Instr::Exit(ExitArg::Int(n as i64)),
    ensures
        execute_spec(rt, prog).1 == Err::<Value, ScriptError>(ScriptError::ExitRequested { code: n }),
{
    law_immediate_termination(prog, start(rt), rt.max_steps, ExitArg::Int(n as i64));
}

/// The exit function called with no argument exits with code 0.
pub proof fn law_default_argument(rt: RuntimeModel, prog: Seq<Instr>)
    requires
        ready(rt),
        rt.exit_enabled,
        rt.max_steps > 0,
        prog.len() > 0,
        prog[0] == Instr::Exit(ExitArg::Missing),
    ensures
        execute_spec(rt, prog).1 == Err::<Value, ScriptError>(ScriptError::ExitRequested { code: 0 }),
{
    law_immediate_termination(prog, start(rt), rt.max_steps, ExitArg::Missing);
}

/// Every unit leaves a ready runtime ready, with the same shape.
pub proof fn law_stays_ready(rt: RuntimeModel, prog: Seq<Instr>)
    requires
        ready(rt),
    ensures
        ready(execute_spec(rt, prog).0),
        same_shape(execute_spec(rt, prog).0, rt),
{
    lemma_run_linked(prog, start(rt), rt.max_steps);
}

/// After a unit that exited, the same runtime runs the next unit to its
/// normal result.
pub proof fn law_runtime_reuse(rt: RuntimeModel, prog: Seq<Instr>, v: Value)
    requires
        ready(rt),
        rt.max_steps > 0,
        execute_spec(rt, prog).1 matches Err(ScriptError::ExitRequested { .. }),
    ensures
        execute_spec(execute_spec(rt, prog).0, seq![Instr::Push(v)]).1 == Ok::<Value, ScriptError>(v),
{
    law_stays_ready(rt, prog);
    let rt2 = execute_spec(rt, prog).0;
    let p2 = seq![Instr::Push(v)];
    let m = start(rt2);
    assert(step(p2, m) == Ok::<Machine, Failure>(Machine { result: v, pc: 1, ..m }));
    assert(run(p2, Machine { result: v, pc: 1, ..m }, (rt2.max_steps - 1) as nat).1 == Status::Completed(v));
}

/// An exit surfaces as an exit and only as an exit: the driver reports an
/// exit code exactly when the exit function recorded it during the run, and a
/// failure of the script itself is never reported as an exit.
pub proof fn law_non_conflation(rt: RuntimeModel, prog: Seq<Instr>)
    requires
        ready(rt),
    ensures
        ({
            let (m, st) = run(prog, start(rt), rt.max_steps);
            let r = execute_spec(rt, prog).1;
            &&& (st matches Status::Failed(_) ==> !(r matches Err(ScriptError::ExitRequested { .. })))
            &&& (forall|code: i32|
                r == Err::<Value, ScriptError>(ScriptError::ExitRequested { code })
                    <==> m.rt.pending == Some(ScriptExitRequest { code }))
            &&& (m.rt.pending.is_some() ==> !(r matches Err(ScriptError::ScriptFailure(_))))
        }),
{
    lemma_run_linked(prog, start(rt), rt.max_steps);
}

/// A unit that counts a global from 0 in an endless loop and calls the exit
/// function once the count is above `limit`:
/// `g = 0; loop { g += 1; if g > limit { exit(code) } }`, then anything.
pub open spec fn is_counting_loop(prog: Seq<Instr>, slot: usize, limit: i64, code: i32) -> bool {
    &&& prog.len() >= 5
    &&& prog[0] == Instr::Store { slot, value: 0 }
    &&& prog[1] == Instr::Incr { slot }
    &&& prog[2] == Instr::JumpIfAbove { slot, limit, target: 4 }
    &&& prog[3] == Instr::Jump { target: 1 }
    &&& prog[4] == Instr::Exit(ExitArg::Int(code as i64))
}

/// From the top of the loop with count `c`, the run ends in an abort with the
/// request recorded, within three instructions per remaining round.
pub proof fn lemma_counting_loop(prog: Seq<Instr>, m: Machine, fuel: nat, slot: usize, limit: i64, code: i32, c: i64)
    requires
        is_counting_loop(prog, slot, limit, code),
        m.pc == 1,
        slot < m.rt.globals.len(),
        m.rt.globals[slot as int] == Some(c),
        0 <= c <= limit < i64::MAX,
        !m.rt.terminating,
        m.rt.exit_enabled,
        fuel >= 3 * (limit - c) + 3,
    ensures
        run(prog, m, fuel).1 == Status::Aborted,
        run(prog, m, fuel).0.rt.pending == Some(ScriptExitRequest { code }),
    decreases limit - c,
{
    let m1 = set_global(m, slot, (c + 1) as i64);
    assert(step(prog, m) == Ok::<Machine, Failure>(m1));
    assert(run(prog, m, fuel) == run(prog, m1, (fuel - 1) as nat));
    assert(m1.rt.globals[slot as int] == Some((c + 1) as i64));
    if c + 1 > limit {
        let m2 = Machine { pc: 4, ..m1 };
        assert(step(prog, m1) == Ok::<Machine, Failure>(m2));
        assert(run(prog, m1, (fuel - 1) as nat) == run(prog, m2, (fuel - 2) as nat));
        let m3 = exited(m2, code);
        assert(exit_code_spec(ExitArg::Int(code as i64)) == Some(code));
        assert(step(prog, m2) == Ok::<Machine, Failure>(m3));
        assert(run(prog, m2, (fuel - 2) as nat) == run(prog, m3, (fuel - 3) as nat));
    } else {
        let m2 = next(m1);
        assert(step(prog, m1) == Ok::<Machine, Failure>(m2));
        assert(run(prog, m1, (fuel - 1) as nat) == run(prog, m2, (fuel - 2) as nat));
        let m3 = Machine { pc: 1, ..m2 };
        assert(step(prog, m2) == Ok::<Machine, Failure>(m3));
        assert(run(prog, m2, (fuel - 2) as nat) == run(prog, m3, (fuel - 3) as nat));
        lemma_counting_loop(prog, m3, (fuel - 3) as nat, slot, limit, code, (c + 1) as i64);
    }
}

/// An endless loop that calls the exit function after `limit + 1` rounds ends
/// with that exit code within `3 * limit + 4` instructions, and never runs on.
/// With the default budget (the machine limit) this holds for every loop whose
/// instruction count fits in a `u64`.
pub proof fn law_loop_interruption(rt: RuntimeModel, prog: Seq<Instr>, slot: usize, limit: i64, code: i32)
    requires
        ready(rt),
        rt.exit_enabled,
        slot < rt.globals.len(),
        0 <= limit < i64::MAX,
        rt.max_steps >= 3 * limit + 4,
        is_counting_loop(prog, slot, limit, code),
    ensures
        execute_spec(rt, prog).1 == Err::<Value, ScriptError>(ScriptError::ExitRequested { code }),
{
    let m0 = start(rt);
    let m1 = set_global(m0, slot, 0);
    assert(step(prog, m0) == Ok::<Machine, Failure>(m1));
    assert(run(prog, m0, rt.max_steps) == run(prog, m1, (rt.max_steps - 1) as nat));
    assert(m1.rt.globals[slot as int] == Some(0i64));
    lemma_counting_loop(prog, m1, (rt.max_steps - 1) as nat, slot, limit, code, 0);
}

} // verus!
