use script_exit::{
    classify_failed_run, exit_code_of, op_script_exit, ExitArg, Failure, Instr, Runtime, RuntimeOptions,
    ScriptError, ScriptExitRequest, SideState, Status, Value,
};

fn runtime() -> Runtime {
    Runtime::new(RuntimeOptions::default())
}

fn counting_loop(limit: i64, code: i64) -> Vec<Instr> {
    vec![
        Instr::Store { slot: 2, value: 0 },
        Instr::Incr { slot: 2 },
        Instr::JumpIfAbove { slot: 2, limit, target: 4 },
        Instr::Jump { target: 1 },
        Instr::Exit(ExitArg::Int(code)),
        Instr::Store { slot: 3, value: 1 },
    ]
}

#[test]
fn exit_stops_before_later_side_effects() {
    let mut rt = runtime();
    let r = rt.eval(&vec![
        Instr::Store { slot: 0, value: 5 },
        Instr::Exit(ExitArg::Int(42)),
        Instr::Log("x".to_string()),
        Instr::Store { slot: 0, value: 6 },
        Instr::Store { slot: 1, value: 7 },
    ]);
    assert_eq!(r, Err(ScriptError::ExitRequested { code: 42 }));
    assert!(rt.console.is_empty());
    assert_eq!(rt.globals[0], Some(5));
    assert_eq!(rt.globals[1], None);
}

#[test]
fn million_round_loop_is_interrupted() {
    let mut rt = runtime();
    let r = rt.eval(&counting_loop(999_999, 99));
    assert_eq!(r, Err(ScriptError::ExitRequested { code: 99 }));
    assert_eq!(rt.globals[2], Some(1_000_000));
    assert_eq!(rt.globals[3], None);
}

#[test]
fn loop_with_negative_limit_exits_after_one_round() {
    let mut rt = runtime();
    let r = rt.eval(&counting_loop(-5, 3));
    assert_eq!(r, Err(ScriptError::ExitRequested { code: 3 }));
    assert_eq!(rt.globals[2], Some(1));
}

#[test]
fn exit_codes_are_kept_exactly() {
    for code in [0i64, 1, -1, 42, 255, 256, i32::MIN as i64, i32::MAX as i64] {
        let mut rt = runtime();
        let r = rt.eval(&vec![Instr::Exit(ExitArg::Int(code))]);
        assert_eq!(r, Err(ScriptError::ExitRequested { code: code as i32 }));
    }
}

#[test]
fn exit_code_out_of_range_is_invalid() {
    let mut rt = runtime();
    let r = rt.eval(&vec![Instr::Exit(ExitArg::Int(i32::MAX as i64 + 1))]);
    assert_eq!(r, Err(ScriptError::ArgumentInvalid));
    let r = rt.eval(&vec![Instr::Exit(ExitArg::Int(i32::MIN as i64 - 1))]);
    assert_eq!(r, Err(ScriptError::ArgumentInvalid));
    assert_eq!(rt.state.exit_request, None);
    assert!(!rt.state.interrupt.terminating);
}

#[test]
fn exit_with_non_integer_is_invalid_and_has_no_effect() {
    let mut rt = runtime();
    let r = rt.eval(&vec![
        Instr::Log("before".to_string()),
        Instr::Exit(ExitArg::NotInteger),
        Instr::Log("after".to_string()),
    ]);
    assert_eq!(r, Err(ScriptError::ArgumentInvalid));
    assert_eq!(rt.console, vec!["before".to_string()]);
    assert_eq!(rt.state.exit_request, None);
}

#[test]
fn exit_without_argument_uses_zero() {
    let mut rt = runtime();
    let r = rt.eval(&vec![Instr::Exit(ExitArg::Missing)]);
    assert_eq!(r, Err(ScriptError::ExitRequested { code: 0 }));
}

#[test]
fn runtime_is_reusable_after_exit() {
    let mut rt = runtime();
    let r = rt.eval(&vec![Instr::Exit(ExitArg::Int(42)), Instr::Log("x".to_string())]);
    assert_eq!(r, Err(ScriptError::ExitRequested { code: 42 }));
    assert_eq!(rt.state.exit_request, None);
    assert!(!rt.state.interrupt.terminating);
    let r = rt.eval(&vec![Instr::Push(Value::Text("still alive".to_string()))]);
    assert_eq!(r, Ok(Value::Text("still alive".to_string())));
}

#[test]
fn exit_works_again_in_a_later_unit() {
    let mut rt = runtime();
    assert_eq!(rt.eval(&vec![Instr::Exit(ExitArg::Int(1))]), Err(ScriptError::ExitRequested { code: 1 }));
    assert_eq!(rt.eval(&vec![Instr::Exit(ExitArg::Int(2))]), Err(ScriptError::ExitRequested { code: 2 }));
    assert_eq!(rt.eval(&vec![Instr::Push(Value::Int(7))]), Ok(Value::Int(7)));
}

#[test]
fn global_state_before_exit_is_kept() {
    let mut rt = runtime();
    let _ = rt.eval(&vec![Instr::Store { slot: 4, value: 11 }, Instr::Exit(ExitArg::Int(0))]);
    assert_eq!(rt.eval(&vec![Instr::IsDefined { slot: 4 }]), Ok(Value::Bool(true)));
}

#[test]
fn thrown_exception_is_not_an_exit() {
    let mut rt = runtime();
    let r = rt.eval(&vec![Instr::Throw("boom".to_string())]);
    assert_eq!(r, Err(ScriptError::ScriptFailure(Failure::Thrown("boom".to_string()))));
    assert_eq!(r.as_ref().unwrap_err().as_script_exit(), None);
    assert!(!rt.state.interrupt.terminating);
    assert_eq!(rt.eval(&vec![Instr::Push(Value::Bool(true))]), Ok(Value::Bool(true)));
}

#[test]
fn budget_exhaustion_is_an_unrelated_abort() {
    let mut rt = Runtime::new(RuntimeOptions { exit_enabled: true, max_steps: 1000, global_slots: 4 });
    let r = rt.eval(&vec![Instr::Jump { target: 0 }]);
    assert_eq!(r, Err(ScriptError::UnrelatedAbort));
    assert!(!rt.state.interrupt.terminating);
    assert_eq!(rt.eval(&vec![Instr::Push(Value::Int(3))]), Ok(Value::Int(3)));
}

#[test]
fn exit_needs_the_function_registered() {
    let mut rt = Runtime::new(RuntimeOptions { exit_enabled: false, max_steps: 100, global_slots: 1 });
    assert_eq!(rt.eval(&vec![Instr::Exit(ExitArg::Int(1))]), Err(ScriptError::ScriptFailure(Failure::ExitUnavailable)));
    assert_eq!(rt.eval(&vec![Instr::HasExitFunction]), Ok(Value::Bool(false)));
    assert_eq!(rt.eval(&vec![Instr::ExitArity]), Ok(Value::Undefined));
}

#[test]
fn globals_faults_are_script_failures() {
    let mut rt = Runtime::new(RuntimeOptions { exit_enabled: true, max_steps: 100, global_slots: 2 });
    assert_eq!(rt.eval(&vec![Instr::Store { slot: 2, value: 1 }]), Err(ScriptError::ScriptFailure(Failure::UnknownGlobal { slot: 2 })));
    assert_eq!(rt.eval(&vec![Instr::Incr { slot: 0 }]), Err(ScriptError::ScriptFailure(Failure::UnknownGlobal { slot: 0 })));
    assert_eq!(
        rt.eval(&vec![Instr::Store { slot: 1, value: i64::MAX }, Instr::Incr { slot: 1 }]),
        Err(ScriptError::ScriptFailure(Failure::Overflow { slot: 1 }))
    );
}

#[test]
fn completed_unit_returns_last_pushed_value() {
    let mut rt = runtime();
    assert_eq!(rt.eval(&vec![]), Ok(Value::Undefined));
    assert_eq!(
        rt.eval(&vec![Instr::Push(Value::Int(1)), Instr::Push(Value::Text("b".to_string()))]),
        Ok(Value::Text("b".to_string()))
    );
}

#[test]
fn side_state_put_get_take() {
    let mut s = SideState::new();
    assert_eq!(s.try_get_exit_request(), None);
    s.put_exit_request(ScriptExitRequest::new(5));
    s.put_exit_request(ScriptExitRequest::new(6));
    assert_eq!(s.try_get_exit_request(), Some(&ScriptExitRequest { code: 6 }));
    assert_eq!(s.take_exit_request(), Some(ScriptExitRequest { code: 6 }));
    assert_eq!(s.take_exit_request(), None);
}

#[test]
fn native_exit_records_and_signals() {
    let mut s = SideState::new();
    op_script_exit(&mut s, -7);
    assert_eq!(s.exit_request, Some(ScriptExitRequest { code: -7 }));
    assert!(s.interrupt.is_execution_terminating());
    s.interrupt.cancel_terminate_execution();
    assert!(!s.interrupt.is_execution_terminating());
}

#[test]
fn driver_classifies_each_status() {
    let mut rt = runtime();
    assert_eq!(rt.finish_run(Status::Completed(Value::Int(1))), Ok(Value::Int(1)));
    assert_eq!(rt.finish_run(Status::Failed(Failure::ArgumentInvalid)), Err(ScriptError::ArgumentInvalid));
    assert_eq!(rt.finish_run(Status::Aborted), Err(ScriptError::UnrelatedAbort));
    op_script_exit(&mut rt.state, 12);
    assert_eq!(rt.finish_run(Status::Aborted), Err(ScriptError::ExitRequested { code: 12 }));
    assert_eq!(rt.state.exit_request, None);
    assert!(!rt.state.interrupt.terminating);
}

#[test]
fn argument_conversion() {
    assert_eq!(exit_code_of(ExitArg::Missing), Some(0));
    assert_eq!(exit_code_of(ExitArg::Int(-3)), Some(-3));
    assert_eq!(exit_code_of(ExitArg::Int(1 << 40)), None);
    assert_eq!(exit_code_of(ExitArg::NotInteger), None);
}

#[test]
fn abort_with_and_without_request() {
    assert_eq!(
        script_exit::abort_outcome(Some(ScriptExitRequest { code: 9 })),
        ScriptError::ExitRequested { code: 9 }
    );
    assert_eq!(script_exit::abort_outcome(None), ScriptError::UnrelatedAbort);
}

#[test]
fn default_budget_is_the_machine_limit() {
    let options = RuntimeOptions::default();
    assert_eq!(options.max_steps, u64::MAX);
    assert!(options.exit_enabled);
    let mut rt = Runtime::new(options);
    assert_eq!(rt.eval(&counting_loop(2_000_000, 5)), Err(ScriptError::ExitRequested { code: 5 }));
}

#[test]
fn failed_run_classification() {
    assert_eq!(
        classify_failed_run(true, Some(ScriptExitRequest { code: 4 }), "terminated".to_string()),
        ScriptError::ExitRequested { code: 4 }
    );
    assert_eq!(
        classify_failed_run(false, Some(ScriptExitRequest { code: 4 }), "terminated".to_string()),
        ScriptError::ExitRequested { code: 4 }
    );
    assert_eq!(classify_failed_run(true, None, "terminated".to_string()), ScriptError::UnrelatedAbort);
    assert_eq!(
        classify_failed_run(false, None, "boom".to_string()),
        ScriptError::ScriptFailure(Failure::Thrown("boom".to_string()))
    );
}
