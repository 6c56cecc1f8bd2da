use vstd::prelude::*;

verus! {

/// The exit code that a script asked for, kept until the driver reads it.
#[derive(Clone, Copy, Debug, PartialEq, Eq)]
pub struct ScriptExitRequest {
    pub code: i32,
}

impl ScriptExitRequest {
    pub fn new(code: i32) -> (r: ScriptExitRequest)
        ensures
            r.code == code,
    {
        ScriptExitRequest { code }
    }
}

/// A model of the engine's interrupt handle for one execution context: once
/// signalled, the running script stops at the next instruction boundary, until
/// the flag is reset. The method names follow the engine's own handle.
#[derive(Debug)]
pub struct InterruptHandle {
    pub terminating: bool,
}

impl InterruptHandle {
    pub fn new() -> (r: InterruptHandle)
        ensures
            !r.terminating,
    {
        InterruptHandle { terminating: false }
    }

    /// Asks the context to stop running script code as soon as possible.
    pub fn terminate_execution(&mut self)
        ensures
            final(self).terminating,
    {
        self.terminating = true;
    }

    /// Makes the context runnable again after a stop.
    pub fn cancel_terminate_execution(&mut self)
        ensures
            !final(self).terminating,
    {
        self.terminating = false;
    }

    pub fn is_execution_terminating(&self) -> (r: bool)
        ensures
            r == self.terminating,
    {
        self.terminating
    }
}

/// A model of the runtime's per-instance op state, restricted to what exit
/// handling keeps there: at most one pending exit request, and the interrupt
/// handle of the runtime's execution context.
#[derive(Debug)]
pub struct SideState {
    pub exit_request: Option<ScriptExitRequest>,
    pub interrupt: InterruptHandle,
}

impl SideState {
    pub fn new() -> (r: SideState)
        ensures
            r.exit_request.is_none(),
            !r.interrupt.terminating,
    {
        SideState { exit_request: None, interrupt: InterruptHandle::new() }
    }

    /// Stores a request, replacing any earlier one.
    pub fn put_exit_request(&mut self, req: ScriptExitRequest)
        ensures
            final(self).exit_request == Some(req),
            final(self).interrupt == old(self).interrupt,
    {
        self.exit_request = Some(req);
    }

    pub fn try_get_exit_request(&self) -> (r: Option<&ScriptExitRequest>)
        ensures
            match r {
                Some(q) => self.exit_request == Some(*q),
                None => self.exit_request.is_none(),
            },
    {
        match &self.exit_request {
            Some(q) => Some(q),
            None => None,
        }
    }

    /// Reads the pending request and removes it.
    pub fn take_exit_request(&mut self) -> (r: Option<ScriptExitRequest>)
        ensures
            r == old(self).exit_request,
            final(self).exit_request.is_none(),
            final(self).interrupt == old(self).interrupt,
    {
        let r = self.exit_request;
        self.exit_request = None;
        r
    }
}

/// The native exit function: records the request, then signals the interrupt.
/// It returns normally; the interrupt stops the script at the next boundary.
pub fn op_script_exit(state: &mut SideState, code: i32)
    ensures
        final(state).exit_request == Some(ScriptExitRequest { code }),
        final(state).interrupt.terminating,
{
    let exit_request = ScriptExitRequest::new(code);
    state.put_exit_request(exit_request);
    state.interrupt.terminate_execution();
}

} // verus!
