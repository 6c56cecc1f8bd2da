//! Script termination for an embedded script runtime: a script may ask to end
//! its own run with an exit code, the run stops at the next instruction
//! boundary, the host sees a typed outcome carrying the code, and the runtime
//! stays usable for further runs.
//!
//! The script engine is modelled here: `engine` is a small instruction
//! machine, `InterruptHandle` models the engine's terminate-execution handle
//! and `SideState` models the runtime's per-instance op state. The exit
//! handling, the driver's classification and recovery, and the laws are
//! proved over that model. A V8-backed runtime binds its own op to the
//! engine's real handle and op state; it does not run through these types,
//! and it hands the driver's decision to `classify_failed_run`.

pub mod driver;
pub mod engine;
pub mod laws;
pub mod script;
pub mod store;

pub use laws::{law_code_fidelity, law_default_argument, law_immediate_termination, law_loop_interruption, law_non_conflation, law_runtime_reuse, law_stays_ready};
pub use driver::{abort_outcome, classify_failed_run, Module, RuntimeOptions, ScriptError};
pub use engine::Runtime;
pub use script::{exit_code_of, ExitArg, Failure, Instr, Status, Value};
pub use store::{op_script_exit, InterruptHandle, ScriptExitRequest, SideState};
