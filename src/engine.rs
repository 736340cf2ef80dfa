//! The decisions of one run of a script: clearing the capture before it,
//! and turning the runtime's outcome into the shapes or the error returned.
//!
//! The runtime itself is driven by the embedding layer, which calls
//! [`begin_run`] before it executes a script and [`finish_run`] (or
//! [`finish_eval`]) with what came of it.

use crate::capture::{DrawShape, ScriptContext};
use crate::dispatch::{maybe_tree, operand_term, Operand};
use crate::error::ScriptError;
use crate::kernel::KTree;
use vstd::prelude::*;

verus! {

/// Execution limit of a default engine, in seconds.
pub const DEFAULT_EXECUTION_LIMIT: u64 = 1;

/// What `eval` expects its expression to give.
pub const TREE: &'static str = "Tree";

/// How an engine is set up.
pub struct EngineSettings {
    /// Whether the bindings are also installed in the global namespace, not
    /// only under `fidget`.
    pub default_imports: bool,
    /// How long one script may run, in seconds.
    pub execution_limit_secs: u64,
}

impl EngineSettings {
    /// Settings with these values.
    pub fn new(default_imports: bool, execution_limit_secs: u64) -> (r: EngineSettings)
        ensures
            r.default_imports == default_imports,
            r.execution_limit_secs == execution_limit_secs,
    {
        EngineSettings { default_imports, execution_limit_secs }
    }

    /// Settings without the global bindings, and with the default limit.
    pub fn new_without_default_imports() -> (r: EngineSettings)
        ensures
            !r.default_imports,
            r.execution_limit_secs == DEFAULT_EXECUTION_LIMIT,
    {
        EngineSettings { default_imports: false, execution_limit_secs: DEFAULT_EXECUTION_LIMIT }
    }
}

impl Default for EngineSettings {
    fn default() -> (r: EngineSettings)
        ensures
            r.default_imports,
            r.execution_limit_secs == DEFAULT_EXECUTION_LIMIT,
    {
        EngineSettings { default_imports: true, execution_limit_secs: DEFAULT_EXECUTION_LIMIT }
    }
}

/// How the runtime reports that a script did not complete.
pub enum RunFailure {
    /// The script did not compile; holds the runtime's diagnostic.
    Compile(String),
    /// The script ran past the execution limit.
    Timeout,
    /// The script stopped on an error; holds the runtime's message.
    Runtime(String),
}

/// Why a run or an evaluation failed.
#[derive(Debug)]
pub enum EngineError {
    /// The script did not compile; holds the diagnostic.
    CompileError(String),
    /// The script ran past the execution limit.
    TimeoutError,
    /// A call into the library refused its values.
    Script(ScriptError),
    /// The runtime stopped the script for a reason of its own.
    RuntimeError(String),
}

/// The error for a failed run, given the last error that a call into the
/// library raised during it, if any.
pub open spec fn classify(failure: RunFailure, raised: Option<ScriptError>) -> EngineError {
    match failure {
        RunFailure::Compile(m) => EngineError::CompileError(m),
        RunFailure::Timeout => EngineError::TimeoutError,
        RunFailure::Runtime(m) => match raised {
            Some(e) => EngineError::Script(e),
            None => EngineError::RuntimeError(m),
        },
    }
}

/// The error for a failed run.
pub fn engine_error(failure: RunFailure, raised: Option<ScriptError>) -> (r: EngineError)
    ensures
        r == classify(failure, raised),
{
    match failure {
        RunFailure::Compile(m) => EngineError::CompileError(m),
        RunFailure::Timeout => EngineError::TimeoutError,
        RunFailure::Runtime(m) => match raised {
            Some(e) => EngineError::Script(e),
            None => EngineError::RuntimeError(m),
        },
    }
}

impl EngineError {
    /// The text that describes the error.
    pub fn message(&self) -> (r: String)
        ensures
            r@ == match self {
                EngineError::CompileError(m) => m@,
                EngineError::TimeoutError => "execution limit exceeded"@,
                EngineError::Script(e) => match e {
                    ScriptError::TypeMismatch(m) => m@,
                    ScriptError::InvalidArguments(m) => m@,
                    ScriptError::UnsupportedOperation(m) => m@,
                },
                EngineError::RuntimeError(m) => m@,
            },
    {
        match self {
            EngineError::CompileError(m) => m.clone(),
            EngineError::TimeoutError => "execution limit exceeded".to_owned(),
            EngineError::Script(e) => e.message(),
            EngineError::RuntimeError(m) => m.clone(),
        }
    }
}

/// The first step of a run: the capture starts empty.
pub fn begin_run(capture: &mut ScriptContext)
    ensures
        final(capture).shapes@ == Seq::<DrawShape>::empty(),
{
    capture.clear();
    assert(capture.shapes@ =~= Seq::<DrawShape>::empty());
}

/// Runs do not share shapes: a run begins from the empty capture that
/// `begin_run` leaves, whatever an earlier run left, so one that draws `drawn`
/// hands over exactly `drawn`.
pub proof fn lemma_runs_are_independent(drawn: Seq<DrawShape>)
    ensures
        Seq::<DrawShape>::empty() + drawn == drawn,
{
    assert(Seq::<DrawShape>::empty() + drawn =~= drawn);
}

/// The last step of a run.  A completed script hands over exactly the shapes
/// it drew; a failed one hands over none, and its partial drawing is
/// discarded.  Either way the capture is left empty.
pub fn finish_run(
    capture: &mut ScriptContext,
    outcome: Result<(), RunFailure>,
    raised: Option<ScriptError>,
) -> (r: Result<ScriptContext, EngineError>)
    ensures
        final(capture).shapes@.len() == 0,
        outcome is Ok ==> r is Ok && r->Ok_0.shapes@ == old(capture).shapes@,
        outcome matches Err(f) ==> r is Err && r->Err_0 == classify(f, raised),
{
    match outcome {
        Ok(()) => Ok(capture.take()),
        Err(failure) => {
            capture.clear();
            Err(engine_error(failure, raised))
        },
    }
}

/// A run that overruns its limit reports a timeout, whatever the library
/// raised before it.
pub proof fn lemma_timeout_is_reported(raised: Option<ScriptError>)
    ensures
        classify(RunFailure::Timeout, raised) == EngineError::TimeoutError,
{
}

/// The last step of an evaluation: the value of the expression must coerce
/// to a tree.
pub fn finish_eval(outcome: Result<Operand, RunFailure>, raised: Option<ScriptError>) -> (r: Result<
    KTree,
    EngineError,
>)
    ensures
        match outcome {
            Ok(v) => match operand_term(v) {
                Some(t) => r is Ok && r->Ok_0@ == t,
                None => r is Err && (r->Err_0 matches EngineError::Script(e)
                    && e.is_type_mismatch(TREE@)),
            },
            Err(f) => r is Err && r->Err_0 == classify(f, raised),
        },
{
    match outcome {
        Ok(v) => match maybe_tree(&v) {
            Some(t) => Ok(t),
            None => Err(EngineError::Script(ScriptError::TypeMismatch(TREE.to_owned()))),
        },
        Err(failure) => Err(engine_error(failure, raised)),
    }
}

} // verus!
