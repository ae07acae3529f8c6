//! The error taxonomy of the processor. Every failure that the engine can
//! report — malformed source, an unlinkable module graph, an uncaught
//! script exception, a missing entry function, a stale proxy — surfaces as
//! a typed value here, never as a host crash.

use vstd::prelude::*;

verus! {

/// Why constructing an engine handle failed. A handle is never partially
/// constructed: on any of these, no handle exists.
#[derive(Clone, Debug, PartialEq, Eq)]
pub enum EngineError {
    /// The bootstrap source was rejected when compiled.
    CompileFailed(String),
    /// The bootstrap module could not be instantiated; no module resolver
    /// is wired in, so an unresolved import always lands here.
    InstantiationFailed(String),
    /// The bootstrap code threw an uncaught exception while it ran.
    RuntimeFailed(String),
    /// The bootstrap code ran but left no callable entry function under
    /// the agreed global name.
    MissingEntryPoint,
}

/// Why running one compiled unit failed: every compile, instantiation or
/// evaluation fault is captured as the thrown message.
#[derive(Clone, Debug, PartialEq, Eq)]
pub enum ExecutionError {
    Thrown(String),
}

/// Why calling the captured entry function failed.
#[derive(Clone, Debug, PartialEq, Eq)]
pub enum InvocationError {
    /// The entry function raised an uncaught exception.
    Thrown(String),
}

/// Why processing one request failed. The handle stays usable afterwards.
#[derive(Clone, Debug, PartialEq, Eq)]
pub enum ProcessError {
    /// The invocation raised an uncaught exception with this message.
    RuntimeError(String),
}

/// A proxy was dereferenced after its arena slot was released: a checked,
/// rejected operation rather than undefined behavior.
#[derive(Clone, Copy, Debug, PartialEq, Eq, Structural)]
pub struct LifetimeViolation;

impl EngineError {
    /// A short description of the failure kind.
    pub fn describe(&self) -> (r: &'static str)
        ensures
            r@ == match self {
                EngineError::CompileFailed(_) => "bootstrap source failed to compile"@,
                EngineError::InstantiationFailed(_) => "bootstrap module failed to instantiate"@,
                EngineError::RuntimeFailed(_) => "bootstrap code threw an exception"@,
                EngineError::MissingEntryPoint => "missing entry function"@,
            },
    {
        match self {
            EngineError::CompileFailed(_) => "bootstrap source failed to compile",
            EngineError::InstantiationFailed(_) => "bootstrap module failed to instantiate",
            EngineError::RuntimeFailed(_) => "bootstrap code threw an exception",
            EngineError::MissingEntryPoint => "missing entry function",
        }
    }
}

} // verus!
