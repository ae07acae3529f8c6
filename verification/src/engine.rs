//! The engine handle and its processing session. The handle owns the
//! native side of one isolated engine instance: the installed options,
//! the per-invocation proxy arena, and the lifecycle state. The engine
//! itself is an external collaborator driven by the embedder; every
//! decision — how a unit is classified, what each bootstrap or invocation
//! report means, what the output record holds — is made and proved here.
//!
//! A handle and everything derived from it are single-thread-affine: they
//! must be created, used and dropped on one native thread. Concurrency
//! across requests means independent handles on independent threads,
//! never a shared one.

use vstd::prelude::*;
use crate::accessor;
use crate::accessor::resolved_property;
use crate::arena::{RequestArena, RequestProxy};
use crate::classify::{CompiledUnit, UnitKind, is_module_source};
use crate::errors::{
    EngineError,
    ExecutionError,
    InvocationError,
    LifetimeViolation,
    ProcessError,
};
use crate::http_request::SimpleHttpRequest;
use crate::string_map::{StringMap, map_of_pairs};

verus! {

/// Lifecycle of an engine handle. Construction only ever yields a handle
/// in the ready state; a failed bootstrap yields no handle at all.
#[derive(Clone, Copy, Debug, PartialEq, Eq, Structural)]
pub enum EngineState {
    /// Bootstrap completed; a request may be processed.
    Ready,
    /// Exactly one entry call is staged and not yet reported back.
    Invoking,
    /// The handle was torn down; nothing may be processed any more.
    Disposed,
}

/// Everything the embedder must set up and run to bootstrap one engine:
/// register the logging sink and the module-resolution shim as global
/// functions, install `options` as a global string-to-string object and
/// an empty global `output` object, then run the unit along its chosen
/// path and look the entry function up under its fixed global name.
#[derive(Debug)]
pub struct BootstrapPlan {
    /// The bootstrap unit, with the execution path chosen for it.
    pub unit: CompiledUnit,
    /// The record to install as the global `options` object.
    pub options: StringMap,
}

impl BootstrapPlan {
    /// Stages bootstrap source: classifies it and pairs it with the
    /// options to install.
    pub fn new(bootstrap_source: String, options: StringMap) -> (plan: BootstrapPlan)
        requires
            options.wf(),
        ensures
            plan.options == options,
            plan.unit.code@ == bootstrap_source@,
            plan.unit.kind == UnitKind::Module <==> is_module_source(bootstrap_source@),
            plan.unit.kind == UnitKind::Script <==> !is_module_source(bootstrap_source@),
    {
        BootstrapPlan { unit: CompiledUnit::new(bootstrap_source), options }
    }
}

/// What the engine reported for one run of a compiled unit.
#[derive(Clone, Debug, PartialEq, Eq)]
pub enum RunReply {
    /// The unit compiled and its top-level code ran to completion.
    Completed,
    /// The engine rejected the text at compile time.
    CompileRejected(String),
    /// The module graph could not be instantiated.
    LinkRejected(String),
    /// Top-level code threw an uncaught exception.
    Threw(String),
}

/// Whether the entry function was reachable from the global object under
/// its fixed name once the bootstrap unit had run.
#[derive(Clone, Copy, Debug, PartialEq, Eq, Structural)]
pub enum EntryLookup {
    Found,
    Missing,
}

/// What the engine reported for the one staged call of the entry function.
#[derive(Clone, Debug, PartialEq, Eq)]
pub enum InvokeReply {
    /// The entry function returned normally.
    Completed,
    /// The entry function raised an uncaught exception.
    Threw(String),
}

/// The compilation-and-execution unit's verdict on one run: every compile
/// error, instantiation error or uncaught exception is captured and
/// surfaced as the thrown message.
pub fn run_outcome(reply: RunReply) -> (r: Result<(), ExecutionError>)
    ensures
        match reply {
            RunReply::Completed => r is Ok,
            RunReply::CompileRejected(m) => r matches Err(ExecutionError::Thrown(mm)) && mm == m,
            RunReply::LinkRejected(m) => r matches Err(ExecutionError::Thrown(mm)) && mm == m,
            RunReply::Threw(m) => r matches Err(ExecutionError::Thrown(mm)) && mm == m,
        },
{
    match reply {
        RunReply::Completed => Ok(()),
        RunReply::CompileRejected(m) => Err(ExecutionError::Thrown(m)),
        RunReply::LinkRejected(m) => Err(ExecutionError::Thrown(m)),
        RunReply::Threw(m) => Err(ExecutionError::Thrown(m)),
    }
}

/// The entry invoker's verdict on the one staged call: an uncaught
/// exception surfaces as a typed error carrying the thrown message, never
/// as a host crash.
pub fn invoke_outcome(reply: InvokeReply) -> (r: Result<(), InvocationError>)
    ensures
        match reply {
            InvokeReply::Completed => r is Ok,
            InvokeReply::Threw(m) => r matches Err(InvocationError::Thrown(mm)) && mm == m,
        },
{
    match reply {
        InvokeReply::Completed => Ok(()),
        InvokeReply::Threw(m) => Err(InvocationError::Thrown(m)),
    }
}

/// The output reader: folds the enumerated own properties of the `output`
/// object into a native record. Keys end up unique; should the
/// enumeration ever carry a name twice, the last write wins.
pub fn read_output(pairs: &Vec<(String, String)>) -> (out: StringMap)
    ensures
        out.wf(),
        out@ == map_of_pairs(pairs@),
{
    let mut out = StringMap::new();
    let mut i: usize = 0;
    while i < pairs.len()
        invariant
            i <= pairs@.len(),
            out.wf(),
            out@ == map_of_pairs(pairs@.subrange(0, i as int)),
        decreases pairs@.len() - i,
    {
        let key = pairs[i].0.clone();
        let value = pairs[i].1.clone();
        out.insert(key, value);
        proof {
            assert(pairs@.subrange(0, i + 1 as int).drop_last() =~= pairs@.subrange(0, i as int));
            assert(pairs@.subrange(0, i + 1 as int).last() == pairs@[i as int]);
        }
        i += 1;
    }
    proof {
        assert(pairs@.subrange(0, pairs@.len() as int) =~= pairs@);
    }
    out
}

/// One isolated engine instance with its execution context, request
/// template and captured entry function, seen from the native side.
pub struct EngineHandle<R> {
    st: EngineState,
    opts: StringMap,
    req_arena: RequestArena<R>,
    pending_req: Option<RequestProxy>,
    calls: Ghost<nat>,
}

impl<R> EngineHandle<R> {
    /// Lifecycle state.
    pub closed spec fn state(self) -> EngineState {
        self.st
    }

    /// The options record installed at bootstrap.
    pub closed spec fn options(self) -> StringMap {
        self.opts
    }

    /// The proxy arena of the current invocation.
    pub closed spec fn arena(self) -> Seq<Option<R>> {
        self.req_arena@
    }

    /// The proxy staged for the in-flight invocation, if one is.
    pub closed spec fn pending(self) -> Option<RequestProxy> {
        self.pending_req
    }

    /// How many invocations this handle has begun.
    pub closed spec fn invocations(self) -> nat {
        self.calls@
    }

    /// The proxy points at an arena slot that still holds its request.
    pub open spec fn live(self, p: RequestProxy) -> bool {
        p.slot < self.arena().len() && self.arena()[p.slot as int] is Some
    }

    /// A staged call exists exactly while invoking; its proxy is the one
    /// live arena slot; outside an invocation the arena is drained.
    pub open spec fn wf(self) -> bool {
        &&& (self.state() == EngineState::Invoking <==> self.pending() is Some)
        &&& (self.pending() matches Some(p) ==> self.arena().len() == p.slot + 1 && self.live(p))
        &&& (self.state() != EngineState::Invoking ==> self.arena().len() == 0)
        &&& self.options().wf()
    }

    /// Completes construction from the engine's bootstrap report. A
    /// handle exists only when the unit ran to completion and left the
    /// entry function in place; every failure is a typed error, and no
    /// partially usable handle survives one.
    pub fn create(plan: BootstrapPlan, run: RunReply, entry: EntryLookup) -> (r: Result<
        EngineHandle<R>,
        EngineError,
    >)
        requires
            plan.options.wf(),
        ensures
            match run {
                RunReply::CompileRejected(m) => r matches Err(EngineError::CompileFailed(mm))
                    && mm == m,
                RunReply::LinkRejected(m) => r matches Err(EngineError::InstantiationFailed(mm))
                    && mm == m,
                RunReply::Threw(m) => r matches Err(EngineError::RuntimeFailed(mm)) && mm == m,
                RunReply::Completed => match entry {
                    EntryLookup::Missing => r == Err::<EngineHandle<R>, EngineError>(
                        EngineError::MissingEntryPoint,
                    ),
                    EntryLookup::Found => r matches Ok(h) && h.wf() && h.state()
                        == EngineState::Ready && h.options() == plan.options && h.invocations()
                        == 0 && h.arena().len() == 0,
                },
            },
    {
        match run {
            RunReply::Completed => match entry {
                EntryLookup::Found => Ok(
                    EngineHandle {
                        st: EngineState::Ready,
                        opts: plan.options,
                        req_arena: RequestArena::new(),
                        pending_req: None,
                        calls: Ghost(0),
                    },
                ),
                EntryLookup::Missing => Err(EngineError::MissingEntryPoint),
            },
            RunReply::CompileRejected(m) => Err(EngineError::CompileFailed(m)),
            RunReply::LinkRejected(m) => Err(EngineError::InstantiationFailed(m)),
            RunReply::Threw(m) => Err(EngineError::RuntimeFailed(m)),
        }
    }

    /// Wraps the request into a fresh proxy and stages exactly one call
    /// of the entry function with that proxy as its sole argument. The
    /// handle must be ready, so a second call cannot be staged while one
    /// is in flight.
    pub fn begin_process(&mut self, request: R) -> (p: RequestProxy)
        requires
            old(self).wf(),
            old(self).state() == EngineState::Ready,
        ensures
            final(self).wf(),
            final(self).state() == EngineState::Invoking,
            final(self).pending() == Some(p),
            final(self).arena() == old(self).arena().push(Some(request)),
            final(self).live(p),
            final(self).arena()[p.slot as int] == Some(request),
            p.slot == old(self).arena().len(),
            final(self).invocations() == old(self).invocations() + 1,
            final(self).options() == old(self).options(),
    {
        let p = self.req_arena.install(request);
        self.st = EngineState::Invoking;
        self.pending_req = Some(p);
        self.calls = Ghost(self.calls@ + 1);
        p
    }

    /// Consumes the engine's report of the one staged entry call, reads
    /// the enumerated `output` properties back into a native record, and
    /// drains the proxy arena. An uncaught exception surfaces as a typed
    /// error; either way the handle is ready for the next, independent
    /// invocation.
    pub fn finish_process(&mut self, reply: InvokeReply, output_pairs: &Vec<(String, String)>) -> (r:
        Result<StringMap, ProcessError>)
        requires
            old(self).wf(),
            old(self).state() == EngineState::Invoking,
        ensures
            final(self).wf(),
            final(self).state() == EngineState::Ready,
            final(self).pending() is None,
            final(self).arena().len() == 0,
            final(self).options() == old(self).options(),
            final(self).invocations() == old(self).invocations(),
            match reply {
                InvokeReply::Threw(m) => r matches Err(ProcessError::RuntimeError(mm)) && mm == m,
                InvokeReply::Completed => r matches Ok(out) && out.wf() && out@ == map_of_pairs(
                    output_pairs@,
                ),
            },
    {
        self.req_arena.drain();
        self.pending_req = None;
        self.st = EngineState::Ready;
        match invoke_outcome(reply) {
            Ok(()) => Ok(read_output(output_pairs)),
            Err(InvocationError::Thrown(m)) => Err(ProcessError::RuntimeError(m)),
        }
    }

    /// Tears the handle down: every arena slot is released before the
    /// engine instance goes away, and no further invocation can begin.
    pub fn dispose(&mut self)
        requires
            old(self).wf(),
        ensures
            final(self).wf(),
            final(self).state() == EngineState::Disposed,
            final(self).pending() is None,
            final(self).arena().len() == 0,
    {
        self.req_arena.drain();
        self.pending_req = None;
        self.st = EngineState::Disposed;
    }

    /// The handle accepts a new request exactly in the ready state.
    pub fn is_ready(&self) -> (r: bool)
        ensures
            r == (self.state() == EngineState::Ready),
    {
        match self.st {
            EngineState::Ready => true,
            _ => false,
        }
    }

    /// Whether an entry call is staged and not yet reported back.
    pub fn is_invoking(&self) -> (r: bool)
        ensures
            r == (self.state() == EngineState::Invoking),
    {
        match self.st {
            EngineState::Invoking => true,
            _ => false,
        }
    }

    /// The options record installed at bootstrap.
    pub fn options_record(&self) -> (r: &StringMap)
        ensures
            *r == self.options(),
    {
        &self.opts
    }
}

impl<R: SimpleHttpRequest> EngineHandle<R> {
    /// Handles one property read arriving from script: the proxy's slot
    /// is checked before the wrapped request is touched, so a stale or
    /// foreign proxy is a rejected operation, not undefined behavior.
    pub fn request_prop_handler(&self, proxy: RequestProxy, name: &str) -> (r: Result<
        Option<String>,
        LifetimeViolation,
    >)
        ensures
            self.live(proxy) ==> (r matches Ok(v) && v.deep_view() == resolved_property(
                self.arena()[proxy.slot as int]->Some_0,
                name@,
            )),
            !self.live(proxy) ==> r == Err::<Option<String>, LifetimeViolation>(LifetimeViolation),
    {
        accessor::request_prop_handler(&self.req_arena, proxy, name)
    }
}

/// Law: while an invocation is in flight the staged call is unique — one
/// pending proxy, pointing at the single live arena slot.
pub proof fn lemma_single_staged_call<R>(h: EngineHandle<R>)
    requires
        h.wf(),
        h.state() == EngineState::Invoking,
    ensures
        h.pending() is Some,
        h.arena().len() == h.pending()->Some_0.slot + 1,
        h.live(h.pending()->Some_0),
{
}

} // verus!
