use js_processor::classify::UnitKind;
use js_processor::engine::{
    BootstrapPlan, EngineHandle, EntryLookup, InvokeReply, RunReply, invoke_outcome, run_outcome,
};
use js_processor::errors::{
    EngineError, ExecutionError, InvocationError, LifetimeViolation, ProcessError,
};
use js_processor::http_request::StringHttpRequest;
use js_processor::string_map::StringMap;

fn ready_handle() -> EngineHandle<StringHttpRequest> {
    let plan = BootstrapPlan::new(
        "function Process(req){ output.body = \"Processed: \" + req.path; output.status = 200; }"
            .to_owned(),
        StringMap::new(),
    );
    assert_eq!(plan.unit.kind, UnitKind::Script);
    EngineHandle::create(plan, RunReply::Completed, EntryLookup::Found).unwrap()
}

#[test]
fn test_missing_entry_point() {
    let plan = BootstrapPlan::new("var x = 1;".to_owned(), StringMap::new());
    let created: Result<EngineHandle<StringHttpRequest>, EngineError> =
        EngineHandle::create(plan, RunReply::Completed, EntryLookup::Missing);
    match created {
        Err(e) => assert_eq!(e, EngineError::MissingEntryPoint),
        Ok(_) => panic!("a handle must not exist without the entry function"),
    }
}

#[test]
fn test_bootstrap_compile_failure() {
    let plan = BootstrapPlan::new("function (".to_owned(), StringMap::new());
    let created: Result<EngineHandle<StringHttpRequest>, EngineError> = EngineHandle::create(
        plan,
        RunReply::CompileRejected("SyntaxError: unexpected token".to_owned()),
        EntryLookup::Missing,
    );
    match created {
        Err(e) => assert_eq!(e, EngineError::CompileFailed("SyntaxError: unexpected token".to_owned())),
        Ok(_) => panic!("a handle must not exist after a compile failure"),
    }
}

#[test]
fn test_bootstrap_instantiation_failure() {
    let plan = BootstrapPlan::new("import missing from 'missing';".to_owned(), StringMap::new());
    assert_eq!(plan.unit.kind, UnitKind::Module);
    let created: Result<EngineHandle<StringHttpRequest>, EngineError> = EngineHandle::create(
        plan,
        RunReply::LinkRejected("unresolved import".to_owned()),
        EntryLookup::Missing,
    );
    match created {
        Err(e) => assert_eq!(e, EngineError::InstantiationFailed("unresolved import".to_owned())),
        Ok(_) => panic!("a handle must not exist after a link failure"),
    }
}

#[test]
fn test_bootstrap_throw_failure() {
    let plan = BootstrapPlan::new("throw new Error('boom');".to_owned(), StringMap::new());
    let created: Result<EngineHandle<StringHttpRequest>, EngineError> =
        EngineHandle::create(plan, RunReply::Threw("Error: boom".to_owned()), EntryLookup::Missing);
    match created {
        Err(e) => assert_eq!(e, EngineError::RuntimeFailed("Error: boom".to_owned())),
        Ok(_) => panic!("a handle must not exist after a bootstrap throw"),
    }
}

#[test]
fn test_process_scenario() {
    // Bootstrap with the entry function in place, options {}.
    let mut handle = ready_handle();
    let request =
        StringHttpRequest::new("/test-path", "example.com", "test-agent", "test-referer");

    let proxy = handle.begin_process(request);

    // What the entry function does: read req.path through the accessor,
    // then write body and status onto the output object.
    let path = handle.request_prop_handler(proxy, "path").unwrap().unwrap();
    let body = format!("Processed: {}", path);
    let output_pairs = vec![
        ("body".to_owned(), body),
        ("status".to_owned(), "200".to_owned()),
    ];

    let output = handle.finish_process(InvokeReply::Completed, &output_pairs).unwrap();
    assert_eq!(output.len(), 2);
    assert_eq!(output.get("body").map(String::as_str), Some("Processed: /test-path"));
    assert_eq!(output.get("status").map(String::as_str), Some("200"));
}

#[test]
fn test_unknown_property_reads_as_undefined() {
    let mut handle = ready_handle();
    let request = StringHttpRequest::new("/p", "example.com", "agent", "referer");
    let proxy = handle.begin_process(request);

    // The proxy is live, so the read is answered; the name is not an
    // installed accessor, so it resolves to nothing (script `undefined`).
    assert_eq!(handle.request_prop_handler(proxy, "foo"), Ok(None));

    let output = handle.finish_process(InvokeReply::Completed, &Vec::new()).unwrap();
    assert_eq!(output.len(), 0);
}

#[test]
fn test_stale_proxy_is_rejected() {
    let mut handle = ready_handle();
    let request = StringHttpRequest::new("/p", "example.com", "agent", "referer");
    let proxy = handle.begin_process(request);
    handle.finish_process(InvokeReply::Completed, &Vec::new()).unwrap();

    // The arena was drained when the invocation finished; the old proxy
    // no longer dereferences.
    assert_eq!(handle.request_prop_handler(proxy, "path"), Err(LifetimeViolation));
}

#[test]
fn test_invocation_throw_leaves_handle_usable() {
    let mut handle = ready_handle();

    let request = StringHttpRequest::new("/a", "example.com", "agent", "referer");
    handle.begin_process(request);
    let failed = handle.finish_process(
        InvokeReply::Threw("TypeError: boom".to_owned()),
        &vec![("partial".to_owned(), "x".to_owned())],
    );
    assert_eq!(failed.unwrap_err(), ProcessError::RuntimeError("TypeError: boom".to_owned()));

    // The handle is ready again; an independent invocation succeeds.
    assert!(handle.is_ready());
    let request = StringHttpRequest::new("/b", "example.com", "agent", "referer");
    let proxy = handle.begin_process(request);
    assert_eq!(
        handle.request_prop_handler(proxy, "path").unwrap().as_deref(),
        Some("/b")
    );
    let output = handle
        .finish_process(InvokeReply::Completed, &vec![("ok".to_owned(), "1".to_owned())])
        .unwrap();
    assert_eq!(output.get("ok").map(String::as_str), Some("1"));
}

#[test]
fn test_no_leakage_between_invocations() {
    let mut handle = ready_handle();

    let request = StringHttpRequest::new("/a", "example.com", "agent", "referer");
    handle.begin_process(request);
    let first = handle
        .finish_process(InvokeReply::Completed, &vec![("a".to_owned(), "1".to_owned())])
        .unwrap();
    assert!(first.contains_key("a"));

    // The output object is reset between calls: the second record holds
    // exactly what the second invocation wrote.
    let request = StringHttpRequest::new("/b", "example.com", "agent", "referer");
    handle.begin_process(request);
    let second = handle
        .finish_process(InvokeReply::Completed, &vec![("b".to_owned(), "2".to_owned())])
        .unwrap();
    assert!(second.contains_key("b"));
    assert!(!second.contains_key("a"));
    assert_eq!(second.len(), 1);
}

#[test]
fn test_options_survive_invocations() {
    let mut options = StringMap::new();
    options.insert("mode".to_owned(), "ssr".to_owned());
    let plan = BootstrapPlan::new("function Process(req){}".to_owned(), options);
    let mut handle: EngineHandle<StringHttpRequest> =
        EngineHandle::create(plan, RunReply::Completed, EntryLookup::Found).unwrap();

    assert_eq!(handle.options_record().get("mode").map(String::as_str), Some("ssr"));
    let request = StringHttpRequest::new("/p", "h", "ua", "rf");
    handle.begin_process(request);
    handle.finish_process(InvokeReply::Completed, &Vec::new()).unwrap();
    assert_eq!(handle.options_record().get("mode").map(String::as_str), Some("ssr"));
}

#[test]
fn test_dispose_ends_the_session() {
    let mut handle = ready_handle();
    assert!(handle.is_ready());
    handle.dispose();
    assert!(!handle.is_ready());
    assert!(!handle.is_invoking());
}

#[test]
fn test_run_outcome_collapses_failures() {
    assert_eq!(run_outcome(RunReply::Completed), Ok(()));
    assert_eq!(
        run_outcome(RunReply::CompileRejected("bad".to_owned())),
        Err(ExecutionError::Thrown("bad".to_owned()))
    );
    assert_eq!(
        run_outcome(RunReply::LinkRejected("no resolver".to_owned())),
        Err(ExecutionError::Thrown("no resolver".to_owned()))
    );
    assert_eq!(
        run_outcome(RunReply::Threw("boom".to_owned())),
        Err(ExecutionError::Thrown("boom".to_owned()))
    );
}

#[test]
fn test_invoke_outcome() {
    assert_eq!(invoke_outcome(InvokeReply::Completed), Ok(()));
    assert_eq!(
        invoke_outcome(InvokeReply::Threw("oops".to_owned())),
        Err(InvocationError::Thrown("oops".to_owned()))
    );
}

#[test]
fn test_engine_error_descriptions() {
    assert_eq!(
        EngineError::CompileFailed(String::new()).describe(),
        "bootstrap source failed to compile"
    );
    assert_eq!(
        EngineError::InstantiationFailed(String::new()).describe(),
        "bootstrap module failed to instantiate"
    );
    assert_eq!(
        EngineError::RuntimeFailed(String::new()).describe(),
        "bootstrap code threw an exception"
    );
    assert_eq!(EngineError::MissingEntryPoint.describe(), "missing entry function");
}
