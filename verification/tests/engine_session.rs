use quickjslib::EngineSession;

#[test]
fn runtime_and_context_lifecycle() {
    let mut s = EngineSession::new();
    let rt = s.create_runtime().expect("the engine must give a runtime");
    assert!(s.runtime_ref(rt).is_some());
    assert!(s.set_memory_limit(rt, 16 * 1024 * 1024));
    assert!(s.set_max_stack_size(rt, 512 * 1024));

    let ctx = s.create_context(rt).expect("the engine must give a context");
    assert!(s.context_ref(ctx).is_some());

    assert!(s.close_context(ctx));
    assert!(!s.close_context(ctx));
    assert!(s.close_runtime(rt));
    assert!(!s.close_runtime(rt));
}

#[test]
fn contexts_need_a_live_runtime_handle() {
    let mut s = EngineSession::new();
    let rt = s.create_runtime().expect("the engine must give a runtime");
    assert!(s.close_runtime(rt));
    // The stale runtime handle is detected, not dereferenced.
    assert_eq!(s.create_context(rt), None);
    assert!(!s.set_memory_limit(rt, 1024));
    assert!(s.runtime_ref(rt).is_none());
}

#[test]
fn runtimes_get_distinct_handles() {
    let mut s = EngineSession::new();
    let a = s.create_runtime().expect("the engine must give a runtime");
    let b = s.create_runtime().expect("the engine must give a runtime");
    assert_ne!(a, b);
    let ca = s.create_context(a).expect("the engine must give a context");
    let cb = s.create_context(b).expect("the engine must give a context");
    assert_ne!(ca, cb);
    assert!(s.close_context(cb));
    assert!(s.close_context(ca));
    assert!(s.close_runtime(b));
    assert!(s.close_runtime(a));
}

#[test]
fn a_live_context_evaluates_script() {
    // The session hands out a real engine context; drive its scoped entry
    // point directly, as the glue around the library does.
    let mut s = EngineSession::new();
    let rt = s.create_runtime().expect("the engine must give a runtime");
    let ctx = s.create_context(rt).expect("the engine must give a context");
    let context = s.context_ref(ctx).expect("the handle is live");
    let result: i32 = context.with(|c| c.eval("6 * 7").expect("the script evaluates"));
    assert_eq!(result, 42);
    assert!(s.close_context(ctx));
    assert!(s.close_runtime(rt));
}
