//! Scenarios against the real engine, driving its scoped entry point the
//! way the glue around the library does.

use quickjslib::exception::bridge_exception;
use quickjslib::invoke::{check_callable, check_intermediate, plan_invoke};
use quickjslib::{CaughtScript, EngineFailure, EngineSession};
use rquickjs::{Ctx, Exception, Function, Value};

fn with_fresh_context<R>(f: impl for<'js> FnOnce(Ctx<'js>) -> R) -> R {
    let mut s = EngineSession::new();
    let rt = s.create_runtime().expect("the engine must give a runtime");
    let ctx = s.create_context(rt).expect("the engine must give a context");
    let context = s.context_ref(ctx).expect("the handle is live").clone();
    let r = context.with(f);
    assert!(s.close_context(ctx));
    assert!(s.close_runtime(rt));
    r
}

#[test]
fn host_callable_bridging_increments() {
    // Register a host unary function f(x) = x + 1 as global `inc`;
    // script `inc(41)` must come back as 42.
    with_fresh_context(|c| {
        let inc = Function::new(c.clone(), |x: i32| -> i32 { x + 1 }).expect("a host function");
        c.globals().set("inc", inc).expect("set global");
        let result: i32 = c.eval("inc(41)").expect("the call evaluates");
        assert_eq!(result, 42);
    });
}

#[test]
fn dotted_invocation_resolves_and_fails_exactly() {
    with_fresh_context(|c| {
        c.eval::<(), _>("globalThis.math = { square: function(x) { return x * x; } };")
            .expect("setup evaluates");

        // math.square resolves through one object step and invokes.
        let plan = plan_invoke("math.square");
        let mut target = c.globals();
        for segment in plan.prefix.iter() {
            let step: Value = target.get(segment.as_str()).expect("lookup");
            check_intermediate(segment, step.is_object()).expect("an object step");
            target = step.into_object().expect("an object value");
        }
        let resolved: Value = target.get(plan.last.as_str()).expect("lookup");
        check_callable("math.square", resolved.is_function()).expect("a callable");
        let function = resolved.into_function().expect("a function value");
        let result: i32 = function.call((7,)).expect("the call evaluates");
        assert_eq!(result, 49);

        // math.missing resolves to undefined: not a function.
        let plan = plan_invoke("math.missing");
        let mut target = c.globals();
        for segment in plan.prefix.iter() {
            let step: Value = target.get(segment.as_str()).expect("lookup");
            check_intermediate(segment, step.is_object()).expect("an object step");
            target = step.into_object().expect("an object value");
        }
        let resolved: Value = target.get(plan.last.as_str()).expect("lookup");
        let e = check_callable("math.missing", resolved.is_function())
            .expect_err("undefined is not callable");
        assert_eq!(e.message(), "math.missing is not a function");

        // nope.square stops at the undefined global: not an object.
        let plan = plan_invoke("nope.square");
        let target = c.globals();
        let segment = &plan.prefix[0];
        let step: Value = target.get(segment.as_str()).expect("lookup");
        let e = check_intermediate(segment, step.is_object())
            .expect_err("undefined is not an object");
        assert_eq!(e.message(), "nope is not an object");
    });
}

#[test]
fn thrown_exception_with_markers_reconstructs_the_cause() {
    // A script exception carrying the reconstruction markers — as one
    // materialized from a host exception of class E with message "boom"
    // does — surfaces with that class and message as its cause.
    with_fresh_context(|c| {
        let result: Result<Value, _> = c.eval(
            "(function() { \
                const e = new Error('boom'); \
                e.original_java_exception_class = 'com.example.E'; \
                throw e; \
             })()",
        );
        let err = result.expect_err("the script throws");
        assert!(matches!(err, rquickjs::Error::Exception));

        let caught = c.catch();
        let exception = caught.as_exception().expect("a structured exception");
        let host_class: Option<String> = exception
            .get("original_java_exception_class")
            .unwrap_or(None);
        let host_file: Option<String> = exception
            .get("original_java_exception_file")
            .unwrap_or(None);
        let host_line: Option<i32> = exception
            .get("original_java_exception_line")
            .unwrap_or(None);
        let failure = EngineFailure::Thrown(CaughtScript::ExceptionObject {
            message: exception.message(),
            stack: exception.stack(),
            file: exception.file(),
            line: exception.line(),
            host_class,
            host_file,
            host_line,
        });

        let host_exception = bridge_exception(&failure);
        assert_eq!(host_exception.message, "boom");
        let cause = host_exception.cause.expect("the markers name a cause");
        assert_eq!(cause.class_name, "com.example.E");
        assert_eq!(cause.message, "boom");
    });
}

#[test]
fn thrown_string_is_caught_as_text() {
    with_fresh_context(|c| {
        let result: Result<Value, _> = c.eval("(function() { throw 'just a string'; })()");
        assert!(result.is_err());
        let caught = c.catch();
        assert!(caught.as_exception().is_none());
        let text = caught
            .into_string()
            .expect("a thrown string")
            .to_string()
            .expect("utf-8");
        let e = bridge_exception(&EngineFailure::Thrown(CaughtScript::Text(text)));
        assert_eq!(e.message, "just a string");
    });
}

#[test]
fn reentrant_host_function_evaluates_on_the_same_context() {
    // A host function, called from script, re-enters the same context
    // and evaluates more script; the inner result flows back out.
    with_fresh_context(|c| {
        let again =
            Function::new(c.clone(), |inner: Ctx| -> i32 {
                inner.eval("21 * 2").unwrap_or(0)
            })
            .expect("a host function");
        c.globals().set("again", again).expect("set global");
        let result: i32 = c.eval("again() + 1").expect("the call evaluates");
        assert_eq!(result, 43);
    });
}

#[test]
fn an_exported_array_stays_the_same_engine_object() {
    // Exporting keeps the value alive independently of any scope; passing
    // the export back restores the very same engine object, so mutations
    // through it are visible to script reading the same variable.
    with_fresh_context(|c| {
        c.eval::<(), _>("globalThis.data = [1, 2, 3];").expect("setup evaluates");
        let value: Value = c.globals().get("data").expect("the global exists");
        let array = value.into_array().expect("an array value");
        let exported = rquickjs::Persistent::save(&c, array);

        let restored = exported.restore(&c).expect("the export restores");
        restored.set(0, 42).expect("mutation through the export");

        let observed: i32 = c.eval("data[0]").expect("the read evaluates");
        assert_eq!(observed, 42);
    });
}

#[test]
fn big_integers_round_trip_through_the_engine() {
    with_fresh_context(|c| {
        // 2^53, the edge of exact double integers.
        let v = c
            .eval::<Value, _>("9007199254740992n")
            .expect("a big-int literal");
        assert_eq!(v.type_of(), rquickjs::Type::BigInt);
        let n = v.into_big_int().expect("a big-int").to_i64().expect("in range");
        assert_eq!(n, 9007199254740992i64);
    });
}

#[test]
fn host_exception_materializes_with_markers() {
    // The script-side shape of a bridged host exception: message plus the
    // marker properties, observable from script.
    with_fresh_context(|c| {
        let exception =
            Exception::from_message(c.clone(), "boom").expect("an exception value");
        exception
            .as_object()
            .set("original_java_exception_class", "com.example.E")
            .expect("set marker");
        c.globals()
            .set("bridged", Value::from_exception(exception))
            .expect("set global");
        let class: String = c
            .eval("bridged.original_java_exception_class")
            .expect("read marker");
        assert_eq!(class, "com.example.E");
        let message: String = c.eval("bridged.message").expect("read message");
        assert_eq!(message, "boom");
    });
}
