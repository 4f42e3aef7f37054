use quickjslib::invoke::{check_callable, check_intermediate, plan_call, plan_invoke, split_dotted};
use quickjslib::{BridgedValue, CallShape, HostValue, InvokeError};

#[test]
fn split_keeps_single_names_whole() {
    assert_eq!(split_dotted("inc"), vec![String::from("inc")]);
    assert_eq!(split_dotted(""), vec![String::from("")]);
}

#[test]
fn split_breaks_on_every_dot() {
    assert_eq!(
        split_dotted("math.square"),
        vec![String::from("math"), String::from("square")]
    );
    assert_eq!(
        split_dotted("a.b.c"),
        vec![String::from("a"), String::from("b"), String::from("c")]
    );
    assert_eq!(
        split_dotted("a..b"),
        vec![String::from("a"), String::from(""), String::from("b")]
    );
    assert_eq!(split_dotted("x."), vec![String::from("x"), String::from("")]);
}

#[test]
fn plan_separates_prefix_and_final_segment() {
    let p = plan_invoke("math.square");
    assert_eq!(p.prefix, vec![String::from("math")]);
    assert_eq!(p.last, String::from("square"));

    let p = plan_invoke("inc");
    assert!(p.prefix.is_empty());
    assert_eq!(p.last, String::from("inc"));

    let p = plan_invoke("a.b.c");
    assert_eq!(p.prefix, vec![String::from("a"), String::from("b")]);
    assert_eq!(p.last, String::from("c"));
}

#[test]
fn walking_through_a_non_object_fails_with_its_segment() {
    let seg = String::from("nope");
    let r = check_intermediate(&seg, false);
    let e = r.expect_err("a non-object must stop the walk");
    assert_eq!(e, InvokeError::NotAnObject(String::from("nope")));
    assert_eq!(e.message(), "nope is not an object");

    assert!(check_intermediate(&String::from("math"), true).is_ok());
}

#[test]
fn invoking_a_non_function_fails_with_the_dotted_name() {
    let r = check_callable("math.missing", false);
    let e = r.expect_err("a non-function must not be invoked");
    assert_eq!(e, InvokeError::NotAFunction(String::from("math.missing")));
    assert_eq!(e.message(), "math.missing is not a function");

    assert!(check_callable("math.square", true).is_ok());
}

#[test]
fn empty_argument_lists_take_the_fast_path() {
    assert_eq!(plan_call(&vec![]), CallShape::NoArgs);
}

#[test]
fn arguments_convert_element_wise_in_order() {
    let args = vec![
        HostValue::Int(7),
        HostValue::Str(String::from("x")),
        HostValue::Long(1234567890123),
    ];
    match plan_call(&args) {
        CallShape::WithArgs(bs) => assert_eq!(
            bs,
            vec![
                BridgedValue::Int(7),
                BridgedValue::Str(String::from("x")),
                BridgedValue::BigInteger(1234567890123),
            ]
        ),
        CallShape::NoArgs => panic!("arguments must not be dropped"),
    }
}
