use lisp_value::prelude::native_bool_operator::bool_and_wrap;
use lisp_value::prelude::native_bool_operator::bool_not_wrap;
use lisp_value::prelude::native_bool_operator::bool_or_wrap;
use lisp_value::prelude::native_bool_operator::native_bool_and;
use lisp_value::prelude::native_bool_operator::native_bool_not;
use lisp_value::prelude::native_bool_operator::native_bool_or;
use lisp_value::value::callable::check_args;
use lisp_value::value::callable::wrap;
use lisp_value::value::callable::Callable;
use lisp_value::value::callable::Invocation;
use lisp_value::value::callable::NativeBody;
use lisp_value::value::result::CError;
use lisp_value::value::Kind;
use lisp_value::value::Value;
use sexpr_ir::gast::symbol::Location;
use sexpr_ir::gast::Handle;

fn text(s: &str) -> Value {
    Value::Str(Handle::new(s.to_string()))
}

fn here() -> Location {
    Location::new(Handle::new("prelude".to_string()), 3, 7, 42)
}

#[test]
fn not_negates() {
    assert_eq!(native_bool_not(vec![Value::Bool(true)]).unwrap(), Value::Bool(false));
    assert_eq!(native_bool_not(vec![Value::Bool(false)]).unwrap(), Value::Bool(true));
}

#[test]
fn not_without_arguments_reports_counts() {
    assert!(matches!(native_bool_not(vec![]), Err(CError::ArgsNotMatching(1, 0))));
}

#[test]
fn not_with_two_arguments_reports_counts() {
    let r = native_bool_not(vec![Value::Bool(true), Value::Bool(true)]);
    assert!(matches!(r, Err(CError::ArgsNotMatching(1, 2))));
}

#[test]
fn not_refuses_what_is_no_boolean() {
    match native_bool_not(vec![Value::Int(1)]) {
        Err(CError::TypeError(Kind::Bool, Value::Int(1))) => {}
        other => panic!("unexpected: {:?}", other),
    }
}

#[test]
fn raw_and_of_true_and_false() {
    let r = native_bool_and(vec![Value::Bool(true), Value::Bool(false)]);
    assert_eq!(r.unwrap(), Value::Bool(false));
    let r = native_bool_and(vec![Value::Bool(true), Value::Bool(true)]);
    assert_eq!(r.unwrap(), Value::Bool(true));
    let r = native_bool_and(vec![Value::Bool(false), Value::Bool(true)]);
    assert_eq!(r.unwrap(), Value::Bool(false));
}

#[test]
fn raw_and_cites_the_second_argument() {
    match native_bool_and(vec![Value::Bool(true), text("x")]) {
        Err(CError::TypeError(Kind::Bool, offending)) => assert_eq!(offending, text("x")),
        other => panic!("unexpected: {:?}", other),
    }
}

#[test]
fn raw_and_cites_the_first_of_two_wrong_arguments() {
    match native_bool_and(vec![Value::Uint(5), text("x")]) {
        Err(CError::TypeError(Kind::Bool, offending)) => assert_eq!(offending, Value::Uint(5)),
        other => panic!("unexpected: {:?}", other),
    }
}

#[test]
fn raw_and_reports_the_arity_two() {
    let r = native_bool_and(vec![Value::Bool(true)]);
    assert!(matches!(r, Err(CError::ArgsNotMatching(2, 1))));
    let r = native_bool_and(vec![text("x"), text("y"), text("z")]);
    assert!(matches!(r, Err(CError::ArgsNotMatching(2, 3))));
}

#[test]
fn raw_or_of_booleans() {
    let r = native_bool_or(vec![Value::Bool(false), Value::Bool(false)]);
    assert_eq!(r.unwrap(), Value::Bool(false));
    let r = native_bool_or(vec![Value::Bool(false), Value::Bool(true)]);
    assert_eq!(r.unwrap(), Value::Bool(true));
    let r = native_bool_or(vec![Value::Bool(true), Value::Bool(false)]);
    assert_eq!(r.unwrap(), Value::Bool(true));
}

#[test]
fn raw_or_validates_before_it_computes() {
    let r = native_bool_or(vec![]);
    assert!(matches!(r, Err(CError::ArgsNotMatching(2, 0))));
    match native_bool_or(vec![Value::Nil, Value::Bool(true)]) {
        Err(CError::TypeError(Kind::Bool, Value::Nil)) => {}
        other => panic!("unexpected: {:?}", other),
    }
    match native_bool_or(vec![Value::Bool(true), Value::Char('c')]) {
        Err(CError::TypeError(Kind::Bool, Value::Char('c'))) => {}
        other => panic!("unexpected: {:?}", other),
    }
}

#[test]
fn check_args_accepts_what_is_expected() {
    let params = vec![Kind::Int, Kind::Str, Kind::Nil];
    let args = vec![Value::Int(-1), text("a"), Value::Nil];
    assert!(check_args(&params, &args).is_ok());
    assert!(check_args(&vec![], &vec![]).is_ok());
}

#[test]
fn check_args_reports_the_count_before_any_variant() {
    let params = vec![Kind::Int, Kind::Str];
    let args = vec![text("wrong")];
    assert!(matches!(check_args(&params, &args), Err(CError::ArgsNotMatching(2, 1))));
}

#[test]
fn check_args_reports_the_first_mismatch() {
    let params = vec![Kind::Int, Kind::Str, Kind::Bool];
    let args = vec![Value::Int(1), Value::Uint(2), Value::Uint(3)];
    match check_args(&params, &args) {
        Err(CError::TypeError(Kind::Str, Value::Uint(2))) => {}
        other => panic!("unexpected: {:?}", other),
    }
}

fn native_of(v: &Value) -> &lisp_value::value::callable::NativeFunction {
    match v {
        Value::Callable(Callable::Native(f)) => f,
        other => panic!("no host function: {:?}", other),
    }
}

#[test]
fn wrapped_builtins_carry_name_and_location() {
    let location = here();
    let not = bool_not_wrap(&location);
    let f = native_of(&not);
    assert_eq!(f.name.0.as_str(), "not");
    assert_eq!(f.name.1, location);
    assert!(matches!(f.body, NativeBody::BoolNot));
    let and = bool_and_wrap(&location);
    assert_eq!(native_of(&and).name.0.as_str(), "raw-and");
    assert!(matches!(native_of(&and).body, NativeBody::BoolAnd));
    let or = bool_or_wrap(&location);
    assert_eq!(native_of(&or).name.0.as_str(), "raw-or");
    assert!(matches!(native_of(&or).body, NativeBody::BoolOr));
    assert!(not.is_callable());
    assert_eq!(not.to_string(), "(native not)");
}

#[test]
fn calling_a_wrapped_builtin_runs_it() {
    let not = bool_not_wrap(&here());
    match native_of(&not).call(vec![Value::Bool(true)]) {
        Invocation::Done(Ok(v)) => assert_eq!(v, Value::Bool(false)),
        other => panic!("unexpected: {:?}", other),
    }
    match native_of(&not).call(vec![]) {
        Invocation::Done(Err(CError::ArgsNotMatching(1, 0))) => {}
        other => panic!("unexpected: {:?}", other),
    }
    let or = bool_or_wrap(&here());
    match native_of(&or).call(vec![Value::Bool(false), Value::Bool(true)]) {
        Invocation::Done(Ok(v)) => assert_eq!(v, Value::Bool(true)),
        other => panic!("unexpected: {:?}", other),
    }
    let and = bool_and_wrap(&here());
    match native_of(&and).call(vec![Value::Bool(true), Value::Bool(true)]) {
        Invocation::Done(Ok(v)) => assert_eq!(v, Value::Bool(true)),
        other => panic!("unexpected: {:?}", other),
    }
}

#[test]
fn a_host_function_runs_only_after_validation() {
    let body = NativeBody::Host { id: 9, params: vec![Kind::Uint, Kind::Sym] };
    let f = wrap("nth", &here(), body);
    let sym = Value::Sym(Handle::new(sexpr_ir::gast::symbol::Symbol::new("xs")));
    match native_of(&f).call(vec![Value::Uint(0), sym]) {
        Invocation::Run(9, args) => {
            assert_eq!(args.len(), 2);
            assert_eq!(args[0], Value::Uint(0));
            assert_eq!(args[1].to_string(), "xs");
        }
        other => panic!("unexpected: {:?}", other),
    }
    match native_of(&f).call(vec![Value::Uint(0)]) {
        Invocation::Done(Err(CError::ArgsNotMatching(2, 1))) => {}
        other => panic!("unexpected: {:?}", other),
    }
    match native_of(&f).call(vec![Value::Int(0), Value::Nil]) {
        Invocation::Done(Err(CError::TypeError(Kind::Uint, Value::Int(0)))) => {}
        other => panic!("unexpected: {:?}", other),
    }
    match native_of(&f).call(vec![Value::Uint(0), Value::Nil]) {
        Invocation::Done(Err(CError::TypeError(Kind::Sym, Value::Nil))) => {}
        other => panic!("unexpected: {:?}", other),
    }
}
