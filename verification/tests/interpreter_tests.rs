use oviec::error::OvieError;
use oviec::interpreter::{Environment, Function, Value};

fn num(x: f64) -> Value {
    Value::Number(x.to_bits())
}

#[test]
fn truthiness_of_values() {
    assert!(Value::Boolean(true).is_truthy());
    assert!(!Value::Boolean(false).is_truthy());
    assert!(!Value::Null.is_truthy());
    assert!(num(2.5).is_truthy());
    assert!(!num(0.0).is_truthy());
    assert!(!num(-0.0).is_truthy());
    assert!(num(f64::NAN).is_truthy());
    assert!(Value::String("a".to_string()).is_truthy());
    assert!(!Value::String(String::new()).is_truthy());
    assert!(!Value::Array(vec![]).is_truthy());
    assert!(Value::Array(vec![Value::Null]).is_truthy());
    assert!(Value::Struct(vec![]).is_truthy());
    assert!(Value::Enum { variant: "None".to_string(), data: None }.is_truthy());
    assert!(!Value::Break.is_truthy());
    assert!(!Value::Continue.is_truthy());
    assert!(!Value::Return(Box::new(Value::Boolean(true))).is_truthy());
}

#[test]
fn duplicate_copies_nested_values() {
    let v = Value::Array(vec![
        num(1.0),
        Value::Struct(vec![("x".to_string(), Value::String("s".to_string()))]),
        Value::Enum { variant: "Some".to_string(), data: Some(Box::new(Value::Boolean(true))) },
    ]);
    assert_eq!(v.duplicate(), v);
}

#[test]
fn define_then_get_variable() {
    let mut env = Environment::new();
    assert_eq!(env.get_variable("x"), None);
    env.define_variable("x".to_string(), num(1.0));
    env.define_variable("y".to_string(), Value::Boolean(true));
    assert_eq!(env.get_variable("x"), Some(num(1.0)));
    env.define_variable("x".to_string(), num(2.0));
    assert_eq!(env.get_variable("x"), Some(num(2.0)));
    assert_eq!(env.get_variable("y"), Some(Value::Boolean(true)));
}

#[test]
fn set_undefined_variable_fails() {
    let mut env = Environment::new();
    match env.set_variable("missing", Value::Null) {
        Err(OvieError::RuntimeError { message }) => assert_eq!(message, "Undefined variable: missing"),
        other => panic!("unexpected {:?}", other),
    }
    assert_eq!(env.get_variable("missing"), None);
}

#[test]
fn inner_scope_shadows_and_assigns_outer() {
    let mut outer = Environment::new();
    outer.define_variable("a".to_string(), num(1.0));
    outer.define_variable("b".to_string(), num(2.0));
    let mut inner = Environment::with_parent(outer);
    assert_eq!(inner.get_variable("a"), Some(num(1.0)));
    inner.define_variable("a".to_string(), num(10.0));
    assert_eq!(inner.get_variable("a"), Some(num(10.0)));
    assert!(inner.set_variable("b", num(20.0)).is_ok());
    assert_eq!(inner.get_variable("b"), Some(num(20.0)));
    assert!(inner.set_variable("a", num(11.0)).is_ok());
    assert_eq!(inner.get_variable("a"), Some(num(11.0)));
}

#[test]
fn functions_and_types_are_found_through_scopes() {
    let mut outer = Environment::new();
    outer.define_function(Function { name: "f".to_string(), parameters: vec!["a".to_string()], body: vec![] });
    outer.define_struct_type("Point".to_string(), vec!["x".to_string(), "y".to_string()]);
    outer.define_enum_type("Color".to_string(), vec!["Red".to_string()]);
    let mut inner = Environment::with_parent(outer);
    assert_eq!(inner.get_function("f").unwrap().parameters, vec!["a".to_string()]);
    assert!(inner.get_function("g").is_none());
    inner.define_function(Function { name: "f".to_string(), parameters: vec![], body: vec![] });
    assert!(inner.get_function("f").unwrap().parameters.is_empty());
    assert_eq!(inner.get_struct_type("Point"), Some(vec!["x".to_string(), "y".to_string()]));
    assert_eq!(inner.get_enum_type("Color"), Some(vec!["Red".to_string()]));
    inner.define_enum_type("Color".to_string(), vec!["Blue".to_string()]);
    assert_eq!(inner.get_enum_type("Color"), Some(vec!["Blue".to_string()]));
    assert_eq!(inner.get_struct_type("Missing"), None);
}
