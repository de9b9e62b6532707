use oviec::ast::{BinaryOperator, UnaryOperator};
use oviec::error::OvieError;
use oviec::interpreter::{apply_binary_operator, apply_unary_operator, value_type_name, BinaryOutcome, Value};

fn num(x: f64) -> Value {
    Value::Number(x.to_bits())
}

fn message(e: OvieError) -> String {
    match e {
        OvieError::RuntimeError { message } => message,
        other => panic!("unexpected {:?}", other),
    }
}

#[test]
fn numbers_go_to_the_caller() {
    match apply_binary_operator(&num(1.0), &BinaryOperator::Add, &num(2.0)).unwrap() {
        BinaryOutcome::Float { op, left, right } => {
            assert_eq!(op, BinaryOperator::Add);
            assert_eq!(left, 1.0f64.to_bits());
            assert_eq!(right, 2.0f64.to_bits());
        }
        other => panic!("unexpected {:?}", other),
    }
    assert!(matches!(
        apply_binary_operator(&num(1.0), &BinaryOperator::NotEqual, &num(1.0)).unwrap(),
        BinaryOutcome::Float { op: BinaryOperator::NotEqual, .. }
    ));
}

#[test]
fn division_and_modulo_by_zero_fail() {
    let e = apply_binary_operator(&num(1.0), &BinaryOperator::Divide, &num(0.0)).unwrap_err();
    assert_eq!(message(e), "Division by zero");
    let e = apply_binary_operator(&num(1.0), &BinaryOperator::Modulo, &num(-0.0)).unwrap_err();
    assert_eq!(message(e), "Modulo by zero");
}

#[test]
fn strings_arrays_and_logic() {
    let s = |x: &str| Value::String(x.to_string());
    match apply_binary_operator(&s("ab"), &BinaryOperator::Add, &s("cd")).unwrap() {
        BinaryOutcome::Value(v) => assert_eq!(v, s("abcd")),
        other => panic!("unexpected {:?}", other),
    }
    assert!(matches!(
        apply_binary_operator(&s("n="), &BinaryOperator::Add, &num(3.0)).unwrap(),
        BinaryOutcome::Concat { .. }
    ));
    match apply_binary_operator(&Value::Array(vec![num(1.0)]), &BinaryOperator::Add, &Value::Array(vec![Value::Null]))
        .unwrap()
    {
        BinaryOutcome::Value(v) => assert_eq!(v, Value::Array(vec![num(1.0), Value::Null])),
        other => panic!("unexpected {:?}", other),
    }
    match apply_binary_operator(&s("a"), &BinaryOperator::NotEqual, &s("b")).unwrap() {
        BinaryOutcome::Value(v) => assert_eq!(v, Value::Boolean(true)),
        other => panic!("unexpected {:?}", other),
    }
    match apply_binary_operator(&Value::Null, &BinaryOperator::Or, &s("x")).unwrap() {
        BinaryOutcome::Value(v) => assert_eq!(v, s("x")),
        other => panic!("unexpected {:?}", other),
    }
    match apply_binary_operator(&num(0.0), &BinaryOperator::And, &s("x")).unwrap() {
        BinaryOutcome::Value(v) => assert_eq!(v, num(0.0)),
        other => panic!("unexpected {:?}", other),
    }
}

#[test]
fn mismatched_operands_fail() {
    let e = apply_binary_operator(&Value::Boolean(true), &BinaryOperator::Less, &num(1.0)).unwrap_err();
    assert_eq!(message(e), "Invalid binary operation: boolean < number");
    let e = apply_binary_operator(&Value::Null, &BinaryOperator::NotEqual, &num(1.0)).unwrap_err();
    assert_eq!(message(e), "Invalid binary operation: null == number");
    assert_eq!(value_type_name(&Value::Struct(vec![])), "struct");
}

#[test]
fn unary_operators() {
    assert_eq!(apply_unary_operator(&UnaryOperator::Negate, &num(2.5)).unwrap(), num(-2.5));
    assert_eq!(apply_unary_operator(&UnaryOperator::Not, &Value::Null).unwrap(), Value::Boolean(true));
    let e = apply_unary_operator(&UnaryOperator::Negate, &Value::Boolean(true)).unwrap_err();
    assert_eq!(message(e), "Invalid unary operation: - boolean");
}
