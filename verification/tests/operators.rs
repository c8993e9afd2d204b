use rustl::{operate, Operator, Value};

fn intl(v: i32) -> Value {
    Value::Int { v }
}

fn float(f: f64) -> Value {
    Value::Float { bits: f.to_bits() }
}

fn apply(op: Operator, a: Value, b: Value) -> Value {
    operate(&op, &a, &b).unwrap()
}

#[test]
fn add_two_and_three_is_five() {
    assert_eq!(apply(Operator::Add, intl(2), intl(3)), intl(5));
}

#[test]
fn div_truncates_toward_zero() {
    assert_eq!(apply(Operator::Div, intl(7), intl(2)), intl(3));
    assert_eq!(apply(Operator::Div, intl(-7), intl(2)), intl(-3));
    assert_eq!(apply(Operator::Div, intl(7), intl(-2)), intl(-3));
    assert_eq!(apply(Operator::Div, intl(-7), intl(-2)), intl(3));
}

#[test]
fn float_equality_is_epsilon_tolerant() {
    assert_eq!(
        apply(Operator::Equal, float(1.0000000001), float(1.0)),
        Value::Bool { b: true }
    );
    assert_eq!(apply(Operator::Equal, float(1.0), float(2.0)), Value::Bool { b: false });
    assert_eq!(
        apply(Operator::NotEqual, float(1.0), float(2.0)),
        Value::Bool { b: true }
    );
}

#[test]
fn float_arithmetic_matches_ieee() {
    assert_eq!(apply(Operator::Add, float(2.5), float(0.25)), float(2.75));
    assert_eq!(apply(Operator::Sub, float(2.5), float(0.25)), float(2.25));
    assert_eq!(apply(Operator::Mul, float(2.5), float(4.0)), float(10.0));
    assert_eq!(apply(Operator::Div, float(1.0), float(4.0)), float(0.25));
}

#[test]
fn mixed_operands_promote_to_float() {
    assert_eq!(apply(Operator::Add, intl(1), float(0.5)), float(1.5));
    assert_eq!(apply(Operator::Mul, float(0.5), intl(4)), float(2.0));
    assert_eq!(apply(Operator::Equal, intl(1), float(1.0)), Value::Bool { b: true });
    assert_eq!(apply(Operator::LessThan, intl(1), float(1.5)), Value::Bool { b: true });
    assert_eq!(apply(Operator::GreaterThan, float(1.5), intl(1)), Value::Bool { b: true });
}

#[test]
fn integer_overflow_wraps() {
    assert_eq!(apply(Operator::Add, intl(i32::MAX), intl(1)), intl(i32::MIN));
    assert_eq!(apply(Operator::Sub, intl(i32::MIN), intl(1)), intl(i32::MAX));
    assert_eq!(apply(Operator::Mul, intl(1 << 20), intl(1 << 20)), intl(0));
    assert_eq!(apply(Operator::Div, intl(i32::MIN), intl(-1)), intl(i32::MIN));
}

#[test]
fn division_by_zero_is_an_error() {
    assert_eq!(
        operate(&Operator::Div, &intl(1), &intl(0)),
        Err(rustl::EvalError::DivisionByZero)
    );
}

#[test]
fn comparisons_on_ints() {
    assert_eq!(apply(Operator::LessThan, intl(1), intl(2)), Value::Bool { b: true });
    assert_eq!(apply(Operator::GreaterThan, intl(1), intl(2)), Value::Bool { b: false });
}

#[test]
fn structural_equality() {
    let a = Value::List {
        elems: vec![intl(1), Value::Str { s: "x".to_string() }],
    };
    let b = Value::List {
        elems: vec![intl(1), Value::Str { s: "x".to_string() }],
    };
    assert_eq!(apply(Operator::Equal, a, b), Value::Bool { b: true });
    assert_eq!(
        apply(Operator::Equal, intl(1), Value::Str { s: "1".to_string() }),
        Value::Bool { b: false }
    );
    assert_eq!(
        apply(Operator::Equal, Value::Null, Value::Null),
        Value::Bool { b: true }
    );
    assert_eq!(
        apply(Operator::Equal, Value::Char { c: 'a' }, Value::Char { c: 'a' }),
        Value::Bool { b: true }
    );
}

#[test]
fn nested_floats_compare_with_epsilon() {
    let a = Value::List { elems: vec![float(1.0000000001)] };
    let b = Value::List { elems: vec![float(1.0)] };
    assert_eq!(apply(Operator::Equal, a, b), Value::Bool { b: true });
}

#[test]
fn unsupported_pairings_yield_the_sentinel() {
    // Arithmetic on strings, ordering on booleans, and comparison of
    // function values have no result: the engine returns the Null sentinel
    // that callers promote to an incompatible-operand error.
    assert_eq!(
        apply(Operator::Add, Value::Str { s: "a".to_string() }, intl(1)),
        Value::Null
    );
    assert_eq!(
        apply(Operator::LessThan, Value::Bool { b: true }, Value::Bool { b: false }),
        Value::Null
    );
    assert_eq!(
        apply(
            Operator::Equal,
            Value::Native { which: rustl::Builtin::Print },
            Value::Native { which: rustl::Builtin::Print },
        ),
        Value::Null
    );
}
