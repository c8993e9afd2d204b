//! The operator engine: pure application of a binary operator to two values.
//!
//! Both operands integers, both floats, or one of each (promoted to float)
//! are supported by the arithmetic and ordering operators; integer division
//! truncates toward zero, and integer overflow wraps (two's complement).
//! Equality is structural, with a fixed epsilon tolerance between floats;
//! function values do not support comparison. An unsupported operand
//! pairing yields `Null`, a "no result" sentinel that every caller promotes
//! to an incompatible-operand error.

use crate::ast::Operator;
use crate::errors::EvalError;
use crate::floats::{
    add_bits, div_bits, f64_of_i32, float_add, float_div, float_eq, float_eq_bits, float_lt,
    float_mul, float_of_int, float_sub, lt_bits, mul_bits, sub_bits,
};
use crate::value::{vv, vvs, SpecValue, Value};
use vstd::prelude::*;

verus! {

broadcast use vstd::std_specs::vec::group_vec_axioms, vstd::seq::group_seq_axioms;

/// Whether a value contains a function anywhere, which excludes it from
/// structural comparison.
pub open spec fn contains_fn(v: SpecValue) -> bool
    decreases v,
{
    match v {
        SpecValue::Native { .. } => true,
        SpecValue::UserDefFunction { .. } => true,
        SpecValue::List { elems } => contains_fn_seq(elems),
        _ => false,
    }
}

/// Whether any element of a sequence contains a function.
pub open spec fn contains_fn_seq(s: Seq<SpecValue>) -> bool
    decreases s via contains_fn_seq_decreases
{
    if s.len() == 0 {
        false
    } else {
        contains_fn_seq(s.drop_last()) || contains_fn(s.last())
    }
}

#[via_fn]
proof fn contains_fn_seq_decreases(s: Seq<SpecValue>) {
    if s.len() > 0 {
        vstd::seq::axiom_seq_index_decreases(s, s.len() - 1);
        vstd::seq::axiom_seq_subrange_decreases(s, 0, s.len() - 1);
        assert(s.drop_last() == s.subrange(0, s.len() - 1));
        assert(s.last() == s[s.len() - 1]);
    }
}

/// Structural equality of two function-free values. Floats compare with the
/// epsilon tolerance; values of different kinds are unequal; numeric
/// promotion applies only at the top level of the operator engine, not to
/// nested list elements.
pub open spec fn val_eq(a: SpecValue, b: SpecValue) -> bool
    decreases a,
{
    match (a, b) {
        (SpecValue::Null, SpecValue::Null) => true,
        (SpecValue::Int { v: x }, SpecValue::Int { v: y }) => x == y,
        (SpecValue::Float { bits: x }, SpecValue::Float { bits: y }) => float_eq_bits(x, y),
        (SpecValue::Bool { b: x }, SpecValue::Bool { b: y }) => x == y,
        (SpecValue::Char { c: x }, SpecValue::Char { c: y }) => x == y,
        (SpecValue::Str { s: x }, SpecValue::Str { s: y }) => x@ == y@,
        (SpecValue::List { elems: x }, SpecValue::List { elems: y }) => val_eq_seq(x, y),
        _ => false,
    }
}

/// Elementwise structural equality of two sequences of values.
pub open spec fn val_eq_seq(a: Seq<SpecValue>, b: Seq<SpecValue>) -> bool
    decreases a via val_eq_seq_decreases
{
    if a.len() != b.len() {
        false
    } else if a.len() == 0 {
        true
    } else {
        val_eq_seq(a.drop_last(), b.drop_last()) && val_eq(a.last(), b.last())
    }
}

#[via_fn]
proof fn val_eq_seq_decreases(a: Seq<SpecValue>, b: Seq<SpecValue>) {
    if a.len() != 0 && a.len() == b.len() {
        vstd::seq::axiom_seq_index_decreases(a, a.len() - 1);
        vstd::seq::axiom_seq_subrange_decreases(a, 0, a.len() - 1);
        assert(a.drop_last() == a.subrange(0, a.len() - 1));
        assert(a.last() == a[a.len() - 1]);
    }
}

/// Integer division truncated toward zero.
pub open spec fn trunc_div(a: int, b: int) -> int {
    let q = abs_int(a) / abs_int(b);
    if (a < 0) != (b < 0) {
        -q
    } else {
        q
    }
}

/// The absolute value of an integer.
pub open spec fn abs_int(a: int) -> int {
    if a < 0 {
        -a
    } else {
        a
    }
}

/// What a supported arithmetic operator does to two doubles, by their bits.
pub open spec fn float_arith_bits(op: Operator, a: u64, b: u64) -> u64 {
    match op {
        Operator::Add => add_bits(a, b),
        Operator::Sub => sub_bits(a, b),
        Operator::Mul => mul_bits(a, b),
        _ => div_bits(a, b),
    }
}

/// What a supported arithmetic operator does to two 32-bit integers:
/// wrapping two's-complement addition, subtraction and multiplication, and
/// division truncated toward zero (whose one overflow case also wraps).
pub open spec fn int_arith(op: Operator, a: i32, b: i32) -> Result<i32, EvalError> {
    match op {
        Operator::Add => Ok(vstd::wrapping::i32_specs::wrapping_add(a, b)),
        Operator::Sub => Ok(vstd::wrapping::i32_specs::wrapping_sub(a, b)),
        Operator::Mul => Ok(vstd::wrapping::i32_specs::wrapping_mul(a, b)),
        _ => if b == 0 {
            Err(EvalError::DivisionByZero)
        } else if a == i32::MIN && b == -1 {
            Ok(i32::MIN)
        } else {
            Ok(trunc_div(a as int, b as int) as i32)
        },
    }
}

/// What `apply` returns. `Ok(Null)` is the "no result" sentinel for an
/// unsupported operand pairing; the operators never produce `Null` as a
/// genuine result.
pub open spec fn apply_spec(op: Operator, a: SpecValue, b: SpecValue) -> Result<
    SpecValue,
    EvalError,
> {
    match op {
        Operator::Add | Operator::Sub | Operator::Mul | Operator::Div => match (a, b) {
            (SpecValue::Int { v: x }, SpecValue::Int { v: y }) => match int_arith(op, x, y) {
                Ok(v) => Ok(SpecValue::Int { v }),
                Err(e) => Err(e),
            },
            (SpecValue::Float { bits: x }, SpecValue::Float { bits: y }) => Ok(
                SpecValue::Float { bits: float_arith_bits(op, x, y) },
            ),
            (SpecValue::Int { v: x }, SpecValue::Float { bits: y }) => Ok(
                SpecValue::Float { bits: float_arith_bits(op, f64_of_i32(x), y) },
            ),
            (SpecValue::Float { bits: x }, SpecValue::Int { v: y }) => Ok(
                SpecValue::Float { bits: float_arith_bits(op, x, f64_of_i32(y)) },
            ),
            _ => Ok(SpecValue::Null),
        },
        Operator::LessThan | Operator::GreaterThan => {
            let swap = op is GreaterThan;
            match (a, b) {
                (SpecValue::Int { v: x }, SpecValue::Int { v: y }) => Ok(
                    SpecValue::Bool { b: if swap { y < x } else { x < y } },
                ),
                (SpecValue::Float { bits: x }, SpecValue::Float { bits: y }) => Ok(
                    SpecValue::Bool { b: if swap { lt_bits(y, x) } else { lt_bits(x, y) } },
                ),
                (SpecValue::Int { v: x }, SpecValue::Float { bits: y }) => Ok(
                    SpecValue::Bool {
                        b: if swap {
                            lt_bits(y, f64_of_i32(x))
                        } else {
                            lt_bits(f64_of_i32(x), y)
                        },
                    },
                ),
                (SpecValue::Float { bits: x }, SpecValue::Int { v: y }) => Ok(
                    SpecValue::Bool {
                        b: if swap {
                            lt_bits(f64_of_i32(y), x)
                        } else {
                            lt_bits(x, f64_of_i32(y))
                        },
                    },
                ),
                _ => Ok(SpecValue::Null),
            }
        },
        Operator::Equal | Operator::NotEqual => {
            let neg = op is NotEqual;
            if contains_fn(a) || contains_fn(b) {
                Ok(SpecValue::Null)
            } else {
                let eq = match (a, b) {
                    (SpecValue::Int { v: x }, SpecValue::Float { bits: y }) => float_eq_bits(
                        f64_of_i32(x),
                        y,
                    ),
                    (SpecValue::Float { bits: x }, SpecValue::Int { v: y }) => float_eq_bits(
                        x,
                        f64_of_i32(y),
                    ),
                    _ => val_eq(a, b),
                };
                Ok(SpecValue::Bool { b: if neg { !eq } else { eq } })
            }
        },
    }
}

/// The view of an evaluation result.
pub open spec fn res_view(r: Result<Value, EvalError>) -> Result<SpecValue, EvalError> {
    match r {
        Ok(v) => Ok(vv(v)),
        Err(e) => Err(e),
    }
}

/// Decides whether a value contains a function.
#[verifier::loop_isolation(false)]
pub fn value_contains_fn(v: &Value) -> (r: bool)
    ensures
        r == contains_fn(vv(*v)),
    decreases *v,
{
    match v {
        Value::Native { .. } => true,
        Value::UserDefFunction { .. } => true,
        Value::List { elems } => {
            let n = elems.len();
            let mut i: usize = 0;
            while i < n
                invariant
                    i <= n,
                    !contains_fn_seq(vvs(elems@).take(i as int)),
                decreases n - i,
            {
                proof {
                    assert(*v == (Value::List { elems: *elems }));
                    assert(decreases_to!(*v => *elems));
                    vstd::std_specs::vec::axiom_vec_decreases_to_view(*elems);
                    vstd::seq::axiom_seq_index_decreases(elems@, i as int);
                    crate::value::lemma_vvs(elems@);
                }
                if value_contains_fn(&elems[i]) {
                    proof {
                        lemma_contains_fn_seq_elem(vvs(elems@), i as int);
                    }
                    return true;
                }
                proof {
                    assert(vvs(elems@).take(i + 1).drop_last() =~= vvs(elems@).take(i as int));
                    assert(vvs(elems@).take(i + 1).last() == vvs(elems@)[i as int]);
                }
                i = i + 1;
            }
            proof {
                crate::value::lemma_vvs(elems@);
                assert(vvs(elems@).take(n as int) =~= vvs(elems@));
            }
            false
        },
        _ => false,
    }
}

/// If one element contains a function, so does the sequence.
proof fn lemma_contains_fn_seq_elem(s: Seq<SpecValue>, i: int)
    requires
        0 <= i < s.len(),
        contains_fn(s[i]),
    ensures
        contains_fn_seq(s),
    decreases s.len(),
{
    if i == s.len() - 1 {
        assert(s.last() == s[i]);
    } else {
        assert(s.drop_last()[i] == s[i]);
        lemma_contains_fn_seq_elem(s.drop_last(), i);
    }
}

/// Decides `val_eq` on two function-free values.
#[verifier::loop_isolation(false)]
pub fn value_eq(a: &Value, b: &Value) -> (r: bool)
    requires
        !contains_fn(vv(*a)),
        !contains_fn(vv(*b)),
    ensures
        r == val_eq(vv(*a), vv(*b)),
    decreases *a,
{
    match (a, b) {
        (Value::Null, Value::Null) => true,
        (Value::Int { v: x }, Value::Int { v: y }) => *x == *y,
        (Value::Float { bits: x }, Value::Float { bits: y }) => float_eq(*x, *y),
        (Value::Bool { b: x }, Value::Bool { b: y }) => *x == *y,
        (Value::Char { c: x }, Value::Char { c: y }) => *x == *y,
        (Value::Str { s: x }, Value::Str { s: y }) => *x == *y,
        (Value::List { elems: x }, Value::List { elems: y }) => {
            proof {
                crate::value::lemma_vvs(x@);
                crate::value::lemma_vvs(y@);
            }
            if x.len() != y.len() {
                proof {
                    lemma_val_eq_seq_pointwise(vvs(x@), vvs(y@));
                }
                return false;
            }
            let n = x.len();
            let mut i: usize = 0;
            while i < n
                invariant
                    i <= n,
                    forall|j: int| 0 <= j < i ==> val_eq(vvs(x@)[j], vvs(y@)[j]),
                decreases n - i,
            {
                proof {
                    assert(*a == (Value::List { elems: *x }));
                    assert(decreases_to!(*a => *x));
                    vstd::std_specs::vec::axiom_vec_decreases_to_view(*x);
                    vstd::seq::axiom_seq_index_decreases(x@, i as int);
                    lemma_contains_fn_not_elem(vvs(x@), i as int);
                    lemma_contains_fn_not_elem(vvs(y@), i as int);
                }
                if !value_eq(&x[i], &y[i]) {
                    proof {
                        lemma_val_eq_seq_pointwise(vvs(x@), vvs(y@));
                    }
                    return false;
                }
                i = i + 1;
            }
            proof {
                lemma_val_eq_seq_pointwise(vvs(x@), vvs(y@));
            }
            true
        },
        _ => false,
    }
}

/// If a sequence contains no function, neither does any element.
proof fn lemma_contains_fn_not_elem(s: Seq<SpecValue>, i: int)
    requires
        0 <= i < s.len(),
        !contains_fn_seq(s),
    ensures
        !contains_fn(s[i]),
    decreases s.len(),
{
    if i == s.len() - 1 {
        assert(s.last() == s[i]);
    } else {
        assert(s.drop_last()[i] == s[i]);
        lemma_contains_fn_not_elem(s.drop_last(), i);
    }
}

/// Sequence equality is equivalent to equal lengths plus pointwise
/// equality.
proof fn lemma_val_eq_seq_pointwise(a: Seq<SpecValue>, b: Seq<SpecValue>)
    ensures
        val_eq_seq(a, b) <==> (a.len() == b.len() && forall|j: int|
            0 <= j < a.len() ==> val_eq(a[j], b[j])),
    decreases a.len(),
{
    if a.len() == b.len() && a.len() > 0 {
        lemma_val_eq_seq_pointwise(a.drop_last(), b.drop_last());
        assert(forall|j: int|
            0 <= j < a.len() - 1 ==> a.drop_last()[j] == a[j] && b.drop_last()[j] == b[j]);
        assert(a.last() == a[a.len() - 1] && b.last() == b[b.len() - 1]);
    }
}

/// Applies a binary operator to two values: the pure operator engine.
///
/// `Ok(Value::Null)` is the "no result" sentinel for an unsupported operand
/// pairing, which callers promote to an incompatible-operand error.
pub fn operate(operator: &Operator, lhs: &Value, rhs: &Value) -> (r: Result<Value, EvalError>)
    ensures
        res_view(r) == apply_spec(*operator, vv(*lhs), vv(*rhs)),
{
    match operator {
        Operator::Add | Operator::Sub | Operator::Mul | Operator::Div => match (lhs, rhs) {
            (Value::Int { v: x }, Value::Int { v: y }) => match int_operate(operator, *x, *y) {
                Ok(v) => Ok(Value::Int { v }),
                Err(e) => Err(e),
            },
            (Value::Float { bits: x }, Value::Float { bits: y }) => Ok(
                Value::Float { bits: float_operate(operator, *x, *y) },
            ),
            (Value::Int { v: x }, Value::Float { bits: y }) => Ok(
                Value::Float { bits: float_operate(operator, float_of_int(*x), *y) },
            ),
            (Value::Float { bits: x }, Value::Int { v: y }) => Ok(
                Value::Float { bits: float_operate(operator, *x, float_of_int(*y)) },
            ),
            _ => Ok(Value::Null),
        },
        Operator::LessThan | Operator::GreaterThan => {
            let swap = matches!(operator, Operator::GreaterThan);
            match (lhs, rhs) {
                (Value::Int { v: x }, Value::Int { v: y }) => Ok(
                    Value::Bool { b: if swap { *y < *x } else { *x < *y } },
                ),
                (Value::Float { bits: x }, Value::Float { bits: y }) => Ok(
                    Value::Bool { b: if swap { float_lt(*y, *x) } else { float_lt(*x, *y) } },
                ),
                (Value::Int { v: x }, Value::Float { bits: y }) => {
                    let xf = float_of_int(*x);
                    Ok(Value::Bool { b: if swap { float_lt(*y, xf) } else { float_lt(xf, *y) } })
                },
                (Value::Float { bits: x }, Value::Int { v: y }) => {
                    let yf = float_of_int(*y);
                    Ok(Value::Bool { b: if swap { float_lt(yf, *x) } else { float_lt(*x, yf) } })
                },
                _ => Ok(Value::Null),
            }
        },
        Operator::Equal | Operator::NotEqual => {
            let neg = matches!(operator, Operator::NotEqual);
            if value_contains_fn(lhs) || value_contains_fn(rhs) {
                return Ok(Value::Null);
            }
            let eq = match (lhs, rhs) {
                (Value::Int { v: x }, Value::Float { bits: y }) => float_eq(float_of_int(*x), *y),
                (Value::Float { bits: x }, Value::Int { v: y }) => float_eq(*x, float_of_int(*y)),
                _ => value_eq(lhs, rhs),
            };
            Ok(Value::Bool { b: if neg { !eq } else { eq } })
        },
    }
}

/// Integer arithmetic: wrapping addition, subtraction and multiplication,
/// and division truncated toward zero.
fn int_operate(op: &Operator, a: i32, b: i32) -> (r: Result<i32, EvalError>)
    requires
        *op is Add || *op is Sub || *op is Mul || *op is Div,
    ensures
        r == int_arith(*op, a, b),
{
    match op {
        Operator::Add => Ok(a.wrapping_add(b)),
        Operator::Sub => Ok(a.wrapping_sub(b)),
        Operator::Mul => Ok(a.wrapping_mul(b)),
        _ => {
            if b == 0 {
                return Err(EvalError::DivisionByZero);
            }
            if a == i32::MIN && b == -1 {
                return Ok(i32::MIN);
            }
            let wa: i64 = a as i64;
            let wb: i64 = b as i64;
            let ua: u64 = (if wa < 0 { -wa } else { wa }) as u64;
            let ub: u64 = (if wb < 0 { -wb } else { wb }) as u64;
            let uq: u64 = ua / ub;
            let neg = (a < 0) != (b < 0);
            proof {
                assert(ua == abs_int(a as int));
                assert(ub == abs_int(b as int));
                assert(uq == abs_int(a as int) / abs_int(b as int));
                assert(uq <= ua) by {
                    vstd::arithmetic::div_mod::lemma_div_is_ordered_by_denominator(
                        ua as int,
                        1,
                        ub as int,
                    );
                }
                if !neg && ua == 0x8000_0000 {
                    assert(ub >= 2);
                    vstd::arithmetic::div_mod::lemma_div_is_ordered_by_denominator(
                        ua as int,
                        2,
                        ub as int,
                    );
                }
            }
            if neg {
                Ok((-(uq as i64)) as i32)
            } else {
                Ok(uq as i32)
            }
        },
    }
}

/// Float arithmetic by operand bits.
fn float_operate(op: &Operator, a: u64, b: u64) -> (r: u64)
    requires
        *op is Add || *op is Sub || *op is Mul || *op is Div,
    ensures
        r == float_arith_bits(*op, a, b),
{
    match op {
        Operator::Add => float_add(a, b),
        Operator::Sub => float_sub(a, b),
        Operator::Mul => float_mul(a, b),
        _ => float_div(a, b),
    }
}

} // verus!
