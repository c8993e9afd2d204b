//! The meaning of the language: a fuel-indexed definitional interpreter at
//! the specification level.
//!
//! Every executable evaluation function of the crate is proved to return
//! exactly what these functions say, and to leave the frame and the output
//! exactly as they say. The fuel bounds the depth of nested evaluation and
//! the number of loop iterations: every recursive case passes `fuel - 1`,
//! and a run that reaches zero ends with `FuelExhausted`. Output is a
//! sequence of events rather than host I/O, so suppression during module
//! import is a statement about this sequence.

use crate::ast::{ElifBranch, Expression, ListItem, Operator, Program, Statement};
use crate::errors::{EvalError, ExprKind, ValueKind};
use crate::ops::apply_spec;
use crate::value::{FnDef, SpecOutput, SpecValue};
use vstd::prelude::*;

verus! {

broadcast use vstd::std_specs::vec::group_vec_axioms, vstd::seq::group_seq_axioms;

/// The state an evaluation acts on: the frame and the output so far.
#[verifier::ext_equal]
pub struct SpecState {
    pub env: Map<Seq<char>, SpecValue>,
    pub out: Seq<SpecOutput>,
}

/// The module table: import paths resolved ahead of evaluation to parsed
/// programs.
pub type SpecModules = Map<Seq<char>, Program>;

/// The syntactic kind of an expression.
pub open spec fn expr_kind(e: Expression) -> ExprKind {
    match e {
        Expression::Int { .. } => ExprKind::Int,
        Expression::Float { .. } => ExprKind::Float,
        Expression::StringLit { .. } => ExprKind::StringLit,
        Expression::Boolean { .. } => ExprKind::Boolean,
        Expression::Character { .. } => ExprKind::Character,
        Expression::Identifier { .. } => ExprKind::Identifier,
        Expression::Call { .. } => ExprKind::Call,
        Expression::Operation { .. } => ExprKind::Operation,
        Expression::List { .. } => ExprKind::List,
        Expression::Prefix { .. } => ExprKind::Prefix,
        Expression::Index { .. } => ExprKind::Index,
        Expression::Comprehension { .. } => ExprKind::Comprehension,
    }
}

/// The dynamic kind of a value.
pub open spec fn value_kind(v: SpecValue) -> ValueKind {
    match v {
        SpecValue::Null => ValueKind::Null,
        SpecValue::Int { .. } => ValueKind::Int,
        SpecValue::Float { .. } => ValueKind::Float,
        SpecValue::Bool { .. } => ValueKind::Bool,
        SpecValue::Char { .. } => ValueKind::Char,
        SpecValue::Str { .. } => ValueKind::Str,
        SpecValue::List { .. } => ValueKind::List,
        SpecValue::Native { .. } => ValueKind::Function,
        SpecValue::UserDefFunction { .. } => ValueKind::Function,
    }
}

/// Binds parameter names to argument values, in order, over a frame.
pub open spec fn bind_params(
    env: Map<Seq<char>, SpecValue>,
    names: Seq<String>,
    vals: Seq<SpecValue>,
) -> Map<Seq<char>, SpecValue>
    decreases names.len(),
{
    if names.len() == 0 || vals.len() == 0 {
        env
    } else {
        bind_params(env, names.drop_last(), vals.drop_last()).insert(
            names.last()@,
            vals.last(),
        )
    }
}

/// Resolves a destructuring pattern against a value sequence into ordered
/// (target, value) pairs, before any assignment happens.
///
/// A trailing pattern marked pack captures the remaining values as a list
/// when the pattern is shorter than the value sequence; a spread pattern is
/// always rejected; a count mismatch without a pack is rejected. An empty
/// pattern against a non-empty value sequence is a count mismatch.
pub open spec fn destructure_pairs(items: Seq<ListItem>, vals: Seq<SpecValue>) -> Result<
    Seq<(Expression, SpecValue)>,
    EvalError,
> {
    if items.len() > vals.len() {
        Err(
            EvalError::DestructureArity {
                targets: items.len() as usize,
                values: vals.len() as usize,
            },
        )
    } else {
        destructure_from(items, vals, 0)
    }
}

/// The pairs resolved from position `i` on.
pub open spec fn destructure_from(items: Seq<ListItem>, vals: Seq<SpecValue>, i: int) -> Result<
    Seq<(Expression, SpecValue)>,
    EvalError,
>
    decreases vals.len() - i,
{
    if i >= vals.len() {
        Ok(Seq::empty())
    } else if i == items.len() - 1 && items.len() != vals.len() {
        if items[i].is_pack {
            Ok(seq![(items[i].expression, SpecValue::List { elems: vals.skip(i) })])
        } else {
            Err(
                EvalError::DestructureArity {
                    targets: items.len() as usize,
                    values: vals.len() as usize,
                },
            )
        }
    } else if i >= items.len() {
        Err(
            EvalError::DestructureArity {
                targets: items.len() as usize,
                values: vals.len() as usize,
            },
        )
    } else if items[i].is_spread {
        Err(EvalError::SpreadInAssignment)
    } else {
        match destructure_from(items, vals, i + 1) {
            Ok(rest) => Ok(seq![(items[i].expression, vals[i])] + rest),
            Err(e) => Err(e),
        }
    }
}

/// What evaluating an expression returns, and the state it leaves.
pub open spec fn expr_s(
    st: SpecState,
    e: Expression,
    imp: bool,
    mt: SpecModules,
    fuel: u64,
) -> (Result<SpecValue, EvalError>, SpecState)
    decreases fuel, 0int,
{
    if fuel == 0 {
        (Err(EvalError::FuelExhausted), st)
    } else {
        let f = (fuel - 1) as u64;
        match e {
            Expression::Int { v } => (Ok(SpecValue::Int { v }), st),
            Expression::Float { bits } => (Ok(SpecValue::Float { bits }), st),
            Expression::StringLit { s } => (Ok(SpecValue::Str { s }), st),
            Expression::Boolean { b } => (Ok(SpecValue::Bool { b }), st),
            Expression::Character { c } => (Ok(SpecValue::Char { c }), st),
            Expression::Identifier { name } => if st.env.contains_key(name@) {
                (Ok(st.env[name@]), st)
            } else {
                (Err(EvalError::UndefinedVariable { name }), st)
            },
            Expression::Call { function, arguments } => call_case_s(
                st,
                function,
                arguments@,
                imp,
                mt,
                f,
            ),
            Expression::Operation { lhs, operator, rhs } => {
                let (rl, st1) = expr_s(st, *lhs, imp, mt, f);
                match rl {
                    Err(err) => (Err(err), st1),
                    Ok(lv) => {
                        let (rr, st2) = expr_s(st1, *rhs, imp, mt, f);
                        match rr {
                            Err(err) => (Err(err), st2),
                            Ok(rv) => match apply_spec(operator, lv, rv) {
                                Err(err) => (Err(err), st2),
                                Ok(SpecValue::Null) => (Err(EvalError::InvalidOperands), st2),
                                Ok(v) => (Ok(v), st2),
                            },
                        }
                    },
                }
            },
            Expression::List { items } => list_case_s(st, items@, imp, mt, f),
            Expression::Prefix { name, operator, rhs } => if !st.env.contains_key(name@) {
                (Err(EvalError::UndefinedVariable { name }), st)
            } else {
                let lv = st.env[name@];
                let (rr, st1) = expr_s(st, *rhs, imp, mt, f);
                match rr {
                    Err(err) => (Err(err), st1),
                    Ok(rv) => match apply_spec(operator, lv, rv) {
                        Err(err) => (Err(err), st1),
                        Ok(SpecValue::Null) => (Err(EvalError::CannotOperate { name }), st1),
                        Ok(v) => (
                            Ok(v),
                            SpecState { env: st1.env.insert(name@, v), out: st1.out },
                        ),
                    },
                }
            },
            Expression::Index { name, idx_exp } => if !st.env.contains_key(name@) {
                (Err(EvalError::UndefinedVariable { name }), st)
            } else {
                let target = st.env[name@];
                // The index expression runs in a throwaway duplicate of the
                // frame: its frame mutations are discarded, its output stays.
                let (ri, st1) = expr_s(st, *idx_exp, imp, mt, f);
                let st2 = SpecState { env: st.env, out: st1.out };
                match ri {
                    Err(err) => (Err(err), st2),
                    Ok(iv) => match iv {
                        SpecValue::Int { v: idx } => match target {
                            SpecValue::List { elems } => match list_index(elems.len() as int, idx) {
                                Some(k) => (Ok(elems[k]), st2),
                                None => (Err(EvalError::IndexOutOfBounds { idx }), st2),
                            },
                            _ => (Err(EvalError::NotIndexable { kind: value_kind(target) }), st2),
                        },
                        _ => (Err(EvalError::IndexNotInt), st2),
                    },
                }
            },
            Expression::Comprehension { iterate_exp, var, control_exp } => comp_case_s(
                st,
                *iterate_exp,
                var,
                *control_exp,
                imp,
                mt,
                f,
            ),
        }
    }
}

/// Which element a (possibly negative) index selects in a list of length
/// `len`, under an exclusive bound on both ends: a non-negative index must
/// lie strictly below the length, and the magnitude of a negative index is
/// subtracted from the length and may reach back to the first element.
pub open spec fn list_index(len: int, idx: i32) -> Option<int> {
    if idx >= 0 {
        if idx < len {
            Some(idx as int)
        } else {
            None
        }
    } else {
        if -(idx as int) <= len {
            Some(len - -(idx as int))
        } else {
            None
        }
    }
}

/// The meaning of a call expression: the arguments are evaluated left to
/// right, eagerly; then the function name is resolved; then the callee runs.
pub open spec fn call_case_s(
    st: SpecState,
    function: String,
    arguments: Seq<Expression>,
    imp: bool,
    mt: SpecModules,
    fuel: u64,
) -> (Result<SpecValue, EvalError>, SpecState)
    decreases fuel, 1int,
{
    let (ra, st1) = exprs_s(st, arguments, 0, imp, mt, fuel);
    match ra {
        Err(err) => (Err(err), st1),
        Ok(vals) => if !st1.env.contains_key(function@) {
            (Err(EvalError::UndefinedVariable { name: function }), st1)
        } else {
            call_s(st1, function, st1.env[function@], vals, imp, mt, fuel)
        },
    }
}

/// The meaning of a list literal: the items in order, spreads flattened.
pub open spec fn list_case_s(
    st: SpecState,
    items: Seq<ListItem>,
    imp: bool,
    mt: SpecModules,
    fuel: u64,
) -> (Result<SpecValue, EvalError>, SpecState)
    decreases fuel, 1int,
{
    let (rv, st1) = list_items_s(st, items, 0, imp, mt, fuel);
    match rv {
        Err(err) => (Err(err), st1),
        Ok(elems) => (Ok(SpecValue::List { elems }), st1),
    }
}

/// The meaning of a comprehension: the source expression runs once in a
/// throwaway duplicate of the frame; a list source iterates its elements, a
/// string source its unicode scalars as characters; the results are
/// collected in traversal order.
pub open spec fn comp_case_s(
    st: SpecState,
    iterate_exp: Expression,
    var: String,
    control_exp: Expression,
    imp: bool,
    mt: SpecModules,
    fuel: u64,
) -> (Result<SpecValue, EvalError>, SpecState)
    decreases fuel, 1int,
{
    let (rc, st1) = expr_s(st, control_exp, imp, mt, fuel);
    match rc {
        Err(err) => (Err(err), SpecState { env: st.env, out: st1.out }),
        Ok(src) => {
            let items = match src {
                SpecValue::List { elems } => Some(elems),
                SpecValue::Str { s } => Some(crate::value::chars_of(s@)),
                _ => None,
            };
            match items {
                None => (
                    Err(EvalError::NotIterableValue { kind: value_kind(src) }),
                    SpecState { env: st.env, out: st1.out },
                ),
                Some(elems) => {
                    let (rv, stc) = comp_s(st1, var, elems, 0, iterate_exp, imp, mt, fuel);
                    let stf = SpecState { env: st.env, out: stc.out };
                    match rv {
                        Err(err) => (Err(err), stf),
                        Ok(vals) => (Ok(SpecValue::List { elems: vals }), stf),
                    }
                },
            }
        },
    }
}

/// What calling a resolved callee does. During import, a native function
/// called under the name `print` or `println` is suppressed and yields
/// `Null`; otherwise a native function appends an output event. A
/// user-defined function runs its body in a duplicate of the caller's
/// frame, and its return expression — if any — is evaluated against a
/// throwaway duplicate of the caller's own frame, not the frame that ran
/// the body.
pub open spec fn call_s(
    st: SpecState,
    function: String,
    callee: SpecValue,
    vals: Seq<SpecValue>,
    imp: bool,
    mt: SpecModules,
    fuel: u64,
) -> (Result<SpecValue, EvalError>, SpecState)
    decreases fuel, 0int,
{
    match callee {
        SpecValue::Native { which } => if imp && (function@ == "print"@ || function@
            == "println"@) {
            (Ok(SpecValue::Null), st)
        } else {
            (
                Ok(SpecValue::Null),
                SpecState {
                    env: st.env,
                    out: st.out.push(
                        SpecOutput { newline: which is Println, args: vals },
                    ),
                },
            )
        },
        SpecValue::UserDefFunction { def } => if vals.len() != def.params@.len() {
            (
                Err(
                    EvalError::ArityMismatch {
                        expected: def.params@.len() as usize,
                        got: vals.len() as usize,
                    },
                ),
                st,
            )
        } else if fuel == 0 {
            (Err(EvalError::FuelExhausted), st)
        } else {
            let f = (fuel - 1) as u64;
            let local = bind_params(st.env, def.params@, vals);
            let (rb, stb) = stmts_s(
                SpecState { env: local, out: st.out },
                def.body@,
                0,
                imp,
                mt,
                f,
            );
            match rb {
                Err(err) => (Err(err), SpecState { env: st.env, out: stb.out }),
                Ok(_) => match *def.ret {
                    None => (Ok(SpecValue::Null), SpecState { env: st.env, out: stb.out }),
                    Some(rexp) => {
                        let (rr, str_) = expr_s(
                            SpecState { env: st.env, out: stb.out },
                            rexp,
                            imp,
                            mt,
                            f,
                        );
                        (rr, SpecState { env: st.env, out: str_.out })
                    },
                },
            }
        },
        _ => (Err(EvalError::NotAFunction { name: function }), st),
    }
}

/// What evaluating an argument list from position `i` on returns: the
/// values in order, or the first failure.
pub open spec fn exprs_s(
    st: SpecState,
    es: Seq<Expression>,
    i: int,
    imp: bool,
    mt: SpecModules,
    fuel: u64,
) -> (Result<Seq<SpecValue>, EvalError>, SpecState)
    decreases fuel, 0int,
{
    if fuel == 0 {
        (Err(EvalError::FuelExhausted), st)
    } else if i >= es.len() {
        (Ok(Seq::empty()), st)
    } else {
        let f = (fuel - 1) as u64;
        let (rv, st1) = expr_s(st, es[i], imp, mt, f);
        match rv {
            Err(err) => (Err(err), st1),
            Ok(v) => {
                let (rr, st2) = exprs_s(st1, es, i + 1, imp, mt, f);
                match rr {
                    Err(err) => (Err(err), st2),
                    Ok(rest) => (Ok(seq![v] + rest), st2),
                }
            },
        }
    }
}

/// What evaluating the items of a list literal from position `i` on
/// returns; an item marked spread must evaluate to a list, whose elements
/// are flattened in place.
pub open spec fn list_items_s(
    st: SpecState,
    items: Seq<ListItem>,
    i: int,
    imp: bool,
    mt: SpecModules,
    fuel: u64,
) -> (Result<Seq<SpecValue>, EvalError>, SpecState)
    decreases fuel, 0int,
{
    if fuel == 0 {
        (Err(EvalError::FuelExhausted), st)
    } else if i >= items.len() {
        (Ok(Seq::empty()), st)
    } else {
        let f = (fuel - 1) as u64;
        let (rv, st1) = expr_s(st, items[i].expression, imp, mt, f);
        match rv {
            Err(err) => (Err(err), st1),
            Ok(v) => if !items[i].is_spread {
                let (rr, st2) = list_items_s(st1, items, i + 1, imp, mt, f);
                match rr {
                    Err(err) => (Err(err), st2),
                    Ok(rest) => (Ok(seq![v] + rest), st2),
                }
            } else {
                match v {
                    SpecValue::List { elems } => {
                        let (rr, st2) = list_items_s(st1, items, i + 1, imp, mt, f);
                        match rr {
                            Err(err) => (Err(err), st2),
                            Ok(rest) => (Ok(elems + rest), st2),
                        }
                    },
                    _ => (Err(EvalError::SpreadNonList), st1),
                }
            },
        }
    }
}

/// What the comprehension body yields for the source elements from
/// position `i` on. The loop variable is rebound in the running frame
/// before each element's result expression.
pub open spec fn comp_s(
    st: SpecState,
    var: String,
    items: Seq<SpecValue>,
    i: int,
    rexp: Expression,
    imp: bool,
    mt: SpecModules,
    fuel: u64,
) -> (Result<Seq<SpecValue>, EvalError>, SpecState)
    decreases fuel, 0int,
{
    if fuel == 0 {
        (Err(EvalError::FuelExhausted), st)
    } else if i >= items.len() {
        (Ok(Seq::empty()), st)
    } else {
        let f = (fuel - 1) as u64;
        let st0 = SpecState { env: st.env.insert(var@, items[i]), out: st.out };
        let (rv, st1) = expr_s(st0, rexp, imp, mt, f);
        match rv {
            Err(err) => (Err(err), st1),
            Ok(v) => {
                let (rr, st2) = comp_s(st1, var, items, i + 1, rexp, imp, mt, f);
                match rr {
                    Err(err) => (Err(err), st2),
                    Ok(rest) => (Ok(seq![v] + rest), st2),
                }
            },
        }
    }
}

/// What assigning an already evaluated value to a target shape does.
/// Assignment to the identifier `_` is a no-op; a list pattern
/// destructures; an index target replaces one element of a bound list and
/// rebinds the whole list; every other shape is rejected.
pub open spec fn assign_s(
    st: SpecState,
    lhs: Expression,
    rhs: SpecValue,
    imp: bool,
    mt: SpecModules,
    fuel: u64,
) -> (Result<(), EvalError>, SpecState)
    decreases fuel, 0int,
{
    if fuel == 0 {
        (Err(EvalError::FuelExhausted), st)
    } else {
        let f = (fuel - 1) as u64;
        match lhs {
            Expression::Identifier { name } => if name@ == "_"@ {
                (Ok(()), st)
            } else {
                (Ok(()), SpecState { env: st.env.insert(name@, rhs), out: st.out })
            },
            Expression::List { items } => match rhs {
                SpecValue::List { elems } => match destructure_pairs(items@, elems) {
                    Err(err) => (Err(err), st),
                    Ok(pairs) => assign_pairs_s(st, pairs, 0, imp, mt, f),
                },
                _ => (Err(EvalError::DestructureNonList), st),
            },
            Expression::Index { name, idx_exp } => if !st.env.contains_key(name@) {
                (Err(EvalError::UndefinedVariable { name }), st)
            } else {
                let target = st.env[name@];
                // The index expression runs in a throwaway duplicate of the
                // frame, as on the read path.
                let (ri, st1) = expr_s(st, *idx_exp, imp, mt, f);
                let st2 = SpecState { env: st.env, out: st1.out };
                match ri {
                    Err(err) => (Err(err), st2),
                    Ok(iv) => match target {
                        SpecValue::List { elems } => match iv {
                            SpecValue::Int { v: idx } => match list_index(elems.len() as int, idx) {
                                Some(k) => (
                                    Ok(()),
                                    SpecState {
                                        env: st.env.insert(
                                            name@,
                                            SpecValue::List { elems: elems.update(k, rhs) },
                                        ),
                                        out: st1.out,
                                    },
                                ),
                                None => (Err(EvalError::IndexOutOfBounds { idx }), st2),
                            },
                            _ => (Err(EvalError::IndexNotInt), st2),
                        },
                        _ => (Err(EvalError::NotIndexable { kind: value_kind(target) }), st2),
                    },
                }
            },
            _ => (Err(EvalError::InvalidAssignTarget { kind: expr_kind(lhs) }), st),
        }
    }
}

/// Sequentially assigns resolved destructuring pairs from position `i` on,
/// through the general assignment path, enabling nested patterns.
pub open spec fn assign_pairs_s(
    st: SpecState,
    pairs: Seq<(Expression, SpecValue)>,
    i: int,
    imp: bool,
    mt: SpecModules,
    fuel: u64,
) -> (Result<(), EvalError>, SpecState)
    decreases fuel, 0int,
{
    if fuel == 0 {
        (Err(EvalError::FuelExhausted), st)
    } else if i >= pairs.len() {
        (Ok(()), st)
    } else {
        let f = (fuel - 1) as u64;
        let (rv, st1) = assign_s(st, pairs[i].0, pairs[i].1, imp, mt, f);
        match rv {
            Err(err) => (Err(err), st1),
            Ok(_) => assign_pairs_s(st1, pairs, i + 1, imp, mt, f),
        }
    }
}

/// What executing one statement does to the state.
pub open spec fn stmt_s(
    st: SpecState,
    s: Statement,
    imp: bool,
    mt: SpecModules,
    fuel: u64,
) -> (Result<(), EvalError>, SpecState)
    decreases fuel, 0int,
{
    if fuel == 0 {
        (Err(EvalError::FuelExhausted), st)
    } else {
        let f = (fuel - 1) as u64;
        match s {
            Statement::Expression { expression } => {
                let (rv, st1) = expr_s(st, expression, imp, mt, f);
                match rv {
                    Err(err) => (Err(err), st1),
                    Ok(_) => (Ok(()), st1),
                }
            },
            Statement::Assignment { lhs, rhs } => {
                let (rv, st1) = expr_s(st, rhs, imp, mt, f);
                match rv {
                    Err(err) => (Err(err), st1),
                    Ok(v) => assign_s(st1, lhs, v, imp, mt, f),
                }
            },
            Statement::OperatorAssignment { name, operator, rhs } => if !st.env.contains_key(
                name@,
            ) {
                (Err(EvalError::UndefinedVariable { name }), st)
            } else {
                let lv = st.env[name@];
                let (rv, st1) = expr_s(st, rhs, imp, mt, f);
                match rv {
                    Err(err) => (Err(err), st1),
                    Ok(rhsv) => match apply_spec(operator, lv, rhsv) {
                        Err(err) => (Err(err), st1),
                        Ok(SpecValue::Null) => (Err(EvalError::CannotOperate { name }), st1),
                        Ok(v) => (
                            Ok(()),
                            SpecState { env: st1.env.insert(name@, v), out: st1.out },
                        ),
                    },
                }
            },
            Statement::If { condition, statements, elifs, else_statements } => {
                let (rc, st1) = expr_s(st, condition, imp, mt, f);
                match rc {
                    Err(err) => (Err(err), st1),
                    Ok(SpecValue::Bool { b: true }) => stmts_s(st1, statements@, 0, imp, mt, f),
                    Ok(SpecValue::Bool { b: false }) => ifchain_s(
                        st1,
                        elifs@,
                        0,
                        else_statements,
                        imp,
                        mt,
                        f,
                    ),
                    Ok(_) => (Err(EvalError::ConditionNotBool), st1),
                }
            },
            Statement::While { condition, statements } => {
                let (rc, st1) = expr_s(st, condition, imp, mt, f);
                match rc {
                    Err(err) => (Err(err), st1),
                    Ok(SpecValue::Bool { b: false }) => (Ok(()), st1),
                    Ok(SpecValue::Bool { b: true }) => {
                        let (rb, st2) = stmts_s(st1, statements@, 0, imp, mt, f);
                        match rb {
                            Err(err) => (Err(err), st2),
                            Ok(_) => stmt_s(st2, s, imp, mt, f),
                        }
                    },
                    Ok(_) => (Err(EvalError::ConditionNotBool), st1),
                }
            },
            Statement::For { loop_var, iterate_expression, statements } => {
                let k = expr_kind(iterate_expression);
                if !(k is List || k is Identifier || k is Call) {
                    (Err(EvalError::NotIterableExpr { kind: k }), st)
                } else {
                    let (rv, st1) = expr_s(st, iterate_expression, imp, mt, f);
                    match rv {
                        Err(err) => (Err(err), st1),
                        Ok(SpecValue::List { elems }) => for_s(
                            st1,
                            loop_var,
                            elems,
                            0,
                            statements@,
                            imp,
                            mt,
                            f,
                        ),
                        Ok(v) => (Err(EvalError::NotIterableValue { kind: value_kind(v) }), st1),
                    }
                }
            },
            Statement::FunctionDefinition { name, arguments, statements, return_expression } => if st.env.contains_key(
                name@,
            ) {
                (Err(EvalError::Redefinition { name: *name }), st)
            } else {
                (
                    Ok(()),
                    SpecState {
                        env: st.env.insert(
                            name@,
                            SpecValue::UserDefFunction {
                                def: FnDef {
                                    name: name,
                                    params: arguments,
                                    body: statements,
                                    ret: return_expression,
                                },
                            },
                        ),
                        out: st.out,
                    },
                )
            },
            Statement::Import { path } => if !mt.contains_key(path@) {
                (Err(EvalError::ModuleNotFound { path }), st)
            } else {
                match mt[path@] {
                    Program::Body { statements } => stmts_s(st, statements@, 0, true, mt, f),
                }
            },
        }
    }
}

/// Executes the elif branches of an `if` from position `i` on, falling
/// through to the else body when none of the remaining conditions holds.
pub open spec fn ifchain_s(
    st: SpecState,
    elifs: Seq<ElifBranch>,
    i: int,
    else_statements: Option<Vec<Statement>>,
    imp: bool,
    mt: SpecModules,
    fuel: u64,
) -> (Result<(), EvalError>, SpecState)
    decreases fuel, 0int,
{
    if fuel == 0 {
        (Err(EvalError::FuelExhausted), st)
    } else if i >= elifs.len() {
        let f = (fuel - 1) as u64;
        match else_statements {
            Some(ss) => stmts_s(st, ss@, 0, imp, mt, f),
            None => (Ok(()), st),
        }
    } else {
        let f = (fuel - 1) as u64;
        let (rc, st1) = expr_s(st, elifs[i].condition, imp, mt, f);
        match rc {
            Err(err) => (Err(err), st1),
            Ok(SpecValue::Bool { b: true }) => stmts_s(st1, elifs[i].statements@, 0, imp, mt, f),
            Ok(SpecValue::Bool { b: false }) => ifchain_s(st1, elifs, i + 1, else_statements, imp, mt, f),
            Ok(_) => (Err(EvalError::ConditionNotBool), st1),
        }
    }
}

/// Runs a `for` body once per element from position `i` on, rebinding the
/// loop variable in the enclosing frame before each pass.
pub open spec fn for_s(
    st: SpecState,
    var: String,
    items: Seq<SpecValue>,
    i: int,
    body: Seq<Statement>,
    imp: bool,
    mt: SpecModules,
    fuel: u64,
) -> (Result<(), EvalError>, SpecState)
    decreases fuel, 0int,
{
    if fuel == 0 {
        (Err(EvalError::FuelExhausted), st)
    } else if i >= items.len() {
        (Ok(()), st)
    } else {
        let f = (fuel - 1) as u64;
        let st0 = SpecState { env: st.env.insert(var@, items[i]), out: st.out };
        let (rb, st1) = stmts_s(st0, body, 0, imp, mt, f);
        match rb {
            Err(err) => (Err(err), st1),
            Ok(_) => for_s(st1, var, items, i + 1, body, imp, mt, f),
        }
    }
}

/// Executes a statement sequence from position `i` on; the first failure
/// aborts the remainder.
pub open spec fn stmts_s(
    st: SpecState,
    ss: Seq<Statement>,
    i: int,
    imp: bool,
    mt: SpecModules,
    fuel: u64,
) -> (Result<(), EvalError>, SpecState)
    decreases fuel, 0int,
{
    if fuel == 0 {
        (Err(EvalError::FuelExhausted), st)
    } else if i >= ss.len() {
        (Ok(()), st)
    } else {
        let f = (fuel - 1) as u64;
        let (rv, st1) = stmt_s(st, ss[i], imp, mt, f);
        match rv {
            Err(err) => (Err(err), st1),
            Ok(_) => stmts_s(st1, ss, i + 1, imp, mt, f),
        }
    }
}

/// What running a whole program does to the state.
pub open spec fn program_s(
    st: SpecState,
    p: Program,
    imp: bool,
    mt: SpecModules,
    fuel: u64,
) -> (Result<(), EvalError>, SpecState) {
    match p {
        Program::Body { statements } => stmts_s(st, statements@, 0, imp, mt, fuel),
    }
}

} // verus!
