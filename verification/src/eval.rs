//! The executable evaluator, proved against the specification interpreter.
//!
//! Every function mirrors the corresponding `sem` function: it returns the
//! result that function says and leaves the frame and the output buffer in
//! the state it says. The fuel argument bounds the depth of nested
//! evaluation and the number of loop iterations; a run that exhausts it
//! fails with `FuelExhausted`.

use crate::ast::{ElifBranch, Expression, ListItem, Program, Statement};
use crate::env::Env;
use crate::errors::{EvalError, ExprKind, ValueKind};
use crate::modules::ModuleTable;
use crate::ops::{operate, res_view};
use crate::sem::{
    assign_pairs_s, assign_s, bind_params, call_s, comp_s, destructure_from, destructure_pairs,
    expr_kind, expr_s, exprs_s, for_s, ifchain_s, list_items_s, program_s, stmt_s, stmts_s,
    value_kind, SpecState,
};
use crate::value::{clone_value, rc_clone, rc_get, vv, vvs, FnDef, OutputCall, SpecValue, Value};
use vstd::prelude::*;

verus! {

broadcast use vstd::std_specs::vec::group_vec_axioms, vstd::seq::group_seq_axioms;

/// The specification state denoted by a frame and an output buffer.
pub open spec fn st_of(env: Env, out: Vec<OutputCall>) -> SpecState {
    SpecState { env: env@, out: crate::value::ovs(out@) }
}

/// The view of a sequence-of-values result.
pub open spec fn resv_vals(r: Result<Vec<Value>, EvalError>) -> Result<Seq<SpecValue>, EvalError> {
    match r {
        Ok(v) => Ok(vvs(v@)),
        Err(e) => Err(e),
    }
}

proof fn lemma_vvs_push(s: Seq<Value>, v: Value)
    ensures
        vvs(s.push(v)) == vvs(s).push(vv(v)),
{
    assert(s.push(v).drop_last() =~= s);
    assert(s.push(v).last() == v);
}

proof fn lemma_ovs_push(s: Seq<OutputCall>, o: OutputCall)
    ensures
        crate::value::ovs(s.push(o)) == crate::value::ovs(s).push(o@),
{
    assert(crate::value::ovs(s.push(o)) =~= crate::value::ovs(s).push(o@));
}

/// The syntactic kind of an expression.
pub fn kind_of_expr(e: &Expression) -> (k: ExprKind)
    ensures
        k == expr_kind(*e),
{
    match e {
        Expression::Int { .. } => ExprKind::Int,
        Expression::Float { .. } => ExprKind::Float,
        Expression::StringLit { .. } => ExprKind::StringLit,
        Expression::Boolean { .. } => ExprKind::Boolean,
        Expression::Character { .. } => ExprKind::Character,
        Expression::Identifier { .. } => ExprKind::Identifier,
        Expression::Call { .. } => ExprKind::Call,
        Expression::Operation { .. } => ExprKind::Operation,
        Expression::List { .. } => ExprKind::List,
        Expression::Prefix { .. } => ExprKind::Prefix,
        Expression::Index { .. } => ExprKind::Index,
        Expression::Comprehension { .. } => ExprKind::Comprehension,
    }
}

/// The dynamic kind of a value.
pub fn kind_of_value(v: &Value) -> (k: ValueKind)
    ensures
        k == value_kind(vv(*v)),
{
    match v {
        Value::Null => ValueKind::Null,
        Value::Int { .. } => ValueKind::Int,
        Value::Float { .. } => ValueKind::Float,
        Value::Bool { .. } => ValueKind::Bool,
        Value::Char { .. } => ValueKind::Char,
        Value::Str { .. } => ValueKind::Str,
        Value::List { .. } => ValueKind::List,
        Value::Native { .. } => ValueKind::Function,
        Value::UserDefFunction { .. } => ValueKind::Function,
    }
}

/// Runs a program against a frame. The frame, the output buffer, the
/// module table and the import-suppression flag together form the whole
/// evaluation context; `fuel` bounds evaluation depth and loop iterations.
pub fn eval_program(
    env: &mut Env,
    out: &mut Vec<OutputCall>,
    modules: &ModuleTable,
    program: &Program,
    importing: bool,
    fuel: u64,
) -> (r: Result<(), EvalError>)
    requires
        old(env).wf(),
        modules.wf(),
    ensures
        final(env).wf(),
        ({
            let (rs, stf) = program_s(
                st_of(*old(env), *old(out)),
                *program,
                importing,
                modules@,
                fuel,
            );
            r == rs && st_of(*final(env), *final(out)) == stf
        }),
    decreases fuel, 0int,
{
    match program {
        Program::Body { statements } => eval_statements(env, out, modules, statements, importing, fuel),
    }
}

/// Executes a statement sequence; the first failure aborts the remainder
/// and leaves the mutations already applied in place.
#[verifier::loop_isolation(false)]
pub fn eval_statements(
    env: &mut Env,
    out: &mut Vec<OutputCall>,
    modules: &ModuleTable,
    statements: &Vec<Statement>,
    importing: bool,
    fuel: u64,
) -> (r: Result<(), EvalError>)
    requires
        old(env).wf(),
        modules.wf(),
    ensures
        final(env).wf(),
        ({
            let (rs, stf) = stmts_s(
                st_of(*old(env), *old(out)),
                statements@,
                0,
                importing,
                modules@,
                fuel,
            );
            r == rs && st_of(*final(env), *final(out)) == stf
        }),
    decreases fuel, 0int,
{
    let ghost st0 = st_of(*old(env), *old(out));
    let n = statements.len();
    let mut i: usize = 0;
    let mut f: u64 = fuel;
    loop
        invariant
            i <= n,
            n == statements@.len(),
            f <= fuel,
            env.wf(),
            stmts_s(st0, statements@, 0, importing, modules@, fuel) == stmts_s(
                st_of(*env, *out),
                statements@,
                i as int,
                importing,
                modules@,
                f,
            ),
        decreases f,
    {
        if f == 0 {
            return Err(EvalError::FuelExhausted);
        }
        if i == n {
            return Ok(());
        }
        match eval_statement(env, out, modules, &statements[i], importing, f - 1) {
            Err(e) => {
                return Err(e);
            },
            Ok(_) => {},
        }
        i = i + 1;
        f = f - 1;
    }
}

/// Executes one statement.
#[verifier::loop_isolation(false)]
pub fn eval_statement(
    env: &mut Env,
    out: &mut Vec<OutputCall>,
    modules: &ModuleTable,
    statement: &Statement,
    importing: bool,
    fuel: u64,
) -> (r: Result<(), EvalError>)
    requires
        old(env).wf(),
        modules.wf(),
    ensures
        final(env).wf(),
        ({
            let (rs, stf) = stmt_s(
                st_of(*old(env), *old(out)),
                *statement,
                importing,
                modules@,
                fuel,
            );
            r == rs && st_of(*final(env), *final(out)) == stf
        }),
    decreases fuel, 0int,
{
    if fuel == 0 {
        return Err(EvalError::FuelExhausted);
    }
    let f = fuel - 1;
    match statement {
        Statement::Expression { expression } => {
            match eval_expression(env, out, modules, expression, importing, f) {
                Err(e) => Err(e),
                Ok(_) => Ok(()),
            }
        },
        Statement::Assignment { lhs, rhs } => {
            match eval_expression(env, out, modules, rhs, importing, f) {
                Err(e) => Err(e),
                Ok(v) => assign(env, out, modules, lhs, v, importing, f),
            }
        },
        Statement::OperatorAssignment { name, operator, rhs } => {
            let lv = match env.lookup(name) {
                None => {
                    return Err(EvalError::UndefinedVariable { name: name.clone() });
                },
                Some(v) => clone_value(v),
            };
            match eval_expression(env, out, modules, rhs, importing, f) {
                Err(e) => Err(e),
                Ok(rhsv) => match operate(operator, &lv, &rhsv) {
                    Err(e) => Err(e),
                    Ok(v) => if matches!(v, Value::Null) {
                        Err(EvalError::CannotOperate { name: name.clone() })
                    } else {
                        env.insert(name.clone(), v);
                        Ok(())
                    },
                },
            }
        },
        Statement::If { condition, statements, elifs, else_statements } => {
            match eval_expression(env, out, modules, condition, importing, f) {
                Err(e) => Err(e),
                Ok(Value::Bool { b: true }) => eval_statements(
                    env,
                    out,
                    modules,
                    statements,
                    importing,
                    f,
                ),
                Ok(Value::Bool { b: false }) => {
                    let ghost st1 = st_of(*env, *out);
                    let n = elifs.len();
                    let mut i: usize = 0;
                    let mut g: u64 = f;
                    loop
                        invariant
                            i <= n,
                            n == elifs@.len(),
                            g <= f,
                            env.wf(),
                            ifchain_s(st1, elifs@, 0, *else_statements, importing, modules@, f)
                                == ifchain_s(
                                st_of(*env, *out),
                                elifs@,
                                i as int,
                                *else_statements,
                                importing,
                                modules@,
                                g,
                            ),
                        decreases g,
                    {
                        if g == 0 {
                            return Err(EvalError::FuelExhausted);
                        }
                        if i == n {
                            match else_statements {
                                Some(ss) => {
                                    return eval_statements(
                                        env,
                                        out,
                                        modules,
                                        ss,
                                        importing,
                                        g - 1,
                                    );
                                },
                                None => {
                                    return Ok(());
                                },
                            }
                        }
                        match eval_expression(
                            env,
                            out,
                            modules,
                            &elifs[i].condition,
                            importing,
                            g - 1,
                        ) {
                            Err(e) => {
                                return Err(e);
                            },
                            Ok(Value::Bool { b: true }) => {
                                return eval_statements(
                                    env,
                                    out,
                                    modules,
                                    &elifs[i].statements,
                                    importing,
                                    g - 1,
                                );
                            },
                            Ok(Value::Bool { b: false }) => {},
                            Ok(_) => {
                                return Err(EvalError::ConditionNotBool);
                            },
                        }
                        i = i + 1;
                        g = g - 1;
                    }
                },
                Ok(_) => Err(EvalError::ConditionNotBool),
            }
        },
        Statement::While { condition, statements } => {
            let mut g: u64 = fuel;
            loop
                invariant
                    g <= fuel,
                    env.wf(),
                    stmt_s(st_of(*old(env), *old(out)), *statement, importing, modules@, fuel)
                        == stmt_s(st_of(*env, *out), *statement, importing, modules@, g),
                decreases g,
            {
                if g == 0 {
                    return Err(EvalError::FuelExhausted);
                }
                match eval_expression(env, out, modules, condition, importing, g - 1) {
                    Err(e) => {
                        return Err(e);
                    },
                    Ok(Value::Bool { b: false }) => {
                        return Ok(());
                    },
                    Ok(Value::Bool { b: true }) => {
                        match eval_statements(env, out, modules, statements, importing, g - 1) {
                            Err(e) => {
                                return Err(e);
                            },
                            Ok(_) => {},
                        }
                    },
                    Ok(_) => {
                        return Err(EvalError::ConditionNotBool);
                    },
                }
                g = g - 1;
            }
        },
        Statement::For { loop_var, iterate_expression, statements } => {
            let k = kind_of_expr(iterate_expression);
            if !(matches!(k, ExprKind::List) || matches!(k, ExprKind::Identifier) || matches!(
                k,
                ExprKind::Call,
            )) {
                return Err(EvalError::NotIterableExpr { kind: k });
            }
            match eval_expression(env, out, modules, iterate_expression, importing, f) {
                Err(e) => Err(e),
                Ok(Value::List { elems }) => {
                    let ghost st1 = st_of(*env, *out);
                    let ghost items = vvs(elems@);
                    proof {
                        crate::value::lemma_vvs(elems@);
                    }
                    let n = elems.len();
                    let mut i: usize = 0;
                    let mut g: u64 = f;
                    loop
                        invariant
                            i <= n,
                            n == elems@.len(),
                            items == vvs(elems@),
                            items.len() == n,
                            g <= f,
                            env.wf(),
                            for_s(st1, *loop_var, items, 0, statements@, importing, modules@, f)
                                == for_s(
                                st_of(*env, *out),
                                *loop_var,
                                items,
                                i as int,
                                statements@,
                                importing,
                                modules@,
                                g,
                            ),
                        decreases g,
                    {
                        if g == 0 {
                            return Err(EvalError::FuelExhausted);
                        }
                        if i == n {
                            return Ok(());
                        }
                        proof {
                            crate::value::lemma_vvs(elems@);
                        }
                        env.insert(loop_var.clone(), clone_value(&elems[i]));
                        match eval_statements(env, out, modules, statements, importing, g - 1) {
                            Err(e) => {
                                return Err(e);
                            },
                            Ok(_) => {},
                        }
                        i = i + 1;
                        g = g - 1;
                    }
                },
                Ok(v) => Err(EvalError::NotIterableValue { kind: kind_of_value(&v) }),
            }
        },
        Statement::FunctionDefinition { name, arguments, statements, return_expression } => {
            if env.lookup(rc_get(name)).is_some() {
                return Err(EvalError::Redefinition { name: rc_get(name).clone() });
            }
            let def = FnDef {
                name: rc_clone(name),
                params: rc_clone(arguments),
                body: rc_clone(statements),
                ret: rc_clone(return_expression),
            };
            env.insert(rc_get(name).clone(), Value::UserDefFunction { def });
            Ok(())
        },
        Statement::Import { path } => {
            match modules.lookup(path) {
                None => Err(EvalError::ModuleNotFound { path: path.clone() }),
                Some(prog) => match prog {
                    Program::Body { statements } => eval_statements(
                        env,
                        out,
                        modules,
                        statements,
                        true,
                        f,
                    ),
                },
            }
        },
    }
}

/// Evaluates an expression sequence left to right, eagerly; the first
/// failure aborts the remainder.
#[verifier::loop_isolation(false)]
pub fn eval_expressions(
    env: &mut Env,
    out: &mut Vec<OutputCall>,
    modules: &ModuleTable,
    expressions: &Vec<Expression>,
    importing: bool,
    fuel: u64,
) -> (r: Result<Vec<Value>, EvalError>)
    requires
        old(env).wf(),
        modules.wf(),
    ensures
        final(env).wf(),
        ({
            let (rs, stf) = exprs_s(
                st_of(*old(env), *old(out)),
                expressions@,
                0,
                importing,
                modules@,
                fuel,
            );
            resv_vals(r) == rs && st_of(*final(env), *final(out)) == stf
        }),
    decreases fuel, 0int,
{
    let ghost st0 = st_of(*old(env), *old(out));
    let n = expressions.len();
    let mut acc: Vec<Value> = Vec::new();
    let mut i: usize = 0;
    let mut f: u64 = fuel;
    loop
        invariant
            i <= n,
            n == expressions@.len(),
            f <= fuel,
            env.wf(),
            acc@.len() == i,
            ({
                let (rr, stf) = exprs_s(
                    st_of(*env, *out),
                    expressions@,
                    i as int,
                    importing,
                    modules@,
                    f,
                );
                let (rfull, stfull) = exprs_s(st0, expressions@, 0, importing, modules@, fuel);
                stfull == stf && rfull == (match rr {
                    Ok(rest) => Ok(vvs(acc@) + rest),
                    Err(e) => Err(e),
                })
            }),
        decreases f,
    {
        if f == 0 {
            return Err(EvalError::FuelExhausted);
        }
        if i == n {
            proof {
                assert(vvs(acc@) + Seq::<SpecValue>::empty() =~= vvs(acc@));
            }
            return Ok(acc);
        }
        let ghost acc0 = acc@;
        match eval_expression(env, out, modules, &expressions[i], importing, f - 1) {
            Err(e) => {
                return Err(e);
            },
            Ok(v) => {
                proof {
                    lemma_vvs_push(acc@, v);
                }
                acc.push(v);
            },
        }
        i = i + 1;
        f = f - 1;
        proof {
            let (rr, stf) = exprs_s(
                st_of(*env, *out),
                expressions@,
                i as int,
                importing,
                modules@,
                f,
            );
            if rr is Ok {
                assert(vvs(acc0) + (seq![vvs(acc@).last()] + rr->Ok_0) =~= vvs(acc@) + rr->Ok_0);
            }
        }
    }
}

/// Evaluates one expression.
#[verifier::loop_isolation(false)]
#[verifier::rlimit(60)]
pub fn eval_expression(
    env: &mut Env,
    out: &mut Vec<OutputCall>,
    modules: &ModuleTable,
    expression: &Expression,
    importing: bool,
    fuel: u64,
) -> (r: Result<Value, EvalError>)
    requires
        old(env).wf(),
        modules.wf(),
    ensures
        final(env).wf(),
        ({
            let (rs, stf) = expr_s(
                st_of(*old(env), *old(out)),
                *expression,
                importing,
                modules@,
                fuel,
            );
            res_view(r) == rs && st_of(*final(env), *final(out)) == stf
        }),
    decreases fuel, 0int,
{
    if fuel == 0 {
        return Err(EvalError::FuelExhausted);
    }
    let f = fuel - 1;
    match expression {
        Expression::Int { v } => Ok(Value::Int { v: *v }),
        Expression::Float { bits } => Ok(Value::Float { bits: *bits }),
        Expression::StringLit { s } => Ok(Value::Str { s: s.clone() }),
        Expression::Boolean { b } => Ok(Value::Bool { b: *b }),
        Expression::Character { c } => Ok(Value::Char { c: *c }),
        Expression::Identifier { name } => match env.lookup(name) {
            Some(v) => Ok(clone_value(v)),
            None => Err(EvalError::UndefinedVariable { name: name.clone() }),
        },
        Expression::Call { function, arguments } => eval_call(
            env,
            out,
            modules,
            function,
            arguments,
            importing,
            f,
        ),
        Expression::Operation { lhs, operator, rhs } => {
            let lv = match eval_expression(env, out, modules, lhs, importing, f) {
                Err(e) => {
                    return Err(e);
                },
                Ok(v) => v,
            };
            let rv = match eval_expression(env, out, modules, rhs, importing, f) {
                Err(e) => {
                    return Err(e);
                },
                Ok(v) => v,
            };
            match operate(operator, &lv, &rv) {
                Err(e) => Err(e),
                Ok(v) => if matches!(v, Value::Null) {
                    Err(EvalError::InvalidOperands)
                } else {
                    Ok(v)
                },
            }
        },
        Expression::List { items } => eval_list_literal(env, out, modules, items, importing, f),
        Expression::Prefix { name, operator, rhs } => {
            let lv = match env.lookup(name) {
                None => {
                    return Err(EvalError::UndefinedVariable { name: name.clone() });
                },
                Some(v) => clone_value(v),
            };
            let rv = match eval_expression(env, out, modules, rhs, importing, f) {
                Err(e) => {
                    return Err(e);
                },
                Ok(v) => v,
            };
            match operate(operator, &lv, &rv) {
                Err(e) => Err(e),
                Ok(v) => if matches!(v, Value::Null) {
                    Err(EvalError::CannotOperate { name: name.clone() })
                } else {
                    env.insert(name.clone(), clone_value(&v));
                    Ok(v)
                },
            }
        },
        Expression::Index { name, idx_exp } => {
            let target = match env.lookup(name) {
                None => {
                    return Err(EvalError::UndefinedVariable { name: name.clone() });
                },
                Some(v) => clone_value(v),
            };
            let mut dup = env.duplicate();
            let iv = match eval_expression(&mut dup, out, modules, idx_exp, importing, f) {
                Err(e) => {
                    return Err(e);
                },
                Ok(v) => v,
            };
            let idx = match iv {
                Value::Int { v } => v,
                _ => {
                    return Err(EvalError::IndexNotInt);
                },
            };
            match target {
                Value::List { elems } => {
                    proof {
                        crate::value::lemma_vvs(elems@);
                    }
                    if idx >= 0 {
                        if (idx as usize) < elems.len() {
                            Ok(clone_value(&elems[idx as usize]))
                        } else {
                            Err(EvalError::IndexOutOfBounds { idx })
                        }
                    } else {
                        let m = (-(idx as i64)) as u64;
                        if m <= elems.len() as u64 {
                            let k = elems.len() - (m as usize);
                            Ok(clone_value(&elems[k]))
                        } else {
                            Err(EvalError::IndexOutOfBounds { idx })
                        }
                    }
                },
                _ => Err(EvalError::NotIndexable { kind: kind_of_value(&target) }),
            }
        },
        Expression::Comprehension { iterate_exp, var, control_exp } => eval_comprehension(
            env,
            out,
            modules,
            iterate_exp,
            var,
            control_exp,
            importing,
            f,
        ),
    }
}


/// Evaluates a call expression: arguments left to right, then the callee.
#[verifier::loop_isolation(false)]
fn eval_call(
    env: &mut Env,
    out: &mut Vec<OutputCall>,
    modules: &ModuleTable,
    function: &String,
    arguments: &Vec<Expression>,
    importing: bool,
    fuel: u64,
) -> (r: Result<Value, EvalError>)
    requires
        old(env).wf(),
        modules.wf(),
    ensures
        final(env).wf(),
        ({
            let (rs, stf) = crate::sem::call_case_s(
                st_of(*old(env), *old(out)),
                *function,
                arguments@,
                importing,
                modules@,
                fuel,
            );
            res_view(r) == rs && st_of(*final(env), *final(out)) == stf
        }),
    decreases fuel, 1int,
{
    let f = fuel;
    let vals = match eval_expressions(env, out, modules, arguments, importing, f) {
        Err(e) => {
            return Err(e);
        },
        Ok(vs) => vs,
    };
    proof {
        crate::value::lemma_vvs(vals@);
    }
    let callee = match env.lookup(function) {
        None => {
            return Err(EvalError::UndefinedVariable { name: function.clone() });
        },
        Some(v) => clone_value(v),
    };
    let ghost st00 = st_of(*old(env), *old(out));
    let ghost st1g = st_of(*env, *out);
    match &callee {
        Value::Native { which } => {
            if importing && (*function == "print".to_owned() || *function
                == "println".to_owned()) {
                proof {
                    assert(crate::sem::call_case_s(
                        st00,
                        *function,
                        arguments@,
                        importing,
                        modules@,
                        fuel,
                    ) == crate::sem::call_s(
                        st1g,
                        *function,
                        vv(callee),
                        vvs(vals@),
                        importing,
                        modules@,
                        fuel,
                    ));
                }
                return Ok(Value::Null);
            }
            let event = OutputCall {
                newline: matches!(*which, crate::value::Builtin::Println),
                args: vals,
            };
            proof {
                lemma_ovs_push(out@, event);
            }
            out.push(event);
            Ok(Value::Null)
        },
        Value::UserDefFunction { def } => {
            proof {
                assert(vv(callee) == (SpecValue::UserDefFunction { def: *def }));
                assert(crate::sem::call_case_s(
                    st00,
                    *function,
                    arguments@,
                    importing,
                    modules@,
                    fuel,
                ) == crate::sem::call_s(
                    st1g,
                    *function,
                    vv(callee),
                    vvs(vals@),
                    importing,
                    modules@,
                    fuel,
                ));
            }
            let expected = rc_get(&def.params).len();
            let got = vals.len();
            if got != expected {
                return Err(EvalError::ArityMismatch { expected, got });
            }
            if f == 0 {
                return Err(EvalError::FuelExhausted);
            }
            let g = f - 1;
            let mut local = env.duplicate();
            let ghost base = local@;
            let np = expected;
            let mut j: usize = 0;
            while j < np
                invariant
                    j <= np,
                    np == def.params@.len(),
                    np == vals@.len(),
                    local.wf(),
                    local@ == bind_params(
                        base,
                        def.params@.take(j as int),
                        vvs(vals@).take(j as int),
                    ),
                decreases np - j,
            {
                proof {
                    crate::value::lemma_vvs(vals@);
                    let names1 = def.params@.take(j + 1);
                    let vals1 = vvs(vals@).take(j + 1);
                    assert(names1.drop_last() =~= def.params@.take(j as int));
                    assert(vals1.drop_last() =~= vvs(vals@).take(j as int));
                    assert(names1.last() == def.params@[j as int]);
                    assert(vals1.last() == vvs(vals@)[j as int]);
                }
                local.insert(rc_get(&def.params)[j].clone(), clone_value(&vals[j]));
                j = j + 1;
            }
            proof {
                crate::value::lemma_vvs(vals@);
                assert(def.params@.take(np as int) =~= def.params@);
                assert(vvs(vals@).take(np as int) =~= vvs(vals@));
            }
            match eval_statements(&mut local, out, modules, rc_get(&def.body), importing, g) {
                Err(e) => {
                    return Err(e);
                },
                Ok(_) => {},
            }
            match rc_get(&def.ret) {
                None => Ok(Value::Null),
                Some(rexp) => {
                    let mut dup = env.duplicate();
                    eval_expression(&mut dup, out, modules, rexp, importing, g)
                },
            }
        },
        _ => Err(EvalError::NotAFunction { name: function.clone() }),
    }

}

/// Evaluates the items of a list literal, flattening spread items.
#[verifier::loop_isolation(false)]
fn eval_list_literal(
    env: &mut Env,
    out: &mut Vec<OutputCall>,
    modules: &ModuleTable,
    items: &Vec<ListItem>,
    importing: bool,
    fuel: u64,
) -> (r: Result<Value, EvalError>)
    requires
        old(env).wf(),
        modules.wf(),
    ensures
        final(env).wf(),
        ({
            let (rs, stf) = crate::sem::list_case_s(
                st_of(*old(env), *old(out)),
                items@,
                importing,
                modules@,
                fuel,
            );
            res_view(r) == rs && st_of(*final(env), *final(out)) == stf
        }),
    decreases fuel, 1int,
{
    let f = fuel;
    let ghost st0 = st_of(*old(env), *old(out));
    let n = items.len();
    let mut acc: Vec<Value> = Vec::new();
    let mut i: usize = 0;
    let mut g: u64 = f;
    loop
        invariant
            i <= n,
            n == items@.len(),
            g <= f,
            env.wf(),
            ({
                let (rr, stf) = list_items_s(
                    st_of(*env, *out),
                    items@,
                    i as int,
                    importing,
                    modules@,
                    g,
                );
                let (rfull, stfull) = list_items_s(st0, items@, 0, importing, modules@, f);
                stfull == stf && rfull == (match rr {
                    Ok(rest) => Ok(vvs(acc@) + rest),
                    Err(e) => Err(e),
                })
            }),
        decreases g,
    {
        if g == 0 {
            return Err(EvalError::FuelExhausted);
        }
        if i == n {
            proof {
                assert(vvs(acc@) + Seq::<SpecValue>::empty() =~= vvs(acc@));
            }
            return Ok(Value::List { elems: acc });
        }
        let ghost acc0 = acc@;
        let ghost mut delta: Seq<SpecValue> = Seq::empty();
        let v = match eval_expression(env, out, modules, &items[i].expression, importing, g - 1) {
            Err(e) => {
                return Err(e);
            },
            Ok(v) => v,
        };
        if !items[i].is_spread {
            proof {
                lemma_vvs_push(acc@, v);
                delta = seq![vv(v)];
            }
            acc.push(v);
            proof {
                assert(vvs(acc@) =~= vvs(acc0) + delta);
            }
        } else {
            match v {
                Value::List { elems } => {
                    proof {
                        delta = match vv(Value::List { elems: elems }) {
                            SpecValue::List { elems: es } => es,
                            _ => Seq::empty(),
                        };
                        crate::value::lemma_vvs(elems@);
                    }
                    let m = elems.len();
                    let mut k: usize = 0;
                    while k < m
                        invariant
                            k <= m,
                            m == elems@.len(),
                            delta == vvs(elems@),
                            delta.len() == m,
                            acc@.len() == acc0.len() + k,
                            vvs(acc@) =~= vvs(acc0) + vvs(elems@).take(k as int),
                        decreases m - k,
                    {
                        proof {
                            crate::value::lemma_vvs(elems@);
                        }
                        let cv = clone_value(&elems[k]);
                        proof {
                            lemma_vvs_push(acc@, cv);
                        }
                        let ghost acck = acc@;
                        acc.push(cv);
                        proof {
                            assert(vvs(acc@) =~= vvs(acck).push(vv(elems@[k as int])));
                            assert(vvs(acck).push(vv(elems@[k as int])) =~= vvs(acc0)
                                + vvs(elems@).take(k + 1));
                        }
                        k = k + 1;
                    }
                    proof {
                        assert(vvs(elems@).take(m as int) =~= vvs(elems@));
                        assert(vvs(acc@) =~= vvs(acc0) + delta);
                    }
                },
                _ => {
                    return Err(EvalError::SpreadNonList);
                },
            }
        }
        i = i + 1;
        g = g - 1;
        proof {
            let (rr, stf) = list_items_s(
                st_of(*env, *out),
                items@,
                i as int,
                importing,
                modules@,
                g,
            );
            if rr is Ok {
                assert(vvs(acc0) + (delta + rr->Ok_0) =~= vvs(acc@) + rr->Ok_0);
            }
        }
    }

}

/// Evaluates a comprehension in a throwaway duplicate of the frame.
#[verifier::loop_isolation(false)]
fn eval_comprehension(
    env: &mut Env,
    out: &mut Vec<OutputCall>,
    modules: &ModuleTable,
    iterate_exp: &Expression,
    var: &String,
    control_exp: &Expression,
    importing: bool,
    fuel: u64,
) -> (r: Result<Value, EvalError>)
    requires
        old(env).wf(),
        modules.wf(),
    ensures
        final(env).wf(),
        ({
            let (rs, stf) = crate::sem::comp_case_s(
                st_of(*old(env), *old(out)),
                *iterate_exp,
                *var,
                *control_exp,
                importing,
                modules@,
                fuel,
            );
            res_view(r) == rs && st_of(*final(env), *final(out)) == stf
        }),
    decreases fuel, 1int,
{
    let f = fuel;
    let mut local = env.duplicate();
    let src = match eval_expression(&mut local, out, modules, control_exp, importing, f) {
        Err(e) => {
            return Err(e);
        },
        Ok(v) => v,
    };
    let ghost srcv = vv(src);
    let ghost mut sitems: Seq<SpecValue> = Seq::empty();
    let items: Vec<Value> = match src {
        Value::List { elems } => {
            proof {
                sitems = vvs(elems@);
                assert(srcv == (SpecValue::List { elems: sitems }));
            }
            elems
        },
        Value::Str { s } => {
            let mut cs: Vec<Value> = Vec::new();
            let len = s.as_str().unicode_len();
            let mut k: usize = 0;
            while k < len
                invariant
                    k <= len,
                    len == s@.len(),
                    cs@.len() == k,
                    forall|j: int|
                        0 <= j < k ==> vvs(cs@)[j] == (SpecValue::Char { c: s@[j] }),
                decreases len - k,
            {
                let c = s.as_str().get_char(k);
                proof {
                    lemma_vvs_push(cs@, Value::Char { c });
                    crate::value::lemma_vvs(cs@);
                }
                cs.push(Value::Char { c });
                proof {
                    crate::value::lemma_vvs(cs@);
                }
                k = k + 1;
            }
            proof {
                assert(srcv == (SpecValue::Str { s: s }));
                crate::value::lemma_vvs(cs@);
                sitems = crate::value::chars_of(s@);
                crate::value::lemma_chars_of(s@);
                assert(vvs(cs@).len() == s@.len());
                assert forall|j: int| 0 <= j < s@.len() implies vvs(cs@)[j] == sitems[j] by {
                    assert(vvs(cs@)[j] == (SpecValue::Char { c: s@[j] }));
                }
                assert(vvs(cs@) =~= sitems);
            }
            cs
        },
        _ => {
            return Err(EvalError::NotIterableValue { kind: kind_of_value(&src) });
        },
    };
    proof {
        crate::value::lemma_vvs(items@);
        assert(vvs(items@) =~= sitems);
        assert(sitems == (match srcv {
            SpecValue::List { elems } => elems,
            SpecValue::Str { s } => crate::value::chars_of(s@),
            _ => Seq::empty(),
        }));
    }
    let ghost st1 = st_of(local, *out);
    let n = items.len();
    let mut acc: Vec<Value> = Vec::new();
    let mut i: usize = 0;
    let mut g: u64 = f;
    loop
        invariant
            i <= n,
            n == items@.len(),
            sitems.len() == n,
            sitems == vvs(items@),
            g <= f,
            local.wf(),
            ({
                let (rr, stf) = comp_s(
                    st_of(local, *out),
                    *var,
                    sitems,
                    i as int,
                    (*iterate_exp),
                    importing,
                    modules@,
                    g,
                );
                let (rfull, stfull) = comp_s(
                    st1,
                    *var,
                    sitems,
                    0,
                    (*iterate_exp),
                    importing,
                    modules@,
                    f,
                );
                stfull == stf && rfull == (match rr {
                    Ok(rest) => Ok(vvs(acc@) + rest),
                    Err(e) => Err(e),
                })
            }),
        decreases g,
    {
        if g == 0 {
            return Err(EvalError::FuelExhausted);
        }
        if i == n {
            proof {
                assert(vvs(acc@) + Seq::<SpecValue>::empty() =~= vvs(acc@));
            }
            return Ok(Value::List { elems: acc });
        }
        proof {
            crate::value::lemma_vvs(items@);
        }
        local.insert(var.clone(), clone_value(&items[i]));
        let ghost acc0 = acc@;
        match eval_expression(&mut local, out, modules, iterate_exp, importing, g - 1) {
            Err(e) => {
                return Err(e);
            },
            Ok(v) => {
                proof {
                    lemma_vvs_push(acc@, v);
                }
                acc.push(v);
            },
        }
        i = i + 1;
        g = g - 1;
        proof {
            let (rr, stf) = comp_s(
                st_of(local, *out),
                *var,
                sitems,
                i as int,
                (*iterate_exp),
                importing,
                modules@,
                g,
            );
            if rr is Ok {
                assert(vvs(acc0).push(vv(acc@.last())) + rr->Ok_0 =~= vvs(acc0) + (seq![
                    vv(acc@.last()),
                ] + rr->Ok_0));
            }
        }
    }
}

/// Assigns an already evaluated value to a target shape, dispatching on
/// that shape.
pub fn assign(
    env: &mut Env,
    out: &mut Vec<OutputCall>,
    modules: &ModuleTable,
    lhs: &Expression,
    rhs: Value,
    importing: bool,
    fuel: u64,
) -> (r: Result<(), EvalError>)
    requires
        old(env).wf(),
        modules.wf(),
    ensures
        final(env).wf(),
        ({
            let (rs, stf) = assign_s(
                st_of(*old(env), *old(out)),
                *lhs,
                vv(rhs),
                importing,
                modules@,
                fuel,
            );
            r == rs && st_of(*final(env), *final(out)) == stf
        }),
    decreases fuel, 0int,
{
    if fuel == 0 {
        return Err(EvalError::FuelExhausted);
    }
    let f = fuel - 1;
    match lhs {
        Expression::Identifier { name } => {
            if *name == "_".to_owned() {
                return Ok(());
            }
            env.insert(name.clone(), rhs);
            Ok(())
        },
        Expression::List { items } => match rhs {
            Value::List { elems } => assign_list(env, out, modules, items, elems, importing, f),
            _ => Err(EvalError::DestructureNonList),
        },
        Expression::Index { name, idx_exp } => {
            let target = match env.lookup(name) {
                None => {
                    return Err(EvalError::UndefinedVariable { name: name.clone() });
                },
                Some(v) => clone_value(v),
            };
            let mut dup = env.duplicate();
            let iv = match eval_expression(&mut dup, out, modules, idx_exp, importing, f) {
                Err(e) => {
                    return Err(e);
                },
                Ok(v) => v,
            };
            match target {
                Value::List { mut elems } => {
                    let idx = match iv {
                        Value::Int { v } => v,
                        _ => {
                            return Err(EvalError::IndexNotInt);
                        },
                    };
                    proof {
                        crate::value::lemma_vvs(elems@);
                    }
                    let k: usize = if idx >= 0 {
                        if (idx as usize) < elems.len() {
                            idx as usize
                        } else {
                            return Err(EvalError::IndexOutOfBounds { idx });
                        }
                    } else {
                        let m = (-(idx as i64)) as u64;
                        if m <= elems.len() as u64 {
                            elems.len() - (m as usize)
                        } else {
                            return Err(EvalError::IndexOutOfBounds { idx });
                        }
                    };
                    let ghost elems0 = elems@;
                    elems.set(k, rhs);
                    proof {
                        crate::value::lemma_vvs(elems@);
                        crate::value::lemma_vvs(elems0);
                        assert(vvs(elems@) =~= vvs(elems0).update(k as int, vv(rhs)));
                    }
                    env.insert(name.clone(), Value::List { elems });
                    Ok(())
                },
                _ => Err(EvalError::NotIndexable { kind: kind_of_value(&target) }),
            }
        },
        _ => Err(EvalError::InvalidAssignTarget { kind: kind_of_expr(lhs) }),
    }
}

/// Destructures a value sequence into a list pattern: resolves the pattern
/// against the values in full — so a malformed pattern fails before any
/// binding happens — then assigns each resolved pair through the general
/// assignment path.
#[verifier::loop_isolation(false)]
pub fn assign_list(
    env: &mut Env,
    out: &mut Vec<OutputCall>,
    modules: &ModuleTable,
    lhs: &Vec<ListItem>,
    rhs: Vec<Value>,
    importing: bool,
    fuel: u64,
) -> (r: Result<(), EvalError>)
    requires
        old(env).wf(),
        modules.wf(),
    ensures
        final(env).wf(),
        ({
            let st0 = st_of(*old(env), *old(out));
            match destructure_pairs(lhs@, vvs(rhs@)) {
                Err(e) => r == Err::<(), EvalError>(e) && st_of(*final(env), *final(out)) == st0,
                Ok(pairs) => ({
                    let (rs, stf) = assign_pairs_s(st0, pairs, 0, importing, modules@, fuel);
                    r == rs && st_of(*final(env), *final(out)) == stf
                }),
            }
        }),
    decreases fuel, 0int,
{
    proof {
        crate::value::lemma_vvs(rhs@);
    }
    let nl = lhs.len();
    let nv = rhs.len();
    if nl > nv {
        return Err(
            EvalError::DestructureArity { targets: nl, values: nv },
        );
    }
    // Phase one: resolve the whole pattern, mutating nothing.
    let ghost vals = vvs(rhs@);
    let packed = nl != nv;
    let stop: usize = if packed {
        if nl == 0 {
            return Err(EvalError::DestructureArity { targets: nl, values: nv });
        }
        nl - 1
    } else {
        nv
    };
    let mut i: usize = 0;
    while i < stop
        invariant
            i <= stop,
            nl <= nv,
            nl == lhs@.len(),
            nv == rhs@.len(),
            vals.len() == nv,
            packed == (nl != nv),
            stop == if packed {
                nl - 1
            } else {
                nv as int
            },
            destructure_from(lhs@, vals, 0) == (match destructure_from(lhs@, vals, i as int) {
                Ok(rest) => Ok(Seq::new(i as nat, |j: int| (lhs@[j].expression, vals[j])) + rest),
                Err(e) => Err::<Seq<(Expression, SpecValue)>, EvalError>(e),
            }),
        decreases stop - i,
    {
        if lhs[i].is_spread {
            return Err(EvalError::SpreadInAssignment);
        }
        proof {
            let p1 = Seq::new((i + 1) as nat, |j: int| (lhs@[j].expression, vals[j]));
            let p0 = Seq::new(i as nat, |j: int| (lhs@[j].expression, vals[j]));
            assert(p1.drop_last() =~= p0);
            if let Ok(rest) = destructure_from(lhs@, vals, i + 1) {
                assert(p0 + (seq![(lhs@[i as int].expression, vals[i as int])] + rest) =~= p1
                    + rest);
            }
        }
        i = i + 1;
    }
    let ghost mut pairs: Seq<(Expression, SpecValue)> = Seq::empty();
    if packed {
        if !lhs[stop].is_pack {
            return Err(EvalError::DestructureArity { targets: nl, values: nv });
        }
        proof {
            pairs = Seq::new(stop as nat, |j: int| (lhs@[j].expression, vals[j])).push(
                (lhs@[stop as int].expression, SpecValue::List { elems: vals.skip(stop as int) }),
            );
            assert(Seq::new(stop as nat, |j: int| (lhs@[j].expression, vals[j])) + seq![
                (lhs@[stop as int].expression, SpecValue::List { elems: vals.skip(stop as int) }),
            ] =~= pairs);
        }
    } else {
        proof {
            pairs = Seq::new(nv as nat, |j: int| (lhs@[j].expression, vals[j]));
            assert(pairs + Seq::<(Expression, SpecValue)>::empty() =~= pairs);
        }
    }
    // Phase two: assign the resolved pairs in order.
    let ghost st0 = st_of(*old(env), *old(out));
    proof {
        assert(destructure_pairs(lhs@, vals) == Ok::<_, EvalError>(pairs));
    }
    let np = if packed {
        stop + 1
    } else {
        stop
    };
    let mut j: usize = 0;
    let mut g: u64 = fuel;
    loop
        invariant
            j <= np,
            np == pairs.len(),
            g <= fuel,
            env.wf(),
            assign_pairs_s(st0, pairs, 0, importing, modules@, fuel) == assign_pairs_s(
                st_of(*env, *out),
                pairs,
                j as int,
                importing,
                modules@,
                g,
            ),
        decreases g,
    {
        if g == 0 {
            return Err(EvalError::FuelExhausted);
        }
        if j == np {
            return Ok(());
        }
        let value: Value = if packed && j == np - 1 {
            let mut tail: Vec<Value> = Vec::new();
            let mut k: usize = j;
            while k < nv
                invariant
                    j <= k <= nv,
                    nv == rhs@.len(),
                    tail@.len() == k - j,
                    forall|q: int| 0 <= q < k - j ==> vvs(tail@)[q] == vvs(rhs@)[j + q],
                decreases nv - k,
            {
                proof {
                    crate::value::lemma_vvs(rhs@);
                }
                let cv = clone_value(&rhs[k]);
                proof {
                    lemma_vvs_push(tail@, cv);
                    crate::value::lemma_vvs(tail@);
                }
                tail.push(cv);
                proof {
                    crate::value::lemma_vvs(tail@);
                }
                k = k + 1;
            }
            proof {
                crate::value::lemma_vvs(tail@);
                assert(vvs(tail@) =~= vals.skip(j as int));
            }
            Value::List { elems: tail }
        } else {
            proof {
                crate::value::lemma_vvs(rhs@);
            }
            clone_value(&rhs[j])
        };
        match assign(env, out, modules, &lhs[j].expression, value, importing, g - 1) {
            Err(e) => {
                return Err(e);
            },
            Ok(_) => {},
        }
        j = j + 1;
        g = g - 1;
    }
}

} // verus!
