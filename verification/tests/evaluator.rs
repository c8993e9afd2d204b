use std::rc::Rc;

use rustl::{
    eval_program, Builtin, Env, EvalError, Expression, ListItem, ModuleTable, Operator,
    OutputCall, Program, Statement, Value,
};

fn base_env() -> Env {
    let mut env = Env::new();
    env.insert("print".to_string(), Value::Native { which: Builtin::Print });
    env.insert("println".to_string(), Value::Native { which: Builtin::Println });
    env
}

fn ident(name: &str) -> Expression {
    Expression::Identifier { name: name.to_string() }
}

fn intl(v: i32) -> Expression {
    Expression::Int { v }
}

fn item(expression: Expression) -> ListItem {
    ListItem { expression, is_spread: false, is_pack: false }
}

fn pack_item(expression: Expression) -> ListItem {
    ListItem { expression, is_spread: false, is_pack: true }
}

fn spread_item(expression: Expression) -> ListItem {
    ListItem { expression, is_spread: true, is_pack: false }
}

fn list_of_ints(vs: &[i32]) -> Expression {
    Expression::List { items: vs.iter().map(|v| item(intl(*v))).collect() }
}

fn assign_to(name: &str, rhs: Expression) -> Statement {
    Statement::Assignment { lhs: ident(name), rhs }
}

fn op(lhs: Expression, operator: Operator, rhs: Expression) -> Expression {
    Expression::Operation { lhs: Box::new(lhs), operator, rhs: Box::new(rhs) }
}

fn run(statements: Vec<Statement>) -> (Env, Vec<OutputCall>, Result<(), EvalError>) {
    let mut env = base_env();
    let mut out = Vec::new();
    let modules = ModuleTable::new();
    let program = Program::Body { statements };
    let r = eval_program(&mut env, &mut out, &modules, &program, false, 100_000);
    (env, out, r)
}

fn lookup(env: &Env, name: &str) -> Value {
    match env.lookup(&name.to_string()) {
        Some(v) => match v {
            Value::Null => Value::Null,
            Value::Int { v } => Value::Int { v: *v },
            Value::Float { bits } => Value::Float { bits: *bits },
            Value::Bool { b } => Value::Bool { b: *b },
            Value::Char { c } => Value::Char { c: *c },
            Value::Str { s } => Value::Str { s: s.clone() },
            Value::List { elems } => Value::List {
                elems: elems.iter().map(|e| lookup_clone(e)).collect(),
            },
            Value::Native { which } => Value::Native { which: *which },
            Value::UserDefFunction { def } => Value::UserDefFunction { def: def.clone() },
        },
        None => panic!("'{}' is not bound", name),
    }
}

fn lookup_clone(v: &Value) -> Value {
    match v {
        Value::Null => Value::Null,
        Value::Int { v } => Value::Int { v: *v },
        Value::Float { bits } => Value::Float { bits: *bits },
        Value::Bool { b } => Value::Bool { b: *b },
        Value::Char { c } => Value::Char { c: *c },
        Value::Str { s } => Value::Str { s: s.clone() },
        Value::List { elems } => Value::List {
            elems: elems.iter().map(|e| lookup_clone(e)).collect(),
        },
        Value::Native { which } => Value::Native { which: *which },
        Value::UserDefFunction { def } => Value::UserDefFunction { def: def.clone() },
    }
}

fn int_list(vs: &[i32]) -> Value {
    Value::List { elems: vs.iter().map(|v| Value::Int { v: *v }).collect() }
}

#[test]
fn destructuring_pack_binds_tail() {
    let (env, _, r) = run(vec![Statement::Assignment {
        lhs: Expression::List { items: vec![item(ident("a")), pack_item(ident("b"))] },
        rhs: list_of_ints(&[1, 2, 3, 4]),
    }]);
    assert_eq!(r, Ok(()));
    assert_eq!(lookup(&env, "a"), Value::Int { v: 1 });
    assert_eq!(lookup(&env, "b"), int_list(&[2, 3, 4]));
}

#[test]
fn destructuring_count_mismatch_fails() {
    let (_, _, r) = run(vec![Statement::Assignment {
        lhs: Expression::List { items: vec![item(ident("a")), item(ident("b"))] },
        rhs: list_of_ints(&[1, 2, 3]),
    }]);
    assert_eq!(r, Err(EvalError::DestructureArity { targets: 2, values: 3 }));
}

#[test]
fn nested_destructuring() {
    let (env, _, r) = run(vec![Statement::Assignment {
        lhs: Expression::List {
            items: vec![
                item(Expression::List { items: vec![item(ident("a")), item(ident("b"))] }),
                item(ident("c")),
            ],
        },
        rhs: Expression::List { items: vec![item(list_of_ints(&[1, 2])), item(intl(3))] },
    }]);
    assert_eq!(r, Ok(()));
    assert_eq!(lookup(&env, "a"), Value::Int { v: 1 });
    assert_eq!(lookup(&env, "b"), Value::Int { v: 2 });
    assert_eq!(lookup(&env, "c"), Value::Int { v: 3 });
}

#[test]
fn index_negative_one_reads_last() {
    let (env, _, r) = run(vec![
        assign_to("l", list_of_ints(&[10, 20, 30])),
        assign_to(
            "v",
            Expression::Index { name: "l".to_string(), idx_exp: Box::new(intl(-1)) },
        ),
    ]);
    assert_eq!(r, Ok(()));
    assert_eq!(lookup(&env, "v"), Value::Int { v: 30 });
}

#[test]
fn index_write_then_read() {
    let (env, _, r) = run(vec![
        assign_to("l", list_of_ints(&[10, 20, 30])),
        Statement::Assignment {
            lhs: Expression::Index { name: "l".to_string(), idx_exp: Box::new(intl(0)) },
            rhs: intl(99),
        },
        assign_to(
            "v",
            Expression::Index { name: "l".to_string(), idx_exp: Box::new(intl(0)) },
        ),
    ]);
    assert_eq!(r, Ok(()));
    assert_eq!(lookup(&env, "v"), Value::Int { v: 99 });
    assert_eq!(lookup(&env, "l"), int_list(&[99, 20, 30]));
}

#[test]
fn index_read_upper_bound_is_exclusive() {
    let (_, _, r) = run(vec![
        assign_to("l", list_of_ints(&[10, 20, 30])),
        assign_to(
            "v",
            Expression::Index { name: "l".to_string(), idx_exp: Box::new(intl(3)) },
        ),
    ]);
    assert_eq!(r, Err(EvalError::IndexOutOfBounds { idx: 3 }));
}

#[test]
fn index_write_upper_bound_is_exclusive() {
    let (_, _, r) = run(vec![
        assign_to("l", list_of_ints(&[10, 20, 30])),
        Statement::Assignment {
            lhs: Expression::Index { name: "l".to_string(), idx_exp: Box::new(intl(3)) },
            rhs: intl(99),
        },
    ]);
    assert_eq!(r, Err(EvalError::IndexOutOfBounds { idx: 3 }));
}

#[test]
fn index_negative_magnitude_may_reach_first() {
    let (env, _, r) = run(vec![
        assign_to("l", list_of_ints(&[10, 20, 30])),
        assign_to(
            "v",
            Expression::Index { name: "l".to_string(), idx_exp: Box::new(intl(-3)) },
        ),
    ]);
    assert_eq!(r, Ok(()));
    assert_eq!(lookup(&env, "v"), Value::Int { v: 10 });
    let (_, _, r2) = run(vec![
        assign_to("l", list_of_ints(&[10, 20, 30])),
        assign_to(
            "v",
            Expression::Index { name: "l".to_string(), idx_exp: Box::new(intl(-4)) },
        ),
    ]);
    assert_eq!(r2, Err(EvalError::IndexOutOfBounds { idx: -4 }));
}

#[test]
fn import_suppresses_output_but_keeps_bindings() {
    let mut env = base_env();
    let mut out = Vec::new();
    let mut modules = ModuleTable::new();
    modules.add(
        "m".to_string(),
        Program::Body {
            statements: vec![
                Statement::Expression {
                    expression: Expression::Call {
                        function: "println".to_string(),
                        arguments: vec![Expression::StringLit { s: "x".to_string() }],
                    },
                },
                assign_to("v", intl(5)),
            ],
        },
    );
    let program = Program::Body {
        statements: vec![Statement::Import { path: "m".to_string() }],
    };
    let r = eval_program(&mut env, &mut out, &modules, &program, false, 100_000);
    assert_eq!(r, Ok(()));
    assert!(out.is_empty());
    assert_eq!(lookup(&env, "v"), Value::Int { v: 5 });
}

#[test]
fn import_of_unknown_path_fails() {
    let (_, _, r) = run(vec![Statement::Import { path: "zzz".to_string() }]);
    assert_eq!(r, Err(EvalError::ModuleNotFound { path: "zzz".to_string() }));
}

#[test]
fn println_outside_import_emits_output() {
    let (_, out, r) = run(vec![Statement::Expression {
        expression: Expression::Call {
            function: "println".to_string(),
            arguments: vec![intl(7)],
        },
    }]);
    assert_eq!(r, Ok(()));
    assert_eq!(out.len(), 1);
    assert!(out[0].newline);
    assert_eq!(out[0].args, vec![Value::Int { v: 7 }]);
}

fn def_fn(name: &str, params: &[&str], body: Vec<Statement>, ret: Option<Expression>) -> Statement {
    Statement::FunctionDefinition {
        name: Rc::new(name.to_string()),
        arguments: Rc::new(params.iter().map(|p| p.to_string()).collect()),
        statements: Rc::new(body),
        return_expression: Rc::new(ret),
    }
}

#[test]
fn function_frame_isolation() {
    let (env, _, r) = run(vec![
        assign_to("x", intl(5)),
        def_fn(
            "f",
            &["p"],
            vec![Statement::Assignment {
                lhs: ident("p"),
                rhs: op(ident("p"), Operator::Add, intl(1)),
            }],
            None,
        ),
        Statement::Expression {
            expression: Expression::Call {
                function: "f".to_string(),
                arguments: vec![ident("x")],
            },
        },
    ]);
    assert_eq!(r, Ok(()));
    assert_eq!(lookup(&env, "x"), Value::Int { v: 5 });
}

#[test]
fn function_mutating_outer_name_does_not_leak() {
    let (env, _, r) = run(vec![
        assign_to("x", intl(5)),
        def_fn("f", &[], vec![assign_to("x", intl(42))], None),
        Statement::Expression {
            expression: Expression::Call { function: "f".to_string(), arguments: vec![] },
        },
    ]);
    assert_eq!(r, Ok(()));
    assert_eq!(lookup(&env, "x"), Value::Int { v: 5 });
}

#[test]
fn return_expression_reads_caller_frame() {
    // The return expression is evaluated against the caller's frame, not
    // the frame that ran the body: body-local bindings are invisible to it.
    let (env, _, r) = run(vec![
        assign_to("y", intl(7)),
        def_fn("g", &[], vec![assign_to("y", intl(42))], Some(ident("y"))),
        assign_to(
            "r",
            Expression::Call { function: "g".to_string(), arguments: vec![] },
        ),
    ]);
    assert_eq!(r, Ok(()));
    assert_eq!(lookup(&env, "r"), Value::Int { v: 7 });
    assert_eq!(lookup(&env, "y"), Value::Int { v: 7 });
}

#[test]
fn function_without_return_yields_null() {
    let (env, _, r) = run(vec![
        def_fn("g", &[], vec![], None),
        assign_to(
            "r",
            Expression::Call { function: "g".to_string(), arguments: vec![] },
        ),
    ]);
    assert_eq!(r, Ok(()));
    assert_eq!(lookup(&env, "r"), Value::Null);
}

#[test]
fn comprehension_over_list() {
    let (env, _, r) = run(vec![assign_to(
        "r",
        Expression::Comprehension {
            iterate_exp: Box::new(op(ident("x"), Operator::Mul, intl(2))),
            var: "x".to_string(),
            control_exp: Box::new(list_of_ints(&[1, 2, 3])),
        },
    )]);
    assert_eq!(r, Ok(()));
    assert_eq!(lookup(&env, "r"), int_list(&[2, 4, 6]));
}

#[test]
fn comprehension_over_string() {
    let (env, _, r) = run(vec![assign_to(
        "r",
        Expression::Comprehension {
            iterate_exp: Box::new(ident("c")),
            var: "c".to_string(),
            control_exp: Box::new(Expression::StringLit { s: "ab".to_string() }),
        },
    )]);
    assert_eq!(r, Ok(()));
    assert_eq!(
        lookup(&env, "r"),
        Value::List { elems: vec![Value::Char { c: 'a' }, Value::Char { c: 'b' }] }
    );
}

#[test]
fn comprehension_loop_variable_does_not_leak() {
    let (env, _, r) = run(vec![assign_to(
        "r",
        Expression::Comprehension {
            iterate_exp: Box::new(ident("q")),
            var: "q".to_string(),
            control_exp: Box::new(list_of_ints(&[1])),
        },
    )]);
    assert_eq!(r, Ok(()));
    assert!(env.lookup(&"q".to_string()).is_none());
}

#[test]
fn undefined_identifier_reports_its_name() {
    let (_, _, r) = run(vec![assign_to("a", ident("nope"))]);
    assert_eq!(r, Err(EvalError::UndefinedVariable { name: "nope".to_string() }));
}

#[test]
fn while_loop_counts() {
    let (env, _, r) = run(vec![
        assign_to("i", intl(0)),
        Statement::While {
            condition: op(ident("i"), Operator::LessThan, intl(3)),
            statements: vec![Statement::OperatorAssignment {
                name: "i".to_string(),
                operator: Operator::Add,
                rhs: intl(1),
            }],
        },
    ]);
    assert_eq!(r, Ok(()));
    assert_eq!(lookup(&env, "i"), Value::Int { v: 3 });
}

#[test]
fn if_elif_else_chain() {
    let mk = |x: i32| {
        vec![
            assign_to("x", intl(x)),
            Statement::If {
                condition: op(ident("x"), Operator::Equal, intl(1)),
                statements: vec![assign_to("r", intl(10))],
                elifs: vec![rustl::ElifBranch {
                    condition: op(ident("x"), Operator::Equal, intl(2)),
                    statements: vec![assign_to("r", intl(20))],
                }],
                else_statements: Some(vec![assign_to("r", intl(30))]),
            },
        ]
    };
    for (x, want) in [(1, 10), (2, 20), (9, 30)] {
        let (env, _, r) = run(mk(x));
        assert_eq!(r, Ok(()));
        assert_eq!(lookup(&env, "r"), Value::Int { v: want });
    }
}

#[test]
fn for_loop_binds_in_enclosing_frame() {
    let (env, _, r) = run(vec![
        assign_to("s", intl(0)),
        Statement::For {
            loop_var: "x".to_string(),
            iterate_expression: list_of_ints(&[1, 2, 3]),
            statements: vec![Statement::OperatorAssignment {
                name: "s".to_string(),
                operator: Operator::Add,
                rhs: ident("x"),
            }],
        },
    ]);
    assert_eq!(r, Ok(()));
    assert_eq!(lookup(&env, "s"), Value::Int { v: 6 });
    // the loop variable persists after the loop: no per-iteration scope
    assert_eq!(lookup(&env, "x"), Value::Int { v: 3 });
}

#[test]
fn spread_flattens_in_list_literal() {
    let (env, _, r) = run(vec![
        assign_to("x", list_of_ints(&[2, 3])),
        assign_to(
            "y",
            Expression::List {
                items: vec![item(intl(1)), spread_item(ident("x")), item(intl(4))],
            },
        ),
    ]);
    assert_eq!(r, Ok(()));
    assert_eq!(lookup(&env, "y"), int_list(&[1, 2, 3, 4]));
}

#[test]
fn assignment_to_underscore_is_discarded() {
    let (env, _, r) = run(vec![assign_to("_", intl(5))]);
    assert_eq!(r, Ok(()));
    assert!(env.lookup(&"_".to_string()).is_none());
}

#[test]
fn prefix_operation_rebinds_and_yields() {
    let (env, _, r) = run(vec![
        assign_to("x", intl(1)),
        assign_to(
            "y",
            Expression::Prefix {
                name: "x".to_string(),
                operator: Operator::Add,
                rhs: Box::new(intl(2)),
            },
        ),
    ]);
    assert_eq!(r, Ok(()));
    assert_eq!(lookup(&env, "x"), Value::Int { v: 3 });
    assert_eq!(lookup(&env, "y"), Value::Int { v: 3 });
}

#[test]
fn fuel_exhaustion_is_reported() {
    let mut env = base_env();
    let mut out = Vec::new();
    let modules = ModuleTable::new();
    let program = Program::Body { statements: vec![assign_to("x", intl(1))] };
    let r = eval_program(&mut env, &mut out, &modules, &program, false, 0);
    assert_eq!(r, Err(EvalError::FuelExhausted));
}

#[test]
fn frame_duplicate_is_independent() {
    let mut env = Env::new();
    env.insert("a".to_string(), Value::Int { v: 1 });
    let mut copy = env.duplicate();
    copy.insert("a".to_string(), Value::Int { v: 2 });
    copy.insert("b".to_string(), Value::Int { v: 3 });
    assert_eq!(env.lookup(&"a".to_string()), Some(&Value::Int { v: 1 }));
    assert!(env.lookup(&"b".to_string()).is_none());
    assert_eq!(copy.lookup(&"a".to_string()), Some(&Value::Int { v: 2 }));
}
