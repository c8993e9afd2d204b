use rustl::{
    eval_program, Builtin, Env, EvalError, Expression, ExprKind, ListItem, ModuleTable,
    Operator, OutputCall, Program, Statement, Value, ValueKind,
};
use std::rc::Rc;

fn base_env() -> Env {
    let mut env = Env::new();
    env.insert("print".to_string(), Value::Native { which: Builtin::Print });
    env.insert("println".to_string(), Value::Native { which: Builtin::Println });
    env
}

fn ident(name: &str) -> Expression {
    Expression::Identifier { name: name.to_string() }
}

fn intl(v: i32) -> Expression {
    Expression::Int { v }
}

fn item(expression: Expression) -> ListItem {
    ListItem { expression, is_spread: false, is_pack: false }
}

fn assign_to(name: &str, rhs: Expression) -> Statement {
    Statement::Assignment { lhs: ident(name), rhs }
}

fn run(statements: Vec<Statement>) -> Result<(), EvalError> {
    let mut env = base_env();
    let mut out: Vec<OutputCall> = Vec::new();
    let modules = ModuleTable::new();
    let program = Program::Body { statements };
    eval_program(&mut env, &mut out, &modules, &program, false, 100_000)
}

#[test]
fn calling_a_non_function_fails() {
    let r = run(vec![
        assign_to("x", intl(5)),
        Statement::Expression {
            expression: Expression::Call { function: "x".to_string(), arguments: vec![] },
        },
    ]);
    assert_eq!(r, Err(EvalError::NotAFunction { name: "x".to_string() }));
}

#[test]
fn wrong_argument_count_fails() {
    let r = run(vec![
        Statement::FunctionDefinition {
            name: Rc::new("f".to_string()),
            arguments: Rc::new(vec!["a".to_string(), "b".to_string()]),
            statements: Rc::new(vec![]),
            return_expression: Rc::new(None),
        },
        Statement::Expression {
            expression: Expression::Call {
                function: "f".to_string(),
                arguments: vec![intl(1)],
            },
        },
    ]);
    assert_eq!(r, Err(EvalError::ArityMismatch { expected: 2, got: 1 }));
}

#[test]
fn redefinition_of_a_bound_name_fails() {
    let mk = || Statement::FunctionDefinition {
        name: Rc::new("f".to_string()),
        arguments: Rc::new(vec![]),
        statements: Rc::new(vec![]),
        return_expression: Rc::new(None),
    };
    let r = run(vec![mk(), mk()]);
    assert_eq!(r, Err(EvalError::Redefinition { name: "f".to_string() }));
}

#[test]
fn destructuring_a_non_list_fails() {
    let r = run(vec![Statement::Assignment {
        lhs: Expression::List { items: vec![item(ident("a"))] },
        rhs: intl(5),
    }]);
    assert_eq!(r, Err(EvalError::DestructureNonList));
}

#[test]
fn spread_in_assignment_pattern_fails() {
    let r = run(vec![Statement::Assignment {
        lhs: Expression::List {
            items: vec![
                ListItem { expression: ident("a"), is_spread: true, is_pack: false },
                item(ident("b")),
            ],
        },
        rhs: Expression::List { items: vec![item(intl(1)), item(intl(2))] },
    }]);
    assert_eq!(r, Err(EvalError::SpreadInAssignment));
}

#[test]
fn spreading_a_non_list_fails() {
    let r = run(vec![assign_to(
        "z",
        Expression::List {
            items: vec![ListItem { expression: intl(5), is_spread: true, is_pack: false }],
        },
    )]);
    assert_eq!(r, Err(EvalError::SpreadNonList));
}

#[test]
fn assigning_to_a_literal_fails() {
    let r = run(vec![Statement::Assignment { lhs: intl(5), rhs: intl(3) }]);
    assert_eq!(r, Err(EvalError::InvalidAssignTarget { kind: ExprKind::Int }));
}

#[test]
fn indexing_a_non_list_fails() {
    let r = run(vec![
        assign_to("x", intl(5)),
        assign_to(
            "v",
            Expression::Index { name: "x".to_string(), idx_exp: Box::new(intl(0)) },
        ),
    ]);
    assert_eq!(r, Err(EvalError::NotIndexable { kind: ValueKind::Int }));
}

#[test]
fn non_integer_index_fails() {
    let r = run(vec![
        assign_to("l", Expression::List { items: vec![item(intl(1))] }),
        assign_to(
            "v",
            Expression::Index {
                name: "l".to_string(),
                idx_exp: Box::new(Expression::Boolean { b: true }),
            },
        ),
    ]);
    assert_eq!(r, Err(EvalError::IndexNotInt));
}

#[test]
fn non_bool_condition_fails() {
    let r = run(vec![Statement::If {
        condition: intl(5),
        statements: vec![],
        elifs: vec![],
        else_statements: None,
    }]);
    assert_eq!(r, Err(EvalError::ConditionNotBool));
    let r2 = run(vec![Statement::While { condition: intl(5), statements: vec![] }]);
    assert_eq!(r2, Err(EvalError::ConditionNotBool));
}

#[test]
fn incompatible_operands_fail() {
    let r = run(vec![assign_to(
        "x",
        Expression::Operation {
            lhs: Box::new(Expression::StringLit { s: "a".to_string() }),
            operator: Operator::Add,
            rhs: Box::new(intl(1)),
        },
    )]);
    assert_eq!(r, Err(EvalError::InvalidOperands));
}

#[test]
fn compound_assignment_with_incompatible_operands_fails() {
    let r = run(vec![
        assign_to("x", Expression::StringLit { s: "a".to_string() }),
        Statement::OperatorAssignment {
            name: "x".to_string(),
            operator: Operator::Add,
            rhs: intl(1),
        },
    ]);
    assert_eq!(r, Err(EvalError::CannotOperate { name: "x".to_string() }));
}

#[test]
fn for_over_a_non_iterable_expression_kind_fails() {
    let r = run(vec![Statement::For {
        loop_var: "x".to_string(),
        iterate_expression: intl(5),
        statements: vec![],
    }]);
    assert_eq!(r, Err(EvalError::NotIterableExpr { kind: ExprKind::Int }));
}

#[test]
fn for_over_a_non_list_value_fails() {
    let r = run(vec![
        assign_to("y", intl(5)),
        Statement::For {
            loop_var: "x".to_string(),
            iterate_expression: ident("y"),
            statements: vec![],
        },
    ]);
    assert_eq!(r, Err(EvalError::NotIterableValue { kind: ValueKind::Int }));
}

#[test]
fn comprehension_over_a_non_iterable_value_fails() {
    let r = run(vec![assign_to(
        "r",
        Expression::Comprehension {
            iterate_exp: Box::new(ident("c")),
            var: "c".to_string(),
            control_exp: Box::new(intl(5)),
        },
    )]);
    assert_eq!(r, Err(EvalError::NotIterableValue { kind: ValueKind::Int }));
}

#[test]
fn division_by_zero_in_a_program_fails() {
    let r = run(vec![assign_to(
        "x",
        Expression::Operation {
            lhs: Box::new(intl(1)),
            operator: Operator::Div,
            rhs: Box::new(intl(0)),
        },
    )]);
    assert_eq!(r, Err(EvalError::DivisionByZero));
}

#[test]
fn first_error_stops_the_sequence_without_rollback() {
    let mut env = base_env();
    let mut out: Vec<OutputCall> = Vec::new();
    let modules = ModuleTable::new();
    let program = Program::Body {
        statements: vec![
            assign_to("a", intl(1)),
            assign_to("b", ident("nope")),
            assign_to("c", intl(3)),
        ],
    };
    let r = eval_program(&mut env, &mut out, &modules, &program, false, 100_000);
    assert_eq!(r, Err(EvalError::UndefinedVariable { name: "nope".to_string() }));
    assert_eq!(env.lookup(&"a".to_string()), Some(&Value::Int { v: 1 }));
    assert!(env.lookup(&"c".to_string()).is_none());
}

#[test]
fn resolve_relative_path_anchors_at_entry_directory() {
    let r = rustl::resolve_candidates(
        &"./m.rl".to_string(),
        &"/proj".to_string(),
        &vec!["/lib".to_string()],
    );
    assert_eq!(r, vec!["/proj/m.rl".to_string()]);
}

#[test]
fn resolve_path_with_separator_is_used_directly() {
    let r = rustl::resolve_candidates(
        &"a/b.rl".to_string(),
        &"/proj".to_string(),
        &vec!["/lib".to_string()],
    );
    assert_eq!(r, vec!["a/b.rl".to_string()]);
}

#[test]
fn resolve_bare_name_tries_entry_directory_then_libraries() {
    let r = rustl::resolve_candidates(
        &"m.rl".to_string(),
        &"/proj".to_string(),
        &vec!["/lib1".to_string(), "/lib2".to_string()],
    );
    assert_eq!(
        r,
        vec![
            "/proj/m.rl".to_string(),
            "/lib1/m.rl".to_string(),
            "/lib2/m.rl".to_string(),
        ]
    );
}
