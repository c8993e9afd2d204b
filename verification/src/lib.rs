//! Evaluator core of a small imperative scripting language.
//!
//! The library walks a parsed program and executes it against a mutable
//! name-to-value frame. Scoping, control flow, operator typing, destructuring,
//! iteration and module loading are all defined here; the lexer, parser and
//! the host driver live outside and hand the evaluator plain values.

pub mod ast;
pub mod env;
pub mod errors;
pub mod floats;
pub mod ops;
pub mod eval;
pub mod laws;
pub mod modules;
pub mod resolve;
pub mod sem;
pub mod value;

pub use ast::{ElifBranch, Expression, ListItem, Operator, Program, Statement};
pub use env::Env;
pub use errors::{EvalError, ExprKind, ValueKind};
pub use eval::{assign, assign_list, eval_expression, eval_expressions, eval_program, eval_statement, eval_statements};
pub use modules::ModuleTable;
pub use ops::operate;
pub use resolve::resolve_candidates;
pub use value::{Builtin, FnDef, OutputCall, Value};
