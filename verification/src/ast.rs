//! Abstract syntax of the language, produced by an external parser.
//!
//! A program is an ordered statement sequence. The pieces of a function
//! definition are shared through `Rc` because a definition is captured by
//! value into the frame when it is executed, and is immutable from then on.

use std::rc::Rc;
use vstd::prelude::*;

verus! {

/// The binary operators of the language.
#[derive(Debug, Clone, Copy, PartialEq, Eq, Structural)]
pub enum Operator {
    Add,
    Sub,
    Mul,
    Div,
    LessThan,
    GreaterThan,
    Equal,
    NotEqual,
}

/// An element of a list literal or of a list assignment pattern.
///
/// `is_spread` flattens a list value into the surrounding literal;
/// `is_pack` (only meaningful in an assignment pattern) captures the
/// remaining values as a list.
#[derive(Debug, PartialEq)]
pub struct ListItem {
    pub expression: Expression,
    pub is_spread: bool,
    pub is_pack: bool,
}

/// An expression. Float literals carry the IEEE 754 bit pattern of the
/// number, so that the syntax stays within exactly representable values.
#[derive(Debug, PartialEq)]
pub enum Expression {
    Int { v: i32 },
    Float { bits: u64 },
    StringLit { s: String },
    Boolean { b: bool },
    Character { c: char },
    Identifier { name: String },
    Call { function: String, arguments: Vec<Expression> },
    Operation { lhs: Box<Expression>, operator: Operator, rhs: Box<Expression> },
    List { items: Vec<ListItem> },
    Prefix { name: String, operator: Operator, rhs: Box<Expression> },
    Index { name: String, idx_exp: Box<Expression> },
    Comprehension { iterate_exp: Box<Expression>, var: String, control_exp: Box<Expression> },
}

/// One `elif` branch of an `if` statement.
#[derive(Debug, PartialEq)]
pub struct ElifBranch {
    pub condition: Expression,
    pub statements: Vec<Statement>,
}

/// A statement.
#[derive(Debug, PartialEq)]
pub enum Statement {
    Expression {
        expression: Expression,
    },
    Assignment {
        lhs: Expression,
        rhs: Expression,
    },
    OperatorAssignment {
        name: String,
        operator: Operator,
        rhs: Expression,
    },
    If {
        condition: Expression,
        statements: Vec<Statement>,
        elifs: Vec<ElifBranch>,
        else_statements: Option<Vec<Statement>>,
    },
    While {
        condition: Expression,
        statements: Vec<Statement>,
    },
    For {
        loop_var: String,
        iterate_expression: Expression,
        statements: Vec<Statement>,
    },
    FunctionDefinition {
        name: Rc<String>,
        arguments: Rc<Vec<String>>,
        statements: Rc<Vec<Statement>>,
        return_expression: Rc<Option<Expression>>,
    },
    Import {
        path: String,
    },
}

/// A parsed program: an ordered statement sequence.
#[derive(Debug, PartialEq)]
pub enum Program {
    Body { statements: Vec<Statement> },
}

} // verus!
