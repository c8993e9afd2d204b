//! Evaluation failures.
//!
//! The first failure aborts the whole call chain up to the host; mutations
//! already committed are not rolled back. The host flattens these to text.

use vstd::prelude::*;

verus! {

/// The syntactic kind of an expression, used to report why a construct
/// cannot be iterated or assigned to.
#[derive(Clone, Copy, Debug, PartialEq, Eq, Structural)]
pub enum ExprKind {
    Int,
    Float,
    StringLit,
    Boolean,
    Character,
    Identifier,
    Call,
    Operation,
    List,
    Prefix,
    Index,
    Comprehension,
}

/// The dynamic kind of a value, used to report why a value cannot be
/// iterated or indexed.
#[derive(Clone, Copy, Debug, PartialEq, Eq, Structural)]
pub enum ValueKind {
    Null,
    Int,
    Float,
    Bool,
    Char,
    Str,
    List,
    Function,
}

/// An evaluation failure.
#[derive(Debug, PartialEq)]
pub enum EvalError {
    /// An identifier was looked up and had no binding; carries the name.
    UndefinedVariable { name: String },
    /// A call named a binding that is not callable.
    NotAFunction { name: String },
    /// A call supplied the wrong number of arguments.
    ArityMismatch { expected: usize, got: usize },
    /// A destructuring pattern did not fit the number of values.
    DestructureArity { targets: usize, values: usize },
    /// A list pattern was assigned a value that is not a list.
    DestructureNonList,
    /// A spread item appeared in an assignment pattern.
    SpreadInAssignment,
    /// A spread item in a list literal evaluated to a non-list.
    SpreadNonList,
    /// The left-hand side of an assignment has a shape that cannot be
    /// assigned to; carries that shape.
    InvalidAssignTarget { kind: ExprKind },
    /// An indexed value does not support element access; carries its kind.
    NotIndexable { kind: ValueKind },
    /// An index expression did not evaluate to an integer.
    IndexNotInt,
    /// An index fell outside the bounds of the list; carries the index.
    IndexOutOfBounds { idx: i32 },
    /// An `if` or `while` condition did not evaluate to a boolean.
    ConditionNotBool,
    /// A binary operator was applied to an unsupported pairing of operand
    /// types.
    InvalidOperands,
    /// A compound operation could not be applied to the named binding.
    CannotOperate { name: String },
    /// A `for` loop was given an expression whose kind is never iterable.
    NotIterableExpr { kind: ExprKind },
    /// An iteration source evaluated to a value that cannot be iterated.
    NotIterableValue { kind: ValueKind },
    /// A function definition reuses a name that is already bound.
    Redefinition { name: String },
    /// An imported path is not in the module table.
    ModuleNotFound { path: String },
    /// Integer division by zero.
    DivisionByZero,
    /// The evaluation depth / iteration budget ran out before the program
    /// finished.
    FuelExhausted,
}

} // verus!
