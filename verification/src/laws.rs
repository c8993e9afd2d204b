//! Properties of the language that hold of every program, stated over the
//! specification interpreter and proved once and for all.

use crate::ast::Expression;
use crate::errors::EvalError;
use crate::sem::{call_case_s, expr_s, exprs_s, SpecModules, SpecState};
use crate::value::SpecValue;
use vstd::prelude::*;

verus! {

/// Any lookup of an identifier that has no binding fails with
/// `UndefinedVariable` naming that identifier, and changes nothing.
pub proof fn lemma_undefined_identifier(
    st: SpecState,
    name: String,
    imp: bool,
    mt: SpecModules,
    fuel: u64,
)
    requires
        fuel > 0,
        !st.env.contains_key(name@),
    ensures
        expr_s(st, Expression::Identifier { name }, imp, mt, fuel) == (
            Err::<SpecValue, EvalError>(EvalError::UndefinedVariable { name }),
            st,
        ),
{
}

/// Function frame isolation: when a call resolves to a user-defined
/// function, the caller's frame after the whole call is exactly its frame
/// after the argument evaluation — the body runs in a duplicate, and the
/// return expression runs against a throwaway duplicate of the caller's
/// frame. A function mutating a parameter therefore never changes the
/// caller's identically-named variable.
pub proof fn lemma_call_frame_isolation(
    st: SpecState,
    function: String,
    arguments: Seq<Expression>,
    imp: bool,
    mt: SpecModules,
    fuel: u64,
)
    ensures
        ({
            let (ra, st1) = exprs_s(st, arguments, 0, imp, mt, fuel);
            (ra is Ok && st1.env.contains_key(function@) && st1.env[function@]
                is UserDefFunction) ==> call_case_s(st, function, arguments, imp, mt, fuel).1.env
                == st1.env
        }),
{
}

/// Import suppression: while a module loads, a call through the name
/// `print` or `println` of a native function yields `Null` and appends no
/// output event beyond those of its argument evaluation.
pub proof fn lemma_import_suppresses_output(
    st: SpecState,
    function: String,
    arguments: Seq<Expression>,
    mt: SpecModules,
    fuel: u64,
)
    requires
        function@ == "print"@ || function@ == "println"@,
    ensures
        ({
            let (ra, st1) = exprs_s(st, arguments, 0, true, mt, fuel);
            (ra is Ok && st1.env.contains_key(function@) && st1.env[function@] is Native)
                ==> call_case_s(st, function, arguments, true, mt, fuel) == (
                Ok::<SpecValue, EvalError>(SpecValue::Null),
                st1,
            )
        }),
{
}

} // verus!
