//! The runtime value domain, and its specification-level mirror.
//!
//! `Value` is what frames hold and expressions produce. Contracts do not
//! speak of `Value` directly but of its view `SpecValue`, which replaces the
//! one container (`Vec`) by a `Seq` so that specifications can build values.
//! Floats are carried as their IEEE 754 bit patterns.

use crate::ast::{Expression, Statement};
use std::rc::Rc;
use vstd::prelude::*;

verus! {

broadcast use vstd::std_specs::vec::group_vec_axioms, vstd::seq::group_seq_axioms;

/// The closed table of native functions registered by the host.
/// Only `print` and `println` exist, and only they are special-cased
/// during module import.
#[derive(Debug, Clone, Copy, PartialEq, Eq, Structural)]
pub enum Builtin {
    Print,
    Println,
}

/// A user-defined function, captured by value at definition time.
/// The shared `Rc` pieces come straight from the defining statement and are
/// immutable afterwards.
#[derive(Debug, PartialEq)]
pub struct FnDef {
    pub name: Rc<String>,
    pub params: Rc<Vec<String>>,
    pub body: Rc<Vec<Statement>>,
    pub ret: Rc<Option<Expression>>,
}

/// A runtime value.
#[derive(Debug, PartialEq)]
pub enum Value {
    Null,
    Int { v: i32 },
    Float { bits: u64 },
    Bool { b: bool },
    Char { c: char },
    Str { s: String },
    List { elems: Vec<Value> },
    Native { which: Builtin },
    UserDefFunction { def: FnDef },
}

/// The specification-level shape of a runtime value: identical to `Value`
/// except that a list holds a `Seq` of element shapes.
#[verifier::ext_equal]
pub enum SpecValue {
    Null,
    Int { v: i32 },
    Float { bits: u64 },
    Bool { b: bool },
    Char { c: char },
    Str { s: String },
    List { elems: Seq<SpecValue> },
    Native { which: Builtin },
    UserDefFunction { def: FnDef },
}

/// The view of a runtime value.
pub open spec fn vv(v: Value) -> SpecValue
    decreases v via vv_decreases
{
    match v {
        Value::Null => SpecValue::Null,
        Value::Int { v } => SpecValue::Int { v },
        Value::Float { bits } => SpecValue::Float { bits },
        Value::Bool { b } => SpecValue::Bool { b },
        Value::Char { c } => SpecValue::Char { c },
        Value::Str { s } => SpecValue::Str { s },
        Value::List { elems } => SpecValue::List { elems: vvs(elems@) },
        Value::Native { which } => SpecValue::Native { which },
        Value::UserDefFunction { def } => SpecValue::UserDefFunction { def },
    }
}

/// The views of a sequence of runtime values, element for element.
pub open spec fn vvs(s: Seq<Value>) -> Seq<SpecValue>
    decreases s via vvs_decreases
{
    if s.len() == 0 {
        Seq::empty()
    } else {
        vvs(s.drop_last()).push(vv(s.last()))
    }
}

#[via_fn]
proof fn vv_decreases(v: Value) {
    if let Value::List { elems } = v {
        assert(decreases_to!(v => elems));
        vstd::std_specs::vec::axiom_vec_decreases_to_view(elems);
    }
}

#[via_fn]
proof fn vvs_decreases(s: Seq<Value>) {
    if s.len() > 0 {
        vstd::seq::axiom_seq_index_decreases(s, s.len() - 1);
        vstd::seq::axiom_seq_subrange_decreases(s, 0, s.len() - 1);
        assert(s.drop_last() == s.subrange(0, s.len() - 1));
        assert(s.last() == s[s.len() - 1]);
    }
}

/// The character value denoted by one unicode scalar.
pub open spec fn char_val(c: char) -> SpecValue {
    SpecValue::Char { c }
}

/// The characters of a string as a sequence of character values.
pub open spec fn chars_of(s: Seq<char>) -> Seq<SpecValue>
    decreases s via chars_of_decreases
{
    if s.len() == 0 {
        Seq::empty()
    } else {
        chars_of(s.drop_last()).push(char_val(s.last()))
    }
}

#[via_fn]
proof fn chars_of_decreases(s: Seq<char>) {
    if s.len() > 0 {
        vstd::seq::axiom_seq_subrange_decreases(s, 0, s.len() - 1);
        assert(s.drop_last() == s.subrange(0, s.len() - 1));
    }
}

/// `chars_of` is the element-for-element character map.
pub proof fn lemma_chars_of(s: Seq<char>)
    ensures
        chars_of(s).len() == s.len(),
        forall|i: int| 0 <= i < s.len() ==> chars_of(s)[i] == (SpecValue::Char { c: s[i] }),
    decreases s.len(),
{
    if s.len() > 0 {
        lemma_chars_of(s.drop_last());
    }
}

/// `vvs` is the element-for-element view map.
pub proof fn lemma_vvs(s: Seq<Value>)
    ensures
        vvs(s).len() == s.len(),
        forall|i: int| 0 <= i < s.len() ==> vvs(s)[i] == vv(s[i]),
    decreases s.len(),
{
    if s.len() > 0 {
        lemma_vvs(s.drop_last());
    }
}

impl View for Value {
    type V = SpecValue;

    open spec fn view(&self) -> SpecValue {
        vv(*self)
    }
}

/// One output event: the arguments of one `print` or `println` call.
/// The host performs the actual writing; the evaluator only records what
/// is to be written, so suppression during import is provable.
#[derive(Debug, PartialEq)]
pub struct OutputCall {
    pub newline: bool,
    pub args: Vec<Value>,
}

/// The specification-level shape of an output event.
#[verifier::ext_equal]
pub struct SpecOutput {
    pub newline: bool,
    pub args: Seq<SpecValue>,
}

impl View for OutputCall {
    type V = SpecOutput;

    open spec fn view(&self) -> SpecOutput {
        SpecOutput { newline: self.newline, args: vvs(self.args@) }
    }
}

/// The views of an output buffer, event for event.
pub open spec fn ovs(s: Seq<OutputCall>) -> Seq<SpecOutput> {
    Seq::new(s.len(), |i: int| s[i]@)
}

/// Relies on `Rc::clone`: the result is another handle to the same
/// allocation, hence the same value.
#[verifier::external_body]
pub(crate) fn rc_clone<T>(rc: &Rc<T>) -> (r: Rc<T>)
    ensures
        r == *rc,
{
    Rc::clone(rc)
}

/// Relies on `Rc`'s `Deref`: a shared handle reads as its value.
#[verifier::external_body]
pub fn rc_get<T>(rc: &Rc<T>) -> (r: &T)
    ensures
        *r == **rc,
{
    &**rc
}

impl Clone for FnDef {
    fn clone(&self) -> (r: Self)
        ensures
            r == *self,
    {
        FnDef {
            name: rc_clone(&self.name),
            params: rc_clone(&self.params),
            body: rc_clone(&self.body),
            ret: rc_clone(&self.ret),
        }
    }
}

/// Duplicates a value. The copy has the same view; frames rely on this at
/// every call boundary, where the callee receives a full duplicate.
#[verifier::loop_isolation(false)]
pub fn clone_value(v: &Value) -> (r: Value)
    ensures
        r@ == v@,
    decreases *v,
{
    match v {
        Value::Null => Value::Null,
        Value::Int { v } => Value::Int { v: *v },
        Value::Float { bits } => Value::Float { bits: *bits },
        Value::Bool { b } => Value::Bool { b: *b },
        Value::Char { c } => Value::Char { c: *c },
        Value::Str { s } => Value::Str { s: s.clone() },
        Value::List { elems } => {
            let mut copy: Vec<Value> = Vec::new();
            let n = elems.len();
            let mut i: usize = 0;
            while i < n
                invariant
                    i <= n,
                    n == elems@.len(),
                    copy@.len() == i,
                    forall|j: int| 0 <= j < i ==> vv(copy@[j]) == vv(elems@[j]),
                decreases n - i,
            {
                proof {
                    assert(*v == (Value::List { elems: *elems }));
                    assert(decreases_to!(*v => *elems));
                    vstd::std_specs::vec::axiom_vec_decreases_to_view(*elems);
                    vstd::seq::axiom_seq_index_decreases(elems@, i as int);
                }
                copy.push(clone_value(&elems[i]));
                i = i + 1;
            }
            proof {
                lemma_vvs(copy@);
                lemma_vvs(elems@);
                assert(vvs(copy@) =~= vvs(elems@));
            }
            Value::List { elems: copy }
        },
        Value::Native { which } => Value::Native { which: *which },
        Value::UserDefFunction { def } => Value::UserDefFunction { def: def.clone() },
    }
}

} // verus!
