//! Equality of values.
//!
//! A dictionary equals nothing, itself included: that is the policy of
//! this runtime, kept as it is. A NaN equals nothing either, as IEEE 754
//! has it.

use vstd::prelude::*;
use vstd::std_specs::cmp::PartialEqSpecImpl;

use crate::value::callable::Callable;
use crate::value::callable::CallableView;
use crate::value::callable::NativeBody;
use crate::value::float::float_equal;
use crate::value::float::float_is_nan;
use crate::value::lemma_view_of_vec;
use crate::value::views;
use crate::value::Dict;
use crate::value::Kind;
use crate::value::Pair;
use crate::value::Value;
use crate::value::ValueView;
use crate::value::Vector;

verus! {

/// Equality of callables: two closures are equal when the evaluator keeps
/// them under the same number, two host functions when they have the same
/// name and the same body; a closure never equals a host function.
pub open spec fn callables_equal(a: CallableView, b: CallableView) -> bool {
    match (a, b) {
        (CallableView::Closure(x), CallableView::Closure(y)) => x == y,
        (CallableView::Native(f), CallableView::Native(g)) => f.name.name == g.name.name && f.body
            == g.body,
        _ => false,
    }
}

/// Equality of values: structural, variant by variant. Scalars compare by
/// what they hold, floating-point numbers as IEEE 754 has it, strings and
/// symbols by their text, cons cells field by field, vectors by length
/// and then element by element. Two dictionaries are never equal, and
/// values of different variants are never equal.
pub open spec fn values_equal(a: ValueView, b: ValueView) -> bool
    decreases a,
{
    match (a, b) {
        (ValueView::Nil, ValueView::Nil) => true,
        (ValueView::Bool(x), ValueView::Bool(y)) => x == y,
        (ValueView::Char(x), ValueView::Char(y)) => x == y,
        (ValueView::Uint(x), ValueView::Uint(y)) => x == y,
        (ValueView::Int(x), ValueView::Int(y)) => x == y,
        (ValueView::Float(x), ValueView::Float(y)) => float_equal(x.bits, y.bits),
        (ValueView::Str(x), ValueView::Str(y)) => x == y,
        (ValueView::Sym(x), ValueView::Sym(y)) => x.name == y.name,
        (ValueView::Pair(h1, t1), ValueView::Pair(h2, t2)) => values_equal(*h1, *h2)
            && values_equal(*t1, *t2),
        (ValueView::Dict(_), ValueView::Dict(_)) => false,
        (ValueView::Vec(x), ValueView::Vec(y)) => x.len() == y.len() && forall|i: int|
            0 <= i < x.len() ==> values_equal(#[trigger] x[i], y[i]),
        (ValueView::Callable(x), ValueView::Callable(y)) => callables_equal(x, y),
        _ => false,
    }
}

/// Equality of the contents of two vectors: the same length, and equal
/// elements at every position. Two empty vectors are equal.
pub open spec fn items_equal(x: Seq<ValueView>, y: Seq<ValueView>) -> bool {
    x.len() == y.len() && forall|i: int|
        0 <= i < x.len() ==> values_equal(#[trigger] x[i], y[i])
}

/// Whether `v` holds neither a NaN nor a dictionary, at any depth.
/// These are the values that equal themselves.
pub open spec fn free_of_nan_and_dict(v: ValueView) -> bool
    decreases v,
{
    match v {
        ValueView::Float(x) => !float_is_nan(x.bits),
        ValueView::Pair(head, tail) => free_of_nan_and_dict(*head) && free_of_nan_and_dict(*tail),
        ValueView::Dict(_) => false,
        ValueView::Vec(items) => forall|i: int|
            0 <= i < items.len() ==> free_of_nan_and_dict(#[trigger] items[i]),
        _ => true,
    }
}

/// Equality is reflexive on every value that holds neither a NaN nor a
/// dictionary; among them are `Nil`, every boolean, character and
/// integer, and every floating-point number that is no NaN.
pub proof fn lemma_equality_reflexive(v: ValueView)
    requires
        free_of_nan_and_dict(v),
    ensures
        values_equal(v, v),
    decreases v,
{
    match v {
        ValueView::Pair(head, tail) => {
            lemma_equality_reflexive(*head);
            lemma_equality_reflexive(*tail);
        },
        ValueView::Vec(items) => {
            assert forall|i: int| 0 <= i < items.len() implies values_equal(
                #[trigger] items[i],
                items[i],
            ) by {
                lemma_equality_reflexive(items[i]);
            }
        },
        _ => {},
    }
}

/// Equality is symmetric on all values.
pub proof fn lemma_equality_symmetric(a: ValueView, b: ValueView)
    ensures
        values_equal(a, b) == values_equal(b, a),
    decreases a,
{
    match (a, b) {
        (ValueView::Pair(h1, t1), ValueView::Pair(h2, t2)) => {
            lemma_equality_symmetric(*h1, *h2);
            lemma_equality_symmetric(*t1, *t2);
        },
        (ValueView::Vec(x), ValueView::Vec(y)) => {
            if x.len() == y.len() {
                assert forall|i: int| 0 <= i < x.len() implies values_equal(
                    #[trigger] x[i],
                    y[i],
                ) == values_equal(y[i], x[i]) by {
                    lemma_equality_symmetric(x[i], y[i]);
                }
            }
        },
        _ => {},
    }
}

/// Equality is transitive on all values.
pub proof fn lemma_equality_transitive(a: ValueView, b: ValueView, c: ValueView)
    requires
        values_equal(a, b),
        values_equal(b, c),
    ensures
        values_equal(a, c),
    decreases a,
{
    match (a, b, c) {
        (ValueView::Pair(h1, t1), ValueView::Pair(h2, t2), ValueView::Pair(h3, t3)) => {
            lemma_equality_transitive(*h1, *h2, *h3);
            lemma_equality_transitive(*t1, *t2, *t3);
        },
        (ValueView::Vec(x), ValueView::Vec(y), ValueView::Vec(z)) => {
            assert forall|i: int| 0 <= i < x.len() implies values_equal(#[trigger] x[i], z[i]) by {
                lemma_equality_transitive(x[i], y[i], z[i]);
            }
        },
        _ => {},
    }
}

/// A dictionary equals no dictionary, whatever the two hold; so it does
/// not equal itself either.
pub proof fn lemma_dict_never_equal(a: Seq<(Seq<char>, ValueView)>, b: Seq<(Seq<char>, ValueView)>)
    ensures
        !values_equal(ValueView::Dict(a), ValueView::Dict(b)),
        !values_equal(ValueView::Dict(a), ValueView::Dict(a)),
{
}

/// Two vectors of the same length whose elements are equal position by
/// position are equal.
pub proof fn lemma_vectors_equal_pairwise(x: Seq<ValueView>, y: Seq<ValueView>)
    requires
        x.len() == y.len(),
        forall|i: int| 0 <= i < x.len() ==> values_equal(#[trigger] x[i], y[i]),
    ensures
        values_equal(ValueView::Vec(x), ValueView::Vec(y)),
{
}

/// Two vectors of different lengths are not equal.
pub proof fn lemma_vectors_of_different_length(x: Seq<ValueView>, y: Seq<ValueView>)
    requires
        x.len() != y.len(),
    ensures
        !values_equal(ValueView::Vec(x), ValueView::Vec(y)),
{
}

/// Whether two lists of variants are the same.
fn kinds_equal(a: &Vec<Kind>, b: &Vec<Kind>) -> (r: bool)
    ensures
        r == (a@ == b@),
{
    if a.len() != b.len() {
        return false;
    }
    let mut i: usize = 0;
    while i < a.len()
        invariant
            i <= a.len(),
            a.len() == b.len(),
            forall|j: int| 0 <= j < i ==> a@[j] == b@[j],
        decreases a.len() - i,
    {
        if a[i] != b[i] {
            return false;
        }
        i += 1;
    }
    assert(a@ =~= b@);
    true
}

/// Whether two bodies are the same.
fn bodies_equal(a: &NativeBody, b: &NativeBody) -> (r: bool)
    ensures
        r == (a@ == b@),
{
    match (a, b) {
        (NativeBody::BoolNot, NativeBody::BoolNot) => true,
        (NativeBody::BoolAnd, NativeBody::BoolAnd) => true,
        (NativeBody::BoolOr, NativeBody::BoolOr) => true,
        (NativeBody::Host { id: i, params: p }, NativeBody::Host { id: j, params: q }) => *i == *j
            && kinds_equal(p, q),
        _ => false,
    }
}

impl PartialEq for Callable {
    fn eq(&self, other: &Callable) -> (r: bool) {
        match (self, other) {
            (Callable::Closure(x), Callable::Closure(y)) => *x == *y,
            (Callable::Native(f), Callable::Native(g)) => *f.name.0 == *g.name.0 && bodies_equal(
                &f.body,
                &g.body,
            ),
            _ => false,
        }
    }
}

impl PartialEqSpecImpl for Callable {
    open spec fn obeys_eq_spec() -> bool {
        true
    }

    open spec fn eq_spec(&self, other: &Callable) -> bool {
        callables_equal(self@, other@)
    }
}

/// Whether `a` equals `b`.
fn value_eq(a: &Value, b: &Value) -> (r: bool)
    ensures
        r == values_equal(a@, b@),
    decreases a,
{
    match (a, b) {
        (Value::Nil, Value::Nil) => true,
        (Value::Bool(x), Value::Bool(y)) => *x == *y,
        (Value::Char(x), Value::Char(y)) => *x == *y,
        (Value::Uint(x), Value::Uint(y)) => *x == *y,
        (Value::Int(x), Value::Int(y)) => *x == *y,
        (Value::Float(x), Value::Float(y)) => !x.is_nan() && !y.is_nan() && x.key() == y.key(),
        (Value::Str(x), Value::Str(y)) => **x == **y,
        (Value::Sym(x), Value::Sym(y)) => *x.0 == *y.0,
        (Value::Pair(p), Value::Pair(q)) => value_eq(&p.0, &q.0) && value_eq(&p.1, &q.1),
        (Value::Dict(_), Value::Dict(_)) => false,
        (Value::Vec(x), Value::Vec(y)) => {
            proof {
                lemma_view_of_vec(*x);
                lemma_view_of_vec(*y);
            }
            items_eq(&x.0, &y.0)
        },
        (Value::Callable(x), Value::Callable(y)) => x == y,
        _ => false,
    }
}

/// Whether the elements of `x` equal those of `y`, position by position.
fn items_eq(x: &Vec<Value>, y: &Vec<Value>) -> (r: bool)
    ensures
        r == items_equal(views(x@), views(y@)),
    decreases x,
{
    if x.len() != y.len() {
        return false;
    }
    let mut i: usize = 0;
    while i < x.len()
        invariant
            i <= x.len(),
            x.len() == y.len(),
            forall|j: int| 0 <= j < i ==> values_equal(#[trigger] views(x@)[j], views(y@)[j]),
        decreases x.len() - i,
    {
        proof {
            broadcast use vstd::std_specs::vec::group_vec_axioms;

        }
        if !value_eq(&x[i], &y[i]) {
            assert(!values_equal(views(x@)[i as int], views(y@)[i as int]));
            return false;
        }
        i += 1;
    }
    true
}

impl PartialEq for Value {
    fn eq(&self, other: &Value) -> (r: bool) {
        value_eq(self, other)
    }
}

impl PartialEqSpecImpl for Value {
    open spec fn obeys_eq_spec() -> bool {
        true
    }

    open spec fn eq_spec(&self, other: &Value) -> bool {
        values_equal(self@, other@)
    }
}

impl PartialEq for Pair {
    fn eq(&self, other: &Pair) -> (r: bool) {
        value_eq(&self.0, &other.0) && value_eq(&self.1, &other.1)
    }
}

impl PartialEqSpecImpl for Pair {
    open spec fn obeys_eq_spec() -> bool {
        true
    }

    open spec fn eq_spec(&self, other: &Pair) -> bool {
        values_equal(self.0@, other.0@) && values_equal(self.1@, other.1@)
    }
}

impl PartialEq for Vector {
    fn eq(&self, other: &Vector) -> (r: bool) {
        items_eq(&self.0, &other.0)
    }
}

impl PartialEqSpecImpl for Vector {
    open spec fn obeys_eq_spec() -> bool {
        true
    }

    open spec fn eq_spec(&self, other: &Vector) -> bool {
        items_equal(self@, other@)
    }
}

impl PartialEq for Dict {
    fn eq(&self, _other: &Dict) -> (r: bool) {
        false
    }
}

impl PartialEqSpecImpl for Dict {
    open spec fn obeys_eq_spec() -> bool {
        true
    }

    open spec fn eq_spec(&self, other: &Dict) -> bool {
        false
    }
}

} // verus!
