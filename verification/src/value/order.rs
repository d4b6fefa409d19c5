//! The partial order of values.
//!
//! Only two values of the same variant can be ordered, and only where the
//! variant has a natural order: booleans, characters, integers,
//! floating-point numbers, strings, symbols and vectors. `Nil` is equal
//! to itself and not less. Everything else is unordered.

use std::cmp::Ordering;
use vstd::prelude::*;
use vstd::std_specs::cmp::PartialOrdSpecImpl;

use crate::text::char_code;
use crate::text::char_less;
use crate::text::compare_text;
use crate::text::lemma_text_order_equal;
use crate::text::lemma_text_order_reverses;
use crate::text::reverse_order;
use crate::text::text_order;
use crate::value::equality::values_equal;
use crate::value::float::float_is_nan;
use crate::value::float::float_key;
use crate::value::lemma_view_of_vec;
use crate::value::views;
use crate::value::Float;
use crate::value::Value;
use crate::value::ValueView;
use crate::value::Vector;

verus! {

/// The order that `less` and `greater` tell, of which at most one holds.
pub open spec fn order_of(less: bool, greater: bool) -> Ordering {
    if less {
        Ordering::Less
    } else if greater {
        Ordering::Greater
    } else {
        Ordering::Equal
    }
}

/// The order of two floating-point numbers as IEEE 754 has it: none where
/// either is a NaN, and otherwise that of the numbers, the two zeros being
/// equal.
pub open spec fn float_order(a: u64, b: u64) -> Option<Ordering> {
    if float_is_nan(a) || float_is_nan(b) {
        None
    } else {
        Some(order_of(float_key(a) < float_key(b), float_key(a) > float_key(b)))
    }
}

/// The order of two values, where they have one.
///
/// Booleans order `false` before `true`; characters by code point;
/// integers by value; floating-point numbers as IEEE 754 has it; strings
/// and symbols by their text. Two vectors are ordered element by element
/// (see `items_order`). `Nil` is equal to `Nil`. Cons cells, dictionaries,
/// callables and values of different variants are unordered.
pub open spec fn value_order(a: ValueView, b: ValueView) -> Option<Ordering>
    decreases a, 0int,
{
    match (a, b) {
        (ValueView::Nil, ValueView::Nil) => Some(Ordering::Equal),
        (ValueView::Bool(x), ValueView::Bool(y)) => Some(order_of(!x && y, x && !y)),
        (ValueView::Char(x), ValueView::Char(y)) => Some(
            order_of(char_code(x) < char_code(y), char_code(x) > char_code(y)),
        ),
        (ValueView::Uint(x), ValueView::Uint(y)) => Some(order_of(x < y, x > y)),
        (ValueView::Int(x), ValueView::Int(y)) => Some(order_of(x < y, x > y)),
        (ValueView::Float(x), ValueView::Float(y)) => float_order(x.bits, y.bits),
        (ValueView::Str(x), ValueView::Str(y)) => Some(text_order(x, y)),
        (ValueView::Sym(x), ValueView::Sym(y)) => Some(text_order(x.name, y.name)),
        (ValueView::Vec(x), ValueView::Vec(y)) => items_order(x, y, 0, Ordering::Equal),
        _ => None,
    }
}

/// The order of the contents of two vectors from position `from` on, when
/// the elements before it have given `so_far`.
///
/// The elements are compared pair by pair, as far as both vectors reach.
/// One unordered pair leaves the vectors unordered, wherever it stands.
/// Otherwise the first pair that is not equal decides; and where every
/// pair is equal, the shorter vector comes first, and two vectors of the
/// same length are equal.
pub open spec fn items_order(
    x: Seq<ValueView>,
    y: Seq<ValueView>,
    from: int,
    so_far: Ordering,
) -> Option<Ordering>
    decreases x, x.len() - from,
{
    if from < 0 || from >= x.len() || from >= y.len() {
        if so_far == Ordering::Equal {
            Some(order_of(x.len() < y.len(), x.len() > y.len()))
        } else {
            Some(so_far)
        }
    } else {
        match value_order(x[from], y[from]) {
            None => None,
            Some(here) => items_order(
                x,
                y,
                from + 1,
                if so_far == Ordering::Equal {
                    here
                } else {
                    so_far
                },
            ),
        }
    }
}

/// The order of two values seen from the other side, where they have one.
pub open spec fn reverse_of(o: Option<Ordering>) -> Option<Ordering> {
    match o {
        Some(order) => Some(reverse_order(order)),
        None => None,
    }
}

/// Where the contents of two vectors come out equal, nothing before
/// `from` had decided, the vectors are of one length, and every pair from
/// `from` on is equal.
proof fn lemma_items_order_equal(
    x: Seq<ValueView>,
    y: Seq<ValueView>,
    from: int,
    so_far: Ordering,
)
    requires
        0 <= from,
        items_order(x, y, from, so_far) == Some(Ordering::Equal),
    ensures
        so_far == Ordering::Equal,
        x.len() == y.len(),
        forall|i: int|
            from <= i < x.len() ==> value_order(#[trigger] x[i], y[i]) == Some(Ordering::Equal),
    decreases x.len() - from,
{
    if from < x.len() && from < y.len() {
        let here = value_order(x[from], y[from])->0;
        lemma_items_order_equal(
            x,
            y,
            from + 1,
            if so_far == Ordering::Equal {
                here
            } else {
                so_far
            },
        );
    }
}

/// The order agrees with equality: two values that are ordered as equal
/// are equal.
pub proof fn lemma_ordered_equal_are_equal(a: ValueView, b: ValueView)
    requires
        value_order(a, b) == Some(Ordering::Equal),
    ensures
        values_equal(a, b),
    decreases a,
{
    match (a, b) {
        (ValueView::Str(x), ValueView::Str(y)) => {
            lemma_text_order_equal(x, y);
        },
        (ValueView::Sym(x), ValueView::Sym(y)) => {
            lemma_text_order_equal(x.name, y.name);
        },
        (ValueView::Vec(x), ValueView::Vec(y)) => {
            lemma_items_order_equal(x, y, 0, Ordering::Equal);
            assert forall|i: int| 0 <= i < x.len() implies values_equal(#[trigger] x[i], y[i]) by {
                lemma_ordered_equal_are_equal(x[i], y[i]);
            }
        },
        _ => {},
    }
}

/// The contents of two vectors taken the other way round are in the
/// reverse order.
proof fn lemma_items_order_reverses(
    x: Seq<ValueView>,
    y: Seq<ValueView>,
    from: int,
    so_far: Ordering,
)
    requires
        0 <= from,
        forall|i: int|
            0 <= i < x.len() && 0 <= i < y.len() ==> value_order(y[i], #[trigger] x[i])
                == reverse_of(value_order(x[i], y[i])),
    ensures
        items_order(y, x, from, reverse_order(so_far)) == reverse_of(
            items_order(x, y, from, so_far),
        ),
    decreases x.len() - from,
{
    if from < x.len() && from < y.len() {
        match value_order(x[from], y[from]) {
            None => {},
            Some(here) => {
                lemma_items_order_reverses(
                    x,
                    y,
                    from + 1,
                    if so_far == Ordering::Equal {
                        here
                    } else {
                        so_far
                    },
                );
            },
        }
    }
}

/// Two values taken the other way round are in the reverse order, and
/// unordered where they were unordered.
pub proof fn lemma_order_reverses(a: ValueView, b: ValueView)
    ensures
        value_order(b, a) == reverse_of(value_order(a, b)),
    decreases a,
{
    match (a, b) {
        (ValueView::Str(x), ValueView::Str(y)) => {
            lemma_text_order_reverses(x, y);
        },
        (ValueView::Sym(x), ValueView::Sym(y)) => {
            lemma_text_order_reverses(x.name, y.name);
        },
        (ValueView::Vec(x), ValueView::Vec(y)) => {
            assert forall|i: int| 0 <= i < x.len() && 0 <= i < y.len() implies value_order(
                y[i],
                #[trigger] x[i],
            ) == reverse_of(value_order(x[i], y[i])) by {
                lemma_order_reverses(x[i], y[i]);
            }
            lemma_items_order_reverses(x, y, 0, Ordering::Equal);
        },
        _ => {},
    }
}

/// The order of two floating-point numbers.
fn float_cmp(a: &Float, b: &Float) -> (r: Option<Ordering>)
    ensures
        r == float_order(a.bits, b.bits),
{
    if a.is_nan() || b.is_nan() {
        None
    } else {
        let x = a.key();
        let y = b.key();
        if x < y {
            Some(Ordering::Less)
        } else if x > y {
            Some(Ordering::Greater)
        } else {
            Some(Ordering::Equal)
        }
    }
}

/// The order of `a` and `b`.
fn value_cmp(a: &Value, b: &Value) -> (r: Option<Ordering>)
    ensures
        r == value_order(a@, b@),
    decreases a,
{
    match (a, b) {
        (Value::Nil, Value::Nil) => Some(Ordering::Equal),
        (Value::Bool(x), Value::Bool(y)) => {
            if !*x && *y {
                Some(Ordering::Less)
            } else if *x && !*y {
                Some(Ordering::Greater)
            } else {
                Some(Ordering::Equal)
            }
        },
        (Value::Char(x), Value::Char(y)) => {
            if char_less(*x, *y) {
                Some(Ordering::Less)
            } else if char_less(*y, *x) {
                Some(Ordering::Greater)
            } else {
                Some(Ordering::Equal)
            }
        },
        (Value::Uint(x), Value::Uint(y)) => {
            if *x < *y {
                Some(Ordering::Less)
            } else if *x > *y {
                Some(Ordering::Greater)
            } else {
                Some(Ordering::Equal)
            }
        },
        (Value::Int(x), Value::Int(y)) => {
            if *x < *y {
                Some(Ordering::Less)
            } else if *x > *y {
                Some(Ordering::Greater)
            } else {
                Some(Ordering::Equal)
            }
        },
        (Value::Float(x), Value::Float(y)) => float_cmp(x, y),
        (Value::Str(x), Value::Str(y)) => Some(compare_text(x.as_str(), y.as_str())),
        (Value::Sym(x), Value::Sym(y)) => Some(compare_text(x.0.as_str(), y.0.as_str())),
        (Value::Vec(x), Value::Vec(y)) => {
            proof {
                lemma_view_of_vec(*x);
                lemma_view_of_vec(*y);
            }
            items_cmp(&x.0, &y.0)
        },
        _ => None,
    }
}

/// The order of the elements of `x` and `y`, pair by pair.
fn items_cmp(x: &Vec<Value>, y: &Vec<Value>) -> (r: Option<Ordering>)
    ensures
        r == items_order(views(x@), views(y@), 0, Ordering::Equal),
    decreases x,
{
    let mut so_far = Ordering::Equal;
    let mut i: usize = 0;
    while i < x.len() && i < y.len()
        invariant
            i <= x.len(),
            i <= y.len(),
            items_order(views(x@), views(y@), 0, Ordering::Equal) == items_order(
                views(x@),
                views(y@),
                i + 0,
                so_far,
            ),
        decreases x.len() - i,
    {
        proof {
            broadcast use vstd::std_specs::vec::group_vec_axioms;

        }
        match value_cmp(&x[i], &y[i]) {
            None => {
                return None;
            },
            Some(here) => {
                if let Ordering::Equal = so_far {
                    so_far = here;
                }
            },
        }
        i += 1;
    }
    if let Ordering::Equal = so_far {
        if x.len() < y.len() {
            Some(Ordering::Less)
        } else if x.len() > y.len() {
            Some(Ordering::Greater)
        } else {
            Some(Ordering::Equal)
        }
    } else {
        Some(so_far)
    }
}

impl PartialOrd for Value {
    fn partial_cmp(&self, other: &Value) -> (r: Option<Ordering>) {
        value_cmp(self, other)
    }
}

impl PartialOrdSpecImpl for Value {
    open spec fn obeys_partial_cmp_spec() -> bool {
        true
    }

    open spec fn partial_cmp_spec(&self, other: &Value) -> Option<Ordering> {
        value_order(self@, other@)
    }
}

impl PartialOrd for Vector {
    fn partial_cmp(&self, other: &Vector) -> (r: Option<Ordering>) {
        items_cmp(&self.0, &other.0)
    }
}

impl PartialOrdSpecImpl for Vector {
    open spec fn obeys_partial_cmp_spec() -> bool {
        true
    }

    open spec fn partial_cmp_spec(&self, other: &Vector) -> Option<Ordering> {
        items_order(self@, other@, 0, Ordering::Equal)
    }
}

} // verus!
