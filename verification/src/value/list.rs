//! Lists: chains of cons cells built from sequences and walked back.

use sexpr_ir::gast::Handle;
use vstd::prelude::*;

use crate::value::views;
use crate::value::Pair;
use crate::value::Value;
use crate::value::ValueView;

verus! {

/// The proper list of `items`: a chain of cons cells nested to the right,
/// one cell for each item in order, that ends in `Nil`. The last item
/// stands in the innermost cell.
pub open spec fn list_of(items: Seq<ValueView>) -> ValueView
    decreases items.len(),
{
    if items.len() == 0 {
        ValueView::Nil
    } else {
        ValueView::Pair(Box::new(items[0]), Box::new(list_of(items.drop_first())))
    }
}

/// The heads of the cells of the chain that starts at `v`, in order; none
/// where `v` is no cell.
pub open spec fn chain_items(v: ValueView) -> Seq<ValueView>
    decreases v,
{
    match v {
        ValueView::Pair(head, tail) => seq![*head] + chain_items(*tail),
        _ => Seq::empty(),
    }
}

/// What the chain that starts at `v` ends in: the first tail that is no
/// cell, which is `v` itself where `v` is none.
pub open spec fn chain_end(v: ValueView) -> ValueView
    decreases v,
{
    match v {
        ValueView::Pair(_, tail) => chain_end(*tail),
        _ => v,
    }
}

/// Walking the list made of a sequence gives the sequence back, item for
/// item and in the same order, and the list ends in `Nil`.
pub proof fn lemma_list_round_trip(items: Seq<ValueView>)
    ensures
        chain_items(list_of(items)) == items,
        chain_end(list_of(items)) == ValueView::Nil,
    decreases items.len(),
{
    if items.len() > 0 {
        lemma_list_round_trip(items.drop_first());
    }
}

impl Value {
    /// The proper list of `items`, built from the back so that the last
    /// item becomes the innermost cell.
    pub fn from(items: &[Value]) -> (r: Value)
        ensures
            r@ == list_of(views(items@)),
    {
        let ghost all = views(items@);
        let mut list = Value::Nil;
        let mut k: usize = items.len();
        while k > 0
            invariant
                k <= items.len(),
                all == views(items@),
                list@ == list_of(all.skip(k as int)),
            decreases k,
        {
            k -= 1;
            proof {
                assert(all.skip(k as int).drop_first() =~= all.skip(k + 1));
            }
            list = Value::Pair(Handle::new(Pair(items[k].clone(), list)));
        }
        assert(all.skip(0) =~= all);
        list
    }

    /// The heads of the cells of the chain that starts at this value, in
    /// order; none where this value is no cell.
    pub fn to_vec(&self) -> (r: Vec<Value>)
        ensures
            views(r@) == chain_items(self@),
    {
        let mut heads: Vec<Value> = Vec::new();
        let mut this: &Value = self;
        loop
            invariant
                chain_items(self@) == views(heads@) + chain_items(this@),
            ensures
                views(heads@) == chain_items(self@),
            decreases this,
        {
            match this {
                Value::Pair(cell) => {
                    heads.push(cell.0.clone());
                    this = &cell.1;
                },
                _ => {
                    break ;
                },
            }
        }
        heads
    }
}

} // verus!
