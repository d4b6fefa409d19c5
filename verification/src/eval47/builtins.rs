//! The `display` builtin of the bytecode machine: the text that it writes
//! for the machine's values.

use vstd::prelude::*;

use crate::number::decimal;
use crate::number::push_decimal;
use crate::number::push_signed_decimal;
use crate::number::signed_decimal;
use crate::text::push_text;
use crate::value::Float;
use crate::value::FloatView;

verus! {

/// The binding of `display`.
#[derive(Debug)]
pub struct DisplayBind;

/// A value of the bytecode machine, as far as `display` reads it.
#[derive(Debug)]
pub enum VmValue {
    Int(i64),
    Float(Float),
    Char(char),
    Bool(bool),
    /// A closure that may be read: the number of its function, and what
    /// it has captured.
    Closure { func_id: usize, captures: Vec<VmValue> },
    /// A closure that may not be read now.
    UnreadableClosure,
    /// A vector that may be read.
    Vector(Vec<VmValue>),
    /// A vector that may not be read now.
    UnreadableVector,
    /// A container that is neither a closure nor a vector.
    OtherContainer,
    /// A string that may be read.
    Text(String),
    /// An object that may be read.
    Object,
    /// Anything else that may be read.
    Other,
    /// A value, no container, that may not be read now.
    Unreadable,
}

/// What a `VmValue` is to the contracts.
pub enum VmValueView {
    Int(i64),
    Float(FloatView),
    Char(char),
    Bool(bool),
    Closure { func_id: usize, captures: Seq<VmValueView> },
    UnreadableClosure,
    Vector(Seq<VmValueView>),
    UnreadableVector,
    OtherContainer,
    Text(Seq<char>),
    Object,
    Other,
    Unreadable,
}

/// The view of a machine value, variant by variant.
pub open spec fn vm_value_view(value: VmValue) -> VmValueView
    decreases value,
{
    proof {
        broadcast use vstd::std_specs::vec::group_vec_axioms;

    }
    match value {
        VmValue::Int(n) => VmValueView::Int(n),
        VmValue::Float(x) => VmValueView::Float(x@),
        VmValue::Char(c) => VmValueView::Char(c),
        VmValue::Bool(b) => VmValueView::Bool(b),
        VmValue::Closure { func_id, captures } => VmValueView::Closure {
            func_id,
            captures: Seq::new(
                captures@.len(),
                |i: int|
                    if 0 <= i < captures@.len() {
                        vm_value_view(captures@[i])
                    } else {
                        VmValueView::Other
                    },
            ),
        },
        VmValue::UnreadableClosure => VmValueView::UnreadableClosure,
        VmValue::Vector(items) => VmValueView::Vector(
            Seq::new(
                items@.len(),
                |i: int|
                    if 0 <= i < items@.len() {
                        vm_value_view(items@[i])
                    } else {
                        VmValueView::Other
                    },
            ),
        ),
        VmValue::UnreadableVector => VmValueView::UnreadableVector,
        VmValue::OtherContainer => VmValueView::OtherContainer,
        VmValue::Text(s) => VmValueView::Text(s@),
        VmValue::Object => VmValueView::Object,
        VmValue::Other => VmValueView::Other,
        VmValue::Unreadable => VmValueView::Unreadable,
    }
}

impl View for VmValue {
    type V = VmValueView;

    open spec fn view(&self) -> VmValueView {
        vm_value_view(*self)
    }
}

/// The views of a sequence of machine values, in order.
pub open spec fn vm_views(items: Seq<VmValue>) -> Seq<VmValueView> {
    Seq::new(items.len(), |i: int| items[i]@)
}

/// The text that `display` writes for one value: a number in decimal, a
/// character or a string as it is, `true` or `false`; a closure as
/// `(closure:N captures=#(..))` and a vector as `#(..)`, with `, ` between
/// what they hold; nothing for any other container; and a word in round
/// brackets for what cannot be shown.
pub open spec fn vm_text(v: VmValueView) -> Seq<char>
    decreases v, 1int,
{
    match v {
        VmValueView::Int(n) => signed_decimal(n as int),
        VmValueView::Float(x) => x.text,
        VmValueView::Char(c) => seq![c],
        VmValueView::Bool(b) => if b {
            "true"@
        } else {
            "false"@
        },
        VmValueView::Closure { func_id, captures } => "(closure:"@ + decimal(func_id as nat)
            + " captures=#("@ + vm_texts(captures) + "))"@,
        VmValueView::UnreadableClosure => "(unreadable closure)"@,
        VmValueView::Vector(items) => "#("@ + vm_texts(items) + ")"@,
        VmValueView::UnreadableVector => "(unreadable vector)"@,
        VmValueView::OtherContainer => Seq::empty(),
        VmValueView::Text(s) => s,
        VmValueView::Object => "(object Object)"@,
        VmValueView::Other => "(non-displayable)"@,
        VmValueView::Unreadable => "(unreadable value)"@,
    }
}

/// The texts of `items`, in order, with `, ` between each two neighbours.
pub open spec fn vm_texts(items: Seq<VmValueView>) -> Seq<char>
    decreases items, 0int,
{
    if items.len() == 0 {
        Seq::empty()
    } else if items.len() == 1 {
        vm_text(items[0])
    } else {
        vm_texts(items.drop_last()) + ", "@ + vm_text(items.last())
    }
}

/// The texts of `args`, in order, with nothing between them.
pub open spec fn vm_display(args: Seq<VmValueView>) -> Seq<char>
    decreases args.len(),
{
    if args.len() == 0 {
        Seq::empty()
    } else {
        vm_display(args.drop_last()) + vm_text(args.last())
    }
}

/// A closure is seen as the views of what it has captured.
proof fn lemma_view_of_closure(func_id: usize, captures: Vec<VmValue>)
    ensures
        (VmValue::Closure { func_id, captures })@ == (VmValueView::Closure {
            func_id,
            captures: vm_views(captures@),
        }),
{
    assert((VmValue::Closure { func_id, captures })@->captures =~= vm_views(captures@));
}

/// A vector is seen as the views of its elements.
proof fn lemma_view_of_vector(items: Vec<VmValue>)
    ensures
        VmValue::Vector(items)@ == VmValueView::Vector(vm_views(items@)),
{
    assert(VmValue::Vector(items)@->Vector_0 =~= vm_views(items@));
}

/// Appends the text of `v` to `out`.
fn write_vm_value(v: &VmValue, out: &mut String)
    ensures
        final(out)@ == old(out)@ + vm_text(v@),
    decreases v,
{
    match v {
        VmValue::Int(n) => push_signed_decimal(out, *n),
        VmValue::Float(x) => push_text(out, x.text.as_str()),
        VmValue::Char(c) => out.push(*c),
        VmValue::Bool(b) => {
            if *b {
                push_text(out, "true");
            } else {
                push_text(out, "false");
            }
        },
        VmValue::Closure { func_id, captures } => {
            proof {
                lemma_view_of_closure(*func_id, *captures);
            }
            push_text(out, "(closure:");
            push_decimal(out, *func_id as u64);
            push_text(out, " captures=#(");
            write_vm_items(captures, out);
            push_text(out, "))");
        },
        VmValue::UnreadableClosure => push_text(out, "(unreadable closure)"),
        VmValue::Vector(items) => {
            proof {
                lemma_view_of_vector(*items);
            }
            push_text(out, "#(");
            write_vm_items(items, out);
            push_text(out, ")");
        },
        VmValue::UnreadableVector => push_text(out, "(unreadable vector)"),
        VmValue::OtherContainer => {},
        VmValue::Text(s) => push_text(out, s.as_str()),
        VmValue::Object => push_text(out, "(object Object)"),
        VmValue::Other => push_text(out, "(non-displayable)"),
        VmValue::Unreadable => push_text(out, "(unreadable value)"),
    }
}

/// Appends the texts of `items` to `out`, with `, ` between them.
fn write_vm_items(items: &Vec<VmValue>, out: &mut String)
    ensures
        final(out)@ == old(out)@ + vm_texts(vm_views(items@)),
    decreases items,
{
    let ghost all = vm_views(items@);
    let mut i: usize = 0;
    while i < items.len()
        invariant
            i <= items.len(),
            all == vm_views(items@),
            out@ == old(out)@ + vm_texts(all.take(i as int)),
        decreases items.len() - i,
    {
        proof {
            broadcast use vstd::std_specs::vec::group_vec_axioms;

            assert(all.take(i + 1).drop_last() =~= all.take(i as int));
        }
        if i > 0 {
            push_text(out, ", ");
        }
        write_vm_value(&items[i], out);
        i += 1;
    }
    assert(all.take(i as int) =~= all);
}

impl DisplayBind {
    /// The text that `display` writes for one value.
    pub fn display_value(value: &VmValue) -> (r: String)
        ensures
            r@ == vm_text(value@),
    {
        let mut out = String::new();
        write_vm_value(value, &mut out);
        out
    }

    /// The text that a call of `display` on `args` writes: the text of
    /// each argument in order, with nothing between them.
    pub fn call_rtlc(args: &Vec<VmValue>) -> (r: String)
        ensures
            r@ == vm_display(vm_views(args@)),
    {
        let ghost all = vm_views(args@);
        let mut out = String::new();
        let mut i: usize = 0;
        while i < args.len()
            invariant
                i <= args.len(),
                all == vm_views(args@),
                out@ == vm_display(all.take(i as int)),
            decreases args.len() - i,
        {
            proof {
                assert(all.take(i + 1).drop_last() =~= all.take(i as int));
            }
            write_vm_value(&args[i], &mut out);
            i += 1;
        }
        assert(all.take(i as int) =~= all);
        out
    }
}

/// The one binding of `display`.
pub const DISPLAY_BIND: DisplayBind = DisplayBind;

} // verus!
