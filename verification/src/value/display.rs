//! The text of a value.

use sexpr_ir::gast::Handle;
use vstd::prelude::*;

use crate::number::decimal;
use crate::number::push_decimal;
use crate::number::push_signed_decimal;
use crate::number::signed_decimal;
use crate::text::push_text;
use crate::value::callable::Callable;
use crate::value::callable::CallableView;
use crate::value::entry_views;
use crate::value::lemma_view_of_dict;
use crate::value::lemma_view_of_vec;
use crate::value::views;
use crate::value::Dict;
use crate::value::Pair;
use crate::value::Value;
use crate::value::ValueView;
use crate::value::Vector;

verus! {

/// The text of a callable: `(closure N)` for the interpreted closure kept
/// under the number N, `(native NAME)` for a host function.
pub open spec fn render_callable(c: CallableView) -> Seq<char> {
    match c {
        CallableView::Closure(id) => "(closure "@ + decimal(id as nat) + ")"@,
        CallableView::Native(f) => "(native "@ + f.name.name + ")"@,
    }
}

/// The text of a value:
/// `nil`; `true` and `false`; the decimal text of a number; a string
/// between double quotes; the bare name of a symbol; `(char "c")` for a
/// character; `'(` .. `)` around a chain of cons cells; `(vec ` .. `)`
/// around the elements of a vector and `(dict ` .. `)` around the entries
/// of a dictionary, each separated by single spaces.
pub open spec fn render(v: ValueView) -> Seq<char>
    decreases v, 1int,
{
    match v {
        ValueView::Nil => "nil"@,
        ValueView::Bool(b) => if b {
            "true"@
        } else {
            "false"@
        },
        ValueView::Char(c) => "(char \""@.push(c) + "\")"@,
        ValueView::Uint(n) => decimal(n as nat),
        ValueView::Int(n) => signed_decimal(n as int),
        ValueView::Float(x) => x.text,
        ValueView::Str(s) => "\""@ + s + "\""@,
        ValueView::Sym(s) => s.name,
        ValueView::Pair(_, _) => "'("@ + render_chain(v) + ")"@,
        ValueView::Dict(entries) => "(dict "@ + render_entries(entries) + ")"@,
        ValueView::Vec(items) => "(vec "@ + render_items(items) + ")"@,
        ValueView::Callable(c) => render_callable(c),
    }
}

/// What stands between the brackets of a chain of cons cells that starts
/// at the cell `cell`: the text of its head; then, where the tail is a
/// cell, a space and the same of that cell; where the tail is `Nil`,
/// nothing; and otherwise ` . ` and the text of the tail.
pub open spec fn render_chain(cell: ValueView) -> Seq<char>
    decreases cell, 0int,
{
    match cell {
        ValueView::Pair(head, tail) => render(*head) + (match *tail {
            ValueView::Pair(_, _) => " "@ + render_chain(*tail),
            ValueView::Nil => Seq::empty(),
            _ => " . "@ + render(*tail),
        }),
        _ => Seq::empty(),
    }
}

/// The texts of `items`, in order, with a single space between each two
/// neighbours.
pub open spec fn render_items(items: Seq<ValueView>) -> Seq<char>
    decreases items, 0int,
{
    if items.len() == 0 {
        Seq::empty()
    } else if items.len() == 1 {
        render(items[0])
    } else {
        render_items(items.drop_last()) + " "@ + render(items.last())
    }
}

/// The texts of `entries`, in order, each written `'("key" . value)`, with
/// a single space between each two neighbours.
pub open spec fn render_entries(entries: Seq<(Seq<char>, ValueView)>) -> Seq<char>
    decreases entries, 0int,
{
    if entries.len() == 0 {
        Seq::empty()
    } else if entries.len() == 1 {
        render_entry(entries[0].0, entries[0].1)
    } else {
        render_entries(entries.drop_last()) + " "@ + render_entry(
            entries.last().0,
            entries.last().1,
        )
    }
}

/// The text of one dictionary entry: `'("key" . value)`.
pub open spec fn render_entry(key: Seq<char>, value: ValueView) -> Seq<char>
    decreases value, 2int,
{
    "'(\""@ + key + "\" . "@ + render(value) + ")"@
}

/// Appends the text of `c` to `out`.
fn write_callable(c: &Callable, out: &mut String)
    ensures
        final(out)@ == old(out)@ + render_callable(c@),
{
    match c {
        Callable::Closure(id) => {
            push_text(out, "(closure ");
            push_decimal(out, *id);
            push_text(out, ")");
        },
        Callable::Native(f) => {
            push_text(out, "(native ");
            push_text(out, f.name.0.as_str());
            push_text(out, ")");
        },
    }
}

/// Appends the text of `v` to `out`.
fn write_value(v: &Value, out: &mut String)
    ensures
        final(out)@ == old(out)@ + render(v@),
    decreases v,
{
    match v {
        Value::Nil => push_text(out, "nil"),
        Value::Bool(b) => {
            if *b {
                push_text(out, "true");
            } else {
                push_text(out, "false");
            }
        },
        Value::Char(c) => {
            push_text(out, "(char \"");
            out.push(*c);
            push_text(out, "\")");
        },
        Value::Uint(n) => push_decimal(out, *n),
        Value::Int(n) => push_signed_decimal(out, *n),
        Value::Float(x) => push_text(out, x.text.as_str()),
        Value::Str(s) => {
            push_text(out, "\"");
            push_text(out, s.as_str());
            push_text(out, "\"");
        },
        Value::Sym(s) => push_text(out, s.0.as_str()),
        Value::Pair(p) => write_pair(p, out),
        Value::Dict(d) => {
            proof {
                lemma_view_of_dict(*d);
            }
            push_text(out, "(dict ");
            write_entries(&d.0, out);
            push_text(out, ")");
        },
        Value::Vec(items) => {
            proof {
                lemma_view_of_vec(*items);
            }
            push_text(out, "(vec ");
            write_items(&items.0, out);
            push_text(out, ")");
        },
        Value::Callable(c) => write_callable(c, out),
    }
}

/// Appends the text of the chain of cons cells that starts at `p` to
/// `out`, walking the chain from cell to cell.
fn write_pair(p: &Pair, out: &mut String)
    ensures
        final(out)@ == old(out)@ + render(p.as_value()),
    decreases p,
{
    push_text(out, "'(");
    let ghost opened = out@;
    let ghost whole = p.as_value();
    let mut this: &Pair = p;
    let mut start = true;
    loop
        invariant_except_break
            opened + render_chain(whole) == out@ + (if start {
                Seq::<char>::empty()
            } else {
                " "@
            }) + render_chain(this.as_value()),
        invariant
            this == p || decreases_to!(p => this),
        ensures
            out@ == opened + render_chain(whole),
        decreases this,
    {
        let ghost before = out@;
        if !start {
            push_text(out, " ");
        }
        write_value(&this.0, out);
        match &this.1 {
            Value::Pair(t) => {
                assert(out@ + " "@ + render_chain(this.1@) =~= before + (if start {
                    Seq::<char>::empty()
                } else {
                    " "@
                }) + render_chain(this.as_value()));
                this = &**t;
                start = false;
            },
            Value::Nil => {
                assert(out@ =~= before + (if start {
                    Seq::<char>::empty()
                } else {
                    " "@
                }) + render_chain(this.as_value()));
                break ;
            },
            other => {
                push_text(out, " . ");
                write_value(other, out);
                assert(out@ =~= before + (if start {
                    Seq::<char>::empty()
                } else {
                    " "@
                }) + render_chain(this.as_value()));
                break ;
            },
        }
    }
    push_text(out, ")");
}

/// Appends the texts of `items` to `out`, with single spaces between them.
fn write_items(items: &Vec<Value>, out: &mut String)
    ensures
        final(out)@ == old(out)@ + render_items(views(items@)),
    decreases items,
{
    let ghost all = views(items@);
    let mut i: usize = 0;
    while i < items.len()
        invariant
            i <= items.len(),
            all == views(items@),
            out@ == old(out)@ + render_items(all.take(i as int)),
        decreases items.len() - i,
    {
        proof {
            broadcast use vstd::std_specs::vec::group_vec_axioms;

            assert(all.take(i + 1).drop_last() =~= all.take(i as int));
        }
        if i > 0 {
            push_text(out, " ");
        }
        write_value(&items[i], out);
        i += 1;
    }
    assert(all.take(i as int) =~= all);
}

/// Appends the texts of `entries` to `out`, with single spaces between
/// them.
fn write_entries(entries: &Vec<(Handle<String>, Value)>, out: &mut String)
    ensures
        final(out)@ == old(out)@ + render_entries(entry_views(entries@)),
    decreases entries,
{
    let ghost all = entry_views(entries@);
    let mut i: usize = 0;
    while i < entries.len()
        invariant
            i <= entries.len(),
            all == entry_views(entries@),
            out@ == old(out)@ + render_entries(all.take(i as int)),
        decreases entries.len() - i,
    {
        proof {
            broadcast use vstd::std_specs::vec::group_vec_axioms;

            assert(all.take(i + 1).drop_last() =~= all.take(i as int));
        }
        if i > 0 {
            push_text(out, " ");
        }
        let ghost spaced = out@;
        push_text(out, "'(\"");
        push_text(out, entries[i].0.as_str());
        push_text(out, "\" . ");
        write_value(&entries[i].1, out);
        push_text(out, ")");
        assert(out@ =~= spaced + render_entry(entries@[i as int].0@, entries@[i as int].1@));
        i += 1;
    }
    assert(all.take(i as int) =~= all);
}

impl Value {
    /// The text of this value.
    pub fn to_string(&self) -> (r: String)
        ensures
            r@ == render(self@),
    {
        let mut out = String::new();
        write_value(self, &mut out);
        out
    }
}

impl Pair {
    /// The text of the chain of cons cells that starts at this cell.
    pub fn to_string(&self) -> (r: String)
        ensures
            r@ == render(self.as_value()),
    {
        let mut out = String::new();
        write_pair(self, &mut out);
        out
    }
}

impl Vector {
    /// The text of this vector.
    pub fn to_string(&self) -> (r: String)
        ensures
            r@ == render(ValueView::Vec(self@)),
    {
        let mut out = String::new();
        push_text(&mut out, "(vec ");
        write_items(&self.0, &mut out);
        push_text(&mut out, ")");
        out
    }
}

impl Dict {
    /// The text of this dictionary.
    pub fn to_string(&self) -> (r: String)
        ensures
            r@ == render(ValueView::Dict(self@)),
    {
        let mut out = String::new();
        push_text(&mut out, "(dict ");
        write_entries(&self.0, &mut out);
        push_text(&mut out, ")");
        out
    }
}

} // verus!
