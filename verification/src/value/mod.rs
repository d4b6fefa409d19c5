//! The runtime values, their mathematical views, and how they are copied
//! and told apart.
//!
//! Strings, symbols and cons cells are held through reference-counted
//! handles and never change once made. A `Vector` or a `Dict` is held by
//! value: it is what a container holds at one moment. A program that
//! shares a container between several holders or threads guards it with
//! its own locks, takes a snapshot under them, and hands the snapshot to
//! this library; so every value here is a finite tree, and comparing or
//! showing it always ends.

pub mod callable;
pub mod dict;
pub mod display;
pub mod equality;
pub mod float;
pub mod list;
pub mod order;
pub mod result;

use sexpr_ir::gast::symbol::Symbol;
use sexpr_ir::gast::Handle;
use vstd::prelude::*;

use crate::text::share;
use crate::value::callable::Callable;
use crate::value::callable::CallableView;

verus! {

/// `sexpr_ir::gast::symbol::Location`, the place in a source text that a
/// symbol was read from: the path of the text, the line, the column and
/// the position. All four fields are public, and the declaration leaves
/// them visible, so that the verifier reads them from the type itself and
/// nothing about them is taken on trust.
#[verifier::external_type_specification]
pub struct ExLocation(sexpr_ir::gast::symbol::Location);

/// `sexpr_ir::gast::symbol::Symbol`, an interned name with the place it was
/// read from. Both fields are public, and the declaration leaves them
/// visible, so that the verifier reads them from the type itself and
/// nothing about them is taken on trust.
#[verifier::external_type_specification]
pub struct ExSymbol(sexpr_ir::gast::symbol::Symbol);

/// A floating-point number, held as what this library reads of it: the
/// IEEE 754 binary64 bit pattern, by which it is compared, and its decimal
/// text, by which it is shown. Whoever makes one gives both, the text
/// being that of the number with these bits.
#[derive(Debug)]
pub struct Float {
    pub bits: u64,
    pub text: String,
}

/// A runtime value: exactly one of twelve variants, with no coercion
/// between them.
#[derive(Debug)]
pub enum Value {
    Nil,
    Bool(bool),
    Char(char),
    Uint(u64),
    Int(i64),
    Float(Float),
    Str(Handle<String>),
    Sym(Handle<Symbol>),
    Pair(Handle<Pair>),
    Dict(Dict),
    Vec(Vector),
    Callable(Callable),
}

/// A cons cell: a head and a tail, fixed when the cell is made. A chain of
/// cells that ends in `Nil` is a proper list; one that ends in any other
/// value that is no cell is an improper list.
#[derive(Debug)]
pub struct Pair(pub Value, pub Value);

/// The contents of a dictionary: its entries in the order in which it
/// walks them. A well-formed dictionary holds no key twice.
#[derive(Debug)]
pub struct Dict(pub Vec<(Handle<String>, Value)>);

/// The contents of a vector: its elements in order.
#[derive(Debug)]
pub struct Vector(pub Vec<Value>);

/// The variant of a value, without what it holds.
#[derive(Clone, Copy, Debug, PartialEq, Eq, Structural)]
pub enum Kind {
    Nil,
    Bool,
    Char,
    Uint,
    Int,
    Float,
    Str,
    Sym,
    Pair,
    Dict,
    Vec,
    Callable,
}

/// What a `Float` is to the contracts.
pub struct FloatView {
    pub bits: u64,
    pub text: Seq<char>,
}

/// What a symbol is to the contracts: its name and where it was read.
pub struct SymbolView {
    pub name: Seq<char>,
    pub path: Seq<char>,
    pub line: usize,
    pub column: usize,
    pub pos: usize,
}

/// What a `Value` is to the contracts: the same twelve variants over
/// mathematical sequences and texts.
pub enum ValueView {
    Nil,
    Bool(bool),
    Char(char),
    Uint(u64),
    Int(i64),
    Float(FloatView),
    Str(Seq<char>),
    Sym(SymbolView),
    Pair(Box<ValueView>, Box<ValueView>),
    Dict(Seq<(Seq<char>, ValueView)>),
    Vec(Seq<ValueView>),
    Callable(CallableView),
}

/// The view of a symbol.
pub open spec fn symbol_view(s: Symbol) -> SymbolView {
    SymbolView { name: s.0@, path: s.1.path@, line: s.1.line, column: s.1.colum, pos: s.1.pos }
}

impl View for Float {
    type V = FloatView;

    open spec fn view(&self) -> FloatView {
        FloatView { bits: self.bits, text: self.text@ }
    }
}

/// The view of a value, variant by variant.
pub open spec fn value_view(value: Value) -> ValueView
    decreases value,
{
    proof {
        broadcast use vstd::std_specs::vec::group_vec_axioms;

    }
    match value {
        Value::Nil => ValueView::Nil,
        Value::Bool(b) => ValueView::Bool(b),
        Value::Char(c) => ValueView::Char(c),
        Value::Uint(n) => ValueView::Uint(n),
        Value::Int(n) => ValueView::Int(n),
        Value::Float(x) => ValueView::Float(x@),
        Value::Str(s) => ValueView::Str(s@),
        Value::Sym(s) => ValueView::Sym(symbol_view(*s)),
        Value::Pair(p) => ValueView::Pair(Box::new(value_view(p.0)), Box::new(value_view(p.1))),
        Value::Dict(d) => ValueView::Dict(
            Seq::new(
                d.0@.len(),
                |i: int|
                    if 0 <= i < d.0@.len() {
                        (d.0@[i].0@, value_view(d.0@[i].1))
                    } else {
                        (Seq::empty(), ValueView::Nil)
                    },
            ),
        ),
        Value::Vec(v) => ValueView::Vec(
            Seq::new(
                v.0@.len(),
                |i: int|
                    if 0 <= i < v.0@.len() {
                        value_view(v.0@[i])
                    } else {
                        ValueView::Nil
                    },
            ),
        ),
        Value::Callable(c) => ValueView::Callable(c@),
    }
}

impl View for Value {
    type V = ValueView;

    open spec fn view(&self) -> ValueView {
        value_view(*self)
    }
}

impl View for Pair {
    type V = (ValueView, ValueView);

    open spec fn view(&self) -> (ValueView, ValueView) {
        (self.0@, self.1@)
    }
}

impl Pair {
    /// The view of the value that holds this cell.
    pub open spec fn as_value(&self) -> ValueView {
        ValueView::Pair(Box::new(self.0@), Box::new(self.1@))
    }
}

impl View for Vector {
    type V = Seq<ValueView>;

    open spec fn view(&self) -> Seq<ValueView> {
        views(self.0@)
    }
}

impl View for Dict {
    type V = Seq<(Seq<char>, ValueView)>;

    open spec fn view(&self) -> Seq<(Seq<char>, ValueView)> {
        entry_views(self.0@)
    }
}

/// The views of a sequence of values, in order.
pub open spec fn views(items: Seq<Value>) -> Seq<ValueView> {
    Seq::new(items.len(), |i: int| items[i]@)
}

/// The views of a sequence of dictionary entries, in order.
pub open spec fn entry_views(entries: Seq<(Handle<String>, Value)>) -> Seq<
    (Seq<char>, ValueView),
> {
    Seq::new(entries.len(), |i: int| (entries[i].0@, entries[i].1@))
}

/// A vector value is seen as the views of its elements.
pub proof fn lemma_view_of_vec(v: Vector)
    ensures
        Value::Vec(v)@ == ValueView::Vec(v@),
{
    assert(Value::Vec(v)@->Vec_0 =~= v@);
}

/// A dictionary value is seen as the views of its entries.
pub proof fn lemma_view_of_dict(d: Dict)
    ensures
        Value::Dict(d)@ == ValueView::Dict(d@),
{
    assert(Value::Dict(d)@->Dict_0 =~= d@);
}

impl ValueView {
    /// The variant of a value.
    pub open spec fn kind(self) -> Kind {
        match self {
            ValueView::Nil => Kind::Nil,
            ValueView::Bool(_) => Kind::Bool,
            ValueView::Char(_) => Kind::Char,
            ValueView::Uint(_) => Kind::Uint,
            ValueView::Int(_) => Kind::Int,
            ValueView::Float(_) => Kind::Float,
            ValueView::Str(_) => Kind::Str,
            ValueView::Sym(_) => Kind::Sym,
            ValueView::Pair(_, _) => Kind::Pair,
            ValueView::Dict(_) => Kind::Dict,
            ValueView::Vec(_) => Kind::Vec,
            ValueView::Callable(_) => Kind::Callable,
        }
    }
}

impl Clone for Float {
    fn clone(&self) -> (r: Self)
        ensures
            r@ == self@,
    {
        Float { bits: self.bits, text: self.text.clone() }
    }
}

/// A copy of each of `items`, in order.
fn clone_items(items: &Vec<Value>) -> (r: Vec<Value>)
    ensures
        views(r@) == views(items@),
    decreases items,
{
    let mut r: Vec<Value> = Vec::new();
    let mut i: usize = 0;
    while i < items.len()
        invariant
            i <= items.len(),
            r.len() == i,
            forall|j: int| 0 <= j < i ==> r@[j]@ == items@[j]@,
        decreases items.len() - i,
    {
        proof {
            broadcast use vstd::std_specs::vec::group_vec_axioms;

        }
        let item = items[i].clone();
        r.push(item);
        i += 1;
    }
    r
}

/// A copy of each of `entries`, in order.
fn clone_entries(entries: &Vec<(Handle<String>, Value)>) -> (r: Vec<(Handle<String>, Value)>)
    ensures
        entry_views(r@) == entry_views(entries@),
    decreases entries,
{
    let mut r: Vec<(Handle<String>, Value)> = Vec::new();
    let mut i: usize = 0;
    while i < entries.len()
        invariant
            i <= entries.len(),
            r.len() == i,
            forall|j: int|
                0 <= j < i ==> r@[j].0@ == entries@[j].0@ && r@[j].1@ == entries@[j].1@,
        decreases entries.len() - i,
    {
        proof {
            broadcast use vstd::std_specs::vec::group_vec_axioms;

        }
        let key = share(&entries[i].0);
        let value = entries[i].1.clone();
        r.push((key, value));
        i += 1;
    }
    r
}

impl Clone for Value {
    /// A value with the same view. The copy shares texts, symbols and
    /// cons cells with this value, and gets the contents of vectors and
    /// dictionaries copied.
    fn clone(&self) -> (r: Self)
        ensures
            r@ == self@,
        decreases self,
    {
        match self {
            Value::Nil => Value::Nil,
            Value::Bool(b) => Value::Bool(*b),
            Value::Char(c) => Value::Char(*c),
            Value::Uint(n) => Value::Uint(*n),
            Value::Int(n) => Value::Int(*n),
            Value::Float(x) => Value::Float(x.clone()),
            Value::Str(s) => Value::Str(share(s)),
            Value::Sym(s) => Value::Sym(share(s)),
            Value::Pair(p) => Value::Pair(share(p)),
            Value::Dict(d) => {
                let r = Dict(clone_entries(&d.0));
                proof {
                    lemma_view_of_dict(r);
                    lemma_view_of_dict(*d);
                }
                Value::Dict(r)
            },
            Value::Vec(v) => {
                let r = Vector(clone_items(&v.0));
                proof {
                    lemma_view_of_vec(r);
                    lemma_view_of_vec(*v);
                }
                Value::Vec(r)
            },
            Value::Callable(c) => Value::Callable(c.clone()),
        }
    }
}

impl Clone for Pair {
    fn clone(&self) -> (r: Self)
        ensures
            r@ == self@,
    {
        Pair(self.0.clone(), self.1.clone())
    }
}

impl Clone for Vector {
    fn clone(&self) -> (r: Self)
        ensures
            r@ == self@,
    {
        Vector(clone_items(&self.0))
    }
}

impl Clone for Dict {
    fn clone(&self) -> (r: Self)
        ensures
            r@ == self@,
    {
        Dict(clone_entries(&self.0))
    }
}

impl Value {
    /// The variant of this value.
    pub fn kind(&self) -> (k: Kind)
        ensures
            k == self@.kind(),
    {
        match self {
            Value::Nil => Kind::Nil,
            Value::Bool(_) => Kind::Bool,
            Value::Char(_) => Kind::Char,
            Value::Uint(_) => Kind::Uint,
            Value::Int(_) => Kind::Int,
            Value::Float(_) => Kind::Float,
            Value::Str(_) => Kind::Str,
            Value::Sym(_) => Kind::Sym,
            Value::Pair(_) => Kind::Pair,
            Value::Dict(_) => Kind::Dict,
            Value::Vec(_) => Kind::Vec,
            Value::Callable(_) => Kind::Callable,
        }
    }

    /// Whether this value is `Nil`.
    pub fn is_nil(&self) -> (b: bool)
        ensures
            b == (self@ is Nil),
    {
        matches!(self, Value::Nil)
    }

    /// Whether this value is a boolean.
    pub fn is_bool(&self) -> (b: bool)
        ensures
            b == (self@ is Bool),
    {
        matches!(self, Value::Bool(_))
    }

    /// Whether this value is a character.
    pub fn is_char(&self) -> (b: bool)
        ensures
            b == (self@ is Char),
    {
        matches!(self, Value::Char(_))
    }

    /// Whether this value is a signed integer.
    pub fn is_int(&self) -> (b: bool)
        ensures
            b == (self@ is Int),
    {
        matches!(self, Value::Int(_))
    }

    /// Whether this value is an unsigned integer.
    pub fn is_uint(&self) -> (b: bool)
        ensures
            b == (self@ is Uint),
    {
        matches!(self, Value::Uint(_))
    }

    /// Whether this value is a floating-point number.
    pub fn is_float(&self) -> (b: bool)
        ensures
            b == (self@ is Float),
    {
        matches!(self, Value::Float(_))
    }

    /// Whether this value is a string.
    pub fn is_str(&self) -> (b: bool)
        ensures
            b == (self@ is Str),
    {
        matches!(self, Value::Str(_))
    }

    /// Whether this value is a symbol.
    pub fn is_sym(&self) -> (b: bool)
        ensures
            b == (self@ is Sym),
    {
        matches!(self, Value::Sym(_))
    }

    /// Whether this value is a cons cell.
    pub fn is_pair(&self) -> (b: bool)
        ensures
            b == (self@ is Pair),
    {
        matches!(self, Value::Pair(_))
    }

    /// Whether this value is a dictionary.
    pub fn is_dict(&self) -> (b: bool)
        ensures
            b == (self@ is Dict),
    {
        matches!(self, Value::Dict(_))
    }

    /// Whether this value is a vector.
    pub fn is_vec(&self) -> (b: bool)
        ensures
            b == (self@ is Vec),
    {
        matches!(self, Value::Vec(_))
    }

    /// Whether this value is a callable.
    pub fn is_callable(&self) -> (b: bool)
        ensures
            b == (self@ is Callable),
    {
        matches!(self, Value::Callable(_))
    }
}

} // verus!
