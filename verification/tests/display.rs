use lisp_value::value::callable::Callable;
use lisp_value::value::Dict;
use lisp_value::value::Float;
use lisp_value::value::Pair;
use lisp_value::value::Value;
use lisp_value::value::Vector;
use sexpr_ir::gast::symbol::Symbol;
use sexpr_ir::gast::Handle;

fn text(s: &str) -> Value {
    Value::Str(Handle::new(s.to_string()))
}

fn sym(s: &str) -> Value {
    Value::Sym(Handle::new(Symbol::new(s)))
}

fn float(x: f64) -> Value {
    Value::Float(Float { bits: x.to_bits(), text: x.to_string() })
}

fn cons(head: Value, tail: Value) -> Value {
    Value::Pair(Handle::new(Pair(head, tail)))
}

#[test]
fn a_list_of_three_numbers_reads_as_a_quoted_list() {
    let list = Value::from(&[Value::Int(1), Value::Int(2), Value::Int(3)][..]);
    assert_eq!(list.to_string(), "'(1 2 3)");
}

#[test]
fn nil_and_booleans() {
    assert_eq!(Value::Nil.to_string(), "nil");
    assert_eq!(Value::Bool(true).to_string(), "true");
    assert_eq!(Value::Bool(false).to_string(), "false");
}

#[test]
fn unsigned_integers_in_decimal() {
    assert_eq!(Value::Uint(0).to_string(), "0");
    assert_eq!(Value::Uint(7).to_string(), "7");
    assert_eq!(Value::Uint(10).to_string(), "10");
    assert_eq!(Value::Uint(1234567890).to_string(), "1234567890");
    assert_eq!(Value::Uint(u64::MAX).to_string(), "18446744073709551615");
}

#[test]
fn signed_integers_in_decimal() {
    assert_eq!(Value::Int(0).to_string(), "0");
    assert_eq!(Value::Int(42).to_string(), "42");
    assert_eq!(Value::Int(-1).to_string(), "-1");
    assert_eq!(Value::Int(-305).to_string(), "-305");
    assert_eq!(Value::Int(i64::MAX).to_string(), "9223372036854775807");
    assert_eq!(Value::Int(i64::MIN).to_string(), "-9223372036854775808");
}

#[test]
fn floats_show_their_decimal_text() {
    assert_eq!(float(1.5).to_string(), "1.5");
    assert_eq!(float(-0.25).to_string(), "-0.25");
    assert_eq!(float(3.0).to_string(), "3");
}

#[test]
fn strings_are_quoted_and_symbols_bare() {
    assert_eq!(text("hello").to_string(), "\"hello\"");
    assert_eq!(text("").to_string(), "\"\"");
    assert_eq!(sym("car").to_string(), "car");
}

#[test]
fn characters_are_tagged() {
    assert_eq!(Value::Char('a').to_string(), "(char \"a\")");
    assert_ne!(Value::Char('a').to_string(), text("a").to_string());
}

#[test]
fn a_single_cell_that_ends_in_nil() {
    assert_eq!(cons(Value::Int(1), Value::Nil).to_string(), "'(1)");
}

#[test]
fn a_dotted_pair() {
    assert_eq!(cons(Value::Int(1), Value::Int(2)).to_string(), "'(1 . 2)");
}

#[test]
fn an_improper_list() {
    let list = cons(Value::Int(1), cons(Value::Int(2), sym("rest")));
    assert_eq!(list.to_string(), "'(1 2 . rest)");
}

#[test]
fn a_list_within_a_list() {
    let inner = Value::from(&[Value::Int(2), Value::Int(3)][..]);
    let list = Value::from(&[Value::Int(1), inner, Value::Int(4)][..]);
    assert_eq!(list.to_string(), "'(1 '(2 3) 4)");
}

#[test]
fn a_cell_shows_as_the_value_that_holds_it() {
    let cell = Pair(text("a"), Value::Nil);
    assert_eq!(cell.to_string(), "'(\"a\")");
    let cell = Pair(Value::Nil, Value::Bool(true));
    assert_eq!(cell.to_string(), "'(nil . true)");
}

#[test]
fn vectors() {
    let v = Vector(vec![Value::Int(1), Value::Int(2)]);
    assert_eq!(v.to_string(), "(vec 1 2)");
    assert_eq!(Value::Vec(v).to_string(), "(vec 1 2)");
    assert_eq!(Vector(vec![text("x")]).to_string(), "(vec \"x\")");
    assert_eq!(Vector(vec![]).to_string(), "(vec )");
}

#[test]
fn dictionaries() {
    let mut d = Dict::new();
    assert_eq!(d.to_string(), "(dict )");
    d.insert(Handle::new("a".to_string()), Value::Int(1));
    assert_eq!(d.to_string(), "(dict '(\"a\" . 1))");
    d.insert(Handle::new("b".to_string()), Value::Vec(Vector(vec![Value::Nil])));
    assert_eq!(d.to_string(), "(dict '(\"a\" . 1) '(\"b\" . (vec nil)))");
    assert_eq!(Value::Dict(d).to_string(), "(dict '(\"a\" . 1) '(\"b\" . (vec nil)))");
}

#[test]
fn closures_show_their_number() {
    assert_eq!(Value::Callable(Callable::Closure(12)).to_string(), "(closure 12)");
}

#[test]
fn a_copy_reads_as_what_it_copies() {
    let mut d = Dict::new();
    d.insert(Handle::new("k".to_string()), float(2.5));
    let v = Value::Vec(Vector(vec![
        Value::Dict(d),
        cons(sym("a"), text("b")),
        Value::Char('z'),
        Value::Callable(Callable::Closure(1)),
    ]));
    let copy = v.clone();
    assert_eq!(copy.to_string(), v.to_string());
    assert_eq!(copy.to_string(), "(vec (dict '(\"k\" . 2.5)) '(a . \"b\") (char \"z\") (closure 1))");
}
