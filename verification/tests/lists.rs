use lisp_value::value::Dict;
use lisp_value::value::Kind;
use lisp_value::value::Pair;
use lisp_value::value::Value;
use lisp_value::value::Vector;
use sexpr_ir::gast::Handle;

fn text(s: &str) -> Value {
    Value::Str(Handle::new(s.to_string()))
}

#[test]
fn the_empty_sequence_gives_nil() {
    let list = Value::from(&[][..]);
    assert!(list.is_nil());
    assert!(list.to_vec().is_empty());
}

#[test]
fn the_last_item_stands_in_the_innermost_cell() {
    let list = Value::from(&[Value::Int(1), Value::Int(2)][..]);
    match &list {
        Value::Pair(outer) => {
            assert_eq!(outer.0, Value::Int(1));
            match &outer.1 {
                Value::Pair(inner) => {
                    assert_eq!(inner.0, Value::Int(2));
                    assert!(inner.1.is_nil());
                }
                other => panic!("no cell: {:?}", other),
            }
        }
        other => panic!("no cell: {:?}", other),
    }
}

#[test]
fn a_list_walked_back_gives_the_sequence() {
    let items = vec![
        Value::Int(1),
        text("two"),
        Value::Nil,
        Value::from(&[Value::Uint(4), Value::Uint(5)][..]),
        Value::Vec(Vector(vec![Value::Char('6')])),
    ];
    let list = Value::from(&items[..]);
    let back = list.to_vec();
    assert_eq!(back.len(), items.len());
    for i in 0..items.len() {
        assert_eq!(back[i], items[i]);
    }
}

#[test]
fn walking_stops_at_the_first_tail_that_is_no_cell() {
    let chain = Value::Pair(Handle::new(Pair(
        Value::Int(1),
        Value::Pair(Handle::new(Pair(Value::Int(2), Value::Int(3)))),
    )));
    let heads = chain.to_vec();
    assert_eq!(heads.len(), 2);
    assert_eq!(heads[0], Value::Int(1));
    assert_eq!(heads[1], Value::Int(2));
    assert!(Value::Int(3).to_vec().is_empty());
}

#[test]
fn each_value_knows_its_variant() {
    let all = vec![
        (Value::Nil, Kind::Nil),
        (Value::Bool(true), Kind::Bool),
        (Value::Char('c'), Kind::Char),
        (Value::Uint(1), Kind::Uint),
        (Value::Int(1), Kind::Int),
        (text("s"), Kind::Str),
        (Value::from(&[Value::Nil][..]), Kind::Pair),
        (Value::Dict(Dict::new()), Kind::Dict),
        (Value::Vec(Vector(vec![])), Kind::Vec),
    ];
    for (value, kind) in &all {
        assert_eq!(value.kind(), *kind);
        assert_eq!(value.is_nil(), *kind == Kind::Nil);
        assert_eq!(value.is_bool(), *kind == Kind::Bool);
        assert_eq!(value.is_char(), *kind == Kind::Char);
        assert_eq!(value.is_uint(), *kind == Kind::Uint);
        assert_eq!(value.is_int(), *kind == Kind::Int);
        assert_eq!(value.is_float(), *kind == Kind::Float);
        assert_eq!(value.is_str(), *kind == Kind::Str);
        assert_eq!(value.is_sym(), *kind == Kind::Sym);
        assert_eq!(value.is_pair(), *kind == Kind::Pair);
        assert_eq!(value.is_dict(), *kind == Kind::Dict);
        assert_eq!(value.is_vec(), *kind == Kind::Vec);
        assert_eq!(value.is_callable(), *kind == Kind::Callable);
    }
}

#[test]
fn a_dictionary_keeps_each_key_once() {
    let mut d = Dict::new();
    assert_eq!(d.len(), 0);
    assert!(d.get("a").is_none());
    assert!(d.insert(Handle::new("a".to_string()), Value::Int(1)).is_none());
    assert!(d.insert(Handle::new("b".to_string()), Value::Int(2)).is_none());
    assert_eq!(d.len(), 2);
    assert_eq!(d.get("a"), Some(&Value::Int(1)));
    assert_eq!(d.get("b"), Some(&Value::Int(2)));
    assert!(d.get("c").is_none());
    let previous = d.insert(Handle::new("a".to_string()), Value::Int(3));
    assert_eq!(previous, Some(Value::Int(1)));
    assert_eq!(d.len(), 2);
    assert_eq!(d.get("a"), Some(&Value::Int(3)));
    assert_eq!(d.to_string(), "(dict '(\"a\" . 3) '(\"b\" . 2))");
}
