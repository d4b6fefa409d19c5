use lisp_value::eval47::builtins::DisplayBind;
use lisp_value::eval47::builtins::VmValue;
use lisp_value::eval47::builtins::DISPLAY_BIND;
use lisp_value::number::push_decimal;
use lisp_value::number::push_signed_decimal;
use lisp_value::text::char_less;
use lisp_value::text::push_text;
use lisp_value::text::same_text;
use lisp_value::value::Float;

#[test]
fn decimal_text_is_appended() {
    let mut out = String::from("n=");
    push_decimal(&mut out, 0);
    push_text(&mut out, ",");
    push_decimal(&mut out, 9);
    push_text(&mut out, ",");
    push_decimal(&mut out, 100);
    push_text(&mut out, ",");
    push_signed_decimal(&mut out, -100);
    push_text(&mut out, ",");
    push_signed_decimal(&mut out, 7);
    assert_eq!(out, "n=0,9,100,-100,7");
}

#[test]
fn texts_are_the_same_when_every_character_is() {
    assert!(same_text("", ""));
    assert!(same_text("abc", "abc"));
    assert!(!same_text("abc", "abd"));
    assert!(!same_text("abc", "ab"));
    assert!(!same_text("", "a"));
}

#[test]
fn characters_by_their_place_in_the_code_charts() {
    assert!(char_less('a', 'b'));
    assert!(!char_less('b', 'a'));
    assert!(!char_less('a', 'a'));
    assert!(char_less('~', '\u{a0}'));
}

#[test]
fn a_nan_is_told_by_its_bits() {
    let of = |x: f64| Float { bits: x.to_bits(), text: x.to_string() };
    assert!(of(f64::NAN).is_nan());
    assert!(of(-f64::NAN).is_nan());
    assert!(!of(f64::INFINITY).is_nan());
    assert!(!of(f64::NEG_INFINITY).is_nan());
    assert!(!of(0.0).is_nan());
    assert!(!of(-1.5).is_nan());
}

#[test]
fn keys_order_as_the_numbers_do() {
    let key = |x: f64| Float { bits: x.to_bits(), text: x.to_string() }.key();
    assert_eq!(key(0.0), 0);
    assert_eq!(key(-0.0), 0);
    assert!(key(-1.0) < key(-0.5));
    assert!(key(-0.5) < key(0.0));
    assert!(key(0.0) < key(5e-324));
    assert!(key(1.0) < key(2.0));
    assert!(key(f64::MAX) < key(f64::INFINITY));
    assert!(key(f64::NEG_INFINITY) < key(f64::MIN));
}

#[test]
fn the_binding_is_one_value() {
    let _binding: DisplayBind = DISPLAY_BIND;
    assert_eq!(DisplayBind::display_value(&VmValue::Int(1)), "1");
}
