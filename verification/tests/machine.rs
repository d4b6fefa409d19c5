use lisp_value::eval47::builtins::DisplayBind;
use lisp_value::eval47::builtins::VmValue;
use lisp_value::value::Float;

fn float(x: f64) -> VmValue {
    VmValue::Float(Float { bits: x.to_bits(), text: x.to_string() })
}

#[test]
fn machine_scalars() {
    assert_eq!(DisplayBind::display_value(&VmValue::Int(-12)), "-12");
    assert_eq!(DisplayBind::display_value(&VmValue::Int(0)), "0");
    assert_eq!(DisplayBind::display_value(&float(0.5)), "0.5");
    assert_eq!(DisplayBind::display_value(&VmValue::Char('x')), "x");
    assert_eq!(DisplayBind::display_value(&VmValue::Bool(true)), "true");
    assert_eq!(DisplayBind::display_value(&VmValue::Bool(false)), "false");
}

#[test]
fn machine_closures() {
    let closure = VmValue::Closure { func_id: 3, captures: vec![VmValue::Int(1), VmValue::Bool(false)] };
    assert_eq!(DisplayBind::display_value(&closure), "(closure:3 captures=#(1, false))");
    let bare = VmValue::Closure { func_id: 0, captures: vec![] };
    assert_eq!(DisplayBind::display_value(&bare), "(closure:0 captures=#())");
    assert_eq!(DisplayBind::display_value(&VmValue::UnreadableClosure), "(unreadable closure)");
}

#[test]
fn machine_vectors() {
    let inner = VmValue::Vector(vec![VmValue::Char('a')]);
    let v = VmValue::Vector(vec![VmValue::Int(1), inner, VmValue::Text("s".to_string())]);
    assert_eq!(DisplayBind::display_value(&v), "#(1, #(a), s)");
    assert_eq!(DisplayBind::display_value(&VmValue::Vector(vec![])), "#()");
    assert_eq!(DisplayBind::display_value(&VmValue::UnreadableVector), "(unreadable vector)");
    assert_eq!(DisplayBind::display_value(&VmValue::OtherContainer), "");
}

#[test]
fn machine_objects() {
    assert_eq!(DisplayBind::display_value(&VmValue::Text("hello".to_string())), "hello");
    assert_eq!(DisplayBind::display_value(&VmValue::Object), "(object Object)");
    assert_eq!(DisplayBind::display_value(&VmValue::Other), "(non-displayable)");
    assert_eq!(DisplayBind::display_value(&VmValue::Unreadable), "(unreadable value)");
}

#[test]
fn display_writes_its_arguments_one_after_another() {
    let args = vec![VmValue::Text("n = ".to_string()), VmValue::Int(4), VmValue::Char('!')];
    assert_eq!(DisplayBind::call_rtlc(&args), "n = 4!");
    assert_eq!(DisplayBind::call_rtlc(&vec![]), "");
}
