use countdown::calculator::{
    key_style, ops_of_label, Calculator, Evaluation, Key, KeyStyle, Ops, Shortcut,
};
use countdown::display::{signed_decimal_string, Paint};

fn state(calc: &Calculator) -> (String, String, Ops, String) {
    (
        calc.line().to_string(),
        calc.operand().to_string(),
        calc.operation(),
        calc.display().to_string(),
    )
}

fn expect(calc: &Calculator, line: &str, operand: &str, operation: Ops, display: &str) {
    assert_eq!(
        state(calc),
        (line.to_string(), operand.to_string(), operation, display.to_string())
    );
}

fn parts(asked: Option<Evaluation>) -> Option<(String, String, Ops)> {
    asked.map(|e| (e.old, e.new, e.operation))
}

#[test]
fn a_new_calculator_shows_zero() {
    let calc = Calculator::new();
    expect(&calc, "0", "0", Ops::NoOp, "0");
}

#[test]
fn numbers_build_the_line() {
    let mut calc = Calculator::new();
    assert!(calc.press(Key::Number(1)).is_none());
    expect(&calc, "1", "0", Ops::NoOp, "1");
    calc.press(Key::Number(2));
    expect(&calc, "12", "0", Ops::NoOp, "12");
    calc.press(Key::Number(0));
    expect(&calc, "120", "0", Ops::NoOp, "120");
    calc.press(Key::Number(-7));
    expect(&calc, "120-7", "0", Ops::NoOp, "120-7");
    calc.press(Key::Number(i32::MIN));
    expect(&calc, "120-7-2147483648", "0", Ops::NoOp, "120-7-2147483648");
}

#[test]
fn a_zero_on_a_zero_display_stays_one_zero() {
    let mut calc = Calculator::new();
    calc.press(Key::Number(0));
    expect(&calc, "0", "0", Ops::NoOp, "0");
    calc.press(Key::Number(0));
    expect(&calc, "0", "0", Ops::NoOp, "0");
    calc.press(Key::Number(5));
    expect(&calc, "5", "0", Ops::NoOp, "5");
}

#[test]
fn the_line_takes_one_dot() {
    let mut calc = Calculator::new();
    assert!(calc.press(Key::Dot).is_none());
    expect(&calc, "0.", "0", Ops::NoOp, "0.");
    calc.press(Key::Dot);
    expect(&calc, "0.", "0", Ops::NoOp, "0.");
    calc.press(Key::Number(5));
    calc.press(Key::Dot);
    expect(&calc, "0.5", "0", Ops::NoOp, "0.5");
}

#[test]
fn an_arithmetic_key_puts_the_display_aside() {
    for op in [Ops::Add, Ops::Sub, Ops::Mul, Ops::Div] {
        let mut calc = Calculator::new();
        calc.press(Key::Number(4));
        calc.press(Key::Number(2));
        assert!(calc.press(Key::Op(op)).is_none());
        expect(&calc, "42", "42", op, "0");
        calc.press(Key::Number(8));
        expect(&calc, "8", "42", op, "8");
    }
}

#[test]
fn the_result_key_hands_out_the_operands() {
    let mut calc = Calculator::new();
    calc.press(Key::Number(1));
    calc.press(Key::Number(2));
    calc.press(Key::Dot);
    calc.press(Key::Number(5));
    calc.press(Key::Op(Ops::Add));
    calc.press(Key::Number(3));
    let asked = calc.press(Key::Op(Ops::Eq));
    assert_eq!(parts(asked), Some(("12.5".to_string(), "3".to_string(), Ops::Add)));
    expect(&calc, "0", "12.5", Ops::NoOp, "3");
    calc.show_result("15.5");
    expect(&calc, "0", "12.5", Ops::NoOp, "15.5");
    calc.press(Key::Number(7));
    expect(&calc, "07", "12.5", Ops::NoOp, "07");
}

#[test]
fn a_result_without_operation_hands_out_the_display() {
    let mut calc = Calculator::new();
    calc.press(Key::Number(9));
    let asked = calc.press(Key::Op(Ops::Eq));
    assert_eq!(parts(asked), Some(("0".to_string(), "9".to_string(), Ops::NoOp)));
}

#[test]
fn the_back_key_takes_the_last_character() {
    let mut calc = Calculator::new();
    calc.press(Key::Number(1));
    calc.press(Key::Number(2));
    calc.press(Key::Number(3));
    assert!(calc.press(Key::Op(Ops::Back)).is_none());
    expect(&calc, "12", "0", Ops::NoOp, "12");
    calc.press(Key::Op(Ops::Back));
    expect(&calc, "1", "0", Ops::NoOp, "1");
    calc.press(Key::Op(Ops::Back));
    expect(&calc, "", "0", Ops::NoOp, "0");
    calc.press(Key::Op(Ops::Back));
    expect(&calc, "", "0", Ops::NoOp, "0");
}

#[test]
fn the_back_key_counts_the_bytes_of_the_display() {
    let mut calc = Calculator::new();
    calc.press(Key::Number(1));
    calc.press(Key::Number(2));
    calc.show_result("é");
    calc.press(Key::Op(Ops::Back));
    expect(&calc, "1", "0", Ops::NoOp, "1");
    calc.show_result("7");
    calc.press(Key::Op(Ops::Back));
    expect(&calc, "", "0", Ops::NoOp, "0");
    calc.show_result("");
    calc.press(Key::Op(Ops::Back));
    expect(&calc, "", "0", Ops::NoOp, "0");
}

#[test]
fn the_clear_keys_forget() {
    let mut calc = Calculator::new();
    calc.press(Key::Number(5));
    calc.press(Key::Op(Ops::Mul));
    calc.press(Key::Number(6));
    assert!(calc.press(Key::Op(Ops::C)).is_none());
    expect(&calc, "0", "5", Ops::Mul, "0");
    calc.press(Key::Number(6));
    assert!(calc.press(Key::Op(Ops::CE)).is_none());
    expect(&calc, "0", "", Ops::Mul, "0");
    let asked = calc.press(Key::Op(Ops::Eq));
    assert_eq!(parts(asked), Some(("".to_string(), "0".to_string(), Ops::Mul)));
}

#[test]
fn a_key_without_operation_does_nothing() {
    let mut calc = Calculator::new();
    calc.press(Key::Number(5));
    calc.press(Key::Op(Ops::Sub));
    calc.press(Key::Number(6));
    let before = state(&calc);
    assert!(calc.press(Key::Op(Ops::NoOp)).is_none());
    assert_eq!(state(&calc), before);
}

#[test]
fn captions_name_their_operations() {
    assert_eq!(ops_of_label("+"), Ops::Add);
    assert_eq!(ops_of_label("-"), Ops::Sub);
    assert_eq!(ops_of_label("x"), Ops::Mul);
    assert_eq!(ops_of_label("/"), Ops::Div);
    assert_eq!(ops_of_label("="), Ops::Eq);
    assert_eq!(ops_of_label("CE"), Ops::CE);
    assert_eq!(ops_of_label("C"), Ops::C);
    assert_eq!(ops_of_label("@<-"), Ops::Back);
    for label in ["", "*", "X", "ce", "7", ".", "++", "@"] {
        assert_eq!(ops_of_label(label), Ops::NoOp, "label {:?}", label);
    }
}

#[test]
fn keys_have_their_styles() {
    let style = |wide, paint, shortcut| Some(KeyStyle { wide, paint, shortcut });
    assert_eq!(key_style("0"), style(true, Paint::Light, Shortcut::Char('0')));
    assert_eq!(key_style("7"), style(false, Paint::Light, Shortcut::Char('7')));
    assert_eq!(key_style("."), style(false, Paint::Light, Shortcut::Char('.')));
    assert_eq!(key_style("CE"), style(false, Paint::Red, Shortcut::Delete));
    assert_eq!(key_style("C"), style(false, Paint::Yellow, Shortcut::Char('C')));
    assert_eq!(key_style("x"), style(false, Paint::Yellow, Shortcut::Char('*')));
    assert_eq!(key_style("/"), style(false, Paint::Yellow, Shortcut::Char('/')));
    assert_eq!(key_style("+"), style(false, Paint::Yellow, Shortcut::Char('+')));
    assert_eq!(key_style("-"), style(false, Paint::Yellow, Shortcut::Char('-')));
    assert_eq!(key_style("="), style(false, Paint::Yellow, Shortcut::Enter));
    assert_eq!(key_style("@<-"), style(false, Paint::Yellow, Shortcut::BackSpace));
    assert_eq!(key_style("Ok"), style(false, Paint::Light, Shortcut::Char('O')));
    assert_eq!(key_style(""), None);
}

#[test]
fn numbers_are_written_with_their_sign() {
    for n in [0, 1, 9, 10, -1, -10, 12345, -12345, i32::MAX, i32::MIN] {
        assert_eq!(signed_decimal_string(n), n.to_string());
    }
}
