//! The pocket calculator: what its keys do to the line that is being typed,
//! to the operand that was put aside, and to the display.
//!
//! The calculator works on texts. Taking the two operands as numbers and
//! computing with them is left to the caller, who is handed the operands when
//! the result is asked for and gives the text of the result back.

use vstd::prelude::*;
use vstd::string::*;
use vstd::utf8::encode_utf8;
use crate::display::{signed_decimal, signed_decimal_string, Paint};

verus! {

/// What an operator key stands for.
#[derive(Debug, Copy, Clone, PartialEq, Eq, Structural)]
pub enum Ops {
    NoOp,
    Add,
    Sub,
    Mul,
    Div,
    Eq,
    CE,
    C,
    Back,
}

/// A key of the calculator.
#[derive(Debug, Copy, Clone, PartialEq, Eq, Structural)]
pub enum Key {
    Number(i32),
    Op(Ops),
    Dot,
}

/// The key that a shortcut presses.
#[derive(Debug, Copy, Clone, PartialEq, Eq, Structural)]
pub enum Shortcut {
    Char(char),
    Delete,
    BackSpace,
    Enter,
}

/// How a key looks and which shortcut presses it.
#[derive(Debug, Copy, Clone, PartialEq, Eq, Structural)]
pub struct KeyStyle {
    /// Whether the key takes the room of two.
    pub wide: bool,
    pub paint: Paint,
    pub shortcut: Shortcut,
}

/// The two operands and the operation of a result that was asked for.
#[derive(Debug)]
pub struct Evaluation {
    /// The operand that was put aside.
    pub old: String,
    /// The operand on the display.
    pub new: String,
    pub operation: Ops,
}

/// The calculator.
#[derive(Debug)]
pub struct Calculator {
    txt: String,
    old_val: String,
    operation: Ops,
    out: String,
}

/// The calculator as a value of four parts.
pub struct CalculatorView {
    /// The line that is being typed.
    pub txt: Seq<char>,
    /// The operand that was put aside.
    pub old_val: Seq<char>,
    /// The operation that waits for its second operand.
    pub operation: Ops,
    /// The display.
    pub out: Seq<char>,
}

/// The operation of the key with the caption `label`.
pub open spec fn ops_of(label: Seq<char>) -> Ops {
    if label == seq!['+'] {
        Ops::Add
    } else if label == seq!['-'] {
        Ops::Sub
    } else if label == seq!['x'] {
        Ops::Mul
    } else if label == seq!['/'] {
        Ops::Div
    } else if label == seq!['='] {
        Ops::Eq
    } else if label == seq!['C', 'E'] {
        Ops::CE
    } else if label == seq!['C'] {
        Ops::C
    } else if label == seq!['@', '<', '-'] {
        Ops::Back
    } else {
        Ops::NoOp
    }
}

/// The style of the key with the caption `title`, which is not empty.
///
/// The key `0` is wide. `CE` is red and pressed by the delete key. The
/// operator keys are yellow and pressed by their first character, but `x` by
/// the asterisk, `=` by the enter key and the arrow `@<-` by the backspace
/// key. Every other key is light and pressed by its first character.
pub open spec fn style_of(title: Seq<char>) -> KeyStyle
    recommends
        title.len() > 0,
{
    if title == seq!['0'] {
        KeyStyle { wide: true, paint: Paint::Light, shortcut: Shortcut::Char('0') }
    } else if title == seq!['C', 'E'] {
        KeyStyle { wide: false, paint: Paint::Red, shortcut: Shortcut::Delete }
    } else if ops_of(title) != Ops::NoOp {
        KeyStyle {
            wide: false,
            paint: Paint::Yellow,
            shortcut: if title == seq!['x'] {
                Shortcut::Char('*')
            } else if title[0] == '=' {
                Shortcut::Enter
            } else if title[0] == '@' {
                Shortcut::BackSpace
            } else {
                Shortcut::Char(title[0])
            },
        }
    } else {
        KeyStyle { wide: false, paint: Paint::Light, shortcut: Shortcut::Char(title[0]) }
    }
}

impl CalculatorView {
    /// The calculator after a key.
    ///
    /// A number is added to the line, which starts anew where the display
    /// shows a plain zero. The dot is added to a line that has none. An
    /// arithmetic key puts the display aside and shows zero. The back key
    /// takes the last character off the line and shows the line, or zero
    /// where the display held one byte at most. `CE` forgets line and
    /// operand, `C` the line. The result key ends the operation and leaves
    /// the display to the caller.
    pub open spec fn after(self, key: Key) -> CalculatorView {
        match key {
            Key::Number(num) => {
                let line = if self.out == seq!['0'] {
                    signed_decimal(num as int)
                } else {
                    self.txt + signed_decimal(num as int)
                };
                CalculatorView { txt: line, out: line, ..self }
            },
            Key::Dot => {
                let fresh = if self.operation == Ops::Eq {
                    CalculatorView {
                        txt: seq!['0', '.'],
                        out: seq!['0', '.'],
                        operation: Ops::NoOp,
                        ..self
                    }
                } else {
                    self
                };
                if fresh.txt.contains('.') {
                    fresh
                } else {
                    CalculatorView { txt: fresh.txt.push('.'), out: fresh.txt.push('.'), ..fresh }
                }
            },
            Key::Op(Ops::Add) | Key::Op(Ops::Sub) | Key::Op(Ops::Mul) | Key::Op(Ops::Div) => {
                CalculatorView {
                    old_val: self.out,
                    operation: key->Op_0,
                    out: seq!['0'],
                    ..self
                }
            },
            Key::Op(Ops::Back) => {
                let line = if self.txt.len() > 0 {
                    self.txt.drop_last()
                } else {
                    self.txt
                };
                CalculatorView {
                    txt: line,
                    out: if encode_utf8(self.out).len() > 1 {
                        line
                    } else {
                        seq!['0']
                    },
                    ..self
                }
            },
            Key::Op(Ops::CE) => CalculatorView {
                txt: seq!['0'],
                old_val: Seq::empty(),
                out: seq!['0'],
                ..self
            },
            Key::Op(Ops::C) => CalculatorView { txt: seq!['0'], out: seq!['0'], ..self },
            Key::Op(Ops::Eq) => CalculatorView { txt: seq!['0'], operation: Ops::NoOp, ..self },
            Key::Op(Ops::NoOp) => self,
        }
    }
}

impl View for Calculator {
    type V = CalculatorView;

    closed spec fn view(&self) -> CalculatorView {
        CalculatorView {
            txt: self.txt@,
            old_val: self.old_val@,
            operation: self.operation,
            out: self.out@,
        }
    }
}

/// Whether `text` has a dot.
fn has_dot(text: &str) -> (found: bool)
    ensures
        found == text@.contains('.'),
{
    let n = text.unicode_len();
    let mut i: usize = 0;
    while i < n
        invariant
            i <= n,
            n == text@.len(),
            forall|j: int| 0 <= j < i ==> text@[j] != '.',
        decreases n - i,
    {
        if text.get_char(i) == '.' {
            return true;
        }
        i += 1;
    }
    false
}

/// `text` without its last character.
fn without_last(text: &str) -> (r: String)
    ensures
        r@ == if text@.len() > 0 {
            text@.drop_last()
        } else {
            text@
        },
{
    let n = text.unicode_len();
    if n == 0 {
        String::from_str(text)
    } else {
        let r = String::from_str(text.substring_char(0, n - 1));
        assert(r@ =~= text@.drop_last());
        r
    }
}

fn zero() -> (s: String)
    ensures
        s@ == seq!['0'],
{
    proof {
        reveal_strlit("0");
    }
    let s = String::from_str("0");
    assert(s@ =~= seq!['0']);
    s
}

fn is_text(label: &str, wanted: &str) -> (same: bool)
    ensures
        same == (label@ == wanted@),
{
    String::from_str(label) == String::from_str(wanted)
}

/// The operation of the key with the caption `label`; `Ops::NoOp` for the
/// caption of no operator key.
pub fn ops_of_label(label: &str) -> (op: Ops)
    ensures
        op == ops_of(label@),
{
    proof {
        reveal_strlit("+");
        reveal_strlit("-");
        reveal_strlit("x");
        reveal_strlit("/");
        reveal_strlit("=");
        reveal_strlit("CE");
        reveal_strlit("C");
        reveal_strlit("@<-");
        assert("+"@ =~= seq!['+']);
        assert("-"@ =~= seq!['-']);
        assert("x"@ =~= seq!['x']);
        assert("/"@ =~= seq!['/']);
        assert("="@ =~= seq!['=']);
        assert("CE"@ =~= seq!['C', 'E']);
        assert("C"@ =~= seq!['C']);
        assert("@<-"@ =~= seq!['@', '<', '-']);
    }
    if is_text(label, "+") {
        Ops::Add
    } else if is_text(label, "-") {
        Ops::Sub
    } else if is_text(label, "x") {
        Ops::Mul
    } else if is_text(label, "/") {
        Ops::Div
    } else if is_text(label, "=") {
        Ops::Eq
    } else if is_text(label, "CE") {
        Ops::CE
    } else if is_text(label, "C") {
        Ops::C
    } else if is_text(label, "@<-") {
        Ops::Back
    } else {
        Ops::NoOp
    }
}

/// The style of the key with the caption `title`; `None` for an empty
/// caption, which no key has.
pub fn key_style(title: &str) -> (style: Option<KeyStyle>)
    ensures
        style == if title@.len() > 0 {
            Some(style_of(title@))
        } else {
            None
        },
{
    if title.unicode_len() == 0 {
        return None;
    }
    proof {
        reveal_strlit("0");
        reveal_strlit("CE");
        reveal_strlit("x");
        assert("0"@ =~= seq!['0']);
        assert("CE"@ =~= seq!['C', 'E']);
        assert("x"@ =~= seq!['x']);
    }
    let first = title.get_char(0);
    if is_text(title, "0") {
        Some(KeyStyle { wide: true, paint: Paint::Light, shortcut: Shortcut::Char('0') })
    } else if is_text(title, "CE") {
        Some(KeyStyle { wide: false, paint: Paint::Red, shortcut: Shortcut::Delete })
    } else {
        match ops_of_label(title) {
            Ops::NoOp => Some(
                KeyStyle { wide: false, paint: Paint::Light, shortcut: Shortcut::Char(first) },
            ),
            _ => {
                let shortcut = if is_text(title, "x") {
                    Shortcut::Char('*')
                } else if first == '=' {
                    Shortcut::Enter
                } else if first == '@' {
                    Shortcut::BackSpace
                } else {
                    Shortcut::Char(first)
                };
                Some(KeyStyle { wide: false, paint: Paint::Yellow, shortcut })
            },
        }
    }
}

impl Calculator {
    /// A calculator that shows zero.
    pub fn new() -> (calc: Calculator)
        ensures
            calc@.txt == seq!['0'],
            calc@.old_val == seq!['0'],
            calc@.operation == Ops::NoOp,
            calc@.out == seq!['0'],
    {
        Calculator { txt: zero(), old_val: zero(), operation: Ops::NoOp, out: zero() }
    }

    /// The display.
    pub fn display(&self) -> (text: &str)
        ensures
            text@ == self@.out,
    {
        self.out.as_str()
    }

    /// The line that is being typed.
    pub fn line(&self) -> (text: &str)
        ensures
            text@ == self@.txt,
    {
        self.txt.as_str()
    }

    /// The operand that was put aside.
    pub fn operand(&self) -> (text: &str)
        ensures
            text@ == self@.old_val,
    {
        self.old_val.as_str()
    }

    /// The operation that waits for its second operand.
    pub fn operation(&self) -> (op: Ops)
        ensures
            op == self@.operation,
    {
        self.operation
    }

    /// A key was pressed.
    ///
    /// The result key hands out the operand that was put aside, the display
    /// and the operation, for the caller to compute with; the display then
    /// waits for `show_result`. Every other key hands out nothing.
    pub fn press(&mut self, key: Key) -> (asked: Option<Evaluation>)
        ensures
            final(self)@ == old(self)@.after(key),
            match asked {
                Some(evaluation) => {
                    &&& key == Key::Op(Ops::Eq)
                    &&& evaluation.old@ == old(self)@.old_val
                    &&& evaluation.new@ == old(self)@.out
                    &&& evaluation.operation == old(self)@.operation
                },
                None => key != Key::Op(Ops::Eq),
            },
    {
        let asked = match key {
            Key::Number(num) => {
                let digits = signed_decimal_string(num);
                if self.out == zero() {
                    self.txt = digits;
                } else {
                    self.txt.append(digits.as_str());
                }
                self.out = self.txt.clone();
                None
            },
            Key::Dot => {
                match self.operation {
                    Ops::Eq => {
                        let mut fresh = zero();
                        fresh.append(".");
                        proof {
                            reveal_strlit(".");
                            assert(fresh@ =~= seq!['0', '.']);
                        }
                        self.operation = Ops::NoOp;
                        self.out = fresh.clone();
                        self.txt = fresh;
                    },
                    _ => {},
                }
                if !has_dot(self.txt.as_str()) {
                    self.txt.append(".");
                    proof {
                        reveal_strlit(".");
                        assert(self.txt@ =~= old(self)@.after(key).txt);
                    }
                    self.out = self.txt.clone();
                }
                None
            },
            Key::Op(op) => {
                match op {
                    Ops::Add | Ops::Sub | Ops::Mul | Ops::Div => {
                        self.old_val = self.out.clone();
                        self.operation = op;
                        self.out = zero();
                        None
                    },
                    Ops::Back => {
                        let long = self.out.as_str().as_bytes().len() > 1;
                        self.txt = without_last(self.txt.as_str());
                        if long {
                            self.out = self.txt.clone();
                        } else {
                            self.out = zero();
                        }
                        None
                    },
                    Ops::CE => {
                        self.txt = zero();
                        self.old_val = String::new();
                        self.out = zero();
                        None
                    },
                    Ops::C => {
                        self.txt = zero();
                        self.out = zero();
                        None
                    },
                    Ops::Eq => {
                        let asked = Evaluation {
                            old: self.old_val.clone(),
                            new: self.out.clone(),
                            operation: self.operation,
                        };
                        self.operation = Ops::NoOp;
                        self.txt = zero();
                        Some(asked)
                    },
                    Ops::NoOp => None,
                }
            },
        };
        proof {
            let now = self@;
            let wanted = old(self)@.after(key);
            assert(now.txt =~= wanted.txt);
            assert(now.old_val =~= wanted.old_val);
            assert(now.out =~= wanted.out);
            assert(now.operation == wanted.operation);
        }
        asked
    }

    /// Puts the text of a result on the display; nothing else changes.
    pub fn show_result(&mut self, text: &str)
        ensures
            final(self)@ == (CalculatorView { out: text@, ..old(self)@ }),
    {
        self.out = String::from_str(text);
    }
}

} // verus!
