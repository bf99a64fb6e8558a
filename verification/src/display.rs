//! What the window shows for a countdown: the text `MM:SS`, and the colour
//! of that text or the alarm.

use vstd::prelude::*;
use vstd::string::*;

verus! {

/// The character of the decimal digit `d`.
pub open spec fn digit_char(d: nat) -> char
    recommends
        d < 10,
{
    ('0' as nat + d) as char
}

/// The decimal digits of `n`, most significant first, without padding.
pub open spec fn decimal(n: nat) -> Seq<char>
    decreases n,
{
    if n < 10 {
        seq![digit_char(n)]
    } else {
        decimal(n / 10).push(digit_char(n % 10))
    }
}

/// The decimal writing of `n`, with a minus sign in front of a negative
/// number.
pub open spec fn signed_decimal(n: int) -> Seq<char> {
    if n < 0 {
        seq!['-'] + decimal((-n) as nat)
    } else {
        decimal(n as nat)
    }
}

/// The decimal digits of `n`, with a zero in front of a single digit.
pub open spec fn two_digits(n: nat) -> Seq<char> {
    if n < 10 {
        seq!['0'] + decimal(n)
    } else {
        decimal(n)
    }
}

/// The text that the display shows for `countdown` seconds: the whole
/// minutes, a colon, and the seconds beyond them, each with two digits at
/// least.
pub open spec fn clock_text(countdown: nat) -> Seq<char> {
    two_digits(countdown / 60) + seq![':'] + two_digits(countdown % 60)
}

/// A colour of the toolkit's palette, as far as the timer chooses one.
#[derive(Debug, Copy, Clone, PartialEq, Eq, Structural)]
pub enum Paint {
    White,
    Blue,
    Red,
    Green,
    Gray,
    Yellow,
    /// The light gray of number keys.
    Light,
    /// The background of an entry field that is in order.
    Field,
}

/// What a refreshing update does to the display beyond its text.
#[derive(Debug, Copy, Clone, PartialEq, Eq, Structural)]
pub enum Refresh {
    /// Paint the text in this colour.
    Recolor(Paint),
    /// Sound the alarm; the colour stays.
    Alarm,
}

/// The refresh for `countdown` seconds: white above twenty seconds, blue
/// from twenty down to ten, red below ten, and the alarm at zero.
pub open spec fn refresh_for(countdown: u32) -> Refresh {
    if countdown > 20 {
        Refresh::Recolor(Paint::White)
    } else if countdown >= 10 {
        Refresh::Recolor(Paint::Blue)
    } else if countdown > 0 {
        Refresh::Recolor(Paint::Red)
    } else {
        Refresh::Alarm
    }
}

/// The display after an update.
#[derive(Debug)]
pub struct Face {
    /// The text to show.
    pub label: String,
    /// The colour or alarm, where the update asked for a refresh.
    pub refresh: Option<Refresh>,
}

fn digit_str(d: u32) -> (s: &'static str)
    requires
        d < 10,
    ensures
        s@ == seq![digit_char(d as nat)],
{
    proof {
        reveal_strlit("0");
        reveal_strlit("1");
        reveal_strlit("2");
        reveal_strlit("3");
        reveal_strlit("4");
        reveal_strlit("5");
        reveal_strlit("6");
        reveal_strlit("7");
        reveal_strlit("8");
        reveal_strlit("9");
    }
    let s = match d {
        0 => "0",
        1 => "1",
        2 => "2",
        3 => "3",
        4 => "4",
        5 => "5",
        6 => "6",
        7 => "7",
        8 => "8",
        _ => "9",
    };
    assert(s@ =~= seq![digit_char(d as nat)]);
    s
}

/// The decimal digits of `n` as a string.
pub fn decimal_string(n: u32) -> (s: String)
    ensures
        s@ == decimal(n as nat),
    decreases n,
{
    if n < 10 {
        String::from_str(digit_str(n))
    } else {
        let mut s = decimal_string(n / 10);
        s.append(digit_str(n % 10));
        assert(s@ =~= decimal(n as nat));
        s
    }
}

/// The decimal writing of `n` as a string.
pub fn signed_decimal_string(n: i32) -> (s: String)
    ensures
        s@ == signed_decimal(n as int),
{
    if n < 0 {
        let magnitude: i64 = -(n as i64);
        let mut s = String::from_str("-");
        let digits = decimal_string(magnitude as u32);
        s.append(digits.as_str());
        proof {
            reveal_strlit("-");
            assert(s@ =~= signed_decimal(n as int));
        }
        s
    } else {
        decimal_string(n as u32)
    }
}

/// The decimal digits of `n` as a string of two characters at least.
pub fn two_digit_string(n: u32) -> (s: String)
    ensures
        s@ == two_digits(n as nat),
{
    if n < 10 {
        let mut s = String::from_str("0");
        s.append(digit_str(n));
        proof {
            reveal_strlit("0");
            assert(s@ =~= two_digits(n as nat));
        }
        s
    } else {
        decimal_string(n)
    }
}

/// Splits `countdown` seconds into the texts of its minutes and of the
/// seconds beyond them.
pub fn to_minutes_seconds(countdown: u32) -> (r: (String, String))
    ensures
        r.0@ == two_digits(countdown as nat / 60),
        r.1@ == two_digits(countdown as nat % 60),
{
    let minutes: u32 = countdown / 60;
    let seconds: u32 = countdown - minutes * 60;
    (two_digit_string(minutes), two_digit_string(seconds))
}

/// The colour or alarm for `countdown` seconds.
pub fn refresh(countdown: u32) -> (r: Refresh)
    ensures
        r == refresh_for(countdown),
{
    if countdown > 20 {
        Refresh::Recolor(Paint::White)
    } else if countdown >= 10 {
        Refresh::Recolor(Paint::Blue)
    } else if countdown > 0 {
        Refresh::Recolor(Paint::Red)
    } else {
        Refresh::Alarm
    }
}

/// The display for an update of `countdown` seconds. The text always
/// changes; colour and alarm follow only where `update_background` is set.
pub fn update_countdown(countdown: u32, update_background: bool) -> (face: Face)
    ensures
        face.label@ == clock_text(countdown as nat),
        face.refresh == if update_background {
            Some(refresh_for(countdown))
        } else {
            None
        },
{
    let (minutes, seconds) = to_minutes_seconds(countdown);
    let mut label = minutes;
    label.append(":");
    label.append(seconds.as_str());
    proof {
        reveal_strlit(":");
        assert(label@ =~= clock_text(countdown as nat));
    }
    let refresh = if update_background {
        Some(refresh(countdown))
    } else {
        None
    };
    Face { label, refresh }
}

} // verus!
