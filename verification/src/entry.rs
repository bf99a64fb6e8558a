//! The two entry fields of the timer, minutes and seconds: how their text is
//! read, which values they may hold, and how the wheel and the keys change
//! them.

use vstd::prelude::*;
use vstd::string::*;
use vstd::utf8::is_ascii_chars;

verus! {

/// The width of the timer's window.
pub const WINDOW_WIDTH: i32 = 300;

/// The height of the timer's window while the entry fields are hidden.
pub const WINDOW_HEIGHT: i32 = 140;

/// The height of the timer's window while the entry fields are shown.
pub const EXPANDED_WINDOW_HEIGHT: i32 = 190;

/// The wheel changes the minutes left of this column and the seconds from
/// it on.
pub const MIDDLE_OF_WINDOW: i32 = 150;

/// The largest value of the minutes field.
pub const MAX_MINUTES: u32 = 99;

/// The largest value of the seconds field.
pub const MAX_SECONDS: u32 = 59;

/// Whether `c` is a decimal digit.
pub open spec fn is_digit(c: char) -> bool {
    '0' <= c && c <= '9'
}

/// Whether `s` holds decimal digits only.
pub open spec fn all_digits(s: Seq<char>) -> bool {
    forall|i: int| 0 <= i < s.len() ==> is_digit(#[trigger] s[i])
}

/// The number that the digits `s` write in base ten.
pub open spec fn digits_value(s: Seq<char>) -> nat
    decreases s.len(),
{
    if s.len() == 0 {
        0
    } else {
        digits_value(s.drop_last()) * 10 + (s.last() as nat - '0' as nat) as nat
    }
}

/// Whether `s` starts with a sign.
pub open spec fn has_sign(s: Seq<char>) -> bool {
    s.len() > 0 && (s[0] == '-' || s[0] == '+')
}

/// The digits of `s`: all of it but the sign.
pub open spec fn unsigned_part(s: Seq<char>) -> Seq<char> {
    if has_sign(s) {
        s.subrange(1, s.len() as int)
    } else {
        s
    }
}

/// The integer that a field with the text `s` holds: an optional sign and
/// then one decimal digit or more, nothing before, between or after, and a
/// value that 32 bits hold. Any other text holds no integer.
pub open spec fn field_value(s: Seq<char>) -> Option<i32> {
    let body = unsigned_part(s);
    let magnitude = digits_value(body) as int;
    let value = if has_sign(s) && s[0] == '-' {
        -magnitude
    } else {
        magnitude
    };
    if body.len() > 0 && all_digits(body) && i32::MIN <= value <= i32::MAX {
        Some(value as i32)
    } else {
        None
    }
}

/// `v`, brought into the range from `lo` to `hi`.
pub open spec fn clamped(v: int, lo: int, hi: int) -> int {
    if v < lo {
        lo
    } else if v > hi {
        hi
    } else {
        v
    }
}

/// A value of the two entry fields.
#[derive(Debug, Copy, Clone, PartialEq, Eq, Structural)]
pub struct Setting {
    pub minutes: u32,
    pub seconds: u32,
}

impl Setting {
    /// Whether both fields hold what the wheel and the arrow keys can set:
    /// at most 99 minutes and at most 59 seconds.
    pub open spec fn in_range(self) -> bool {
        self.minutes <= MAX_MINUTES && self.seconds <= MAX_SECONDS
    }

    /// The duration of the countdown that this setting asks for, in
    /// milliseconds.
    pub open spec fn millis(self) -> nat {
        (self.minutes as nat * 60 + self.seconds as nat) * 1000
    }

    /// The duration of the countdown that this setting asks for, in
    /// milliseconds.
    pub fn duration_millis(&self) -> (ms: u64)
        ensures
            ms == self.millis(),
    {
        (self.minutes as u64 * 60 + self.seconds as u64) * 1000
    }
}

/// The setting that the two texts hold, if each is an integer and in the
/// range of its field.
pub open spec fn setting_of(minutes: Seq<char>, seconds: Seq<char>) -> Option<Setting> {
    match (field_value(minutes), field_value(seconds)) {
        (Some(m), Some(s)) => if 0 <= m <= MAX_MINUTES && 0 <= s <= MAX_SECONDS {
            Some(Setting { minutes: m as u32, seconds: s as u32 })
        } else {
            None
        },
        _ => None,
    }
}

/// The setting after both fields were changed by the given amounts and then
/// brought back into their ranges.
pub open spec fn changed_setting(
    minutes: Seq<char>,
    seconds: Seq<char>,
    inc_mm: i32,
    inc_ss: i32,
) -> Option<Setting> {
    match (field_value(minutes), field_value(seconds)) {
        (Some(m), Some(s)) => Some(
            Setting {
                minutes: clamped(m + inc_mm, 0, MAX_MINUTES as int) as u32,
                seconds: clamped(s + inc_ss, 0, MAX_SECONDS as int) as u32,
            },
        ),
        _ => None,
    }
}

/// A change that the wheel or an arrow key asks for.
#[derive(Debug, Copy, Clone, PartialEq, Eq, Structural)]
pub enum Adjustment {
    /// Add this to the minutes.
    Minutes(i32),
    /// Add this to the seconds.
    Seconds(i32),
}

impl Adjustment {
    /// What the change adds to the minutes.
    pub open spec fn inc_mm(self) -> i32 {
        match self {
            Adjustment::Minutes(by) => by,
            Adjustment::Seconds(_) => 0,
        }
    }

    /// What the change adds to the seconds.
    pub open spec fn inc_ss(self) -> i32 {
        match self {
            Adjustment::Minutes(_) => 0,
            Adjustment::Seconds(by) => by,
        }
    }
}

/// The value of a prefix of some digits is no larger than the value of all
/// of them.
proof fn lemma_digits_value_grows(s: Seq<char>, k: int)
    requires
        0 <= k <= s.len(),
    ensures
        digits_value(s.subrange(0, k)) <= digits_value(s),
    decreases s.len() - k,
{
    if k == s.len() {
        assert(s.subrange(0, k) =~= s);
    } else {
        lemma_digits_value_grows(s, k + 1);
        assert(s.subrange(0, k + 1).drop_last() =~= s.subrange(0, k));
    }
}

/// Reads the integer that a field holds.
///
/// The text is an integer when it is an optional sign followed by decimal
/// digits and the value fits 32 bits.
pub fn parse_field(text: &str) -> (r: Option<i32>)
    ensures
        r == field_value(text@),
{
    let ghost s = text@;
    let ghost body = unsigned_part(s);
    if !text.is_ascii() {
        proof {
            let i = choose|i: int| 0 <= i < s.len() && !('\0' <= #[trigger] s[i] <= '\u{7f}');
            if has_sign(s) {
                assert(i > 0);
                assert(body[i - 1] == s[i]);
            }
        }
        return None;
    }
    proof {
        is_ascii_spec_bytes(text);
    }
    let bytes = text.as_bytes();
    let n = bytes.len();
    if n == 0 {
        return None;
    }
    let negative = bytes[0] == 45u8;
    let start: usize = if bytes[0] == 45u8 || bytes[0] == 43u8 {
        1
    } else {
        0
    };
    assert(has_sign(s) <==> start == 1);
    assert(body =~= s.subrange(start as int, n as int));
    if start == n {
        return None;
    }
    let mut acc: i64 = 0;
    let mut i: usize = start;
    while i < n
        invariant
            start <= i <= n,
            n == s.len(),
            n == bytes@.len(),
            bytes@ == Seq::new(s.len(), |k: int| s[k] as u8),
            is_ascii_chars(s),
            s == text@,
            body == unsigned_part(s),
            body == s.subrange(start as int, n as int),
            all_digits(body.subrange(0, i - start)),
            acc == digits_value(body.subrange(0, i - start)),
            0 <= acc <= 2147483648,
        decreases n - i,
    {
        let b = bytes[i];
        assert(b == s[i as int] as u8);
        assert(s[i as int] == body[i - start]);
        if b < 48u8 || b > 57u8 {
            assert(!is_digit(body[i - start]));
            return None;
        }
        let ghost before = body.subrange(0, i - start);
        let ghost after = body.subrange(0, i - start + 1);
        assert(after.drop_last() =~= before);
        assert(after.last() == s[i as int]);
        acc = acc * 10 + (b - 48u8) as i64;
        assert(acc == digits_value(after));
        if acc > 2147483648 {
            proof {
                lemma_digits_value_grows(body, i - start + 1);
            }
            return None;
        }
        assert(all_digits(after)) by {
            assert forall|k: int| 0 <= k < after.len() implies is_digit(#[trigger] after[k]) by {
                if k < before.len() {
                    assert(after[k] == before[k]);
                }
            }
        }
        i += 1;
    }
    assert(body.subrange(0, i - start) =~= body);
    if negative {
        Some((-acc) as i32)
    } else if acc > 2147483647 {
        None
    } else {
        Some(acc as i32)
    }
}

/// Reads the two fields as the setting of a countdown: `None` unless each
/// holds an integer in the range of its field.
pub fn read_setting(minutes_text: &str, seconds_text: &str) -> (r: Option<Setting>)
    ensures
        r == setting_of(minutes_text@, seconds_text@),
        r matches Some(setting) ==> setting.in_range(),
{
    match (parse_field(minutes_text), parse_field(seconds_text)) {
        (Some(m), Some(s)) => {
            if 0 <= m && m <= 99 && 0 <= s && s <= 59 {
                Some(Setting { minutes: m as u32, seconds: s as u32 })
            } else {
                None
            }
        },
        _ => None,
    }
}

fn clamp_sum(current: i32, by: i32, hi: u32) -> (r: u32)
    requires
        hi <= i32::MAX,
    ensures
        r == clamped(current + by, 0, hi as int),
{
    let sum: i64 = current as i64 + by as i64;
    if sum < 0 {
        0
    } else if sum > hi as i64 {
        hi
    } else {
        sum as u32
    }
}

/// Changes both fields: adds `inc_mm` to the minutes and `inc_ss` to the
/// seconds, and brings each back into its range. `None`, and nothing to
/// change, where a field holds no integer.
pub fn change_countdown(minutes_text: &str, seconds_text: &str, inc_mm: i32, inc_ss: i32) -> (r:
    Option<Setting>)
    ensures
        r == changed_setting(minutes_text@, seconds_text@, inc_mm, inc_ss),
        r matches Some(setting) ==> setting.in_range(),
{
    match (parse_field(minutes_text), parse_field(seconds_text)) {
        (Some(m), Some(s)) => Some(
            Setting {
                minutes: clamp_sum(m, inc_mm, MAX_MINUTES),
                seconds: clamp_sum(s, inc_ss, MAX_SECONDS),
            },
        ),
        _ => None,
    }
}

/// Applies the change that the wheel or a key asked for.
pub fn apply_adjustment(minutes_text: &str, seconds_text: &str, change: Adjustment) -> (r: Option<
    Setting,
>)
    ensures
        r == changed_setting(minutes_text@, seconds_text@, change.inc_mm(), change.inc_ss()),
        r matches Some(setting) ==> setting.in_range(),
{
    match change {
        Adjustment::Minutes(by) => change_countdown(minutes_text, seconds_text, by, 0),
        Adjustment::Seconds(by) => change_countdown(minutes_text, seconds_text, 0, by),
    }
}

/// The change that one notch of the wheel asks for: turning it up takes one
/// off, turning it down adds one, to the minutes while the pointer is in the
/// left half of the window and to the seconds otherwise.
pub fn wheel_adjustment(up: bool, mouse_pos_x: i32) -> (change: Adjustment)
    ensures
        change == if mouse_pos_x < MIDDLE_OF_WINDOW {
            Adjustment::Minutes(if up { -1i32 } else { 1i32 })
        } else {
            Adjustment::Seconds(if up { -1i32 } else { 1i32 })
        },
{
    let by: i32 = if up {
        -1
    } else {
        1
    };
    if mouse_pos_x < MIDDLE_OF_WINDOW {
        Adjustment::Minutes(by)
    } else {
        Adjustment::Seconds(by)
    }
}

/// The change that an arrow key asks for. The up arrow adds and the down
/// arrow takes off; shift turns to the seconds; control makes the step five.
pub fn arrow_adjustment(is_ctrl: bool, is_shift: bool, up: bool) -> (change: Adjustment)
    ensures
        change == ({
            let step: i32 = if is_ctrl { 5i32 } else { 1i32 };
            let by: i32 = if up { step } else { (-step) as i32 };
            if is_shift {
                Adjustment::Seconds(by)
            } else {
                Adjustment::Minutes(by)
            }
        }),
{
    let step: i32 = if is_ctrl {
        5
    } else {
        1
    };
    let by: i32 = if up {
        step
    } else {
        -step
    };
    if is_shift {
        Adjustment::Seconds(by)
    } else {
        Adjustment::Minutes(by)
    }
}

/// The minutes that a digit key sets: its digit, and ten for the key `0`.
/// The keys act only while the window is collapsed, and only digits count.
pub fn digit_key_minutes(digit: u32, window_height: i32) -> (r: Option<u32>)
    ensures
        r == if digit <= 9 && window_height < EXPANDED_WINDOW_HEIGHT - 1 {
            Some(if digit == 0 { 10u32 } else { digit })
        } else {
            None
        },
{
    if digit <= 9 && window_height < EXPANDED_WINDOW_HEIGHT - 1 {
        if digit == 0 {
            Some(10)
        } else {
            Some(digit)
        }
    } else {
        None
    }
}

} // verus!
