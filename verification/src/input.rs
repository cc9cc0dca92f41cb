//! Reading a duration that the user typed.
//!
//! A field holds a count of seconds as decimal text: an optional `+`, then
//! one or more ASCII digits, naming a number that fits in sixteen bits.
//! Anything else is not a number, and a field that holds no number counts
//! as zero.
use vstd::prelude::*;
use vstd::string::StrSliceExecFns;

verus! {

/// The number that a decimal digit stands for.
pub open spec fn digit_value(c: char) -> Option<nat> {
    if c == '0' {
        Some(0nat)
    } else if c == '1' {
        Some(1nat)
    } else if c == '2' {
        Some(2nat)
    } else if c == '3' {
        Some(3nat)
    } else if c == '4' {
        Some(4nat)
    } else if c == '5' {
        Some(5nat)
    } else if c == '6' {
        Some(6nat)
    } else if c == '7' {
        Some(7nat)
    } else if c == '8' {
        Some(8nat)
    } else if c == '9' {
        Some(9nat)
    } else {
        None
    }
}

/// Every character of `s` is a decimal digit.
pub open spec fn all_digits(s: Seq<char>) -> bool {
    forall|i: int| 0 <= i < s.len() ==> (#[trigger] digit_value(s[i])) is Some
}

/// The number that a run of decimal digits names, most significant first.
pub open spec fn decimal_value(s: Seq<char>) -> nat
    decreases s.len(),
{
    if s.len() == 0 {
        0
    } else {
        decimal_value(s.drop_last()) * 10 + match digit_value(s.last()) {
            Some(d) => d,
            None => 0,
        }
    }
}

/// The text without one leading `+`, if it has one.
pub open spec fn unsigned_part(s: Seq<char>) -> Seq<char> {
    if s.len() > 0 && s[0] == '+' {
        s.subrange(1, s.len() as int)
    } else {
        s
    }
}

/// The count of seconds that the text names, if it names one.
pub open spec fn parsed_seconds(s: Seq<char>) -> Option<u16> {
    let digits = unsigned_part(s);
    if digits.len() > 0 && all_digits(digits) && decimal_value(digits) <= u16::MAX {
        Some(decimal_value(digits) as u16)
    } else {
        None
    }
}

/// What a field that holds `s` stands for: its number, or zero.
pub open spec fn seconds_of_text(s: Seq<char>) -> u16 {
    match parsed_seconds(s) {
        Some(v) => v,
        None => 0,
    }
}

/// Dropping digits from the end never makes the number larger.
pub proof fn lemma_decimal_value_prefix(s: Seq<char>, k: int)
    requires
        0 <= k <= s.len(),
    ensures
        decimal_value(s.subrange(0, k)) <= decimal_value(s),
    decreases s.len() - k,
{
    if k < s.len() {
        lemma_decimal_value_prefix(s, k + 1);
        let longer = s.subrange(0, k + 1);
        assert(longer.drop_last() =~= s.subrange(0, k));
    } else {
        assert(s.subrange(0, k) =~= s);
    }
}

/// The digit that a byte of ASCII text stands for.
fn digit_of(b: u8) -> (d: Option<u16>)
    ensures
        b < 128 ==> match digit_value(b as char) {
            Some(v) => d == Some(v as u16),
            None => d is None,
        },
        d matches Some(v) ==> v < 10,
{
    if b >= 48 && b <= 57 {
        Some((b - 48) as u16)
    } else {
        None
    }
}

/// Reads a count of seconds from a text field. Text that is no number in
/// sixteen bits gives zero.
pub fn parse_seconds(text: &str) -> (seconds: u16)
    ensures
        seconds == seconds_of_text(text@),
{
    if !text.is_ascii() {
        proof {
            lemma_non_ascii_is_no_number(text@);
        }
        return 0;
    }
    let len = text.unicode_len();
    let start: usize = if len > 0 && text.get_ascii(0) == 43 {
        1
    } else {
        0
    };
    let ghost digits = unsigned_part(text@);
    if start == len {
        return 0;
    }
    let mut value: u32 = 0;
    let mut i: usize = start;
    while i < len
        invariant
            start <= i <= len,
            len == text@.len(),
            text.is_ascii(),
            digits == unsigned_part(text@),
            digits == text@.subrange(start as int, len as int),
            all_digits(digits.subrange(0, i - start)),
            value == decimal_value(digits.subrange(0, i - start)),
            value <= u16::MAX,
        decreases len - i,
    {
        let b = text.get_ascii(i);
        let ghost seen = digits.subrange(0, i - start);
        let ghost next = digits.subrange(0, i + 1 - start);
        proof {
            assert(next.drop_last() =~= seen);
        }
        match digit_of(b) {
            None => {
                proof {
                    assert(digit_value(digits[i - start]) is None);
                }
                return 0;
            },
            Some(d) => {
                let grown: u32 = value * 10 + d as u32;
                proof {
                    assert forall|j: int| 0 <= j < next.len() implies (#[trigger] digit_value(
                        next[j],
                    )) is Some by {}
                }
                if grown > 65535 {
                    proof {
                        if all_digits(digits) {
                            lemma_decimal_value_prefix(digits, i + 1 - start);
                        }
                    }
                    return 0;
                }
                value = grown;
                i = i + 1;
            },
        }
    }
    proof {
        assert(digits.subrange(0, i - start) =~= digits);
    }
    value as u16
}

/// Text with a character outside ASCII holds a character that is no digit
/// and no sign, so it names no number.
proof fn lemma_non_ascii_is_no_number(s: Seq<char>)
    requires
        !vstd::utf8::is_ascii_chars(s),
    ensures
        parsed_seconds(s) is None,
{
    let i = choose|i: int| 0 <= i < s.len() && !('\0' <= #[trigger] s[i] <= '\u{7f}');
    let digits = unsigned_part(s);
    if s[0] == '+' {
        assert(digit_value(digits[i - 1]) is None);
    } else {
        assert(digit_value(digits[i]) is None);
    }
}

} // verus!
