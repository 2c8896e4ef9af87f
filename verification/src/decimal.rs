//! Signed decimal numerals: reading an `i32` from text and writing one as
//! text.
//!
//! A numeral is an optional sign, `+` or `-`, followed by one or more of the
//! digits `0` to `9`, and nothing else.

use vstd::prelude::*;
use vstd::string::*;
use vstd::utf8::is_ascii_chars;

verus! {

/// `c` is one of the ten decimal digits.
pub open spec fn is_digit(c: char) -> bool {
    '0' <= c && c <= '9'
}

/// The number that the digit `c` stands for.
pub open spec fn digit_value(c: char) -> int {
    c as int - '0' as int
}

/// Every character of `s` is a decimal digit.
pub open spec fn all_digits(s: Seq<char>) -> bool {
    forall|i: int| 0 <= i < s.len() ==> is_digit(#[trigger] s[i])
}

/// The number that the digits `s` spell, the first digit weighing most.
pub open spec fn digits_value(s: Seq<char>) -> nat
    decreases s.len(),
{
    if s.len() == 0 {
        0
    } else {
        (digits_value(s.drop_last()) * 10 + digit_value(s.last())) as nat
    }
}

/// `s` starts with a sign.
pub open spec fn has_sign(s: Seq<char>) -> bool {
    s.len() > 0 && (s[0] == '-' || s[0] == '+')
}

/// The part of `s` behind its sign, if it has one.
pub open spec fn unsigned_part(s: Seq<char>) -> Seq<char> {
    if has_sign(s) {
        s.drop_first()
    } else {
        s
    }
}

/// The integer that the numeral `s` spells, or `None` where `s` is no
/// numeral.
pub open spec fn numeral_value(s: Seq<char>) -> Option<int> {
    let digits = unsigned_part(s);
    if digits.len() > 0 && all_digits(digits) {
        if s[0] == '-' {
            Some(-(digits_value(digits) as int))
        } else {
            Some(digits_value(digits) as int)
        }
    } else {
        None
    }
}

/// What [`parse_i32`] returns: the value of the numeral `s` where `s` is a
/// numeral and its value is an `i32`, else `None`.
pub open spec fn parsed_i32(s: Seq<char>) -> Option<i32> {
    match numeral_value(s) {
        Some(v) => if i32::MIN <= v <= i32::MAX {
            Some(v as i32)
        } else {
            None
        },
        None => None,
    }
}

/// Adding a digit at the end multiplies the value by ten and adds the digit.
proof fn lemma_digits_value_step(s: Seq<char>, k: int)
    requires
        0 <= k < s.len(),
        is_digit(s[k]),
    ensures
        digits_value(s.subrange(0, k + 1)) == digits_value(s.subrange(0, k)) * 10 + digit_value(
            s[k],
        ),
{
    let t = s.subrange(0, k + 1);
    assert(t.drop_last() =~= s.subrange(0, k));
    assert(t.last() == s[k]);
}

/// The value of a prefix of a digit string is at most the value of the whole.
proof fn lemma_prefix_value_le(s: Seq<char>, k: int)
    requires
        0 <= k <= s.len(),
        all_digits(s),
    ensures
        digits_value(s.subrange(0, k)) <= digits_value(s),
    decreases s.len() - k,
{
    if k == s.len() {
        assert(s.subrange(0, k) =~= s);
    } else {
        lemma_digits_value_step(s, k);
        lemma_prefix_value_le(s, k + 1);
    }
}

/// A numeral holds ASCII characters only.
proof fn lemma_numeral_is_ascii(s: Seq<char>)
    requires
        numeral_value(s) is Some,
    ensures
        is_ascii_chars(s),
{
    let digits = unsigned_part(s);
    assert forall|i: int| 0 <= i < s.len() implies '\0' <= #[trigger] s[i] <= '\u{7f}' by {
        if !has_sign(s) {
            assert(is_digit(digits[i]));
        } else if i > 0 {
            assert(is_digit(digits[i - 1]));
        }
    }
}

/// Reads a signed decimal numeral.
///
/// Returns the number where `text` is a numeral whose value fits an `i32`,
/// and `None` for any other text: the empty text, a sign alone, text with a
/// character that is no digit (a space too), and a value out of range.
pub fn parse_i32(text: &str) -> (parsed: Option<i32>)
    ensures
        parsed == parsed_i32(text@),
{
    let ghost s = text@;
    if !text.is_ascii() {
        proof {
            if numeral_value(s) is Some {
                lemma_numeral_is_ascii(s);
            }
        }
        return None;
    }
    // The text is ASCII, so its bytes are its characters.
    let bytes = text.as_bytes();
    let n: usize = bytes.len();
    proof {
        is_ascii_spec_bytes(text);
    }
    if n == 0 {
        return None;
    }
    let negative: bool = bytes[0] == ('-' as u8);
    let start: usize = if bytes[0] == ('-' as u8) || bytes[0] == ('+' as u8) {
        1
    } else {
        0
    };
    let ghost digits = unsigned_part(s);
    assert(bytes@[0] == s[0] as u8);
    assert(negative <==> s[0] == '-');
    assert(digits =~= s.subrange(start as int, n as int));
    if start == n {
        return None;
    }
    // The magnitude so far; it may reach 2147483648, which a `-` still admits.
    let mut value: i64 = 0;
    let mut i: usize = start;
    while i < n
        invariant
            start <= i <= n,
            s == text@,
            is_ascii_chars(s),
            bytes@ == Seq::new(s.len(), |j: int| s[j] as u8),
            n == s.len(),
            digits == unsigned_part(s),
            digits == s.subrange(start as int, n as int),
            all_digits(digits.subrange(0, i - start)),
            value == digits_value(digits.subrange(0, i - start)),
            0 <= value <= 2147483648,
        decreases n - i,
    {
        let b: u8 = bytes[i];
        let ghost c = digits[i - start];
        assert(b == c as u8 && '\0' <= c <= '\u{7f}');
        if b < ('0' as u8) || b > ('9' as u8) {
            assert(!is_digit(c));
            return None;
        }
        proof {
            lemma_digits_value_step(digits, i - start);
            assert forall|j: int| 0 <= j < i - start + 1 implies is_digit(
                #[trigger] digits.subrange(0, i - start + 1)[j],
            ) by {
                if j < i - start {
                    assert(is_digit(digits.subrange(0, i - start)[j]));
                }
            }
        }
        value = value * 10 + (b - ('0' as u8)) as i64;
        if value > 2147483648 {
            proof {
                if all_digits(digits) {
                    lemma_prefix_value_le(digits, i - start + 1);
                }
            }
            return None;
        }
        i = i + 1;
    }
    assert(digits.subrange(0, n - start) =~= digits);
    if negative {
        Some((-value) as i32)
    } else if value <= 2147483647 {
        Some(value as i32)
    } else {
        None
    }
}

/// The character that writes the digit `d`.
pub open spec fn digit_char(d: nat) -> char
    recommends
        d < 10,
{
    ('0' as u8 + d) as u8 as char
}

/// The digits of `n`, the first weighing most, with no leading zero but for
/// zero itself.
pub open spec fn digits_of(n: nat) -> Seq<char>
    decreases n,
{
    if n < 10 {
        seq![digit_char(n)]
    } else {
        digits_of(n / 10).push(digit_char(n % 10))
    }
}

/// The numeral that [`format_i32`] writes for `n`: a `-` for a negative
/// number, then the digits of its magnitude.
pub open spec fn decimal_text(n: int) -> Seq<char> {
    if n < 0 {
        seq!['-'] + digits_of((-n) as nat)
    } else {
        digits_of(n as nat)
    }
}

/// The one-character text of the digit `d`.
fn digit_text(d: u32) -> (text: &'static str)
    requires
        d < 10,
    ensures
        text@ == seq![digit_char(d as nat)],
{
    let digits: &'static str = "0123456789";
    proof {
        reveal_strlit("0123456789");
    }
    let text = digits.substring_ascii(d as usize, d as usize + 1);
    assert(text@ =~= seq![digit_char(d as nat)]);
    text
}

/// Appends the digits of `n` to `out`.
fn push_digits(out: &mut String, n: u32)
    ensures
        final(out)@ == old(out)@ + digits_of(n as nat),
    decreases n,
{
    if n >= 10 {
        push_digits(out, n / 10);
    }
    out.append(digit_text(n % 10));
    assert(final(out)@ =~= old(out)@ + digits_of(n as nat));
}

/// Writes `n` as a signed decimal numeral.
pub fn format_i32(n: i32) -> (text: String)
    ensures
        text@ == decimal_text(n as int),
{
    let mut text = String::new();
    if n < 0 {
        proof {
            reveal_strlit("-");
        }
        text.append("-");
        assert(text@ =~= seq!['-']);
        let magnitude: i64 = -(n as i64);
        push_digits(&mut text, magnitude as u32);
    } else {
        push_digits(&mut text, n as u32);
        assert(text@ =~= decimal_text(n as int));
    }
    text
}

/// The digits written for `n` are digits, at least one, and spell `n`.
proof fn lemma_digits_of_spell(n: nat)
    ensures
        digits_of(n).len() > 0,
        all_digits(digits_of(n)),
        digits_value(digits_of(n)) == n,
    decreases n,
{
    let s = digits_of(n);
    if n < 10 {
        assert(s.drop_last() =~= Seq::<char>::empty());
        assert(digits_value(s.drop_last()) == 0);
    } else {
        lemma_digits_of_spell(n / 10);
        assert(s.drop_last() =~= digits_of(n / 10));
        assert(s.last() == digit_char(n % 10));
    }
}

/// Reading what [`format_i32`] wrote gives the number back.
pub proof fn lemma_parse_inverts_format(n: i32)
    ensures
        parsed_i32(decimal_text(n as int)) == Some(n),
{
    let s = decimal_text(n as int);
    if n < 0 {
        let digits = digits_of((-n) as nat);
        lemma_digits_of_spell((-n) as nat);
        assert(s[0] == '-');
        assert(unsigned_part(s) =~= digits);
    } else {
        lemma_digits_of_spell(n as nat);
        assert(is_digit(s[0]));
        assert(unsigned_part(s) == s);
    }
}

} // verus!
