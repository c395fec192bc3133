//! Motor values given as text, as in the backend's HTTP query parameters.
use vstd::prelude::*;

use crate::text::{digit_char, int_text, nat_text, push_int_text};

verus! {

broadcast use vstd::string::axiom_spec_iter;

/// Whether `c` is one of the ASCII digits `0` to `9`.
pub open spec fn is_digit(c: char) -> bool {
    '0' <= c <= '9'
}

/// Whether every character of `s` is a digit.
pub open spec fn all_digits(s: Seq<char>) -> bool {
    forall|i: int| 0 <= i < s.len() ==> #[trigger] is_digit(s[i])
}

/// The number that the digits `s` write in base ten.
pub open spec fn digits_value(s: Seq<char>) -> int
    decreases s.len(),
{
    if s.len() == 0 {
        0
    } else {
        10 * digits_value(s.drop_last()) + (s.last() as int - '0' as int)
    }
}

/// Whether `c` is a sign character.
pub open spec fn is_sign(c: char) -> bool {
    c == '+' || c == '-'
}

/// The digits of `s` once a leading sign, if any, is taken off.
pub open spec fn unsigned_part(s: Seq<char>) -> Seq<char> {
    if s.len() > 0 && is_sign(s[0]) {
        s.drop_first()
    } else {
        s
    }
}

/// The 16-bit signed integer that `s` writes: an optional `+` or `-`, then
/// one or more decimal digits and nothing else, with a value in range.
/// Any other text, surrounding spaces included, writes none.
pub open spec fn decimal_i16(s: Seq<char>) -> Option<i16> {
    let digits = unsigned_part(s);
    let negative = s.len() > 0 && s[0] == '-';
    let v = if negative {
        -digits_value(digits)
    } else {
        digits_value(digits)
    };
    if digits.len() > 0 && all_digits(digits) && i16::MIN <= v <= i16::MAX {
        Some(v as i16)
    } else {
        None
    }
}


proof fn lemma_digits_value_nonneg(s: Seq<char>)
    requires
        all_digits(s),
    ensures
        digits_value(s) >= 0,
    decreases s.len(),
{
    if s.len() > 0 {
        assert(is_digit(s[s.len() - 1]));
        assert(all_digits(s.drop_last()));
        lemma_digits_value_nonneg(s.drop_last());
    }
}

/// The value of a run of digits is at least that of any of its prefixes.
proof fn lemma_digits_value_prefix(s: Seq<char>, n: int)
    requires
        all_digits(s),
        0 <= n <= s.len(),
    ensures
        0 <= digits_value(s.take(n)) <= digits_value(s),
    decreases s.len(),
{
    lemma_digits_value_nonneg(s);
    if n == s.len() {
        assert(s.take(n) =~= s);
    } else {
        let t = s.drop_last();
        assert(all_digits(t));
        assert(is_digit(s[s.len() - 1]));
        lemma_digits_value_prefix(t, n);
        assert(t.take(n) =~= s.take(n));
        lemma_digits_value_nonneg(t);
    }
}

/// Reads a 16-bit signed decimal integer, as `str::parse::<i16>` does.
pub fn parse_i16(s: &str) -> (r: Option<i16>)
    ensures
        r == decimal_i16(s@),
{
    let ghost text = s@;
    let mut negative = false;
    let mut sign_len: usize = 0;
    let mut acc: u32 = 0;
    let mut seen_any = false;
    let mut has_digit = false;
    for c in it: s.chars()
        invariant
            it.seq() == text,
            text == s@,
            0 <= sign_len <= 1,
            sign_len <= it.index(),
            sign_len == 1 ==> is_sign(text[0]),
            negative == (sign_len == 1 && text[0] == '-'),
            sign_len == 0 && it.index() > 0 ==> !is_sign(text[0]),
            all_digits(text.subrange(sign_len as int, it.index())),
            acc == digits_value(text.subrange(sign_len as int, it.index())),
            acc <= 32768,
            seen_any == (it.index() > 0),
            has_digit == (it.index() > sign_len),
    {
        let ghost k = it.index();
        assert(c == text[k]);
        if !seen_any && (c == '+' || c == '-') {
            sign_len = 1;
            negative = c == '-';
            assert(text.subrange(1, 1) =~= Seq::<char>::empty());
        } else if '0' <= c && c <= '9' {
            let ghost before = text.subrange(sign_len as int, k);
            let ghost after = text.subrange(sign_len as int, k + 1);
            assert(after.drop_last() =~= before);
            assert(after.last() == c);
            acc = acc * 10 + (c as u32 - '0' as u32);
            has_digit = true;
            if acc > 32768 {
                proof {
                    let digits = unsigned_part(text);
                    assert(digits =~= text.subrange(sign_len as int, text.len() as int));
                    if all_digits(digits) {
                        lemma_digits_value_prefix(digits, k + 1 - sign_len);
                        assert(digits.take(k + 1 - sign_len) =~= after);
                        assert(digits_value(digits) > 32768);
                    }
                    assert(decimal_i16(text) is None);
                }
                return None;
            }
        } else {
            proof {
                let digits = unsigned_part(text);
                assert(digits =~= text.subrange(sign_len as int, text.len() as int));
                assert(!is_digit(c));
                assert(digits[k - sign_len] == c);
                assert(!all_digits(digits));
                assert(decimal_i16(text) is None);
            }
            return None;
        }
        seen_any = true;
    }
    proof {
        let digits = unsigned_part(text);
        assert(digits =~= text.subrange(sign_len as int, text.len() as int));
    }
    if !has_digit {
        return None;
    }
    if negative {
        if acc <= 32768 {
            Some((0 - acc as i32) as i16)
        } else {
            None
        }
    } else if acc <= 32767 {
        Some(acc as i16)
    } else {
        None
    }
}

/// The motor value that a query parameter gives: the number it writes, or 0
/// where the parameter is missing or does not write a 16-bit integer.
pub fn query_pwm(value: Option<&str>) -> (v: i16)
    ensures
        v == (match value {
            Some(s) => match decimal_i16(s@) {
                Some(n) => n,
                None => 0,
            },
            None => 0,
        }),
{
    match value {
        Some(s) => match parse_i16(s) {
            Some(n) => n,
            None => 0,
        },
        None => 0,
    }
}

/// The reply to a command given as query parameters: what was sent where it
/// reached the car's link, else that no car is connected.
pub open spec fn command_reply_text(l: i16, r: i16, delivered: bool) -> Seq<char> {
    if delivered {
        "Sent command: L="@ + int_text(l as int) + " R="@ + int_text(r as int)
    } else {
        "No ESP32 connected"@
    }
}

/// The reply to a command given as query parameters, such as
/// `Sent command: L=100 R=-50`, or `No ESP32 connected` where it was not
/// delivered.
pub fn command_reply(l: i16, r: i16, delivered: bool) -> (s: String)
    ensures
        s@ == command_reply_text(l, r, delivered),
{
    if delivered {
        let mut s = String::from_str("Sent command: L=");
        push_int_text(&mut s, l as i64);
        s.append(" R=");
        push_int_text(&mut s, r as i64);
        s
    } else {
        String::from_str("No ESP32 connected")
    }
}

/// Each ASCII digit on its own is read as its value, 0 to 9.
pub proof fn lemma_single_digit(c: char)
    requires
        '0' <= c <= '9',
    ensures
        decimal_i16(seq![c]) == Some((c as int - '0' as int) as i16),
{
    let s = seq![c];
    assert(unsigned_part(s) == s);
    assert(s.drop_last() =~= Seq::<char>::empty());
    assert(digits_value(Seq::<char>::empty()) == 0);
    assert(s.last() == c);
    assert(digits_value(s) == c as int - '0' as int);
    assert(is_digit(s[0]));
    assert(all_digits(s));
}

/// Reading is base ten: writing one more digit after a text that reads as a
/// non-negative value multiplies that value by ten and adds the digit, as
/// long as the result stays in range.
pub proof fn lemma_append_digit(s: Seq<char>, c: char, v: i16)
    requires
        decimal_i16(s) == Some(v),
        s.len() > 0,
        s[0] != '-',
        '0' <= c <= '9',
        10 * v + (c as int - '0' as int) <= i16::MAX,
    ensures
        decimal_i16(s.push(c)) == Some((10 * v + (c as int - '0' as int)) as i16),
{
    let digits = unsigned_part(s);
    let t = s.push(c);
    assert(t[0] == s[0]);
    assert(unsigned_part(t) =~= digits.push(c));
    assert(digits.push(c).drop_last() =~= digits);
    assert(digits.push(c).last() == c);
    assert(digits_value(digits.push(c)) == 10 * digits_value(digits) + (c as int - '0' as int));
    assert(v == digits_value(digits));
    lemma_digits_value_nonneg(digits);
    assert(all_digits(digits.push(c))) by {
        assert forall|i: int| 0 <= i < digits.push(c).len() implies #[trigger] is_digit(
            digits.push(c)[i],
        ) by {
            if i < digits.len() {
                assert(is_digit(digits[i]));
            }
        }
    }
}

/// A sign in front of a text of digits: `-` negates the value read, `+`
/// keeps it.
pub proof fn lemma_signed(s: Seq<char>, v: i16)
    requires
        decimal_i16(s) == Some(v),
        s.len() > 0,
        '0' <= s[0] <= '9',
    ensures
        decimal_i16(seq!['-'] + s) == Some((-v) as i16),
        decimal_i16(seq!['+'] + s) == Some(v),
{
    assert((seq!['-'] + s).drop_first() =~= s);
    assert((seq!['+'] + s).drop_first() =~= s);
    assert(unsigned_part(s) == s);
    assert(v == digits_value(s));
    lemma_digits_value_nonneg(s);
    assert(unsigned_part(seq!['-'] + s) == s);
    assert(unsigned_part(seq!['+'] + s) == s);
}

/// Only digits are read: the empty text, and any text with a character other
/// than `0` to `9` after its first, or with a first character that is neither
/// a digit nor a sign, read as nothing.
pub proof fn lemma_non_digits_refused(s: Seq<char>, i: int)
    requires
        0 <= i < s.len(),
        !('0' <= s[i] <= '9'),
        i == 0 ==> s[0] != '+' && s[0] != '-',
    ensures
        decimal_i16(s) is None,
        decimal_i16(Seq::<char>::empty()) is None,
{
    let digits = unsigned_part(s);
    if s.len() > 0 && is_sign(s[0]) {
        assert(digits[i - 1] == s[i]);
        assert(!is_digit(digits[i - 1]));
    } else {
        assert(digits[i] == s[i]);
        assert(!is_digit(digits[i]));
    }
}

/// The decimal text of a natural number is one or more digits, starting with
/// a digit, and reads back as that number.
pub proof fn lemma_nat_text_reads_back(n: nat)
    ensures
        nat_text(n).len() >= 1,
        all_digits(nat_text(n)),
        digits_value(nat_text(n)) == n,
        '0' <= nat_text(n)[0] <= '9',
    decreases n,
{
    if n < 10 {
        let c = digit_char(n);
        assert(c as int == '0' as int + n);
        assert(seq![c].drop_last() =~= Seq::<char>::empty());
        assert(digits_value(Seq::<char>::empty()) == 0);
        assert(seq![c].last() == c);
        assert(is_digit(seq![c][0]));
    } else {
        lemma_nat_text_reads_back(n / 10);
        let a = nat_text(n / 10);
        let c = digit_char(n % 10);
        assert(c as int == '0' as int + n % 10);
        assert((a + seq![c]).drop_last() =~= a);
        assert((a + seq![c]).last() == c);
        assert((a + seq![c])[0] == a[0]);
        assert(n == 10 * (n / 10) + n % 10);
        assert(all_digits(a + seq![c])) by {
            assert forall|i: int| 0 <= i < (a + seq![c]).len() implies #[trigger] is_digit(
                (a + seq![c])[i],
            ) by {
                if i < a.len() {
                    assert(is_digit(a[i]));
                }
            }
        }
    }
}

/// Decimal text reads back: the text written for any 16-bit value reads as
/// that same value.
pub proof fn lemma_int_text_reads_back(x: i16)
    ensures
        decimal_i16(int_text(x as int)) == Some(x),
{
    if x < 0 {
        let n = (-x) as nat;
        lemma_nat_text_reads_back(n);
        assert((seq!['-'] + nat_text(n)).drop_first() =~= nat_text(n));
    } else {
        lemma_nat_text_reads_back(x as nat);
    }
}

/// The reply names the values in order: a delivered command is answered with
/// `Sent command: L=`, the left value, ` R=`, the right value, each value in
/// decimal text that reads back as that value; an undelivered one with
/// `No ESP32 connected`.
pub proof fn lemma_command_reply_names_values(l: i16, r: i16)
    ensures
        command_reply_text(l, r, true) == "Sent command: L="@ + int_text(l as int) + " R="@
            + int_text(r as int),
        decimal_i16(int_text(l as int)) == Some(l),
        decimal_i16(int_text(r as int)) == Some(r),
        command_reply_text(l, r, false) == "No ESP32 connected"@,
{
    lemma_int_text_reads_back(l);
    lemma_int_text_reads_back(r);
}

/// The range is that of `i16`: one more digit that takes a non-negative
/// value past 32767 makes the text read as nothing; with a `-` in front, the
/// value 32768 still reads (as -32768) and anything larger does not.
pub proof fn lemma_append_digit_range(s: Seq<char>, c: char, v: i16)
    requires
        decimal_i16(s) == Some(v),
        s.len() > 0,
        '0' <= s[0] <= '9',
        '0' <= c <= '9',
    ensures
        10 * v + (c as int - '0' as int) > i16::MAX ==> decimal_i16(s.push(c)) is None,
        10 * v + (c as int - '0' as int) == 32768 ==> decimal_i16(seq!['-'] + s.push(c)) == Some(
            i16::MIN,
        ),
        10 * v + (c as int - '0' as int) > 32768 ==> decimal_i16(seq!['-'] + s.push(c)) is None,
{
    let t = s.push(c);
    assert(unsigned_part(s) == s);
    assert(v == digits_value(s));
    lemma_digits_value_nonneg(s);
    assert(t[0] == s[0]);
    assert(unsigned_part(t) == t);
    assert(t.drop_last() =~= s);
    assert(t.last() == c);
    assert(digits_value(t) == 10 * digits_value(s) + (c as int - '0' as int));
    assert(all_digits(t)) by {
        assert forall|i: int| 0 <= i < t.len() implies #[trigger] is_digit(t[i]) by {
            if i < s.len() {
                assert(is_digit(s[i]));
            }
        }
    }
    assert((seq!['-'] + t).drop_first() =~= t);
    assert(unsigned_part(seq!['-'] + t) == t);
}

} // verus!
