//! Decimal text of numbers, and the std integer parsers the feed reader uses.

use vstd::prelude::*;
use vstd::string::StringExecFns;

verus! {

/// The ASCII digit for `d` in `0..10`.
pub open spec fn digit_char(d: int) -> char {
    (48 + d) as char
}

/// The decimal text of `n`, without leading zeros (`{}` of an unsigned integer).
pub open spec fn decimal_text(n: nat) -> Seq<char>
    decreases n,
{
    if n < 10 {
        seq![digit_char(n as int)]
    } else {
        decimal_text(n / 10).push(digit_char((n % 10) as int))
    }
}

/// `{:02}` of an integer: the decimal text, zero-padded to two characters
/// when it is a single digit; a negative value keeps its sign in front.
pub open spec fn padded2_text(n: int) -> Seq<char> {
    if n < 0 {
        seq!['-'] + decimal_text((-n) as nat)
    } else if n < 10 {
        seq!['0'] + decimal_text(n as nat)
    } else {
        decimal_text(n as nat)
    }
}

pub open spec fn is_ascii_digit(c: char) -> bool {
    '0' <= c && c <= '9'
}

/// One or more ASCII digits.
pub open spec fn all_digits(s: Seq<char>) -> bool {
    s.len() > 0 && forall|i: int| 0 <= i < s.len() ==> is_ascii_digit(#[trigger] s[i])
}

/// The value of a string of ASCII digits.
pub open spec fn digits_value(s: Seq<char>) -> nat
    decreases s.len(),
{
    if s.len() == 0 {
        0
    } else {
        digits_value(s.drop_last()) * 10 + ((s.last() as int - 48) as nat)
    }
}

/// The text `u64::from_str` accepts: an optional `+`, then digits.
pub open spec fn unsigned_digits(s: Seq<char>) -> Option<Seq<char>> {
    if all_digits(s) {
        Some(s)
    } else if s.len() > 0 && s[0] == '+' && all_digits(s.drop_first()) {
        Some(s.drop_first())
    } else {
        None
    }
}

/// `s.parse::<u64>().ok()`.
pub open spec fn parsed_u64(s: Seq<char>) -> Option<u64> {
    match unsigned_digits(s) {
        Some(d) => if digits_value(d) <= u64::MAX {
            Some(digits_value(d) as u64)
        } else {
            None
        },
        None => None,
    }
}

/// The value that `i32::from_str` reads from an optional sign and digits.
pub open spec fn signed_value(s: Seq<char>) -> Option<int> {
    if all_digits(s) {
        Some(digits_value(s) as int)
    } else if s.len() > 0 && s[0] == '+' && all_digits(s.drop_first()) {
        Some(digits_value(s.drop_first()) as int)
    } else if s.len() > 0 && s[0] == '-' && all_digits(s.drop_first()) {
        Some(-(digits_value(s.drop_first()) as int))
    } else {
        None
    }
}

/// `s.parse::<i32>().ok()`.
pub open spec fn parsed_i32(s: Seq<char>) -> Option<i32> {
    match signed_value(s) {
        Some(v) => if i32::MIN <= v <= i32::MAX {
            Some(v as i32)
        } else {
            None
        },
        None => None,
    }
}

/// The message of the error that `s.parse::<i32>()` gives.
pub uninterp spec fn int_parse_error_text(s: Seq<char>) -> Seq<char>;

/// The digit character of `d` has the code `48 + d`.
proof fn digit_char_code(d: int)
    requires
        0 <= d < 10,
    ensures
        digit_char(d) as int == 48 + d,
        is_ascii_digit(digit_char(d)),
{
}

/// The decimal text of a number is digits only, it reads back as that
/// number, and it has no leading zero.
pub proof fn decimal_text_reads_back(n: nat)
    ensures
        all_digits(decimal_text(n)),
        digits_value(decimal_text(n)) == n,
        decimal_text(n).len() > 1 ==> decimal_text(n)[0] != '0',
    decreases n,
{
    if n < 10 {
        digit_char_code(n as int);
        let t = decimal_text(n);
        assert(t.drop_last() =~= Seq::<char>::empty());
        assert(digits_value(t) == digits_value(t.drop_last()) * 10 + ((t.last() as int - 48) as nat));
    } else {
        decimal_text_reads_back(n / 10);
        digit_char_code((n % 10) as int);
        let t = decimal_text(n);
        let p = decimal_text(n / 10);
        assert(t == p.push(digit_char((n % 10) as int)));
        assert(t.drop_last() =~= p);
        assert(t.last() == digit_char((n % 10) as int));
        assert(digits_value(t) == digits_value(p) * 10 + ((t.last() as int - 48) as nat));
        assert(t[0] == p[0]);
        if p.len() <= 1 {
            assert(n / 10 < 10) by {
                if n / 10 >= 10 {
                    decimal_text_reads_back(n / 10 / 10);
                    assert(p == decimal_text(n / 10 / 10).push(digit_char((n / 10 % 10) as int)));
                    assert(p.len() > 1);
                }
            }
            digit_char_code((n / 10) as int);
            assert(p[0] == digit_char((n / 10) as int));
        }
    }
}

/// Calls `str::parse::<u64>`. Its documentation says that it accepts an
/// optional `+` followed by decimal digits whose value fits, and nothing else.
#[verifier::external_body]
pub fn parse_u64(s: &str) -> (r: Option<u64>)
    ensures
        r == parsed_u64(s@),
{
    s.parse::<u64>().ok()
}

/// Calls `str::parse::<i32>` and turns its error into its message. Its
/// documentation says that it accepts an optional sign followed by decimal
/// digits whose value fits, and nothing else. The message is named, not
/// spelled out: the documentation does not give its text.
#[verifier::external_body]
pub fn parse_i32(s: &str) -> (r: Result<i32, String>)
    ensures
        match r {
            Ok(v) => parsed_i32(s@) == Some(v),
            Err(e) => parsed_i32(s@) is None && e@ == int_parse_error_text(s@),
        },
{
    s.parse::<i32>().map_err(|e| e.to_string())
}

/// The one-character text of a decimal digit.
pub fn digit_str(d: u64) -> (r: &'static str)
    requires
        d < 10,
    ensures
        r@ == seq![digit_char(d as int)],
{
    proof {
        reveal_strlit("0");
        reveal_strlit("1");
        reveal_strlit("2");
        reveal_strlit("3");
        reveal_strlit("4");
        reveal_strlit("5");
        reveal_strlit("6");
        reveal_strlit("7");
        reveal_strlit("8");
        reveal_strlit("9");
    }
    match d {
        0 => "0",
        1 => "1",
        2 => "2",
        3 => "3",
        4 => "4",
        5 => "5",
        6 => "6",
        7 => "7",
        8 => "8",
        _ => "9",
    }
}

/// Appends the decimal text of `n` to `out`.
pub fn push_decimal(out: &mut String, n: u64)
    ensures
        final(out)@ == old(out)@ + decimal_text(n as nat),
    decreases n,
{
    if n >= 10 {
        push_decimal(out, n / 10);
        out.append(digit_str(n % 10));
        assert(decimal_text(n as nat) == decimal_text((n / 10) as nat).push(digit_char((n % 10) as int)));
    } else {
        out.append(digit_str(n));
    }
}

/// `n.to_string()` for an unsigned integer.
pub fn decimal_string(n: u64) -> (r: String)
    ensures
        r@ == decimal_text(n as nat),
{
    let mut out = String::new();
    push_decimal(&mut out, n);
    out
}

/// `format!("{:02}", n)`.
pub fn padded2_string(n: i64) -> (r: String)
    ensures
        r@ == padded2_text(n as int),
{
    let mut out = String::new();
    if n < 0 {
        out.append("-");
        proof { reveal_strlit("-"); }
        let m: u64 = if n == i64::MIN { 9223372036854775808u64 } else { (-n) as u64 };
        push_decimal(&mut out, m);
    } else {
        if n < 10 {
            out.append("0");
            proof { reveal_strlit("0"); }
        }
        push_decimal(&mut out, n as u64);
    }
    out
}

} // verus!
