use vstd::prelude::*;

verus! {

/// The character of a decimal digit.
pub open spec fn digit_char(d: nat) -> char {
    if d == 0 { '0' }
    else if d == 1 { '1' }
    else if d == 2 { '2' }
    else if d == 3 { '3' }
    else if d == 4 { '4' }
    else if d == 5 { '5' }
    else if d == 6 { '6' }
    else if d == 7 { '7' }
    else if d == 8 { '8' }
    else { '9' }
}

/// The decimal notation of a natural number, without sign or leading zeros.
pub open spec fn decimal(n: nat) -> Seq<char>
    decreases n,
{
    if n < 10 {
        seq![digit_char(n)]
    } else {
        decimal(n / 10).push(digit_char(n % 10))
    }
}

fn digit_str(d: u64) -> (s: &'static str)
    requires
        d < 10,
    ensures
        s@ == seq![digit_char(d as nat)],
{
    proof {
        reveal_strlit("0");
        reveal_strlit("1");
        reveal_strlit("2");
        reveal_strlit("3");
        reveal_strlit("4");
        reveal_strlit("5");
        reveal_strlit("6");
        reveal_strlit("7");
        reveal_strlit("8");
        reveal_strlit("9");
    }
    if d == 0 { "0" }
    else if d == 1 { "1" }
    else if d == 2 { "2" }
    else if d == 3 { "3" }
    else if d == 4 { "4" }
    else if d == 5 { "5" }
    else if d == 6 { "6" }
    else if d == 7 { "7" }
    else if d == 8 { "8" }
    else { "9" }
}

/// Writes `n` in decimal.
pub fn decimal_string(n: u64) -> (s: String)
    ensures
        s@ == decimal(n as nat),
    decreases n,
{
    if n < 10 {
        String::from_str(digit_str(n))
    } else {
        let mut s = decimal_string(n / 10);
        s.append(digit_str(n % 10));
        s
    }
}

/// The decimal notation of an integer, with a leading `-` when negative.
pub open spec fn signed_decimal(v: int) -> Seq<char> {
    if v < 0 {
        "-"@ + decimal((-v) as nat)
    } else {
        decimal(v as nat)
    }
}

/// Writes `n` in decimal, with a leading `-` when negative.
pub fn signed_decimal_string(n: i64) -> (s: String)
    ensures
        s@ == signed_decimal(n as int),
{
    if n < 0 {
        let magnitude = (0i128 - n as i128) as u64;
        let digits = decimal_string(magnitude);
        String::from_str("-").concat(digits.as_str())
    } else {
        decimal_string(n as u64)
    }
}

/// An ASCII decimal digit.
pub open spec fn is_ascii_digit(c: char) -> bool {
    '0' <= c && c <= '9'
}

/// A non-empty run of ASCII decimal digits.
pub open spec fn all_digits(s: Seq<char>) -> bool {
    &&& s.len() > 0
    &&& forall|i: int| 0 <= i < s.len() ==> is_ascii_digit(#[trigger] s[i])
}

/// The number that a run of ASCII decimal digits denotes.
pub open spec fn digits_value(s: Seq<char>) -> int
    decreases s.len(),
{
    if s.len() == 0 {
        0
    } else {
        digits_value(s.drop_last()) * 10 + (s.last() as int - '0' as int)
    }
}

/// The integer that `s` denotes in decimal integer syntax: an optional `+`
/// or `-` followed by one or more ASCII digits and nothing else. `None`
/// for any other text.
pub open spec fn decimal_value(s: Seq<char>) -> Option<int> {
    if s.len() > 0 && s[0] == '-' {
        if all_digits(s.drop_first()) { Some(-digits_value(s.drop_first())) } else { None }
    } else if s.len() > 0 && s[0] == '+' {
        if all_digits(s.drop_first()) { Some(digits_value(s.drop_first())) } else { None }
    } else if all_digits(s) {
        Some(digits_value(s))
    } else {
        None
    }
}

/// The integer that `s` denotes, when it lies in `lo..=hi`.
pub open spec fn decimal_in_range(s: Seq<char>, lo: int, hi: int) -> Option<int> {
    match decimal_value(s) {
        Some(v) => if lo <= v && v <= hi { Some(v) } else { None },
        None => None,
    }
}

/// Reads an `i8` written in decimal.
///
/// Calls `str::parse::<i8>`, whose documented syntax is an optional `+` or
/// `-` followed by ASCII digits only, and which fails when the value does
/// not fit in an `i8`. The contract states exactly that: the result is the
/// value when the text has that syntax and the value fits, and `None`
/// otherwise.
#[verifier::external_body]
pub(crate) fn parse_i8(s: &str) -> (res: Option<i8>)
    ensures
        res matches Some(v) ==> decimal_in_range(s@, -128, 127) == Some(v as int),
        res is None ==> decimal_in_range(s@, -128, 127) is None,
{
    s.parse::<i8>().ok()
}

/// Reads an `i16` written in decimal.
///
/// Calls `str::parse::<i16>`; as for [`parse_i8`], the result is the value
/// when the text is an optional sign followed by ASCII digits and the value
/// fits in an `i16`, and `None` otherwise.
#[verifier::external_body]
pub(crate) fn parse_i16(s: &str) -> (res: Option<i16>)
    ensures
        res matches Some(v) ==> decimal_in_range(s@, -32768, 32767) == Some(v as int),
        res is None ==> decimal_in_range(s@, -32768, 32767) is None,
{
    s.parse::<i16>().ok()
}

} // verus!
