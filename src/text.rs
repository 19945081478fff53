//! Pieces of text: splitting on commas, decimal numbers, and names compared
//! without regard to ASCII case.
use vstd::prelude::*;

use itertools::Itertools;

verus! {

/// The pieces of `s` between commas, as `str::split(',')` yields them: one
/// more piece than there are commas.
pub open spec fn split_commas(s: Seq<char>) -> Seq<Seq<char>>
    decreases s.len(),
{
    if s.len() == 0 {
        seq![Seq::empty()]
    } else {
        let rest = split_commas(s.drop_last());
        if s.last() == ',' {
            rest.push(Seq::empty())
        } else {
            rest.update(rest.len() - 1, rest.last().push(s.last()))
        }
    }
}

/// The pieces grouped by four; a last group of fewer than four is dropped.
pub open spec fn quads(pieces: Seq<Seq<char>>) -> Seq<(Seq<char>, Seq<char>, Seq<char>, Seq<char>)> {
    Seq::new(
        pieces.len() / 4,
        |k: int| (pieces[4 * k], pieces[4 * k + 1], pieces[4 * k + 2], pieces[4 * k + 3]),
    )
}

/// The texts of a group of four.
pub open spec fn quad_views(q: (String, String, String, String)) -> (
    Seq<char>,
    Seq<char>,
    Seq<char>,
    Seq<char>,
) {
    (q.0@, q.1@, q.2@, q.3@)
}

/// Relies on str::split(','): the pieces between commas.
#[verifier::external_body]
pub(crate) fn split_on_commas(s: &str) -> (r: Vec<String>)
    ensures
        r@.map_values(|p: String| p@) == split_commas(s@),
{
    s.split(',').map(|p| p.to_string()).collect()
}

/// Relies on itertools' `Itertools::tuples`: consecutive items taken four at
/// a time, a last incomplete group left out.
#[verifier::external_body]
pub(crate) fn group_by_four(v: Vec<String>) -> (r: Vec<(String, String, String, String)>)
    ensures
        r@.len() == v@.len() / 4,
        forall|k: int|
            0 <= k < r@.len() ==> #[trigger] r@[k] == (v@[4 * k], v@[4 * k + 1], v@[4 * k + 2], v@[
                4 * k + 3
            ]),
{
    v.into_iter().tuples().collect()
}

/// The value of a decimal digit.
pub open spec fn digit_value(c: char) -> int {
    c as int - '0' as int
}

/// Every character is a decimal digit.
pub open spec fn all_digits(s: Seq<char>) -> bool {
    forall|i: int| 0 <= i < s.len() ==> '0' <= #[trigger] s[i] <= '9'
}

/// The number that a string of digits denotes.
pub open spec fn digits_value(s: Seq<char>) -> int
    decreases s.len(),
{
    if s.len() == 0 {
        0
    } else {
        digits_value(s.drop_last()) * 10 + digit_value(s.last())
    }
}

/// The text of an unsigned number without its optional leading `+`.
pub open spec fn unsigned_body(s: Seq<char>) -> Seq<char> {
    if s.len() > 0 && s[0] == '+' {
        s.drop_first()
    } else {
        s
    }
}

/// `s` is an unsigned decimal number no greater than `max`.
pub open spec fn unsigned_ok(s: Seq<char>, max: int) -> bool {
    let b = unsigned_body(s);
    b.len() > 0 && all_digits(b) && digits_value(b) <= max
}

/// The value of an unsigned decimal number.
pub open spec fn unsigned_value(s: Seq<char>) -> int {
    digits_value(unsigned_body(s))
}

/// The value of a signed decimal number: an optional sign, then digits.
pub open spec fn signed_value(s: Seq<char>) -> int {
    if s.len() > 0 && s[0] == '-' {
        -digits_value(s.drop_first())
    } else {
        digits_value(unsigned_body(s))
    }
}

/// The digits of a signed decimal number.
pub open spec fn signed_body(s: Seq<char>) -> Seq<char> {
    if s.len() > 0 && s[0] == '-' {
        s.drop_first()
    } else {
        unsigned_body(s)
    }
}

/// `s` is a signed decimal number between `min` and `max`.
pub open spec fn signed_ok(s: Seq<char>, min: int, max: int) -> bool {
    let b = signed_body(s);
    b.len() > 0 && all_digits(b) && min <= signed_value(s) <= max
}

/// The description that std gives of a failed parse of `s` as a `u64`.
pub uninterp spec fn u64_error_text(s: Seq<char>) -> Seq<char>;

/// The description that std gives of a failed parse of `s` as a `u32`.
pub uninterp spec fn u32_error_text(s: Seq<char>) -> Seq<char>;

/// The description that std gives of a failed parse of `s` as an `i8`.
pub uninterp spec fn i8_error_text(s: Seq<char>) -> Seq<char>;

/// Relies on `u64::from_str`: an optional `+` and at least one digit, with a
/// value that fits; on failure, the text of its error.
#[verifier::external_body]
pub(crate) fn parse_u64(s: &str) -> (r: Result<u64, String>)
    ensures
        r is Ok <==> unsigned_ok(s@, u64::MAX as int),
        r matches Ok(v) ==> v as int == unsigned_value(s@),
        r matches Err(e) ==> e@ == u64_error_text(s@),
{
    s.parse::<u64>().map_err(|e| e.to_string())
}

/// Relies on `u32::from_str`: an optional `+` and at least one digit, with a
/// value that fits; on failure, the text of its error.
#[verifier::external_body]
pub(crate) fn parse_u32(s: &str) -> (r: Result<u32, String>)
    ensures
        r is Ok <==> unsigned_ok(s@, u32::MAX as int),
        r matches Ok(v) ==> v as int == unsigned_value(s@),
        r matches Err(e) ==> e@ == u32_error_text(s@),
{
    s.parse::<u32>().map_err(|e| e.to_string())
}

/// Relies on `i8::from_str`: an optional sign and at least one digit, with a
/// value that fits; on failure, the text of its error.
#[verifier::external_body]
pub(crate) fn parse_i8(s: &str) -> (r: Result<i8, String>)
    ensures
        r is Ok <==> signed_ok(s@, i8::MIN as int, i8::MAX as int),
        r matches Ok(v) ==> v as int == signed_value(s@),
        r matches Err(e) ==> e@ == i8_error_text(s@),
{
    s.parse::<i8>().map_err(|e| e.to_string())
}

/// The character in ASCII lower case.
pub open spec fn ascii_lower(c: char) -> char {
    if 'A' <= c <= 'Z' {
        ((c as u32) + 32) as char
    } else {
        c
    }
}

/// The two texts are equal when ASCII letters are compared without case.
pub open spec fn eq_ignore_case(a: Seq<char>, b: Seq<char>) -> bool {
    a.len() == b.len() && forall|i: int| 0 <= i < a.len() ==> ascii_lower(a[i]) == ascii_lower(b[i])
}

fn lower(c: char) -> (r: char)
    ensures
        r == ascii_lower(c),
{
    if 'A' <= c && c <= 'Z' {
        ((c as u8) + 32) as char
    } else {
        c
    }
}

/// Whether `a` and `b` are equal when ASCII letters are compared without
/// case.
pub fn equal_ignore_case(a: &str, b: &str) -> (r: bool)
    ensures
        r == eq_ignore_case(a@, b@),
{
    let n = a.unicode_len();
    if n != b.unicode_len() {
        return false;
    }
    let mut i: usize = 0;
    while i < n
        invariant
            n == a@.len() == b@.len(),
            i <= n,
            forall|k: int| 0 <= k < i ==> ascii_lower(a@[k]) == ascii_lower(b@[k]),
        decreases n - i,
    {
        if lower(a.get_char(i)) != lower(b.get_char(i)) {
            return false;
        }
        i = i + 1;
    }
    true
}

} // verus!
