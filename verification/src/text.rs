//! Building blocks for rendered text: decimal numbers and quoted strings.

use vstd::prelude::*;

verus! {

/// The character of one decimal digit.
pub open spec fn digit_char(d: nat) -> char
    recommends
        d < 10,
{
    if d == 0 {
        '0'
    } else if d == 1 {
        '1'
    } else if d == 2 {
        '2'
    } else if d == 3 {
        '3'
    } else if d == 4 {
        '4'
    } else if d == 5 {
        '5'
    } else if d == 6 {
        '6'
    } else if d == 7 {
        '7'
    } else if d == 8 {
        '8'
    } else {
        '9'
    }
}

/// The decimal digits of a natural number, most significant first, without
/// leading zeros.
pub open spec fn digits(n: nat) -> Seq<char>
    decreases n,
{
    if n < 10 {
        seq![digit_char(n)]
    } else {
        digits(n / 10).push(digit_char(n % 10))
    }
}

/// The decimal notation of an integer: a minus sign for a negative number,
/// then the digits of its magnitude.
pub open spec fn decimal(i: int) -> Seq<char> {
    if i < 0 {
        seq!['-'] + digits((-i) as nat)
    } else {
        digits(i as nat)
    }
}

/// Whether the character is a decimal digit.
pub open spec fn is_digit(c: char) -> bool {
    '0' <= c <= '9'
}

/// The length of the sign in front of a number: 1 where the text begins with
/// a minus sign, else 0.
pub open spec fn sign_length(s: Seq<char>) -> int {
    if s.len() > 0 && s[0] == '-' {
        1
    } else {
        0
    }
}

/// Whether the text is a number in decimal notation: an optional minus sign,
/// then digits, with at most one point among them, and a digit at both ends.
pub open spec fn is_number(s: Seq<char>) -> bool {
    let start = sign_length(s);
    &&& start < s.len()
    &&& is_digit(s[start])
    &&& is_digit(s.last())
    &&& forall|i: int| start <= i < s.len() ==> is_digit(#[trigger] s[i]) || s[i] == '.'
    &&& forall|i: int, j: int|
        start <= i < j < s.len() ==> !(#[trigger] s[i] == '.' && #[trigger] s[j] == '.')
}

/// The text with every single quote doubled.
pub open spec fn escaped(s: Seq<char>) -> Seq<char>
    decreases s.len(),
{
    if s.len() == 0 {
        s
    } else if s.last() == '\'' {
        escaped(s.drop_last()).push('\'').push('\'')
    } else {
        escaped(s.drop_last()).push(s.last())
    }
}

/// The text as a quoted string: between single quotes, with the quotes inside
/// it doubled.
pub open spec fn quoted(s: Seq<char>) -> Seq<char> {
    seq!['\''] + escaped(s) + seq!['\'']
}

/// Appends one character to a string, by `String::push`.
#[verifier::external_body]
pub(crate) fn push_char(s: &mut String, c: char)
    ensures
        final(s)@ == old(s)@.push(c),
{
    s.push(c)
}

/// Compares two string slices with `str::eq`: two slices are equal where
/// they hold the same characters.
#[verifier::external_body]
pub(crate) fn same_text(a: &str, b: &str) -> (r: bool)
    ensures
        r == (a@ == b@),
{
    a == b
}

fn digit_of(d: u64) -> (c: char)
    requires
        d < 10,
    ensures
        c == digit_char(d as nat),
{
    if d == 0 {
        '0'
    } else if d == 1 {
        '1'
    } else if d == 2 {
        '2'
    } else if d == 3 {
        '3'
    } else if d == 4 {
        '4'
    } else if d == 5 {
        '5'
    } else if d == 6 {
        '6'
    } else if d == 7 {
        '7'
    } else if d == 8 {
        '8'
    } else {
        '9'
    }
}

/// Appends the digits of `n` to `out`.
fn push_digits(out: &mut String, n: u64)
    ensures
        final(out)@ == old(out)@ + digits(n as nat),
    decreases n,
{
    if n < 10 {
        push_char(out, digit_of(n));
    } else {
        push_digits(out, n / 10);
        push_char(out, digit_of(n % 10));
    }
}

/// Appends the decimal notation of `i` to `out`.
pub fn push_decimal(out: &mut String, i: i64)
    ensures
        final(out)@ == old(out)@ + decimal(i as int),
{
    if i < 0 {
        let magnitude: u64 = if i == i64::MIN {
            9223372036854775808u64
        } else {
            (-i) as u64
        };
        push_char(out, '-');
        push_digits(out, magnitude);
    } else {
        push_digits(out, i as u64);
    }
}

/// The decimal notation of `i`.
pub fn format_integer(i: i64) -> (r: String)
    ensures
        r@ == decimal(i as int),
{
    let mut out = String::new();
    push_decimal(&mut out, i);
    out
}

/// Appends `s` to `out` with every single quote doubled.
pub fn push_escaped(out: &mut String, s: &str)
    ensures
        final(out)@ == old(out)@ + escaped(s@),
{
    for c in it: s.chars()
        invariant
            it.seq() == s@,
            out@ == old(out)@ + escaped(s@.subrange(0, it.index())),
    {
        assert(s@.subrange(0, it.index() + 1).drop_last() =~= s@.subrange(0, it.index()));
        if c == '\'' {
            push_char(out, '\'');
            push_char(out, '\'');
        } else {
            push_char(out, c);
        }
    }
    assert(s@.subrange(0, s@.len() as int) =~= s@);
}

/// Appends `s` to `out` as a quoted string.
pub fn push_quoted(out: &mut String, s: &str)
    ensures
        final(out)@ == old(out)@ + quoted(s@),
{
    push_char(out, '\'');
    push_escaped(out, s);
    push_char(out, '\'');
}

/// Whether `s` is a number in decimal notation.
pub fn check_number(s: &str) -> (r: bool)
    ensures
        r == is_number(s@),
{
    let ghost start = sign_length(s@);
    let mut signed = false;
    let mut entered = false;
    let mut pointed = false;
    let mut last_is_digit = false;
    let mut regular = true;
    for c in it: s.chars()
        invariant
            it.seq() == s@,
            start == sign_length(s@),
            signed == (it.index() > 0 && start == 1),
            entered == (it.index() > start),
            pointed == (exists|i: int| start <= i < it.index() && #[trigger] s@[i] == '.'),
            last_is_digit == (it.index() > start && is_digit(s@[it.index() - 1])),
            regular == ({
                &&& it.index() > start ==> is_digit(s@[start])
                &&& forall|i: int|
                    start <= i < it.index() ==> is_digit(#[trigger] s@[i]) || s@[i] == '.'
                &&& forall|i: int, j: int|
                    start <= i < j < it.index() ==> !(#[trigger] s@[i] == '.' && #[trigger] s@[j]
                        == '.')
            }),
    {
        if !signed && !entered && c == '-' {
            signed = true;
        } else {
            let digit = '0' <= c && c <= '9';
            if !digit && c != '.' {
                regular = false;
            }
            if c == '.' && (pointed || !entered) {
                regular = false;
            }
            if c == '.' {
                pointed = true;
            }
            entered = true;
            last_is_digit = digit;
        }
    }
    regular && entered && last_is_digit
}

} // verus!
