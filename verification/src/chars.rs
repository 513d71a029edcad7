use vstd::prelude::*;

verus! {

/// Whether `c` is one of the ten decimal digits.
pub open spec fn digit(c: char) -> bool {
    '0' <= c && c <= '9'
}

/// Whether `c` may start an identifier: an ASCII letter or an underscore.
pub open spec fn alpha(c: char) -> bool {
    ('a' <= c && c <= 'z') || ('A' <= c && c <= 'Z') || c == '_'
}

/// Whether `c` may continue an identifier.
pub open spec fn alphanumeric(c: char) -> bool {
    alpha(c) || digit(c)
}

/// Whether a character is there and is a decimal digit.
pub fn is_digit(c: Option<char>) -> (r: bool)
    ensures
        r == (c matches Some(ch) && digit(ch)),
{
    match c {
        Some(ch) => '0' <= ch && ch <= '9',
        None => false,
    }
}

/// Whether a character is there and may start an identifier.
pub fn is_alpha(c: Option<char>) -> (r: bool)
    ensures
        r == (c matches Some(ch) && alpha(ch)),
{
    match c {
        Some(ch) => ('a' <= ch && ch <= 'z') || ('A' <= ch && ch <= 'Z') || ch == '_',
        None => false,
    }
}

/// Whether a character is there and may continue an identifier.
pub fn is_alphanumeric(c: Option<char>) -> (r: bool)
    ensures
        r == (c matches Some(ch) && alphanumeric(ch)),
{
    is_alpha(c) || is_digit(c)
}

/// Whether `c` has Unicode's White_Space property, as `char::is_whitespace`
/// answers it. Nothing else is known of it here: the table of that property is
/// the standard library's.
pub uninterp spec fn whitespace(c: char) -> bool;

/// Trusted: `char::is_whitespace` depends on the character alone, so that its
/// answer is `whitespace(c)`. Which characters those are is not stated.
pub assume_specification[ char::is_whitespace ](c: char) -> (b: bool)
    ensures
        b == whitespace(c),
;

/// Whether `c` is blank. Within ASCII the blank characters are the space and
/// the five from tab to carriage return (newline among them); beyond ASCII they
/// are the characters with Unicode's White_Space property.
pub open spec fn blank(c: char) -> bool {
    if c <= '\x7f' {
        c == ' ' || ('\t' <= c && c <= '\r')
    } else {
        whitespace(c)
    }
}

pub fn is_blank(c: char) -> (r: bool)
    ensures
        r == blank(c),
{
    if c <= '\x7f' {
        c == ' ' || ('\t' <= c && c <= '\r')
    } else {
        c.is_whitespace()
    }
}

/// Trusted: `String::push` appends the character to the end of the string and
/// changes nothing else of it.
pub assume_specification[ std::string::String::push ](s: &mut std::string::String, c: char)
    ensures
        final(s)@ == old(s)@.push(c),
;

/// The character that writes the digit `d`.
pub open spec fn digit_char(d: int) -> char {
    if d == 0 {
        '0'
    } else if d == 1 {
        '1'
    } else if d == 2 {
        '2'
    } else if d == 3 {
        '3'
    } else if d == 4 {
        '4'
    } else if d == 5 {
        '5'
    } else if d == 6 {
        '6'
    } else if d == 7 {
        '7'
    } else if d == 8 {
        '8'
    } else {
        '9'
    }
}

/// The decimal numeral of `n`, without leading zeros.
pub open spec fn decimal(n: nat) -> Seq<char>
    decreases n,
{
    if n < 10 {
        seq![digit_char(n as int)]
    } else {
        decimal(n / 10).push(digit_char((n % 10) as int))
    }
}

/// The decimal numeral of `n`, with a minus sign in front if it is negative.
pub open spec fn signed_decimal(n: int) -> Seq<char> {
    if n < 0 {
        seq!['-'] + decimal((-n) as nat)
    } else {
        decimal(n as nat)
    }
}

fn digit_of(d: u64) -> (c: char)
    requires
        d < 10,
    ensures
        c == digit_char(d as int),
{
    if d == 0 {
        '0'
    } else if d == 1 {
        '1'
    } else if d == 2 {
        '2'
    } else if d == 3 {
        '3'
    } else if d == 4 {
        '4'
    } else if d == 5 {
        '5'
    } else if d == 6 {
        '6'
    } else if d == 7 {
        '7'
    } else if d == 8 {
        '8'
    } else {
        '9'
    }
}

/// Appends the decimal numeral of `n` to `out`.
pub fn push_decimal(out: &mut String, n: u64)
    ensures
        final(out)@ == old(out)@ + decimal(n as nat),
    decreases n,
{
    if n >= 10 {
        push_decimal(out, n / 10);
    }
    out.push(digit_of(n % 10));
    assert(final(out)@ =~= old(out)@ + decimal(n as nat));
}

/// Appends the decimal numeral of `n`, behind a minus sign if it is negative.
pub fn push_signed_decimal(out: &mut String, n: i64)
    ensures
        final(out)@ == old(out)@ + signed_decimal(n as int),
{
    if n < 0 {
        out.push('-');
        let magnitude: u64 = if n == i64::MIN {
            9223372036854775808u64
        } else {
            (-n) as u64
        };
        push_decimal(out, magnitude);
        assert(final(out)@ =~= old(out)@ + signed_decimal(n as int));
    } else {
        push_decimal(out, n as u64);
    }
}

} // verus!
