//! Character and string helpers shared by the lexer: character classes,
//! conversions between strings and character vectors, and decimal rendering
//! of numbers for diagnostic messages.

use vstd::prelude::*;

verus! {

/// True iff `c` is an ASCII decimal digit.
pub open spec fn spec_is_ascii_digit(c: char) -> bool {
    48 <= c as u32 <= 57
}

/// True iff `c` is an ASCII decimal digit.
pub fn is_ascii_digit(c: char) -> (r: bool)
    ensures
        r == spec_is_ascii_digit(c),
{
    let u = c as u32;
    48 <= u && u <= 57
}

/// True iff `c` is an ASCII octal digit.
pub open spec fn spec_is_oct_digit(c: char) -> bool {
    48 <= c as u32 <= 55
}

/// True iff `c` is an ASCII octal digit.
pub fn is_oct_digit(c: char) -> (r: bool)
    ensures
        r == spec_is_oct_digit(c),
{
    let u = c as u32;
    48 <= u && u <= 55
}

/// True iff `c` is an ASCII hexadecimal digit.
pub open spec fn spec_is_hex_digit(c: char) -> bool {
    spec_is_ascii_digit(c) || 97 <= c as u32 <= 102 || 65 <= c as u32 <= 70
}

/// True iff `c` is an ASCII hexadecimal digit.
pub fn is_hex_digit(c: char) -> (r: bool)
    ensures
        r == spec_is_hex_digit(c),
{
    let u = c as u32;
    (48 <= u && u <= 57) || (97 <= u && u <= 102) || (65 <= u && u <= 70)
}

/// Value of a hexadecimal digit; unspecified on other characters.
pub open spec fn spec_hex_digit_value(c: char) -> u32 {
    if spec_is_ascii_digit(c) {
        (c as u32 - 48) as u32
    } else if 97 <= c as u32 <= 102 {
        (c as u32 - 87) as u32
    } else {
        (c as u32 - 55) as u32
    }
}

/// Value of a hexadecimal digit.
pub fn hex_digit_value(c: char) -> (r: u32)
    requires
        spec_is_hex_digit(c),
    ensures
        r == spec_hex_digit_value(c),
        r < 16,
{
    let u = c as u32;
    if 48 <= u && u <= 57 {
        u - 48
    } else if 97 <= u && u <= 102 {
        u - 87
    } else {
        u - 55
    }
}

/// True iff `c` is an ASCII letter.
pub open spec fn spec_is_ascii_alpha(c: char) -> bool {
    65 <= c as u32 <= 90 || 97 <= c as u32 <= 122
}

/// True iff `c` is an ASCII letter.
pub fn is_ascii_alpha(c: char) -> (r: bool)
    ensures
        r == spec_is_ascii_alpha(c),
{
    let u = c as u32;
    (65 <= u && u <= 90) || (97 <= u && u <= 122)
}

/// True iff `c` counts as whitespace for the lexer: space, horizontal tab,
/// line feed, vertical tab, form feed or carriage return.
pub open spec fn spec_is_whitespace(c: char) -> bool {
    c as u32 == 32 || 9 <= c as u32 <= 13
}

/// True iff `c` counts as whitespace for the lexer.
pub fn is_whitespace(c: char) -> (r: bool)
    ensures
        r == spec_is_whitespace(c),
{
    let u = c as u32;
    u == 32 || (9 <= u && u <= 13)
}

/// True iff `c` may continue an identifier: ASCII letter, digit or `_`.
pub open spec fn spec_is_ident_char(c: char) -> bool {
    spec_is_ascii_alpha(c) || spec_is_ascii_digit(c) || c as u32 == 95
}

/// True iff `c` may continue an identifier.
pub fn is_ident_char(c: char) -> (r: bool)
    ensures
        r == spec_is_ident_char(c),
{
    is_ascii_alpha(c) || is_ascii_digit(c) || c as u32 == 95
}

/// True iff `u` is a Unicode scalar value, that is a value a `char` can hold.
pub open spec fn is_scalar_value(u: u32) -> bool {
    u < 0xD800 || (0xE000 <= u <= 0x10FFFF)
}

/// Relies on `char::from_u32`: returns `Some` exactly on Unicode scalar
/// values (code points outside the surrogate range and at most `0x10FFFF`),
/// and the returned character is the code point it was given.
#[verifier::external_body]
pub fn char_from_u32(u: u32) -> (r: Option<char>)
    ensures
        is_scalar_value(u) <==> r is Some,
        r is Some ==> r.unwrap() as u32 == u,
{
    char::from_u32(u)
}

/// Relies on `String::push`: appends exactly one character at the end.
#[verifier::external_body]
pub fn push_char(s: &mut String, c: char)
    ensures
        final(s)@ == old(s)@.push(c),
{
    s.push(c);
}

/// The characters of a string, in order.
pub fn to_chars(s: &str) -> (r: Vec<char>)
    ensures
        r@ == s@,
{
    let n = s.unicode_len();
    let mut out: Vec<char> = Vec::new();
    let mut i: usize = 0;
    while i < n
        invariant
            0 <= i <= n,
            n == s@.len(),
            out@ == s@.subrange(0, i as int),
        decreases n - i,
    {
        let c = s.get_char(i);
        out.push(c);
        proof {
            assert(out@ =~= s@.subrange(0, i + 1 as int));
        }
        i = i + 1;
    }
    proof {
        assert(out@ =~= s@);
    }
    out
}

/// A string holding exactly the given characters.
pub fn chars_to_string(v: &Vec<char>) -> (r: String)
    ensures
        r@ == v@,
{
    let mut out = String::new();
    let mut i: usize = 0;
    while i < v.len()
        invariant
            0 <= i <= v@.len(),
            out@ == v@.subrange(0, i as int),
        decreases v@.len() - i,
    {
        push_char(&mut out, v[i]);
        proof {
            assert(out@ =~= v@.subrange(0, i + 1 as int));
        }
        i = i + 1;
    }
    proof {
        assert(out@ =~= v@);
    }
    out
}

/// The character for a decimal digit value.
pub open spec fn spec_digit_char(d: int) -> char {
    ((48 + d) as u8) as char
}

/// The lowercase character for a hexadecimal digit value.
pub open spec fn spec_hex_char(d: int) -> char {
    if d < 10 {
        ((48 + d) as u8) as char
    } else {
        ((87 + d) as u8) as char
    }
}

/// Decimal text of a number, most significant digit first.
pub open spec fn dec_text(n: nat) -> Seq<char>
    decreases n,
{
    if n < 10 {
        seq![spec_digit_char(n as int)]
    } else {
        dec_text(n / 10).push(spec_digit_char((n % 10) as int))
    }
}

/// Appends the decimal text of `n` to `out`.
pub fn push_dec_u64(n: u64, out: &mut String)
    ensures
        final(out)@ == old(out)@ + dec_text(n as nat),
    decreases n,
{
    if n < 10 {
        push_char(out, ((48 + n as u8)) as char);
    } else {
        push_dec_u64(n / 10, out);
        push_char(out, (48 + (n % 10) as u8) as char);
    }
}

/// The decimal text of `n` as a string.
pub fn dec_u64_string(n: u64) -> (r: String)
    ensures
        r@ == dec_text(n as nat),
{
    let mut out = String::new();
    push_dec_u64(n, &mut out);
    proof {
        assert(Seq::<char>::empty() + dec_text(n as nat) =~= dec_text(n as nat));
    }
    out
}

/// Appends a string slice to a string under construction.
pub fn push_str(s: &mut String, t: &str)
    ensures
        final(s)@ == old(s)@ + t@,
{
    s.append(t);
}

/// Compares two string slices character by character.
pub fn str_eq(a: &str, b: &str) -> (r: bool)
    ensures
        r == (a@ == b@),
{
    let n = a.unicode_len();
    let m = b.unicode_len();
    if n != m {
        proof {
            assert(a@ != b@) by {
                if a@ == b@ {
                    assert(a@.len() == b@.len());
                }
            }
        }
        return false;
    }
    let mut i: usize = 0;
    while i < n
        invariant
            0 <= i <= n,
            n == a@.len() == b@.len(),
            forall|j: int| 0 <= j < i ==> a@[j] == b@[j],
        decreases n - i,
    {
        if a.get_char(i) != b.get_char(i) {
            return false;
        }
        i = i + 1;
    }
    proof {
        assert(a@ =~= b@);
    }
    true
}

} // verus!
