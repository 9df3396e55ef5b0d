//! Textual dump of a token stream: each token renders as a lexeme that the
//! lexer reads back as the same token.

use vstd::prelude::*;

use crate::keywords::spec_keyword_text;
use crate::numbers::Number;
use crate::strutil::dec_text;
use crate::strutil::push_char;
use crate::strutil::push_dec_u64;
use crate::strutil::push_str;
use crate::symbols::spec_symbol_text;
use crate::tokens::Token;
use crate::tokens::TokenValue;

verus! {

/// Hexadecimal text of a number, most significant digit first.
pub open spec fn hex_text(n: nat) -> Seq<char>
    decreases n,
{
    if n < 16 {
        seq![crate::strutil::spec_hex_char(n as int)]
    } else {
        hex_text(n / 16).push(crate::strutil::spec_hex_char((n % 16) as int))
    }
}

/// Appends the lowercase hexadecimal text of `n`.
pub fn push_hex_u64(n: u64, out: &mut String)
    ensures
        final(out)@ == old(out)@ + hex_text(n as nat),
    decreases n,
{
    let d = (n % 16) as u8;
    let c = if d < 10 {
        (48 + d) as char
    } else {
        (87 + d) as char
    };
    if n < 16 {
        push_char(out, c);
    } else {
        push_hex_u64(n / 16, out);
        push_char(out, c);
    }
}

/// The text of a signed exponent: `+d` or `-d`.
pub open spec fn spec_signed_text(e: int) -> Seq<char> {
    if e < 0 {
        "-"@ + dec_text((-e) as nat)
    } else {
        "+"@ + dec_text(e as nat)
    }
}

/// The hexadecimal float lexeme of a binary64 bit pattern.
pub open spec fn spec_double_text(bits: u64) -> Seq<char> {
    let e_field = (bits / 0x10000000000000) % 0x800;
    let frac = bits % 0x10000000000000;
    let m: u64 = if e_field == 0 {
        frac as u64
    } else {
        (0x10000000000000 + frac) as u64
    };
    let e: int = if e_field == 0 {
        -1074
    } else {
        e_field - 1075
    };
    if e_field == 0x7ff {
        "0x1p+9999"@
    } else if m == 0 {
        "0x0p+0"@
    } else {
        "0x"@ + hex_text(m as nat) + "p"@ + spec_signed_text(e)
    }
}

/// The hexadecimal float lexeme of a binary32 bit pattern, with its suffix.
pub open spec fn spec_float_text(bits: u32) -> Seq<char> {
    let e_field = (bits / 0x800000) % 0x100;
    let frac = bits % 0x800000;
    let m: u64 = if e_field == 0 {
        frac as u64
    } else {
        (0x800000 + frac) as u64
    };
    let e: int = if e_field == 0 {
        -149
    } else {
        e_field - 150
    };
    if e_field == 0xff {
        "0x1p+9999f"@
    } else if m == 0 {
        "0x0p+0f"@
    } else {
        "0x"@ + hex_text(m as nat) + "p"@ + spec_signed_text(e) + "f"@
    }
}

/// The decimal text of a signed value.
pub open spec fn spec_signed_dec(v: int) -> Seq<char> {
    if v < 0 {
        "-"@ + dec_text((-v) as nat)
    } else {
        dec_text(v as nat)
    }
}

/// The lexeme of a number constant: decimal digits with the type suffix
/// for the integer types, an exact hexadecimal float for the floating
/// types.
pub open spec fn spec_number_text(nb: Number) -> Seq<char> {
    match nb {
        Number::Int(v) => spec_signed_dec(v as int),
        Number::Long(v) => spec_signed_dec(v as int) + "l"@,
        Number::LongLong(v) => spec_signed_dec(v as int) + "ll"@,
        Number::UInt(v) => dec_text(v as nat) + "u"@,
        Number::ULong(v) => dec_text(v as nat) + "ul"@,
        Number::ULongLong(v) => dec_text(v as nat) + "ull"@,
        Number::Float(bits) => spec_float_text(bits),
        Number::Double(bits) => spec_double_text(bits),
    }
}

/// One character of quoted content, with the quote, backslashes and line
/// controls escaped.
pub open spec fn spec_escaped_char(c: char, quote: char) -> Seq<char> {
    if c == '\\' {
        "\\\\"@
    } else if c == quote {
        seq!['\\', quote]
    } else if c == '\n' {
        "\\n"@
    } else if c == '\t' {
        "\\t"@
    } else if c == '\r' {
        "\\r"@
    } else {
        seq![c]
    }
}

/// The body of a quoted lexeme.
pub open spec fn spec_escaped_body(s: Seq<char>, quote: char) -> Seq<char>
    decreases s.len(),
{
    if s.len() == 0 {
        Seq::empty()
    } else {
        spec_escaped_body(s.drop_last(), quote) + spec_escaped_char(s.last(), quote)
    }
}

/// A quoted lexeme: the escaped body between two quotes.
pub open spec fn spec_quoted(s: Seq<char>, quote: char) -> Seq<char> {
    seq![quote] + spec_escaped_body(s, quote) + seq![quote]
}

/// The lexeme of one token value: the lexer reads it back as the same
/// value.
pub open spec fn spec_token_lexeme(v: &TokenValue) -> Seq<char> {
    match v {
        TokenValue::Keyword(k) => spec_keyword_text(*k),
        TokenValue::Symbol(sym) => spec_symbol_text(*sym),
        TokenValue::Ident(name) => name@,
        TokenValue::Number(nb) => spec_number_text(*nb),
        TokenValue::Str(sv) => spec_quoted(sv@, '"'),
        TokenValue::Char(c) => spec_quoted(seq![*c], '\''),
    }
}

/// The dump of a token stream: the lexemes joined by single spaces.
pub open spec fn spec_tokens_text(ts: Seq<Token>) -> Seq<char>
    decreases ts.len(),
{
    if ts.len() == 0 {
        Seq::empty()
    } else if ts.len() == 1 {
        spec_token_lexeme(&ts[0].value)
    } else {
        spec_tokens_text(ts.drop_last()) + " "@ + spec_token_lexeme(&ts.last().value)
    }
}

/// Appends a signed exponent as `+d` or `-d`.
fn push_signed(e: i64, out: &mut String)
    requires
        -0x100000 <= e <= 0x100000,
    ensures
        final(out)@ == old(out)@ + spec_signed_text(e as int),
{
    if e < 0 {
        push_str(out, "-");
        push_dec_u64((-e) as u64, out);
    } else {
        push_str(out, "+");
        push_dec_u64(e as u64, out);
    }
    proof {
        assert(out@ =~= old(out)@ + spec_signed_text(e as int));
    }
}

/// Appends a binary64 value as an exact hexadecimal float literal; an
/// infinity or invalid encoding renders as a literal beyond the finite
/// range, which reads back as an infinity.
fn push_double_bits(bits: u64, out: &mut String)
    ensures
        final(out)@ == old(out)@ + spec_double_text(bits),
{
    let e_field = (bits / 0x10000000000000) % 0x800;
    let frac = bits % 0x10000000000000;
    if e_field == 0x7ff {
        push_str(out, "0x1p+9999");
        proof {
            assert(out@ =~= old(out)@ + spec_double_text(bits));
        }
        return ;
    }
    let m: u64 = if e_field == 0 {
        frac
    } else {
        0x10000000000000 + frac
    };
    let e: i64 = if e_field == 0 {
        -1074
    } else {
        e_field as i64 - 1075
    };
    if m == 0 {
        push_str(out, "0x0p+0");
        proof {
            assert(out@ =~= old(out)@ + spec_double_text(bits));
        }
        return ;
    }
    push_str(out, "0x");
    push_hex_u64(m, out);
    push_str(out, "p");
    push_signed(e, out);
    proof {
        assert(out@ =~= old(out)@ + spec_double_text(bits));
    }
}

/// Appends a binary32 value as an exact hexadecimal float literal with the
/// `f` suffix.
fn push_float_bits(bits: u32, out: &mut String)
    ensures
        final(out)@ == old(out)@ + spec_float_text(bits),
{
    let e_field = (bits / 0x800000) % 0x100;
    let frac = bits % 0x800000;
    if e_field == 0xff {
        push_str(out, "0x1p+9999f");
        proof {
            assert(out@ =~= old(out)@ + spec_float_text(bits));
        }
        return ;
    }
    let m: u64 = if e_field == 0 {
        frac as u64
    } else {
        0x800000 + frac as u64
    };
    let e: i64 = if e_field == 0 {
        -149
    } else {
        e_field as i64 - 150
    };
    if m == 0 {
        push_str(out, "0x0p+0f");
        proof {
            assert(out@ =~= old(out)@ + spec_float_text(bits));
        }
        return ;
    }
    push_str(out, "0x");
    push_hex_u64(m, out);
    push_str(out, "p");
    push_signed(e, out);
    push_str(out, "f");
    proof {
        assert(out@ =~= old(out)@ + spec_float_text(bits));
    }
}

/// Appends a number constant as a literal that parses back to the same
/// value and type: the integer types carry their suffix and the floating
/// types render as exact hexadecimal floats.
pub fn push_number(nb: &Number, out: &mut String)
    ensures
        final(out)@ == old(out)@ + spec_number_text(*nb),
{
    match nb {
        Number::Int(v) => {
            if *v < 0 {
                push_str(out, "-");
                push_dec_u64((-(*v as i64)) as u64, out);
            } else {
                push_dec_u64(*v as u64, out);
            }
        },
        Number::Long(v) => {
            if *v < 0 {
                push_str(out, "-");
                push_dec_u64(((-(*v + 1)) as u64) + 1, out);
            } else {
                push_dec_u64(*v as u64, out);
            }
            push_str(out, "l");
        },
        Number::LongLong(v) => {
            if *v < 0 {
                push_str(out, "-");
                push_dec_u64(((-(*v + 1)) as u64) + 1, out);
            } else {
                push_dec_u64(*v as u64, out);
            }
            push_str(out, "ll");
        },
        Number::UInt(v) => {
            push_dec_u64(*v as u64, out);
            push_str(out, "u");
        },
        Number::ULong(v) => {
            push_dec_u64(*v, out);
            push_str(out, "ul");
        },
        Number::ULongLong(v) => {
            push_dec_u64(*v, out);
            push_str(out, "ull");
        },
        Number::Float(bits) => {
            push_float_bits(*bits, out);
        },
        Number::Double(bits) => {
            push_double_bits(*bits, out);
        },
    }
    proof {
        assert(out@ =~= old(out)@ + spec_number_text(*nb));
    }
}

/// Appends the content of a string or character constant with the quotes,
/// backslashes, newlines and tabs escaped, so the lexer reads the content
/// back unchanged.
fn push_escaped(content: &str, quote: char, out: &mut String)
    ensures
        final(out)@ == old(out)@ + spec_quoted(content@, quote),
{
    let n = content.unicode_len();
    push_char(out, quote);
    let mut i: usize = 0;
    while i < n
        invariant
            n == content@.len(),
            0 <= i <= n,
            out@ == old(out)@ + seq![quote] + spec_escaped_body(
                content@.subrange(0, i as int),
                quote,
            ),
        decreases n - i,
    {
        proof {
            assert(content@.subrange(0, i + 1 as int).drop_last() =~= content@.subrange(
                0,
                i as int,
            ));
            assert(content@.subrange(0, i + 1 as int).last() == content@[i as int]);
        }
        let c = content.get_char(i);
        if c == '\\' {
            push_str(out, "\\\\");
        } else if c == quote {
            push_char(out, '\\');
            push_char(out, quote);
        } else if c == '\n' {
            push_str(out, "\\n");
        } else if c == '\t' {
            push_str(out, "\\t");
        } else if c == '\r' {
            push_str(out, "\\r");
        } else {
            push_char(out, c);
        }
        proof {
            assert(out@ =~= old(out)@ + seq![quote] + spec_escaped_body(
                content@.subrange(0, i + 1 as int),
                quote,
            ));
        }
        i = i + 1;
    }
    proof {
        assert(content@.subrange(0, n as int) =~= content@);
    }
    push_char(out, quote);
    proof {
        assert(out@ =~= old(out)@ + spec_quoted(content@, quote));
    }
}

/// The lexeme of one token.
pub fn token_text(token: &Token) -> (r: String)
    ensures
        r@ == spec_token_lexeme(&token.value),
{
    let mut out = String::new();
    match token.get_value() {
        TokenValue::Keyword(k) => {
            push_str(&mut out, k.text());
        },
        TokenValue::Symbol(s) => {
            push_str(&mut out, s.text());
        },
        TokenValue::Ident(name) => {
            push_str(&mut out, name.as_str());
        },
        TokenValue::Number(nb) => {
            push_number(nb, &mut out);
        },
        TokenValue::Str(s) => {
            push_escaped(s.as_str(), '"', &mut out);
        },
        TokenValue::Char(c) => {
            let mut one = String::new();
            push_char(&mut one, *c);
            proof {
                assert(one@ =~= seq![*c]);
            }
            push_escaped(one.as_str(), '\'', &mut out);
        },
    }
    proof {
        assert(out@ =~= Seq::<char>::empty() + spec_token_lexeme(&token.value));
        assert(Seq::<char>::empty() + spec_token_lexeme(&token.value) =~= spec_token_lexeme(
            &token.value,
        ));
    }
    out
}

/// The textual dump of a token stream: the lexemes separated by single
/// spaces. Lexing the dump again gives back the same token values.
pub fn tokens_text(tokens: &Vec<Token>) -> (r: String)
    ensures
        r@ == spec_tokens_text(tokens@),
{
    let mut out = String::new();
    let mut i: usize = 0;
    while i < tokens.len()
        invariant
            0 <= i <= tokens@.len(),
            out@ == spec_tokens_text(tokens@.subrange(0, i as int)),
        decreases tokens@.len() - i,
    {
        proof {
            assert(tokens@.subrange(0, i + 1 as int).drop_last() =~= tokens@.subrange(0, i as int));
            assert(tokens@.subrange(0, i + 1 as int).last() == tokens@[i as int]);
        }
        if i > 0 {
            push_str(&mut out, " ");
        }
        let t = token_text(&tokens[i]);
        push_str(&mut out, t.as_str());
        proof {
            assert(out@ =~= spec_tokens_text(tokens@.subrange(0, i + 1 as int)));
        }
        i = i + 1;
    }
    proof {
        assert(tokens@.subrange(0, tokens@.len() as int) =~= tokens@);
    }
    out
}

} // verus!
