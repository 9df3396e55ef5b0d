//! Closing and escaping: the handlers that end the current token, resolve
//! escape sequences, and react to quotes and operator characters.

use vstd::prelude::*;

use vstd::arithmetic::power::pow;

use crate::lex_data::LexingData;
use crate::lexing_state::EscapeKind;
use crate::lexing_state::EscapeSequence;
use crate::lexing_state::EscapeState;
use crate::lexing_state::LexingState;
use crate::lexing_state::anchor;
use crate::lexing_state::data_ok;
use crate::lexing_state::errors_wf;
use crate::lexing_state::esc_max_len;
use crate::lexing_state::escape_ok;
use crate::lexing_state::esc_wf;
use crate::lexing_state::last_le;
use crate::lexing_state::lemma_anchor_mono;
use crate::lexing_state::pending_escape;
use crate::lexing_state::pending_len;
use crate::location::Location;
use crate::location::loc_le;
use crate::number_parse::spec_radix_value;
use crate::numbers::Number;
use crate::parse_res::ParseRes;
use crate::strutil::char_from_u32;
use crate::strutil::dec_text;
use crate::strutil::push_char;
use crate::strutil::push_dec_u64;
use crate::strutil::push_str;
use crate::strutil::spec_hex_digit_value;
use crate::strutil::spec_is_hex_digit;
use crate::strutil::spec_is_oct_digit;
use crate::keywords::TryKeyword;
use crate::tokens::Ident;
use crate::tokens::Token;
use crate::tokens::TokenValue;

verus! {

/// Message reported when a character constant holds more than one character.
pub open spec fn multi_char_msg() -> Seq<char> {
    "A char must contain only one character."@
}

/// Message reported when escape output lands outside a string or char.
pub open spec fn lit_ctx_msg() -> Seq<char> {
    "escaped characters are only allowed inside a string or a char."@
}

/// Message reported when a character cannot be escaped.
pub open spec fn cannot_escape_msg(c: char) -> Seq<char> {
    "character '"@ + seq![c] + "' cannot be escaped"@
}

/// The diagnostic name of an escape flavour.
pub open spec fn esc_kind_text(kind: EscapeKind) -> Seq<char> {
    match kind {
        EscapeKind::ShortUnicode => "short unicode"@,
        EscapeKind::Unicode => "unicode"@,
        EscapeKind::Hexadecimal => "hexadecimal"@,
        EscapeKind::Octal => "octal"@,
    }
}

/// Message reported when an escape sequence closes with too few digits.
pub open spec fn min_len_msg(kind: EscapeKind, wanted: nat, found: nat) -> Seq<char> {
    "Invalid escaped "@ + esc_kind_text(kind) + " number: must contain "@ + dec_text(wanted)
        + " digits, but found only "@ + dec_text(found)
}

/// Message reported when a `\U` escape looks like a `\u` one.
pub open spec fn big_unicode_msg(found: nat) -> Seq<char> {
    "Invalid escaped unicode number: an escaped big unicode must contain 8 hexadecimal digits, found only "@
        + dec_text(found) + ". Did you mean to use lowercase \\u?"@
}

/// Message reported when a unicode escape is no Unicode scalar value.
pub open spec fn invalid_unicode_msg(digits: Seq<char>) -> Seq<char> {
    "Invalid escaped unicode number: "@ + digits + " is not a valid unicode character."@
}

/// Builds the too-few-digits message.
fn min_len_message(kind: EscapeKind, wanted: u64, found: u64) -> (r: String)
    ensures
        r@ == min_len_msg(kind, wanted as nat, found as nat),
{
    let mut out = String::new();
    push_str(&mut out, "Invalid escaped ");
    match kind {
        EscapeKind::ShortUnicode => push_str(&mut out, "short unicode"),
        EscapeKind::Unicode => push_str(&mut out, "unicode"),
        EscapeKind::Hexadecimal => push_str(&mut out, "hexadecimal"),
        EscapeKind::Octal => push_str(&mut out, "octal"),
    }
    push_str(&mut out, " number: must contain ");
    push_dec_u64(wanted, &mut out);
    push_str(&mut out, " digits, but found only ");
    push_dec_u64(found, &mut out);
    proof {
        assert(out@ =~= min_len_msg(kind, wanted as nat, found as nat));
    }
    out
}

/// Appends one resolved character to the literal under construction.
///
/// A character constant takes exactly one: a second one is reported. Output
/// outside a string or char constant is reported as well.
fn push_literal_char(state: &mut LexingState, lex_data: &mut LexingData, c: char, location: &Location)
    requires
        old(lex_data).errors@.len() < usize::MAX,
        location.wf(),
    ensures
        final(lex_data).tokens@ == old(lex_data).tokens@,
        final(lex_data).end_line == old(lex_data).end_line,
        *old(state) matches LexingState::Char(None) ==> (*final(state) == LexingState::Char(
            Some(c),
        ) && final(lex_data).errors@ == old(lex_data).errors@),
        *old(state) matches LexingState::Char(Some(_)) ==> (*final(state) == *old(state)
            && final(lex_data).errors@.len() == old(lex_data).errors@.len() + 1
            && final(lex_data).errors@.drop_last() == old(lex_data).errors@
            && final(lex_data).errors@.last().spec_message() == multi_char_msg()
            && final(lex_data).errors@.last().spec_level() is Error
            && final(lex_data).errors@.last().spec_location() == *location),
        *old(state) matches LexingState::Str(s) ==> ((*final(state) matches LexingState::Str(s2)
            && s2@ == s@.push(c)) && final(lex_data).errors@ == old(lex_data).errors@),
        !(*old(state) is Char || *old(state) is Str) ==> (*final(state) == *old(state)
            && final(lex_data).errors@.len() == old(lex_data).errors@.len() + 1
            && final(lex_data).errors@.drop_last() == old(lex_data).errors@
            && final(lex_data).errors@.last().spec_location() == *location),
        final(lex_data).errors@.len() <= old(lex_data).errors@.len() + 1,
        old(lex_data).errors@.is_prefix_of(final(lex_data).errors@),
        errors_wf(old(lex_data).errors@) ==> errors_wf(final(lex_data).errors@),
        pending_len(final(state)) <= pending_len(old(state)) + 1,
        final(state).wf() == old(state).wf(),
{
    match state {
        LexingState::Char(o) => {
            match o {
                None => {
                    *state = LexingState::Char(Some(c));
                },
                Some(_) => {
                    let mut msg = String::new();
                    push_str(&mut msg, "A char must contain only one character.");
                    proof {
                        assert(msg@ =~= multi_char_msg());
                    }
                    lex_data.push_err(location.to_error(msg));
                },
            }
        },
        LexingState::Str(s) => {
            push_char(s, c);
        },
        _ => {
            let mut msg = String::new();
            push_str(&mut msg, "escaped characters are only allowed inside a string or a char.");
            lex_data.push_err(location.to_error(msg));
        },
    }
}

/// The characters an escape sequence resolves to on close: one character,
/// or — for a three-digit hexadecimal or octal escape beyond one byte — the
/// two-digit byte followed by the third digit as a plain character. `None`
/// when the close is an error.
pub open spec fn spec_escape_chars(kind: EscapeKind, digits: Seq<char>) -> Option<Seq<char>> {
    let v = spec_radix_value(digits, if kind is Octal {
        8
    } else {
        16
    });
    match kind {
        EscapeKind::ShortUnicode => if digits.len() == 4 && crate::strutil::is_scalar_value(
            v as u32,
        ) {
            Some(seq![(v as u32) as char])
        } else {
            None
        },
        EscapeKind::Unicode => if digits.len() == 8 && crate::strutil::is_scalar_value(v as u32) {
            Some(seq![(v as u32) as char])
        } else {
            None
        },
        EscapeKind::Hexadecimal => if digits.len() < 2 {
            None
        } else if v <= 255 {
            Some(seq![(v as u32) as char])
        } else {
            Some(
                seq![
                    (spec_radix_value(digits.take(2), 16) as u32) as char,
                    digits[2],
                ],
            )
        },
        EscapeKind::Octal => if digits.len() == 0 {
            None
        } else if digits.len() < 3 || v <= 255 {
            Some(seq![(v as u32) as char])
        } else {
            Some(
                seq![
                    (spec_radix_value(digits.take(2), 8) as u32) as char,
                    digits[2],
                ],
            )
        },
    }
}

/// The message a failing escape close reports.
pub open spec fn spec_escape_err_msg(kind: EscapeKind, digits: Seq<char>) -> Seq<char> {
    match kind {
        EscapeKind::ShortUnicode => if digits.len() < 4 {
            min_len_msg(kind, 4, digits.len())
        } else {
            invalid_unicode_msg(digits)
        },
        EscapeKind::Unicode => if digits.len() <= 4 {
            big_unicode_msg(digits.len())
        } else if digits.len() < 8 {
            min_len_msg(kind, 8, digits.len())
        } else {
            invalid_unicode_msg(digits)
        },
        EscapeKind::Hexadecimal => min_len_msg(kind, 2, digits.len()),
        EscapeKind::Octal => min_len_msg(kind, 1, digits.len()),
    }
}

/// The value of a valid digit string is below the radix to the power of its
/// length.
proof fn lemma_radix_value_bound(digits: Seq<char>, radix: nat)
    requires
        radix == 8 || radix == 16,
        forall|i: int|
            0 <= i < digits.len() ==> spec_hex_digit_value(#[trigger] digits[i]) < radix,
    ensures
        spec_radix_value(digits, radix) < pow(radix as int, digits.len()),
    decreases digits.len(),
{
    if digits.len() == 0 {
        vstd::arithmetic::power::lemma_pow0(radix as int);
    } else {
        lemma_radix_value_bound(digits.drop_last(), radix);
        let prev = spec_radix_value(digits.drop_last(), radix);
        let p = pow(radix as int, (digits.len() - 1) as nat);
        assert(pow(radix as int, digits.len()) == radix * p) by {
            reveal_with_fuel(pow, 2);
        }
        assert(prev * radix + spec_hex_digit_value(digits.last()) < radix * p) by (nonlinear_arith)
            requires
                prev < p,
                spec_hex_digit_value(digits.last()) < radix,
                radix >= 2,
                p >= 1,
        ;
    }
}

/// Bounds for the digit widths the escape sequences use.
proof fn lemma_escape_value_bounds(digits: Seq<char>, radix: nat)
    requires
        radix == 8 || radix == 16,
        forall|i: int|
            0 <= i < digits.len() ==> spec_hex_digit_value(#[trigger] digits[i]) < radix,
        digits.len() <= 8,
    ensures
        radix == 16 ==> spec_radix_value(digits, radix) < 0x100000000,
        digits.len() <= 2 && radix == 16 ==> spec_radix_value(digits, radix) < 0x100,
        digits.len() <= 3 && radix == 8 ==> spec_radix_value(digits, radix) < 0x200,
        digits.len() <= 2 && radix == 8 ==> spec_radix_value(digits, radix) < 0x40,
{
    lemma_radix_value_bound(digits, radix);
    assert(pow(16, 8) == 0x100000000 && pow(16, 2) == 0x100 && pow(8, 3) == 0x200 && pow(8, 2)
        == 0x40) by {
        reveal_with_fuel(pow, 9);
    }
    if radix == 16 && digits.len() < 8 {
        vstd::arithmetic::power::lemma_pow_increases(16, digits.len(), 8);
    }
    if digits.len() < 2 {
        vstd::arithmetic::power::lemma_pow_increases(radix, digits.len(), 2);
        assert(pow(8, 2) == 0x40) by {
            reveal_with_fuel(pow, 3);
        }
    }
    if radix == 8 && digits.len() < 3 {
        vstd::arithmetic::power::lemma_pow_increases(8, digits.len(), 3);
    }
}

/// Builds the invalid-scalar message.
fn invalid_unicode_message(digits: &Vec<char>) -> (r: String)
    ensures
        r@ == invalid_unicode_msg(digits@),
{
    let mut out = String::new();
    push_str(&mut out, "Invalid escaped unicode number: ");
    let mut i: usize = 0;
    while i < digits.len()
        invariant
            0 <= i <= digits@.len(),
            out@ == "Invalid escaped unicode number: "@ + digits@.subrange(0, i as int),
        decreases digits@.len() - i,
    {
        push_char(&mut out, digits[i]);
        proof {
            assert(out@ =~= "Invalid escaped unicode number: "@ + digits@.subrange(0, i + 1 as int));
        }
        i = i + 1;
    }
    proof {
        assert(digits@.subrange(0, digits@.len() as int) =~= digits@);
    }
    push_str(&mut out, " is not a valid unicode character.");
    proof {
        assert(out@ =~= invalid_unicode_msg(digits@));
    }
    out
}

/// Builds the lowercase-suggestion message.
fn big_unicode_message(found: u64) -> (r: String)
    ensures
        r@ == big_unicode_msg(found as nat),
{
    let mut out = String::new();
    push_str(
        &mut out,
        "Invalid escaped unicode number: an escaped big unicode must contain 8 hexadecimal digits, found only ",
    );
    push_dec_u64(found, &mut out);
    push_str(&mut out, ". Did you mean to use lowercase \\u?");
    proof {
        assert(out@ =~= big_unicode_msg(found as nat));
    }
    out
}

/// Closes the pending escape sequence: its digits resolve to characters of
/// the literal under construction, as [`spec_escape_chars`] describes, or
/// the close fails with the diagnostic [`spec_escape_err_msg`] gives.
pub fn end_escape_sequence(
    state: &mut LexingState,
    escape: &mut EscapeState,
    lex_data: &mut LexingData,
    location: &Location,
) -> (r: Result<(), ()>)
    requires
        *old(escape) matches EscapeState::Sequence(seq) && esc_wf(&seq),
        old(lex_data).errors@.len() + 2 < usize::MAX,
        location.wf(),
    ensures
        *final(escape) == EscapeState::False,
        final(lex_data).tokens@ == old(lex_data).tokens@,
        final(lex_data).end_line == old(lex_data).end_line,
        old(lex_data).errors@.is_prefix_of(final(lex_data).errors@),
        final(lex_data).errors@.len() <= old(lex_data).errors@.len() + 2,
        forall|i: int|
            old(lex_data).errors@.len() <= i < final(lex_data).errors@.len() ==> (#[trigger] final(lex_data).errors@[i]).spec_location() == *location,
        errors_wf(old(lex_data).errors@) ==> errors_wf(final(lex_data).errors@),
        pending_len(final(state)) <= pending_len(old(state)) + 2,
        final(state).wf() == old(state).wf(),
        *old(escape) matches EscapeState::Sequence(seq) ==> ({
            let produced = spec_escape_chars(seq.kind, seq.digits@);
            &&& (r is Ok <==> produced is Some)
            &&& (produced is None ==> (*final(state) == *old(state) && final(lex_data).errors@.len() == old(lex_data).errors@.len() + 1 && final(lex_data).errors@.last().spec_message() == spec_escape_err_msg(seq.kind, seq.digits@) && final(lex_data).errors@.last().spec_level() is Error))
            &&& (match produced {
                Some(cs) => {
                    &&& (*old(state) matches LexingState::Str(s) ==> ((*final(state) matches
                        LexingState::Str(s2) && s2@ == s@ + cs) && final(lex_data).errors@ == old(lex_data).errors@))
                    &&& (*old(state) matches LexingState::Char(None) ==> (*final(state)
                        == LexingState::Char(Some(cs[0])) && (cs.len() == 1 ==> final(lex_data).errors@ == old(lex_data).errors@)))
                },
                None => true,
            })
        }),
{
    let mut tmp = EscapeState::False;
    core::mem::swap(escape, &mut tmp);
    let seq = match tmp {
        EscapeState::Sequence(s) => s,
        _ => {
            return Err(());
        },
    };
    let len = seq.digits.len();
    match seq.kind {
        EscapeKind::ShortUnicode => {
            if len < 4 {
                lex_data.push_err(
                    location.to_error(min_len_message(EscapeKind::ShortUnicode, 4, len as u64)),
                );
                Err(())
            } else {
                let (v, _) = crate::number_parse::digits_value(&seq.digits, 16);
                proof {
                    lemma_escape_value_bounds(seq.digits@, 16);
                }
                match char_from_u32(v as u32) {
                    Some(c) => {
                        push_literal_char(state, lex_data, c, location);
                        proof {
                            vstd::utf8::char_u32_cast(c, v as u32);
                            assert(seq![c] =~= spec_escape_chars(seq.kind, seq.digits@).unwrap());
                        }
                        Ok(())
                    },
                    None => {
                        lex_data.push_err(location.to_error(invalid_unicode_message(&seq.digits)));
                        Err(())
                    },
                }
            }
        },
        EscapeKind::Unicode => {
            if len <= 4 {
                lex_data.push_err(location.to_error(big_unicode_message(len as u64)));
                Err(())
            } else if len < 8 {
                lex_data.push_err(
                    location.to_error(min_len_message(EscapeKind::Unicode, 8, len as u64)),
                );
                Err(())
            } else {
                let (v, _) = crate::number_parse::digits_value(&seq.digits, 16);
                proof {
                    lemma_escape_value_bounds(seq.digits@, 16);
                }
                match char_from_u32(v as u32) {
                    Some(c) => {
                        push_literal_char(state, lex_data, c, location);
                        proof {
                            vstd::utf8::char_u32_cast(c, v as u32);
                            assert(seq![c] =~= spec_escape_chars(seq.kind, seq.digits@).unwrap());
                        }
                        Ok(())
                    },
                    None => {
                        lex_data.push_err(location.to_error(invalid_unicode_message(&seq.digits)));
                        Err(())
                    },
                }
            }
        },
        EscapeKind::Hexadecimal => {
            if len < 2 {
                lex_data.push_err(
                    location.to_error(min_len_message(EscapeKind::Hexadecimal, 2, len as u64)),
                );
                Err(())
            } else {
                let (v, _) = crate::number_parse::digits_value(&seq.digits, 16);
                proof {
                    lemma_escape_value_bounds(seq.digits@, 16);
                }
                if v <= 255 {
                    let c = match char_from_u32(v as u32) {
                        Some(c) => c,
                        None => ' ',
                    };
                    push_literal_char(state, lex_data, c, location);
                    proof {
                        vstd::utf8::char_u32_cast(c, v as u32);
                        assert(seq![c] =~= spec_escape_chars(seq.kind, seq.digits@).unwrap());
                    }
                    Ok(())
                } else {
                    let mut two: Vec<char> = Vec::new();
                    two.push(seq.digits[0]);
                    two.push(seq.digits[1]);
                    proof {
                        assert(two@ =~= seq.digits@.take(2));
                    }
                    let (v2, _) = crate::number_parse::digits_value(&two, 16);
                    proof {
                        lemma_escape_value_bounds(two@, 16);
                    }
                    let c = match char_from_u32(v2 as u32) {
                        Some(c) => c,
                        None => ' ',
                    };
                    push_literal_char(state, lex_data, c, location);
                    push_literal_char(state, lex_data, seq.digits[2], location);
                    proof {
                        vstd::utf8::char_u32_cast(c, v2 as u32);
                        assert(seq![c, seq.digits@[2]] =~= spec_escape_chars(
                            seq.kind,
                            seq.digits@,
                        ).unwrap());
                        if *old(state) is Str && *state is Str {
                            assert(((*state)->Str_0)@ =~= ((*old(state))->Str_0)@ + seq![
                                c,
                                seq.digits@[2],
                            ]);
                        }
                    }
                    Ok(())
                }
            }
        },
        EscapeKind::Octal => {
            if len < 1 {
                lex_data.push_err(
                    location.to_error(min_len_message(EscapeKind::Octal, 1, len as u64)),
                );
                Err(())
            } else {
                let (v, _) = crate::number_parse::digits_value(&seq.digits, 8);
                proof {
                    lemma_escape_value_bounds(seq.digits@, 8);
                }
                if len < 3 || v <= 255 {
                    let c = match char_from_u32(v as u32) {
                        Some(c) => c,
                        None => ' ',
                    };
                    push_literal_char(state, lex_data, c, location);
                    proof {
                        vstd::utf8::char_u32_cast(c, v as u32);
                        assert(seq![c] =~= spec_escape_chars(seq.kind, seq.digits@).unwrap());
                    }
                    Ok(())
                } else {
                    let mut two: Vec<char> = Vec::new();
                    two.push(seq.digits[0]);
                    two.push(seq.digits[1]);
                    proof {
                        assert(two@ =~= seq.digits@.take(2));
                    }
                    let (v2, _) = crate::number_parse::digits_value(&two, 8);
                    proof {
                        lemma_escape_value_bounds(two@, 8);
                    }
                    let c = match char_from_u32(v2 as u32) {
                        Some(c) => c,
                        None => ' ',
                    };
                    push_literal_char(state, lex_data, c, location);
                    push_literal_char(state, lex_data, seq.digits[2], location);
                    proof {
                        vstd::utf8::char_u32_cast(c, v2 as u32);
                        assert(seq![c, seq.digits@[2]] =~= spec_escape_chars(
                            seq.kind,
                            seq.digits@,
                        ).unwrap());
                        if *old(state) is Str && *state is Str {
                            assert(((*state)->Str_0)@ =~= ((*old(state))->Str_0)@ + seq![
                                c,
                                seq.digits@[2],
                            ]);
                        }
                    }
                    Ok(())
                }
            }
        },
    }
}

/// The tokens draining the symbol buffer emits: each takes the longest
/// known spelling from the front, and its location rewinds over the whole
/// remaining buffer, where that symbol began.
pub open spec fn spec_drain_tokens(buf: Seq<char>, loc: Location) -> Seq<Token>
    decreases buf.len(),
{
    if buf.len() == 0 {
        Seq::empty()
    } else {
        let (op, rest) = crate::symbols::spec_take_op(buf);
        match op {
            Some((n, sym)) => seq![
                Token { location: anchor(loc, buf.len()), value: TokenValue::Symbol(sym) },
            ] + spec_drain_tokens(rest, loc),
            None => Seq::empty(),
        }
    }
}

/// Drains the pending operator characters into symbol tokens, longest
/// spelling first, as [`spec_drain_tokens`] describes. On any other state
/// nothing happens.
#[verifier::rlimit(100)]
#[verifier::spinoff_prover]
pub fn end_operator(state: &mut LexingState, lex_data: &mut LexingData, location: &Location)
    requires
        old(state).wf(),
        data_ok(old(lex_data)),
        location.wf(),
        last_le(old(lex_data).tokens@, anchor(*location, pending_len(old(state)))),
        old(lex_data).tokens@.len() + 3 < usize::MAX,
    ensures
        data_ok(final(lex_data)),
        final(lex_data).errors@ == old(lex_data).errors@,
        final(lex_data).end_line == old(lex_data).end_line,
        *old(state) matches LexingState::Symbols(ss) ==> (*final(state) == LexingState::StartOfLine
            && final(lex_data).tokens@ == old(lex_data).tokens@ + spec_drain_tokens(
            ss.buf@,
            *location,
        )),
        !(*old(state) is Symbols) ==> (*final(state) == *old(state) && final(lex_data).tokens@
            == old(lex_data).tokens@),
        final(lex_data).tokens@.len() <= old(lex_data).tokens@.len() + 3,
        final(lex_data).tokens@.len() > old(lex_data).tokens@.len() ==> last_le(
            final(lex_data).tokens@,
            anchor(*location, 1),
        ),
        final(state).wf(),
        last_le(final(lex_data).tokens@, anchor(*location, pending_len(final(state)))),
        last_le(final(lex_data).tokens@, *location),
{
    proof {
        lemma_anchor_mono(*location, 0, pending_len(old(state)));
    }
    let mut tmp = LexingState::StartOfLine;
    core::mem::swap(state, &mut tmp);
    let mut ss = match tmp {
        LexingState::Symbols(ss) => ss,
        other => {
            *state = other;
            return ;
        },
    };
    let ghost buf0 = ss.buf@;
    while ss.buf.len() != 0
        invariant
            ss.wf(),
            data_ok(lex_data),
            location.wf(),
            lex_data.errors@ == old(lex_data).errors@,
            lex_data.end_line == old(lex_data).end_line,
            lex_data.tokens@.len() + ss.buf@.len() < usize::MAX,
            old(lex_data).tokens@ + spec_drain_tokens(buf0, *location) == lex_data.tokens@
                + spec_drain_tokens(ss.buf@, *location),
            lex_data.tokens@.len() + ss.buf@.len() <= old(lex_data).tokens@.len() + 3,
            lex_data.tokens@.len() > old(lex_data).tokens@.len() ==> last_le(
                lex_data.tokens@,
                anchor(*location, 1),
            ),
            last_le(lex_data.tokens@, anchor(*location, ss.buf@.len())),
        decreases ss.buf@.len(),
    {
        let ghost pre = ss.buf@;
        let k = ss.buf.len();
        let drained = ss.try_to_operator();
        proof {
            assert(drained is Some);
        }
        if let Some((_, sym)) = drained {
            let token = Token::from_symbol(sym, k, location);
            proof {
                lemma_anchor_mono(*location, k as nat, pre.len());
                assert(anchor(*location, k as nat) == location.spec_into_past(k));
                lemma_anchor_mono(*location, ss.buf@.len(), k as nat);
            }
            lex_data.push_token(token);
        }
    }
    proof {
        assert(ss.buf@.len() == 0);
        assert(spec_drain_tokens(ss.buf@, *location) =~= Seq::<Token>::empty());
        assert(lex_data.tokens@ =~= old(lex_data).tokens@ + spec_drain_tokens(buf0, *location));
        lemma_anchor_mono(*location, 0, ss.buf@.len());
    }
    *state = LexingState::StartOfLine;
}

/// Closes the identifier under construction: a number constant is parsed,
/// anything else becomes a keyword or identifier token. On any other state
/// nothing happens.
#[verifier::rlimit(100)]
#[verifier::spinoff_prover]
pub fn end_literal(state: &mut LexingState, lex_data: &mut LexingData, location: &Location)
    requires
        old(state).wf(),
        data_ok(old(lex_data)),
        location.wf(),
        last_le(old(lex_data).tokens@, anchor(*location, pending_len(old(state)))),
        old(lex_data).tokens@.len() + 3 < usize::MAX,
        old(lex_data).errors@.len() + 3 < usize::MAX,
    ensures
        data_ok(final(lex_data)),
        final(lex_data).end_line == old(lex_data).end_line,
        old(lex_data).errors@.is_prefix_of(final(lex_data).errors@),
        *old(state) matches LexingState::Identifier(id) && id.0@.len() > 0 ==> *final(state)
            == LexingState::StartOfLine,
        !(*old(state) matches LexingState::Identifier(id) && id.0@.len() > 0) ==> (*final(state)
            == *old(state) && final(lex_data).tokens@ == old(lex_data).tokens@ && final(lex_data).errors@ == old(lex_data).errors@),
        final(lex_data).tokens@.len() <= old(lex_data).tokens@.len() + 1,
        final(lex_data).errors@.len() <= old(lex_data).errors@.len() + 1,
        final(state).wf(),
        last_le(final(lex_data).tokens@, anchor(*location, pending_len(final(state)))),
        last_le(final(lex_data).tokens@, *location),
        *old(state) matches LexingState::Identifier(id) ==> ({
            let name = id.0@;
            &&& (name.len() > 0 && !crate::tokens::spec_opens_number(name) ==> ({
                &&& (crate::keywords::spec_keyword_of(name) matches TryKeyword::Success(k)
                    ==> final(lex_data).tokens@ == old(lex_data).tokens@.push(
                    Token {
                        location: anchor(*location, name.len()),
                        value: TokenValue::Keyword(k),
                    },
                ) && final(lex_data).errors@ == old(lex_data).errors@)
                &&& (crate::keywords::spec_keyword_of(name) matches TryKeyword::Deprecated(k)
                    ==> final(lex_data).tokens@ == old(lex_data).tokens@.push(
                    Token {
                        location: anchor(*location, name.len()),
                        value: TokenValue::Keyword(k),
                    },
                ) && final(lex_data).errors@.len() == old(lex_data).errors@.len() + 1 && final(lex_data).errors@.last().spec_message() == crate::tokens::deprecated_msg(k) && final(lex_data).errors@.last().spec_level() is Warning)
                &&& (crate::keywords::spec_keyword_of(name) is Failure ==> ((final(lex_data).tokens@.len() == old(lex_data).tokens@.len() + 1 && final(lex_data).tokens@.last().location == anchor(*location, name.len()) && (final(lex_data).tokens@.last().value matches TokenValue::Ident(s) && s@ == name)) && final(lex_data).errors@ == old(lex_data).errors@))
            }))
            &&& (crate::number_parse::spec_plain_decimal(name)
                && crate::number_parse::spec_radix_value(name, 10) <= u64::MAX ==> (final(lex_data).tokens@ == old(lex_data).tokens@.push(
                Token {
                    location: anchor(*location, name.len()),
                    value: TokenValue::Number(
                        crate::number_parse::spec_plain_decimal_number(
                            crate::number_parse::spec_radix_value(name, 10),
                        ),
                    ),
                },
            ) && final(lex_data).errors@ == old(lex_data).errors@))
            &&& (name.len() >= 2 && name[0] == '.' && crate::strutil::spec_is_ascii_digit(name[1])
                && crate::number_parse::spec_dec_valid(seq!['0'] + name) && (
            crate::strutil::spec_is_ascii_digit(name.last()) || name.last() == '.') ==> (final(lex_data).tokens@ == old(lex_data).tokens@.push(
                Token {
                    location: anchor(*location, name.len()),
                    value: TokenValue::Number(
                        Number::Double(
                            crate::number_parse::spec_dec_literal_double(seq!['0'] + name) as u64,
                        ),
                    ),
                },
            ) && final(lex_data).errors@ == old(lex_data).errors@))
        }),
{
    let id_ref = match state {
        LexingState::Identifier(id) => id,
        _ => {
            return ;
        },
    };
    if id_ref.is_empty() {
        return ;
    }
    proof {
        lemma_anchor_mono(*location, 0, pending_len(old(state)));
    }
    let len = id_ref.len();
    let dot_start = match id_ref.first() {
        Some(c) => c == '.',
        None => false,
    };
    if !id_ref.opens_number() {
        // a name: a keyword of the table or a plain identifier
        let token = Token::from_identifier(lex_data, id_ref, location);
        proof {
            lemma_anchor_mono(
                *location,
                (*old(state))->Identifier_0.0@.len(),
                pending_len(old(state)),
            );
            assert forall|i: int|
                0 <= i < lex_data.errors@.len() implies (
            #[trigger] lex_data.errors@[i]).spec_location().wf() by {
                if i < old(lex_data).errors@.len() {
                    assert(lex_data.errors@[i] == old(lex_data).errors@[i]);
                } else {
                    assert(lex_data.errors@[i].spec_location() == location.spec_into_past(
                        (*old(state))->Identifier_0.0@.len() as usize,
                    ));
                }
            }
            assert(errors_wf(lex_data.errors@));
        }
        lex_data.push_token(token);
        *state = LexingState::StartOfLine;
        return ;
    }
    // a number literal: a fractional one that began with its dot is
    // rewritten with a leading zero
    let parsed = if dot_start {
        let mut norm = String::new();
        push_char(&mut norm, '0');
        crate::strutil::push_str(&mut norm, id_ref.value());
        proof {
            assert(norm@ =~= seq!['0'] + (*old(state))->Identifier_0.0@);
        }
        crate::number_parse::literal_to_number(norm.as_str(), location)
    } else {
        crate::number_parse::literal_to_number(id_ref.value(), location)
    };
    proof {
        let name = (*old(state))->Identifier_0.0@;
        let zname = seq!['0'] + name;
        if name.len() >= 2 && name[0] == '.' {
            assert(zname.len() == name.len() + 1);
            assert(zname[0] == '0');
            assert(zname[1] == name[0]);
            assert(crate::number_parse::spec_has_dec_marker(zname)) by {
                assert(zname[1] == '.');
            }
            assert(zname.last() == name.last());
            assert(!crate::number_parse::spec_has_prefix(zname));
        }
    }
    match parsed {
        None => {
            proof {
                assert(false);
            }
        },
        Some(res) => {
            let start = location.into_past(len);
            match res {
                ParseRes::Value(nb) => {
                    lex_data.push_token(Token::from_number(nb, &start));
                    proof {
                        assert(errors_wf(lex_data.errors@));
                    }
                },
                ParseRes::ValueErr(nb, mut err) => {
                    err.specify_length(len);
                    lex_data.push_err(err);
                    proof {
                        assert(errors_wf(lex_data.errors@));
                    }
                    lex_data.push_token(Token::from_number(nb, &start));
                },
                ParseRes::Error(mut err) => {
                    err.specify_length(len);
                    lex_data.push_err(err);
                    proof {
                        assert(errors_wf(lex_data.errors@));
                    }
                },
            }
        },
    }
    *state = LexingState::StartOfLine;
}

/// Closes the string constant under construction: the content becomes a
/// string token, merged into an immediately preceding string token if one
/// stands last; an empty content yields no token. On any other state
/// nothing happens.
pub fn end_string(state: &mut LexingState, lex_data: &mut LexingData, location: &Location)
    requires
        old(state).wf(),
        data_ok(old(lex_data)),
        location.wf(),
        last_le(old(lex_data).tokens@, anchor(*location, pending_len(old(state)))),
        old(lex_data).tokens@.len() + 3 < usize::MAX,
    ensures
        data_ok(final(lex_data)),
        final(lex_data).errors@ == old(lex_data).errors@,
        final(lex_data).end_line == old(lex_data).end_line,
        !(*old(state) is Str) ==> (*final(state) == *old(state) && final(lex_data).tokens@ == old(lex_data).tokens@),
        *old(state) is Str ==> *final(state) == LexingState::StartOfLine,
        *old(state) matches LexingState::Str(s) ==> ({
            &&& (s@.len() == 0 ==> final(lex_data).tokens@ == old(lex_data).tokens@)
            &&& (s@.len() > 0 && old(lex_data).tokens@.len() > 0 && old(lex_data).tokens@.last().value is Str ==> ({
                let prev = old(lex_data).tokens@.last();
                let merged = match prev.value {
                    TokenValue::Str(sp) => sp@ + s@,
                    _ => s@,
                };
                &&& final(lex_data).tokens@.len() == old(lex_data).tokens@.len()
                &&& final(lex_data).tokens@.drop_last() == old(lex_data).tokens@.drop_last()
                &&& final(lex_data).tokens@.last().location == prev.location
                &&& (final(lex_data).tokens@.last().value matches TokenValue::Str(m) && m@
                    == merged)
            }))
            &&& (s@.len() > 0 && !(old(lex_data).tokens@.len() > 0 && old(lex_data).tokens@.last().value is Str) ==> ({
                &&& final(lex_data).tokens@.len() == old(lex_data).tokens@.len() + 1
                &&& final(lex_data).tokens@.drop_last() == old(lex_data).tokens@
                &&& final(lex_data).tokens@.last().location == anchor(*location, s@.len())
                &&& (final(lex_data).tokens@.last().value matches TokenValue::Str(m) && m@ == s@)
            }))
        }),
        final(lex_data).tokens@.len() <= old(lex_data).tokens@.len() + 1,
        final(state).wf(),
        last_le(final(lex_data).tokens@, anchor(*location, pending_len(final(state)))),
        last_le(final(lex_data).tokens@, *location),
{
    proof {
        lemma_anchor_mono(*location, 0, pending_len(old(state)));
    }
    let mut tmp = LexingState::StartOfLine;
    core::mem::swap(state, &mut tmp);
    let content = match tmp {
        LexingState::Str(s) => s,
        other => {
            *state = other;
            return ;
        },
    };
    if content.as_str().unicode_len() == 0 {
        *state = LexingState::StartOfLine;
        return ;
    }
    if lex_data.last_is_str() {
        let prev = match lex_data.pop_token() {
            Some(t) => t,
            None => {
                return ;
            },
        };
        let (value, prev_loc) = prev.into_value_location();
        let mut merged = match value {
            TokenValue::Str(sp) => sp,
            _ => String::new(),
        };
        crate::strutil::push_str(&mut merged, content.as_str());
        let token = Token { location: prev_loc, value: TokenValue::Str(merged) };
        proof {
            if old(lex_data).tokens@.len() >= 2 {
                assert(loc_le(
                    lex_data.tokens@.last().location,
                    old(lex_data).tokens@.last().location,
                ));
            }
        }
        lex_data.push_token(token);
        proof {
            assert(lex_data.tokens@.drop_last() =~= old(lex_data).tokens@.drop_last());
        }
    } else {
        let token = Token::from_str(content, location);
        lex_data.push_token(token);
        proof {
            assert(lex_data.tokens@.drop_last() =~= old(lex_data).tokens@);
        }
    }
    *state = LexingState::StartOfLine;
}

/// Closes whatever stands open: identifiers and numbers, pending
/// operators, character and string constants. A comment stays open, an
/// empty character constant vanishes, and afterwards the state is neutral.
pub fn end_current(state: &mut LexingState, lex_data: &mut LexingData, location: &Location)
    requires
        old(state).wf(),
        data_ok(old(lex_data)),
        location.wf(),
        last_le(old(lex_data).tokens@, anchor(*location, pending_len(old(state)))),
        old(lex_data).tokens@.len() + 3 < usize::MAX,
        old(lex_data).errors@.len() + 3 < usize::MAX,
    ensures
        data_ok(final(lex_data)),
        final(lex_data).end_line == old(lex_data).end_line,
        old(lex_data).errors@.is_prefix_of(final(lex_data).errors@),
        final(lex_data).tokens@.len() <= old(lex_data).tokens@.len() + 3,
        final(lex_data).errors@.len() <= old(lex_data).errors@.len() + 2,
        *old(state) is Comment ==> (*final(state) == *old(state) && final(lex_data).tokens@ == old(lex_data).tokens@ && final(lex_data).errors@ == old(lex_data).errors@),
        !(*old(state) is Comment) ==> *final(state) == LexingState::StartOfLine,
        *old(state) matches LexingState::Char(Some(c)) ==> (final(lex_data).tokens@ == old(lex_data).tokens@.push(
            Token { location: anchor(*location, 1), value: TokenValue::Char(c) },
        ) && final(lex_data).errors@ == old(lex_data).errors@),
        *old(state) matches LexingState::Char(None) ==> (final(lex_data).tokens@ == old(lex_data).tokens@ && final(lex_data).errors@ == old(lex_data).errors@),
        *old(state) is StartOfLine ==> (final(lex_data).tokens@ == old(lex_data).tokens@ && final(lex_data).errors@ == old(lex_data).errors@),
        *old(state) is Symbols ==> (final(lex_data).tokens@ == old(lex_data).tokens@
            + spec_drain_tokens((*old(state))->Symbols_0.buf@, *location) && final(lex_data).errors@ == old(lex_data).errors@),
        *old(state) is Str ==> ({
            let sv = (*old(state))->Str_0@;
            &&& (sv.len() == 0 ==> final(lex_data).tokens@ == old(lex_data).tokens@)
            &&& (sv.len() > 0 && old(lex_data).tokens@.len() > 0 && old(lex_data).tokens@.last().value is Str ==> ({
                let prev = old(lex_data).tokens@.last();
                let merged = match prev.value {
                    TokenValue::Str(sp) => sp@ + sv,
                    _ => sv,
                };
                &&& final(lex_data).tokens@.len() == old(lex_data).tokens@.len()
                &&& final(lex_data).tokens@.drop_last() == old(lex_data).tokens@.drop_last()
                &&& final(lex_data).tokens@.last().location == prev.location
                &&& (final(lex_data).tokens@.last().value matches TokenValue::Str(m) && m@
                    == merged)
            }))
            &&& (sv.len() > 0 && !(old(lex_data).tokens@.len() > 0 && old(lex_data).tokens@.last().value is Str) ==> ({
                &&& final(lex_data).tokens@.len() == old(lex_data).tokens@.len() + 1
                &&& final(lex_data).tokens@.drop_last() == old(lex_data).tokens@
                &&& final(lex_data).tokens@.last().location == anchor(*location, sv.len())
                &&& (final(lex_data).tokens@.last().value matches TokenValue::Str(m) && m@
                    == sv)
            }))
        }),
        *old(state) is Identifier ==> ({
            let name = (*old(state))->Identifier_0.0@;
            &&& (name.len() > 0 && !crate::tokens::spec_opens_number(name) ==> ({
                &&& (crate::keywords::spec_keyword_of(name) matches TryKeyword::Success(k)
                    ==> final(lex_data).tokens@ == old(lex_data).tokens@.push(
                    Token {
                        location: anchor(*location, name.len()),
                        value: TokenValue::Keyword(k),
                    },
                ) && final(lex_data).errors@ == old(lex_data).errors@)
                &&& (crate::keywords::spec_keyword_of(name) is Failure ==> ((final(lex_data).tokens@.len() == old(lex_data).tokens@.len() + 1 && final(lex_data).tokens@.last().location == anchor(*location, name.len()) && (final(lex_data).tokens@.last().value matches TokenValue::Ident(sn) && sn@ == name)) && final(lex_data).errors@ == old(lex_data).errors@))
            }))
            &&& (crate::number_parse::spec_plain_decimal(name)
                && crate::number_parse::spec_radix_value(name, 10) <= u64::MAX ==> (final(lex_data).tokens@ == old(lex_data).tokens@.push(
                Token {
                    location: anchor(*location, name.len()),
                    value: TokenValue::Number(
                        crate::number_parse::spec_plain_decimal_number(
                            crate::number_parse::spec_radix_value(name, 10),
                        ),
                    ),
                },
            ) && final(lex_data).errors@ == old(lex_data).errors@))
        }),
        final(state).wf(),
        last_le(final(lex_data).tokens@, anchor(*location, pending_len(final(state)))),
        last_le(final(lex_data).tokens@, *location),
{
    proof {
        lemma_anchor_mono(*location, 0, pending_len(old(state)));
    }
    match state {
        LexingState::StartOfLine => {},
        LexingState::Comment(_) => {},
        LexingState::Identifier(_) => {
            end_literal(state, lex_data, location);
            *state = LexingState::StartOfLine;
        },
        LexingState::Symbols(_) => {
            end_operator(state, lex_data, location);
        },
        LexingState::Char(o) => {
            match o {
                Some(c) => {
                    let token = Token::from_char(*c, location);
                    lex_data.push_token(token);
                },
                None => {},
            }
            *state = LexingState::StartOfLine;
        },
        LexingState::Str(_) => {
            end_string(state, lex_data, location);
        },
    }
}

/// Closes the pending operators and then the pending identifier; each part
/// does nothing when the state holds the other kind of content.
#[verifier::rlimit(100)]
#[verifier::spinoff_prover]
pub fn end_both(state: &mut LexingState, lex_data: &mut LexingData, location: &Location)
    requires
        old(state).wf(),
        data_ok(old(lex_data)),
        location.wf(),
        last_le(old(lex_data).tokens@, anchor(*location, pending_len(old(state)))),
        old(lex_data).tokens@.len() + 7 < usize::MAX,
        old(lex_data).errors@.len() + 7 < usize::MAX,
    ensures
        data_ok(final(lex_data)),
        final(lex_data).end_line == old(lex_data).end_line,
        old(lex_data).errors@.is_prefix_of(final(lex_data).errors@),
        final(lex_data).tokens@.len() <= old(lex_data).tokens@.len() + 3,
        final(lex_data).errors@.len() <= old(lex_data).errors@.len() + 2,
        *old(state) is Symbols || (*old(state) matches LexingState::Identifier(id) && id.0@.len()
            > 0) ==> *final(state) == LexingState::StartOfLine,
        !(*old(state) is Symbols || *old(state) is Identifier) ==> (*final(state) == *old(state)
            && final(lex_data).tokens@ == old(lex_data).tokens@ && final(lex_data).errors@ == old(lex_data).errors@),
        *old(state) is Symbols ==> (final(lex_data).tokens@ == old(lex_data).tokens@
            + spec_drain_tokens((*old(state))->Symbols_0.buf@, *location) && final(lex_data).errors@ == old(lex_data).errors@),
        *old(state) is Identifier ==> ({
            let name = (*old(state))->Identifier_0.0@;
            &&& (name.len() > 0 && !crate::tokens::spec_opens_number(name) ==> ({
                &&& (crate::keywords::spec_keyword_of(name) matches TryKeyword::Success(k)
                    ==> final(lex_data).tokens@ == old(lex_data).tokens@.push(
                    Token {
                        location: anchor(*location, name.len()),
                        value: TokenValue::Keyword(k),
                    },
                ) && final(lex_data).errors@ == old(lex_data).errors@)
                &&& (crate::keywords::spec_keyword_of(name) is Failure ==> ((final(lex_data).tokens@.len() == old(lex_data).tokens@.len() + 1 && final(lex_data).tokens@.last().location == anchor(*location, name.len()) && (final(lex_data).tokens@.last().value matches TokenValue::Ident(sn) && sn@ == name)) && final(lex_data).errors@ == old(lex_data).errors@))
            }))
            &&& (crate::number_parse::spec_plain_decimal(name)
                && crate::number_parse::spec_radix_value(name, 10) <= u64::MAX ==> (final(lex_data).tokens@ == old(lex_data).tokens@.push(
                Token {
                    location: anchor(*location, name.len()),
                    value: TokenValue::Number(
                        crate::number_parse::spec_plain_decimal_number(
                            crate::number_parse::spec_radix_value(name, 10),
                        ),
                    ),
                },
            ) && final(lex_data).errors@ == old(lex_data).errors@))
        }),
        final(state).wf(),
        last_le(final(lex_data).tokens@, anchor(*location, pending_len(final(state)))),
        last_le(final(lex_data).tokens@, *location),
{
    proof {
        lemma_anchor_mono(*location, 0, pending_len(old(state)));
    }
    end_operator(state, lex_data, location);
    end_literal(state, lex_data, location);
}

/// Reacts to a double quote: closes the string constant under way, or
/// closes whatever else stands open and opens a string constant.
#[verifier::rlimit(100)]
#[verifier::spinoff_prover]
pub fn handle_double_quotes(state: &mut LexingState, lex_data: &mut LexingData, location: &Location)
    requires
        old(state).wf(),
        !(*old(state) is Char),
        data_ok(old(lex_data)),
        location.wf(),
        last_le(old(lex_data).tokens@, anchor(*location, pending_len(old(state)))),
        old(lex_data).tokens@.len() + 3 < usize::MAX,
        old(lex_data).errors@.len() + 3 < usize::MAX,
    ensures
        data_ok(final(lex_data)),
        final(lex_data).end_line == old(lex_data).end_line,
        old(lex_data).errors@.is_prefix_of(final(lex_data).errors@),
        final(lex_data).tokens@.len() <= old(lex_data).tokens@.len() + 3,
        final(lex_data).errors@.len() <= old(lex_data).errors@.len() + 2,
        *old(state) is Str ==> *final(state) == LexingState::StartOfLine,
        *old(state) is Str ==> ({
            let sv = (*old(state))->Str_0@;
            &&& (sv.len() == 0 ==> final(lex_data).tokens@ == old(lex_data).tokens@)
            &&& (sv.len() > 0 && old(lex_data).tokens@.len() > 0 && old(lex_data).tokens@.last().value is Str ==> ({
                let prev = old(lex_data).tokens@.last();
                let merged = match prev.value {
                    TokenValue::Str(sp) => sp@ + sv,
                    _ => sv,
                };
                &&& final(lex_data).tokens@.len() == old(lex_data).tokens@.len()
                &&& final(lex_data).tokens@.drop_last() == old(lex_data).tokens@.drop_last()
                &&& final(lex_data).tokens@.last().location == prev.location
                &&& (final(lex_data).tokens@.last().value matches TokenValue::Str(m) && m@
                    == merged)
            }))
            &&& (sv.len() > 0 && !(old(lex_data).tokens@.len() > 0 && old(lex_data).tokens@.last().value is Str) ==> ({
                &&& final(lex_data).tokens@.len() == old(lex_data).tokens@.len() + 1
                &&& final(lex_data).tokens@.drop_last() == old(lex_data).tokens@
                &&& final(lex_data).tokens@.last().location == anchor(*location, sv.len())
                &&& (final(lex_data).tokens@.last().value matches TokenValue::Str(m) && m@
                    == sv)
            }))
        }),
        !(*old(state) is Str || *old(state) is Comment) ==> (*final(state) matches
            LexingState::Str(s) && s@ == Seq::<char>::empty()),
        *old(state) is StartOfLine ==> (final(lex_data).tokens@ == old(lex_data).tokens@
            && final(lex_data).errors@ == old(lex_data).errors@),
        *old(state) is Comment ==> *final(state) == *old(state),
        final(state).wf(),
        last_le(final(lex_data).tokens@, anchor(*location, pending_len(final(state)))),
        last_le(final(lex_data).tokens@, *location),
{
    match state {
        LexingState::Str(_) => {
            end_string(state, lex_data, location);
        },
        LexingState::Comment(_) => {},
        _ => {
            end_current(state, lex_data, location);
            *state = LexingState::Str(String::new());
        },
    }
}

/// Reacts to a single quote: closes the character constant under way
/// (an empty one vanishes), or closes whatever else stands open and opens
/// a character constant.
#[verifier::rlimit(100)]
#[verifier::spinoff_prover]
pub fn handle_single_quotes(state: &mut LexingState, lex_data: &mut LexingData, location: &Location)
    requires
        old(state).wf(),
        !(*old(state) is Str),
        data_ok(old(lex_data)),
        location.wf(),
        last_le(old(lex_data).tokens@, anchor(*location, pending_len(old(state)))),
        old(lex_data).tokens@.len() + 3 < usize::MAX,
        old(lex_data).errors@.len() + 3 < usize::MAX,
    ensures
        data_ok(final(lex_data)),
        final(lex_data).end_line == old(lex_data).end_line,
        old(lex_data).errors@.is_prefix_of(final(lex_data).errors@),
        final(lex_data).tokens@.len() <= old(lex_data).tokens@.len() + 3,
        final(lex_data).errors@.len() <= old(lex_data).errors@.len() + 2,
        *old(state) is Char ==> *final(state) == LexingState::StartOfLine,
        *old(state) matches LexingState::Char(Some(c)) ==> (final(lex_data).tokens@ == old(lex_data).tokens@.push(
            Token { location: anchor(*location, 1), value: TokenValue::Char(c) },
        ) && final(lex_data).errors@ == old(lex_data).errors@),
        *old(state) matches LexingState::Char(None) ==> (final(lex_data).tokens@ == old(lex_data).tokens@ && final(lex_data).errors@ == old(lex_data).errors@),
        !(*old(state) is Char || *old(state) is Comment) ==> *final(state) == LexingState::Char(
            None,
        ),
        *old(state) is StartOfLine ==> (final(lex_data).tokens@ == old(lex_data).tokens@
            && final(lex_data).errors@ == old(lex_data).errors@),
        *old(state) is Comment ==> *final(state) == *old(state),
        final(state).wf(),
        last_le(final(lex_data).tokens@, anchor(*location, pending_len(final(state)))),
        last_le(final(lex_data).tokens@, *location),
{
    match state {
        LexingState::Char(_) => {
            end_current(state, lex_data, location);
        },
        LexingState::Comment(_) => {},
        _ => {
            end_current(state, lex_data, location);
            *state = LexingState::Char(None);
        },
    }
}

/// Reacts to an operator character: it extends the pending operator run,
/// possibly emitting the symbol that a full buffer drains, or closes
/// whatever else stands open and starts a new run.
#[verifier::rlimit(100)]
#[verifier::spinoff_prover]
pub fn handle_symbol(ch: char, state: &mut LexingState, lex_data: &mut LexingData, location: &Location)
    requires
        old(state).wf(),
        crate::symbols::spec_is_op_char(ch),
        !(*old(state) is Char || *old(state) is Str || *old(state) is Comment),
        data_ok(old(lex_data)),
        location.wf(),
        last_le(old(lex_data).tokens@, anchor(*location, pending_len(old(state)))),
        old(lex_data).tokens@.len() + 3 < usize::MAX,
        old(lex_data).errors@.len() + 3 < usize::MAX,
    ensures
        data_ok(final(lex_data)),
        final(lex_data).end_line == old(lex_data).end_line,
        old(lex_data).errors@.is_prefix_of(final(lex_data).errors@),
        final(lex_data).tokens@.len() <= old(lex_data).tokens@.len() + 3,
        final(lex_data).errors@.len() <= old(lex_data).errors@.len() + 2,
        *final(state) matches LexingState::Symbols(ss2) && ss2.buf@.len() <= 3 && ss2.buf@.last()
            == ch,
        !(*old(state) is Symbols) ==> (*final(state) matches LexingState::Symbols(ss2)
            && ss2.buf@ == seq![ch]),
        *old(state) is Symbols && (*old(state))->Symbols_0.buf@.len() < 3 ==> (final(lex_data).tokens@ == old(lex_data).tokens@ && final(lex_data).errors@ == old(lex_data).errors@
            && (*final(state) matches LexingState::Symbols(ss2) && ss2.buf@
            == (*old(state))->Symbols_0.buf@.push(ch))),
        *old(state) is Symbols && (*old(state))->Symbols_0.buf@.len() == 3 ==> ({
            let (op, rest) = crate::symbols::spec_take_op((*old(state))->Symbols_0.buf@);
            &&& (op matches Some(pair) ==> (final(lex_data).tokens@ == old(lex_data).tokens@.push(
                Token { location: anchor(*location, 3), value: TokenValue::Symbol(pair.1) },
            ) && final(lex_data).errors@ == old(lex_data).errors@ && (*final(state) matches
                LexingState::Symbols(ss2) && ss2.buf@ == rest.push(ch))))
        }),
        *old(state) is StartOfLine ==> (final(lex_data).tokens@ == old(lex_data).tokens@
            && final(lex_data).errors@ == old(lex_data).errors@),
        final(state).wf(),
        last_le(
            final(lex_data).tokens@,
            anchor(*location, (pending_len(final(state)) - 1) as nat),
        ),
{
    match state {
        LexingState::Symbols(ss) => {
            let emitted = ss.push(ch);
            if let Some((size, sym)) = emitted {
                let token = Token::from_symbol(sym, size, location);
                proof {
                    assert(anchor(*location, 3) == location.spec_into_past(3));
                    lemma_anchor_mono(*location, size as nat, 3);
                }
                lex_data.push_token(token);
                proof {
                    lemma_anchor_mono(*location, (pending_len(state) - 1) as nat, size as nat);
                }
            }
        },
        _ => {
            end_current(state, lex_data, location);
            *state = LexingState::Symbols(crate::symbols::SymbolState::new(ch));
            proof {
                lemma_anchor_mono(*location, 0, (pending_len(state) - 1) as nat);
            }
        },
    }
}

/// The character a simple one-letter escape stands for.
pub open spec fn spec_simple_escape(c: char) -> Option<char> {
    if c == 'a' {
        Some('\u{0007}')
    } else if c == 'b' {
        Some('\u{0008}')
    } else if c == 't' {
        Some('\u{0009}')
    } else if c == 'n' {
        Some('\u{000A}')
    } else if c == 'v' {
        Some('\u{000B}')
    } else if c == 'f' {
        Some('\u{000C}')
    } else if c == 'r' {
        Some('\u{000D}')
    } else if c == 'e' {
        Some('\u{001B}')
    } else if c == '"' {
        Some('"')
    } else if c == '\'' {
        Some('\'')
    } else if c == '?' {
        Some('?')
    } else if c == '\\' {
        Some('\\')
    } else if c == '\u{0000}' {
        Some('\u{0000}')
    } else {
        None
    }
}

/// The character a simple one-letter escape stands for.
fn simple_escape(c: char) -> (r: Option<char>)
    ensures
        r == spec_simple_escape(c),
{
    if c == 'a' {
        Some('\u{0007}')
    } else if c == 'b' {
        Some('\u{0008}')
    } else if c == 't' {
        Some('\u{0009}')
    } else if c == 'n' {
        Some('\u{000A}')
    } else if c == 'v' {
        Some('\u{000B}')
    } else if c == 'f' {
        Some('\u{000C}')
    } else if c == 'r' {
        Some('\u{000D}')
    } else if c == 'e' {
        Some('\u{001B}')
    } else if c == '"' {
        Some('"')
    } else if c == '\'' {
        Some('\'')
    } else if c == '?' {
        Some('?')
    } else if c == '\\' {
        Some('\\')
    } else if c == '\u{0000}' {
        Some('\u{0000}')
    } else {
        None
    }
}

/// The digit width at which an escape sequence closes by itself.
fn esc_max(kind: EscapeKind) -> (r: usize)
    ensures
        r as nat == esc_max_len(kind),
{
    match kind {
        EscapeKind::ShortUnicode => 4,
        EscapeKind::Unicode => 8,
        EscapeKind::Hexadecimal => 3,
        EscapeKind::Octal => 3,
    }
}

/// True iff the character extends a sequence of the given flavour.
pub open spec fn spec_esc_digit(kind: EscapeKind, c: char) -> bool {
    match kind {
        EscapeKind::Octal => spec_is_oct_digit(c),
        _ => spec_is_hex_digit(c),
    }
}

/// Handles a character while the escape machinery is active. A backslash
/// just seen resolves a one-letter escape or opens a digit sequence; an
/// open sequence absorbs its digits and closes at its width. The result
/// says whether the character was consumed: a character foreign to an open
/// sequence closes it and falls through to normal processing.
pub fn handle_escaped(
    ch: char,
    state: &mut LexingState,
    escape: &mut EscapeState,
    lex_data: &mut LexingData,
    location: &Location,
) -> (consumed: bool)
    requires
        *old(escape) is Single || *old(escape) is Sequence,
        escape_ok(old(escape)),
        old(state).wf(),
        location.wf(),
        data_ok(old(lex_data)),
        old(lex_data).errors@.len() + 3 < usize::MAX,
    ensures
        data_ok(final(lex_data)),
        final(lex_data).tokens@ == old(lex_data).tokens@,
        final(lex_data).end_line == old(lex_data).end_line,
        old(lex_data).errors@.is_prefix_of(final(lex_data).errors@),
        final(lex_data).errors@.len() <= old(lex_data).errors@.len() + 2,
        final(state).wf(),
        escape_ok(final(escape)),
        consumed ==> pending_len(final(state)) + pending_escape(final(escape)) <= pending_len(
            old(state),
        ) + pending_escape(old(escape)) + 1,
        !consumed ==> (pending_len(final(state)) + pending_escape(final(escape)) <= pending_len(
            old(state),
        ) + pending_escape(old(escape)) && *final(escape) == EscapeState::False),
        *old(escape) is Single ==> consumed,
        // a one-letter escape resolves into the open literal
        *old(escape) is Single ==> (spec_simple_escape(ch) matches Some(e) ==> ({
            &&& *final(escape) is False
            &&& (*old(state) == LexingState::Char(None) ==> (*final(state) == LexingState::Char(
                Some(e),
            ) && final(lex_data).errors@ == old(lex_data).errors@))
            &&& (*old(state) matches LexingState::Str(sv) ==> ((*final(state) matches
                LexingState::Str(s2) && s2@ == sv@.push(e)) && final(lex_data).errors@ == old(lex_data).errors@))
        })),
        // an octal digit after the backslash opens an octal sequence
        *old(escape) is Single && spec_is_oct_digit(ch) ==> (*final(state) == *old(state)
            && final(lex_data).errors@ == old(lex_data).errors@ && (*final(escape) matches
            EscapeState::Sequence(sq) && sq.kind == EscapeKind::Octal && sq.digits@ == seq![ch])),
        // the sequence openers
        *old(escape) is Single && (ch == 'u' || ch == 'U' || ch == 'x' || ch == 'h') ==> (*final(state) == *old(state) && final(lex_data).errors@ == old(lex_data).errors@ && (
        *final(escape) matches EscapeState::Sequence(sq) && sq.digits@ == Seq::<char>::empty()
            && sq.kind == (if ch == 'u' {
            EscapeKind::ShortUnicode
        } else if ch == 'U' {
            EscapeKind::Unicode
        } else {
            EscapeKind::Hexadecimal
        }))),
        // anything else cannot be escaped
        *old(escape) is Single && spec_simple_escape(ch) is None && !spec_is_oct_digit(ch) && ch
            != 'u' && ch != 'U' && ch != 'x' && ch != 'h' ==> (*final(state) == *old(state)
            && *final(escape) is False && final(lex_data).errors@.len() == old(lex_data).errors@.len() + 1 && final(lex_data).errors@.last().spec_message()
            == cannot_escape_msg(ch) && final(lex_data).errors@.last().spec_level() is Error),
        // a digit of the open sequence is absorbed until its width
        *old(escape) matches EscapeState::Sequence(sq) ==> ({
            let kind = sq.kind;
            let digits = sq.digits@;
            &&& (spec_esc_digit(kind, ch) && digits.len() + 1 < esc_max_len(kind) ==> (consumed
                && *final(state) == *old(state) && final(lex_data).errors@ == old(lex_data).errors@
                && (*final(escape) matches EscapeState::Sequence(sq2) && sq2.kind == kind
                && sq2.digits@ == digits.push(ch))))
            &&& (spec_esc_digit(kind, ch) && digits.len() + 1 == esc_max_len(kind) ==> (consumed
                && *final(escape) is False && (*old(state) matches LexingState::Str(sv)
                ==> (spec_escape_chars(kind, digits.push(ch)) matches Some(cs) ==> ((*final(state)
                matches LexingState::Str(s2) && s2@ == sv@ + cs) && final(lex_data).errors@ == old(lex_data).errors@)))))
            &&& (!spec_esc_digit(kind, ch) ==> (!consumed && *final(escape) is False && (
            spec_escape_chars(kind, digits) is None ==> (*final(state) == *old(state) && final(lex_data).errors@.len() == old(lex_data).errors@.len() + 1 && final(lex_data).errors@.last().spec_message() == spec_escape_err_msg(kind, digits)))
                && (*old(state) matches LexingState::Str(sv) ==> (spec_escape_chars(kind, digits)
                matches Some(cs) ==> ((*final(state) matches LexingState::Str(s2) && s2@ == sv@
                + cs) && final(lex_data).errors@ == old(lex_data).errors@)))))
        }),
{
    let is_single = match &*escape {
        EscapeState::Single => true,
        _ => false,
    };
    if is_single {
        // the character right after the backslash
        if crate::strutil::is_oct_digit(ch) {
            let mut digits: Vec<char> = Vec::new();
            digits.push(ch);
            proof {
                assert(digits@ =~= seq![ch]);
            }
            *escape = EscapeState::Sequence(
                EscapeSequence { kind: EscapeKind::Octal, digits },
            );
            return true;
        }
        if ch == 'u' {
            *escape = EscapeState::Sequence(
                EscapeSequence { kind: EscapeKind::ShortUnicode, digits: Vec::new() },
            );
            return true;
        }
        if ch == 'U' {
            *escape = EscapeState::Sequence(
                EscapeSequence { kind: EscapeKind::Unicode, digits: Vec::new() },
            );
            return true;
        }
        if ch == 'x' || ch == 'h' {
            *escape = EscapeState::Sequence(
                EscapeSequence { kind: EscapeKind::Hexadecimal, digits: Vec::new() },
            );
            return true;
        }
        *escape = EscapeState::False;
        match simple_escape(ch) {
            Some(e) => {
                push_literal_char(state, lex_data, e, location);
            },
            None => {
                let mut msg = String::new();
                push_str(&mut msg, "character '");
                push_char(&mut msg, ch);
                push_str(&mut msg, "' cannot be escaped");
                proof {
                    assert(msg@ =~= cannot_escape_msg(ch));
                }
                lex_data.push_err(location.to_error(msg));
            },
        }
        return true;
    }
    // an open digit sequence
    let (kind, len) = match &*escape {
        EscapeState::Sequence(seq) => (seq.kind, seq.digits.len()),
        _ => (EscapeKind::Octal, 0),
    };
    let fits = match kind {
        EscapeKind::Octal => crate::strutil::is_oct_digit(ch),
        _ => crate::strutil::is_hex_digit(ch),
    };
    let max = esc_max(kind);
    if fits && len < max {
        match escape {
            EscapeState::Sequence(seq) => {
                seq.digits.push(ch);
            },
            _ => {},
        }
        if len + 1 == max {
            let _closed = end_escape_sequence(state, escape, lex_data, location);
        }
        true
    } else {
        let _closed = end_escape_sequence(state, escape, lex_data, location);
        false
    }
}

} // verus!
