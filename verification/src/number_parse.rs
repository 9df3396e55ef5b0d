//! Parsing of number constants: radix detection, suffix handling, digit
//! validation and overflow-aware conversion.

use vstd::prelude::*;

use crate::float_bits::dec_double_bits;
use crate::float_bits::dec_float_bits;
use crate::float_bits::double_bits;
use crate::float_bits::float_bits;
use crate::float_bits::spec_dec_double_bits;
use crate::float_bits::spec_dec_float_bits;
use crate::float_bits::spec_double_bits;
use crate::float_bits::spec_float_bits;
use crate::location::Location;
use crate::numbers::Number;
use crate::numbers::NumberType;
use crate::numbers::int_number;
use crate::numbers::spec_int_number;
use crate::parse_res::OverParseRes;
use crate::parse_res::ParseRes;
use crate::strutil::hex_digit_value;
use crate::strutil::is_ascii_digit;
use crate::strutil::is_hex_digit;
use crate::strutil::is_oct_digit;
use crate::strutil::push_char;
use crate::strutil::push_str;
use crate::strutil::spec_hex_digit_value;
use crate::strutil::spec_is_ascii_digit;
use crate::strutil::spec_is_hex_digit;
use crate::strutil::spec_is_oct_digit;
use crate::strutil::to_chars;

verus! {

/// True iff `c` is a digit of the given radix (2, 8, 10 or 16).
pub open spec fn spec_is_digit_of(c: char, radix: nat) -> bool {
    if radix == 16 {
        spec_is_hex_digit(c)
    } else if radix == 10 {
        spec_is_ascii_digit(c)
    } else if radix == 8 {
        spec_is_oct_digit(c)
    } else {
        c == '0' || c == '1'
    }
}

/// True iff every character is a digit of the radix.
pub open spec fn spec_all_digits(digits: Seq<char>, radix: nat) -> bool {
    forall|i: int| 0 <= i < digits.len() ==> spec_is_digit_of(#[trigger] digits[i], radix)
}

/// The value of a digit string in the given radix.
pub open spec fn spec_radix_value(digits: Seq<char>, radix: nat) -> nat
    decreases digits.len(),
{
    if digits.len() == 0 {
        0
    } else {
        spec_radix_value(digits.drop_last(), radix) * radix + spec_hex_digit_value(
            digits.last(),
        ) as nat
    }
}

/// The first character that is not a digit of the radix; unspecified when
/// all are.
pub open spec fn spec_first_invalid(digits: Seq<char>, radix: nat) -> char
    decreases digits.len(),
{
    if digits.len() == 0 {
        ' '
    } else if !spec_is_digit_of(digits[0], radix) {
        digits[0]
    } else {
        spec_first_invalid(digits.drop_first(), radix)
    }
}

/// Checks a digit against the radix.
fn is_digit_of(c: char, radix: u64) -> (r: bool)
    requires
        radix == 2 || radix == 8 || radix == 10 || radix == 16,
    ensures
        r == spec_is_digit_of(c, radix as nat),
{
    if radix == 16 {
        is_hex_digit(c)
    } else if radix == 10 {
        is_ascii_digit(c)
    } else if radix == 8 {
        is_oct_digit(c)
    } else {
        c == '0' || c == '1'
    }
}

/// The message reported for a digit that does not belong to the radix.
pub open spec fn invalid_digit_msg(radix: nat, c: char) -> Seq<char> {
    let head = if radix == 16 {
        "a hexadecimal constant must only contain hexadecimal digits. Found invalid character '"@
    } else if radix == 10 {
        "a decimal constant must only contain digits between '0' and '9'. Found invalid character '"@
    } else if radix == 8 {
        "an octal constant must only contain digits between '0' and '7'. Found invalid character '"@
    } else {
        "a binary constant must only contain digits '0' and '1'. Found invalid character '"@
    };
    head + seq![c] + "'."@
}

/// Builds the invalid-digit message.
fn invalid_digit_message(radix: u64, c: char) -> (r: String)
    requires
        radix == 2 || radix == 8 || radix == 10 || radix == 16,
    ensures
        r@ == invalid_digit_msg(radix as nat, c),
{
    let mut out = String::new();
    if radix == 16 {
        push_str(
            &mut out,
            "a hexadecimal constant must only contain hexadecimal digits. Found invalid character '",
        );
    } else if radix == 10 {
        push_str(
            &mut out,
            "a decimal constant must only contain digits between '0' and '9'. Found invalid character '",
        );
    } else if radix == 8 {
        push_str(
            &mut out,
            "an octal constant must only contain digits between '0' and '7'. Found invalid character '",
        );
    } else {
        push_str(
            &mut out,
            "a binary constant must only contain digits '0' and '1'. Found invalid character '",
        );
    }
    push_char(&mut out, c);
    push_str(&mut out, "'.");
    proof {
        assert(out@ =~= invalid_digit_msg(radix as nat, c));
    }
    out
}

/// Accumulates the value of a digit string; the flag reports a value beyond
/// the 64-bit range.
pub fn digits_value(digits: &Vec<char>, radix: u64) -> (r: (u64, bool))
    requires
        radix == 2 || radix == 8 || radix == 10 || radix == 16,
        spec_all_digits(digits@, radix as nat),
    ensures
        r.1 == (spec_radix_value(digits@, radix as nat) > u64::MAX),
        !r.1 ==> r.0 as nat == spec_radix_value(digits@, radix as nat),
{
    let mut acc: u128 = 0;
    let mut i: usize = 0;
    while i < digits.len()
        invariant
            radix == 2 || radix == 8 || radix == 10 || radix == 16,
            spec_all_digits(digits@, radix as nat),
            0 <= i <= digits@.len(),
            acc <= 0xffffffffffffffff * 16 + 15,
            acc <= u64::MAX ==> acc as nat == spec_radix_value(
                digits@.subrange(0, i as int),
                radix as nat,
            ),
            acc > u64::MAX ==> spec_radix_value(digits@.subrange(0, i as int), radix as nat)
                > u64::MAX,
        decreases digits@.len() - i,
    {
        let c = digits[i];
        proof {
            assert(spec_is_digit_of(c, radix as nat));
            assert(spec_is_hex_digit(c)) by {
                if radix != 16 {
                    assert(spec_is_ascii_digit(c) || spec_is_oct_digit(c) || c == '0' || c == '1');
                }
            }
            assert(digits@.subrange(0, i + 1 as int).drop_last() =~= digits@.subrange(0, i as int));
            assert(digits@.subrange(0, i + 1 as int).last() == c);
        }
        let d = hex_digit_value(c) as u128;
        if acc <= 0xffffffffffffffff {
            acc = acc * (radix as u128) + d;
        } else {
            proof {
                let prev = spec_radix_value(digits@.subrange(0, i as int), radix as nat);
                assert(prev * radix as nat + spec_hex_digit_value(c) as nat >= prev) by (
                nonlinear_arith)
                    requires
                        radix >= 2,
                        prev >= 0,
                ;
            }
        }
        i = i + 1;
    }
    proof {
        assert(digits@.subrange(0, digits@.len() as int) =~= digits@);
    }
    if acc > 0xffffffffffffffff {
        (u64::MAX, true)
    } else {
        (acc as u64, false)
    }
}

/// Largest value an integer type holds.
fn type_max(ty: NumberType) -> (r: u64)
    requires
        ty.spec_is_int(),
    ensures
        r as nat == ty.spec_max_value(),
{
    match ty {
        NumberType::Int => 0x7fffffff,
        NumberType::Long => 0x7fffffffffffffff,
        NumberType::LongLong => 0x7fffffffffffffff,
        NumberType::UInt => 0xffffffff,
        NumberType::ULong => 0xffffffffffffffff,
        _ => 0xffffffffffffffff,
    }
}

/// Parses an integer digit string at the given type.
///
/// For every digit string made of digits of the radix, a value that fits the
/// type comes back exactly, and one that exceeds it comes back clamped to
/// the type maximum with an overflow signal; a foreign character is
/// reported instead.
pub fn to_int_value(digits: &Vec<char>, radix: u64, nb_type: NumberType, location: &Location) -> (
    r: OverParseRes<Number>)
    requires
        radix == 2 || radix == 8 || radix == 10 || radix == 16,
        nb_type.spec_is_int(),
    ensures
        spec_all_digits(digits@, radix as nat) && spec_radix_value(digits@, radix as nat)
            <= nb_type.spec_max_value() ==> r == OverParseRes::<Number>::Value(
            spec_int_number(nb_type, spec_radix_value(digits@, radix as nat)),
        ),
        spec_all_digits(digits@, radix as nat) && spec_radix_value(digits@, radix as nat)
            > nb_type.spec_max_value() ==> r == OverParseRes::<Number>::ValueOverflow(
            spec_int_number(nb_type, nb_type.spec_max_value()),
        ),
        !spec_all_digits(digits@, radix as nat) ==> (r matches OverParseRes::Error(e)
            && e.spec_level() is Error && e.spec_message() == invalid_digit_msg(
            radix as nat,
            spec_first_invalid(digits@, radix as nat),
        ) && e.spec_location() == *location),
{
    // reject the first character foreign to the radix
    let mut i: usize = 0;
    while i < digits.len()
        invariant
            radix == 2 || radix == 8 || radix == 10 || radix == 16,
            0 <= i <= digits@.len(),
            forall|j: int| 0 <= j < i ==> spec_is_digit_of(#[trigger] digits@[j], radix as nat),
        decreases digits@.len() - i,
    {
        if !is_digit_of(digits[i], radix) {
            proof {
                lemma_first_invalid(digits@, radix as nat, i as int);
            }
            return OverParseRes::Error(
                location.to_error(invalid_digit_message(radix, digits[i])),
            );
        }
        i = i + 1;
    }
    let (value, over) = digits_value(digits, radix);
    let max = type_max(nb_type);
    if !over && value <= max {
        OverParseRes::Value(int_number(nb_type, value))
    } else {
        OverParseRes::ValueOverflow(int_number(nb_type, max))
    }
}

/// The first foreign character of a digit string is the one its scan stops
/// at.
proof fn lemma_first_invalid(digits: Seq<char>, radix: nat, i: int)
    requires
        0 <= i < digits.len(),
        !spec_is_digit_of(digits[i], radix),
        forall|j: int| 0 <= j < i ==> spec_is_digit_of(#[trigger] digits[j], radix),
    ensures
        spec_first_invalid(digits, radix) == digits[i],
    decreases i,
{
    if i == 0 {
    } else {
        assert(digits.drop_first()[i - 1] == digits[i]);
        assert(forall|j: int| 0 <= j < i - 1 ==> #[trigger] digits.drop_first()[j] == digits[j + 1]);
        lemma_first_invalid(digits.drop_first(), radix, i - 1);
    }
}

/// Running state of the decimal float literal scan.
///
/// The mantissa accumulates into 128 bits; digits beyond that window fold
/// into the sticky flag, and the decimal exponent adjustments saturate at
/// bounds far beyond the finite range of any IEEE-754 value.
#[derive(Clone, Copy)]
pub struct DecScan {
    /// Mantissa accumulated so far.
    pub m: u128,
    /// Decimal exponent adjustment from dropped or fractional digits.
    pub extra: i64,
    /// True iff a nonzero digit was dropped below the mantissa window.
    pub sticky: bool,
    /// Value of the explicit exponent, saturated.
    pub exp: u64,
    /// True iff the explicit exponent is negative.
    pub exp_neg: bool,
    /// True iff the explicit exponent has at least one digit.
    pub exp_digit: bool,
    /// True iff the mantissa has at least one digit.
    pub has_digit: bool,
    /// 0 integer digits, 1 fraction digits, 2 just after the marker,
    /// 3 exponent digits.
    pub phase: u8,
    /// False once a foreign character was seen.
    pub ok: bool,
}

/// Bounds every reachable scan state satisfies.
pub open spec fn dec_scan_wf(st: DecScan) -> bool {
    -1000000 <= st.extra <= 1000000 && st.exp <= 99999999 && st.phase <= 3
}

/// The scan state before any character.
pub open spec fn spec_dec_init() -> DecScan {
    DecScan {
        m: 0,
        extra: 0,
        sticky: false,
        exp: 0,
        exp_neg: false,
        exp_digit: false,
        has_digit: false,
        phase: 0,
        ok: true,
    }
}

/// One step of the decimal float literal scan.
pub open spec fn spec_dec_step(st: DecScan, c: char) -> DecScan {
    if !st.ok {
        st
    } else if st.phase == 0 {
        if spec_is_ascii_digit(c) {
            let d = spec_hex_digit_value(c) as nat;
            if st.m < 0x10000000000000000000000000000000 {
                DecScan { m: (st.m * 10 + d) as u128, has_digit: true, ..st }
            } else if st.extra < 1000000 {
                DecScan {
                    extra: (st.extra + 1) as i64,
                    sticky: st.sticky || d != 0,
                    has_digit: true,
                    ..st
                }
            } else {
                DecScan { sticky: st.sticky || d != 0, has_digit: true, ..st }
            }
        } else if c == '.' {
            DecScan { phase: 1, ..st }
        } else if c == 'e' || c == 'E' {
            DecScan { phase: 2, ..st }
        } else {
            DecScan { ok: false, ..st }
        }
    } else if st.phase == 1 {
        if spec_is_ascii_digit(c) {
            let d = spec_hex_digit_value(c) as nat;
            if st.m < 0x10000000000000000000000000000000 && st.extra > -1000000 {
                DecScan {
                    m: (st.m * 10 + d) as u128,
                    extra: (st.extra - 1) as i64,
                    has_digit: true,
                    ..st
                }
            } else {
                DecScan { sticky: st.sticky || d != 0, has_digit: true, ..st }
            }
        } else if c == 'e' || c == 'E' {
            DecScan { phase: 2, ..st }
        } else {
            DecScan { ok: false, ..st }
        }
    } else if st.phase == 2 {
        if c == '+' {
            DecScan { phase: 3, ..st }
        } else if c == '-' {
            DecScan { exp_neg: true, phase: 3, ..st }
        } else if spec_is_ascii_digit(c) {
            let d = spec_hex_digit_value(c) as nat;
            if st.exp < 10000000 {
                DecScan { exp: (st.exp * 10 + d) as u64, exp_digit: true, phase: 3, ..st }
            } else {
                DecScan { exp_digit: true, phase: 3, ..st }
            }
        } else {
            DecScan { ok: false, ..st }
        }
    } else {
        if spec_is_ascii_digit(c) {
            let d = spec_hex_digit_value(c) as nat;
            if st.exp < 10000000 {
                DecScan { exp: (st.exp * 10 + d) as u64, exp_digit: true, ..st }
            } else {
                DecScan { exp_digit: true, ..st }
            }
        } else {
            DecScan { ok: false, ..st }
        }
    }
}

/// The scan state after the whole literal.
pub open spec fn spec_dec_scan(chars: Seq<char>) -> DecScan
    decreases chars.len(),
{
    if chars.len() == 0 {
        spec_dec_init()
    } else {
        spec_dec_step(spec_dec_scan(chars.drop_last()), chars.last())
    }
}

/// True iff the literal is a well-formed decimal float.
pub open spec fn spec_dec_valid(chars: Seq<char>) -> bool {
    let st = spec_dec_scan(chars);
    st.ok && st.has_digit && (st.phase == 0 || st.phase == 1 || st.exp_digit)
}

/// The decimal exponent of the scanned literal, clamped to a range whose
/// ends already round to zero or to infinity.
pub open spec fn spec_dec_e10(st: DecScan) -> int {
    let raw = st.extra + if st.exp_neg {
        -(st.exp as int)
    } else {
        st.exp as int
    };
    if raw > 1100 {
        1100
    } else if raw < -1100 {
        -1100
    } else {
        raw
    }
}

/// The binary64 bits of a well-formed decimal float literal.
pub open spec fn spec_dec_literal_double(chars: Seq<char>) -> nat {
    let st = spec_dec_scan(chars);
    spec_dec_double_bits(st.m as nat, spec_dec_e10(st), st.sticky)
}

/// The binary32 bits of a well-formed decimal float literal.
pub open spec fn spec_dec_literal_float(chars: Seq<char>) -> nat {
    let st = spec_dec_scan(chars);
    spec_dec_float_bits(st.m as nat, spec_dec_e10(st), st.sticky)
}

/// One step of the decimal float literal scan.
fn dec_step(st: DecScan, c: char) -> (r: DecScan)
    requires
        dec_scan_wf(st),
    ensures
        r == spec_dec_step(st, c),
        dec_scan_wf(r),
{
    if !st.ok {
        st
    } else if st.phase == 0 {
        if is_ascii_digit(c) {
            let d = hex_digit_value(c) as u128;
            if st.m < 0x10000000000000000000000000000000 {
                DecScan { m: st.m * 10 + d, has_digit: true, ..st }
            } else if st.extra < 1000000 {
                DecScan { extra: st.extra + 1, sticky: st.sticky || d != 0, has_digit: true, ..st }
            } else {
                DecScan { sticky: st.sticky || d != 0, has_digit: true, ..st }
            }
        } else if c == '.' {
            DecScan { phase: 1, ..st }
        } else if c == 'e' || c == 'E' {
            DecScan { phase: 2, ..st }
        } else {
            DecScan { ok: false, ..st }
        }
    } else if st.phase == 1 {
        if is_ascii_digit(c) {
            let d = hex_digit_value(c) as u128;
            if st.m < 0x10000000000000000000000000000000 && st.extra > -1000000 {
                DecScan { m: st.m * 10 + d, extra: st.extra - 1, has_digit: true, ..st }
            } else {
                DecScan { sticky: st.sticky || d != 0, has_digit: true, ..st }
            }
        } else if c == 'e' || c == 'E' {
            DecScan { phase: 2, ..st }
        } else {
            DecScan { ok: false, ..st }
        }
    } else if st.phase == 2 {
        if c == '+' {
            DecScan { phase: 3, ..st }
        } else if c == '-' {
            DecScan { exp_neg: true, phase: 3, ..st }
        } else if is_ascii_digit(c) {
            let d = hex_digit_value(c) as u64;
            if st.exp < 10000000 {
                DecScan { exp: st.exp * 10 + d, exp_digit: true, phase: 3, ..st }
            } else {
                DecScan { exp_digit: true, phase: 3, ..st }
            }
        } else {
            DecScan { ok: false, ..st }
        }
    } else {
        if is_ascii_digit(c) {
            let d = hex_digit_value(c) as u64;
            if st.exp < 10000000 {
                DecScan { exp: st.exp * 10 + d, exp_digit: true, ..st }
            } else {
                DecScan { exp_digit: true, ..st }
            }
        } else {
            DecScan { ok: false, ..st }
        }
    }
}

/// Runs the decimal float scan over the literal.
fn run_dec_scan(chars: &Vec<char>) -> (r: DecScan)
    ensures
        r == spec_dec_scan(chars@),
        dec_scan_wf(r),
{
    let mut st = DecScan {
        m: 0,
        extra: 0,
        sticky: false,
        exp: 0,
        exp_neg: false,
        exp_digit: false,
        has_digit: false,
        phase: 0,
        ok: true,
    };
    let mut i: usize = 0;
    while i < chars.len()
        invariant
            0 <= i <= chars@.len(),
            st == spec_dec_scan(chars@.subrange(0, i as int)),
            dec_scan_wf(st),
        decreases chars@.len() - i,
    {
        proof {
            assert(chars@.subrange(0, i + 1 as int).drop_last() =~= chars@.subrange(0, i as int));
        }
        st = dec_step(st, chars[i]);
        i = i + 1;
    }
    proof {
        assert(chars@.subrange(0, chars@.len() as int) =~= chars@);
    }
    st
}

/// The clamped decimal exponent of a scan state.
fn dec_e10(st: &DecScan) -> (r: i64)
    requires
        dec_scan_wf(*st),
    ensures
        r as int == spec_dec_e10(*st),
        -1100 <= r <= 1100,
{
    let raw: i64 = if st.exp_neg {
        st.extra - (st.exp as i64)
    } else {
        st.extra + (st.exp as i64)
    };
    if raw > 1100 {
        1100
    } else if raw < -1100 {
        -1100
    } else {
        raw
    }
}

/// Running state of the hexadecimal float literal scan; the mantissa
/// digits are hexadecimal and the explicit exponent is a power of two
/// written in decimal.
#[derive(Clone, Copy)]
pub struct HexScan {
    /// Mantissa accumulated so far.
    pub m: u128,
    /// Binary exponent adjustment from dropped or fractional digits.
    pub adj: i64,
    /// True iff a nonzero digit was dropped below the mantissa window.
    pub sticky: bool,
    /// Value of the explicit exponent, saturated.
    pub exp: u64,
    /// True iff the explicit exponent is negative.
    pub exp_neg: bool,
    /// True iff the explicit exponent has at least one digit.
    pub exp_digit: bool,
    /// True iff the mantissa has at least one digit.
    pub has_digit: bool,
    /// 0 integer digits, 1 fraction digits, 2 just after `p`, 3 exponent
    /// digits.
    pub phase: u8,
    /// False once a foreign character was seen.
    pub ok: bool,
}

/// Bounds every reachable hexadecimal scan state satisfies.
pub open spec fn hex_scan_wf(st: HexScan) -> bool {
    -4000003 <= st.adj <= 4000003 && st.exp <= 99999999 && st.phase <= 3
}

/// One step of the hexadecimal float literal scan.
pub open spec fn spec_hex_step(st: HexScan, c: char) -> HexScan {
    if !st.ok {
        st
    } else if st.phase == 0 {
        if spec_is_hex_digit(c) {
            let d = spec_hex_digit_value(c) as nat;
            if st.m < 0x10000000000000000000000000000000 {
                HexScan { m: (st.m * 16 + d) as u128, has_digit: true, ..st }
            } else if st.adj < 4000000 {
                HexScan {
                    adj: (st.adj + 4) as i64,
                    sticky: st.sticky || d != 0,
                    has_digit: true,
                    ..st
                }
            } else {
                HexScan { sticky: st.sticky || d != 0, has_digit: true, ..st }
            }
        } else if c == '.' {
            HexScan { phase: 1, ..st }
        } else if c == 'p' || c == 'P' {
            HexScan { phase: 2, ..st }
        } else {
            HexScan { ok: false, ..st }
        }
    } else if st.phase == 1 {
        if spec_is_hex_digit(c) {
            let d = spec_hex_digit_value(c) as nat;
            if st.m < 0x10000000000000000000000000000000 && st.adj > -4000000 {
                HexScan {
                    m: (st.m * 16 + d) as u128,
                    adj: (st.adj - 4) as i64,
                    has_digit: true,
                    ..st
                }
            } else {
                HexScan { sticky: st.sticky || d != 0, has_digit: true, ..st }
            }
        } else if c == 'p' || c == 'P' {
            HexScan { phase: 2, ..st }
        } else {
            HexScan { ok: false, ..st }
        }
    } else if st.phase == 2 {
        if c == '+' {
            HexScan { phase: 3, ..st }
        } else if c == '-' {
            HexScan { exp_neg: true, phase: 3, ..st }
        } else if spec_is_ascii_digit(c) {
            let d = spec_hex_digit_value(c) as nat;
            if st.exp < 10000000 {
                HexScan { exp: (st.exp * 10 + d) as u64, exp_digit: true, phase: 3, ..st }
            } else {
                HexScan { exp_digit: true, phase: 3, ..st }
            }
        } else {
            HexScan { ok: false, ..st }
        }
    } else {
        if spec_is_ascii_digit(c) {
            let d = spec_hex_digit_value(c) as nat;
            if st.exp < 10000000 {
                HexScan { exp: (st.exp * 10 + d) as u64, exp_digit: true, ..st }
            } else {
                HexScan { exp_digit: true, ..st }
            }
        } else {
            HexScan { ok: false, ..st }
        }
    }
}

/// The hexadecimal scan state before any character.
pub open spec fn spec_hex_init() -> HexScan {
    HexScan {
        m: 0,
        adj: 0,
        sticky: false,
        exp: 0,
        exp_neg: false,
        exp_digit: false,
        has_digit: false,
        phase: 0,
        ok: true,
    }
}

/// The hexadecimal scan state after the whole literal.
pub open spec fn spec_hex_scan(chars: Seq<char>) -> HexScan
    decreases chars.len(),
{
    if chars.len() == 0 {
        spec_hex_init()
    } else {
        spec_hex_step(spec_hex_scan(chars.drop_last()), chars.last())
    }
}

/// True iff the literal is a well-formed hexadecimal float: mantissa digits
/// followed by a `p` exponent, which is mandatory.
pub open spec fn spec_hex_valid(chars: Seq<char>) -> bool {
    let st = spec_hex_scan(chars);
    st.ok && st.has_digit && st.phase == 3 && st.exp_digit
}

/// The binary exponent of the scanned hexadecimal literal.
pub open spec fn spec_hex_e2(st: HexScan) -> int {
    st.adj + if st.exp_neg {
        -(st.exp as int)
    } else {
        st.exp as int
    }
}

/// The binary64 bits of a well-formed hexadecimal float literal.
pub open spec fn spec_hex_literal_double(chars: Seq<char>) -> nat {
    let st = spec_hex_scan(chars);
    spec_double_bits(st.m as nat, spec_hex_e2(st), st.sticky)
}

/// The binary32 bits of a well-formed hexadecimal float literal.
pub open spec fn spec_hex_literal_float(chars: Seq<char>) -> nat {
    let st = spec_hex_scan(chars);
    spec_float_bits(st.m as nat, spec_hex_e2(st), st.sticky)
}

/// One step of the hexadecimal float literal scan.
fn hex_step(st: HexScan, c: char) -> (r: HexScan)
    requires
        hex_scan_wf(st),
    ensures
        r == spec_hex_step(st, c),
        hex_scan_wf(r),
{
    if !st.ok {
        st
    } else if st.phase == 0 {
        if is_hex_digit(c) {
            let d = hex_digit_value(c) as u128;
            if st.m < 0x10000000000000000000000000000000 {
                HexScan { m: st.m * 16 + d, has_digit: true, ..st }
            } else if st.adj < 4000000 {
                HexScan { adj: st.adj + 4, sticky: st.sticky || d != 0, has_digit: true, ..st }
            } else {
                HexScan { sticky: st.sticky || d != 0, has_digit: true, ..st }
            }
        } else if c == '.' {
            HexScan { phase: 1, ..st }
        } else if c == 'p' || c == 'P' {
            HexScan { phase: 2, ..st }
        } else {
            HexScan { ok: false, ..st }
        }
    } else if st.phase == 1 {
        if is_hex_digit(c) {
            let d = hex_digit_value(c) as u128;
            if st.m < 0x10000000000000000000000000000000 && st.adj > -4000000 {
                HexScan { m: st.m * 16 + d, adj: st.adj - 4, has_digit: true, ..st }
            } else {
                HexScan { sticky: st.sticky || d != 0, has_digit: true, ..st }
            }
        } else if c == 'p' || c == 'P' {
            HexScan { phase: 2, ..st }
        } else {
            HexScan { ok: false, ..st }
        }
    } else if st.phase == 2 {
        if c == '+' {
            HexScan { phase: 3, ..st }
        } else if c == '-' {
            HexScan { exp_neg: true, phase: 3, ..st }
        } else if is_ascii_digit(c) {
            let d = hex_digit_value(c) as u64;
            if st.exp < 10000000 {
                HexScan { exp: st.exp * 10 + d, exp_digit: true, phase: 3, ..st }
            } else {
                HexScan { exp_digit: true, phase: 3, ..st }
            }
        } else {
            HexScan { ok: false, ..st }
        }
    } else {
        if is_ascii_digit(c) {
            let d = hex_digit_value(c) as u64;
            if st.exp < 10000000 {
                HexScan { exp: st.exp * 10 + d, exp_digit: true, ..st }
            } else {
                HexScan { exp_digit: true, ..st }
            }
        } else {
            HexScan { ok: false, ..st }
        }
    }
}

/// Runs the hexadecimal float scan over the literal.
fn run_hex_scan(chars: &Vec<char>) -> (r: HexScan)
    ensures
        r == spec_hex_scan(chars@),
        hex_scan_wf(r),
{
    let mut st = HexScan {
        m: 0,
        adj: 0,
        sticky: false,
        exp: 0,
        exp_neg: false,
        exp_digit: false,
        has_digit: false,
        phase: 0,
        ok: true,
    };
    let mut i: usize = 0;
    while i < chars.len()
        invariant
            0 <= i <= chars@.len(),
            st == spec_hex_scan(chars@.subrange(0, i as int)),
            hex_scan_wf(st),
        decreases chars@.len() - i,
    {
        proof {
            assert(chars@.subrange(0, i + 1 as int).drop_last() =~= chars@.subrange(0, i as int));
        }
        st = hex_step(st, chars[i]);
        i = i + 1;
    }
    proof {
        assert(chars@.subrange(0, chars@.len() as int) =~= chars@);
    }
    st
}

/// The binary exponent of a hexadecimal scan state.
fn hex_e2(st: &HexScan) -> (r: i64)
    requires
        hex_scan_wf(*st),
    ensures
        r as int == spec_hex_e2(*st),
        -0x10000000000 <= r <= 0x10000000000,
{
    if st.exp_neg {
        st.adj - (st.exp as i64)
    } else {
        st.adj + (st.exp as i64)
    }
}

/// Message reported for a `long double` constant, which the library accepts
/// syntactically but does not evaluate.
pub open spec fn long_double_msg() -> Seq<char> {
    "`long double` is not supported yet."@
}

/// Message reported for an ill-formed decimal float literal.
pub open spec fn bad_dec_float_msg() -> Seq<char> {
    "invalid decimal float number."@
}

/// Message reported for an ill-formed hexadecimal float literal.
pub open spec fn bad_hex_float_msg() -> Seq<char> {
    "invalid hexadecimal float number."@
}

/// Parses a decimal constant at the given type.
///
/// An integer made of decimal digits comes back exactly when it fits the
/// type and clamped to the type maximum with an overflow signal when it
/// does not; a `double` or `float` constant comes back as its IEEE-754 bit
/// pattern; `long double` is reported as unsupported.
pub fn to_decimal_value(literal: &str, nb_type: &NumberType, location: &Location) -> (r:
    OverParseRes<Number>)
    ensures
        nb_type.spec_is_int() && spec_all_digits(literal@, 10) && spec_radix_value(literal@, 10)
            <= nb_type.spec_max_value() ==> r == OverParseRes::<Number>::Value(
            spec_int_number(*nb_type, spec_radix_value(literal@, 10)),
        ),
        nb_type.spec_is_int() && spec_all_digits(literal@, 10) && spec_radix_value(literal@, 10)
            > nb_type.spec_max_value() ==> r == OverParseRes::<Number>::ValueOverflow(
            spec_int_number(*nb_type, nb_type.spec_max_value()),
        ),
        nb_type.spec_is_int() && !spec_all_digits(literal@, 10) ==> (r matches
            OverParseRes::Error(e) && e.spec_level() is Error && e.spec_message()
            == invalid_digit_msg(10, spec_first_invalid(literal@, 10)) && e.spec_location()
            == *location),
        *nb_type is Double && spec_dec_valid(literal@) ==> r == OverParseRes::<Number>::Value(
            Number::Double(spec_dec_literal_double(literal@) as u64),
        ),
        *nb_type is Double && !spec_dec_valid(literal@) ==> (r matches OverParseRes::Error(e)
            && e.spec_level() is Error && e.spec_message() == bad_dec_float_msg()
            && e.spec_location() == *location),
        *nb_type is Float && spec_dec_valid(literal@) ==> r == OverParseRes::<Number>::Value(
            Number::Float(spec_dec_literal_float(literal@) as u32),
        ),
        *nb_type is Float && !spec_dec_valid(literal@) ==> (r matches OverParseRes::Error(e)
            && e.spec_level() is Error && e.spec_message() == bad_dec_float_msg()
            && e.spec_location() == *location),
        *nb_type is LongDouble ==> (r matches OverParseRes::Error(e) && e.spec_level() is Error
            && e.spec_message() == long_double_msg() && e.spec_location() == *location),
{
    let chars = to_chars(literal);
    match nb_type {
        NumberType::Int | NumberType::Long | NumberType::LongLong | NumberType::UInt
            | NumberType::ULong | NumberType::ULongLong => to_int_value(
            &chars,
            10,
            *nb_type,
            location,
        ),
        NumberType::Double => {
            let st = run_dec_scan(&chars);
            if st.ok && st.has_digit && (st.phase == 0 || st.phase == 1 || st.exp_digit) {
                let e10 = dec_e10(&st);
                OverParseRes::Value(Number::Double(dec_double_bits(st.m, e10, st.sticky)))
            } else {
                OverParseRes::Error(
                    location.to_error(String::from_str("invalid decimal float number.")),
                )
            }
        },
        NumberType::Float => {
            let st = run_dec_scan(&chars);
            if st.ok && st.has_digit && (st.phase == 0 || st.phase == 1 || st.exp_digit) {
                let e10 = dec_e10(&st);
                OverParseRes::Value(Number::Float(dec_float_bits(st.m, e10, st.sticky)))
            } else {
                OverParseRes::Error(
                    location.to_error(String::from_str("invalid decimal float number.")),
                )
            }
        },
        NumberType::LongDouble => OverParseRes::Error(
            location.to_error(String::from_str("`long double` is not supported yet.")),
        ),
    }
}

/// Parses an octal constant at the given type; octal has no float form.
pub fn to_oct_value(literal: &str, nb_type: &NumberType, location: &Location) -> (r: OverParseRes<
    Number,
>)
    ensures
        nb_type.spec_is_int() && spec_all_digits(literal@, 8) && spec_radix_value(literal@, 8)
            <= nb_type.spec_max_value() ==> r == OverParseRes::<Number>::Value(
            spec_int_number(*nb_type, spec_radix_value(literal@, 8)),
        ),
        nb_type.spec_is_int() && spec_all_digits(literal@, 8) && spec_radix_value(literal@, 8)
            > nb_type.spec_max_value() ==> r == OverParseRes::<Number>::ValueOverflow(
            spec_int_number(*nb_type, nb_type.spec_max_value()),
        ),
        nb_type.spec_is_int() && !spec_all_digits(literal@, 8) ==> (r matches OverParseRes::Error(
            e,
        ) && e.spec_level() is Error && e.spec_message() == invalid_digit_msg(
            8,
            spec_first_invalid(literal@, 8),
        ) && e.spec_location() == *location),
        !nb_type.spec_is_int() ==> (r matches OverParseRes::Error(e) && e.spec_level() is Error
            && e.spec_message() == "an octal must be an integer"@ && e.spec_location()
            == *location),
{
    let chars = to_chars(literal);
    match nb_type {
        NumberType::Int | NumberType::Long | NumberType::LongLong | NumberType::UInt
            | NumberType::ULong | NumberType::ULongLong => to_int_value(
            &chars,
            8,
            *nb_type,
            location,
        ),
        _ => OverParseRes::Error(
            location.to_error(String::from_str("an octal must be an integer")),
        ),
    }
}

/// Parses a binary constant at the given type; binary has no float form.
pub fn to_bin_value(literal: &str, nb_type: &NumberType, location: &Location) -> (r: OverParseRes<
    Number,
>)
    ensures
        nb_type.spec_is_int() && spec_all_digits(literal@, 2) && spec_radix_value(literal@, 2)
            <= nb_type.spec_max_value() ==> r == OverParseRes::<Number>::Value(
            spec_int_number(*nb_type, spec_radix_value(literal@, 2)),
        ),
        nb_type.spec_is_int() && spec_all_digits(literal@, 2) && spec_radix_value(literal@, 2)
            > nb_type.spec_max_value() ==> r == OverParseRes::<Number>::ValueOverflow(
            spec_int_number(*nb_type, nb_type.spec_max_value()),
        ),
        nb_type.spec_is_int() && !spec_all_digits(literal@, 2) ==> (r matches OverParseRes::Error(
            e,
        ) && e.spec_level() is Error && e.spec_message() == invalid_digit_msg(
            2,
            spec_first_invalid(literal@, 2),
        ) && e.spec_location() == *location),
        !nb_type.spec_is_int() ==> (r matches OverParseRes::Error(e) && e.spec_level() is Error
            && e.spec_message() == "a binary must be an integer"@ && e.spec_location()
            == *location),
{
    let chars = to_chars(literal);
    match nb_type {
        NumberType::Int | NumberType::Long | NumberType::LongLong | NumberType::UInt
            | NumberType::ULong | NumberType::ULongLong => to_int_value(
            &chars,
            2,
            *nb_type,
            location,
        ),
        _ => OverParseRes::Error(
            location.to_error(String::from_str("a binary must be an integer")),
        ),
    }
}

/// Parses a hexadecimal constant at the given type; a float form carries a
/// mandatory binary exponent after `p`.
pub fn to_hex_value(literal: &str, nb_type: &NumberType, location: &Location) -> (r: OverParseRes<
    Number,
>)
    ensures
        nb_type.spec_is_int() && spec_all_digits(literal@, 16) && spec_radix_value(literal@, 16)
            <= nb_type.spec_max_value() ==> r == OverParseRes::<Number>::Value(
            spec_int_number(*nb_type, spec_radix_value(literal@, 16)),
        ),
        nb_type.spec_is_int() && spec_all_digits(literal@, 16) && spec_radix_value(literal@, 16)
            > nb_type.spec_max_value() ==> r == OverParseRes::<Number>::ValueOverflow(
            spec_int_number(*nb_type, nb_type.spec_max_value()),
        ),
        nb_type.spec_is_int() && !spec_all_digits(literal@, 16) ==> (r matches
            OverParseRes::Error(e) && e.spec_level() is Error && e.spec_message()
            == invalid_digit_msg(16, spec_first_invalid(literal@, 16)) && e.spec_location()
            == *location),
        *nb_type is Double && spec_hex_valid(literal@) ==> r == OverParseRes::<Number>::Value(
            Number::Double(spec_hex_literal_double(literal@) as u64),
        ),
        *nb_type is Double && !spec_hex_valid(literal@) ==> (r matches OverParseRes::Error(e)
            && e.spec_level() is Error && e.spec_message() == bad_hex_float_msg()
            && e.spec_location() == *location),
        *nb_type is Float && spec_hex_valid(literal@) ==> r == OverParseRes::<Number>::Value(
            Number::Float(spec_hex_literal_float(literal@) as u32),
        ),
        *nb_type is Float && !spec_hex_valid(literal@) ==> (r matches OverParseRes::Error(e)
            && e.spec_level() is Error && e.spec_message() == bad_hex_float_msg()
            && e.spec_location() == *location),
        *nb_type is LongDouble ==> (r matches OverParseRes::Error(e) && e.spec_level() is Error
            && e.spec_message() == long_double_msg() && e.spec_location() == *location),
{
    let chars = to_chars(literal);
    match nb_type {
        NumberType::Int | NumberType::Long | NumberType::LongLong | NumberType::UInt
            | NumberType::ULong | NumberType::ULongLong => to_int_value(
            &chars,
            16,
            *nb_type,
            location,
        ),
        NumberType::Double => {
            let st = run_hex_scan(&chars);
            if st.ok && st.has_digit && st.phase == 3 && st.exp_digit {
                let e2 = hex_e2(&st);
                OverParseRes::Value(Number::Double(double_bits(st.m, e2, st.sticky)))
            } else {
                OverParseRes::Error(
                    location.to_error(String::from_str("invalid hexadecimal float number.")),
                )
            }
        },
        NumberType::Float => {
            let st = run_hex_scan(&chars);
            if st.ok && st.has_digit && st.phase == 3 && st.exp_digit {
                let e2 = hex_e2(&st);
                OverParseRes::Value(Number::Float(float_bits(st.m, e2, st.sticky)))
            } else {
                OverParseRes::Error(
                    location.to_error(String::from_str("invalid hexadecimal float number.")),
                )
            }
        },
        NumberType::LongDouble => OverParseRes::Error(
            location.to_error(String::from_str("`long double` is not supported yet.")),
        ),
    }
}

/// True iff the literal starts with a radix prefix `0x`, `0X`, `0b` or `0B`.
pub open spec fn spec_has_prefix(chars: Seq<char>) -> bool {
    chars.len() >= 2 && chars[0] == '0' && (chars[1] == 'x' || chars[1] == 'X' || chars[1] == 'b'
        || chars[1] == 'B')
}

/// True iff the literal holds a decimal float marker.
pub open spec fn spec_has_dec_marker(chars: Seq<char>) -> bool {
    exists|i: int| 0 <= i < chars.len() && (chars[i] == '.' || chars[i] == 'e' || chars[i] == 'E')
}

/// True iff a hexadecimal body holds a float marker.
pub open spec fn spec_has_hex_marker(chars: Seq<char>) -> bool {
    exists|i: int| 0 <= i < chars.len() && (chars[i] == '.' || chars[i] == 'p' || chars[i] == 'P')
}

/// True iff the literal is a plain unsuffixed decimal integer.
pub open spec fn spec_plain_decimal(chars: Seq<char>) -> bool {
    chars.len() > 0 && spec_all_digits(chars, 10) && (chars.len() == 1 || chars[0] != '0')
}

/// The number a plain unsuffixed decimal integer parses to: the smallest of
/// `int`, `long` and `long long` that holds it, then the unsigned analogue,
/// clamped at the maximum of `unsigned long long`.
pub open spec fn spec_plain_decimal_number(v: nat) -> Number {
    if v <= 0x7fffffff {
        Number::Int(v as i32)
    } else if v <= 0x7fffffffffffffff {
        Number::Long(v as i64)
    } else if v <= 0xffffffffffffffff {
        Number::ULongLong(v as u64)
    } else {
        Number::ULongLong(0xffffffffffffffff)
    }
}

/// Builds the growth chain of candidate types for an integer suffix:
/// `u_count` counts `u`/`U`, `l_count` counts `l`/`L`.
fn int_type_chain(u_count: u64, l_count: u64) -> (r: Vec<NumberType>)
    requires
        u_count <= 1,
        l_count <= 2,
    ensures
        r@.len() >= 1,
        forall|i: int| 0 <= i < r@.len() ==> (#[trigger] r@[i]).spec_is_int(),
        u_count == 0 && l_count == 0 ==> r@ == seq![
            NumberType::Int,
            NumberType::Long,
            NumberType::LongLong,
            NumberType::ULongLong,
        ],
        u_count == 1 && l_count == 0 ==> r@ == seq![
            NumberType::UInt,
            NumberType::ULong,
            NumberType::ULongLong,
        ],
        u_count == 0 && l_count == 1 ==> r@ == seq![
            NumberType::Long,
            NumberType::LongLong,
            NumberType::ULongLong,
        ],
        u_count == 1 && l_count == 1 ==> r@ == seq![NumberType::ULong, NumberType::ULongLong],
        u_count == 0 && l_count == 2 ==> r@ == seq![NumberType::LongLong, NumberType::ULongLong],
        u_count == 1 && l_count == 2 ==> r@ == seq![NumberType::ULongLong],
{
    let mut chain: Vec<NumberType> = Vec::new();
    if u_count == 0 && l_count == 0 {
        chain.push(NumberType::Int);
        chain.push(NumberType::Long);
        chain.push(NumberType::LongLong);
        chain.push(NumberType::ULongLong);
    } else if u_count == 1 && l_count == 0 {
        chain.push(NumberType::UInt);
        chain.push(NumberType::ULong);
        chain.push(NumberType::ULongLong);
    } else if u_count == 0 && l_count == 1 {
        chain.push(NumberType::Long);
        chain.push(NumberType::LongLong);
        chain.push(NumberType::ULongLong);
    } else if u_count == 1 && l_count == 1 {
        chain.push(NumberType::ULong);
        chain.push(NumberType::ULongLong);
    } else if u_count == 0 && l_count == 2 {
        chain.push(NumberType::LongLong);
        chain.push(NumberType::ULongLong);
    } else {
        chain.push(NumberType::ULongLong);
    }
    proof {
        if u_count == 0 && l_count == 0 {
            assert(chain@ =~= seq![
                NumberType::Int,
                NumberType::Long,
                NumberType::LongLong,
                NumberType::ULongLong,
            ]);
        } else if u_count == 1 && l_count == 0 {
            assert(chain@ =~= seq![NumberType::UInt, NumberType::ULong, NumberType::ULongLong]);
        } else if u_count == 0 && l_count == 1 {
            assert(chain@ =~= seq![NumberType::Long, NumberType::LongLong, NumberType::ULongLong]);
        } else if u_count == 1 && l_count == 1 {
            assert(chain@ =~= seq![NumberType::ULong, NumberType::ULongLong]);
        } else if u_count == 0 && l_count == 2 {
            assert(chain@ =~= seq![NumberType::LongLong, NumberType::ULongLong]);
        } else {
            assert(chain@ =~= seq![NumberType::ULongLong]);
        }
    }
    chain
}

/// Parses an identifier-shaped literal as a number constant.
///
/// Returns `None` when the literal does not start with a digit: it is an
/// identifier, not a number. Otherwise the radix prefix, the type suffix
/// and the digits are taken apart, the digits are parsed at the smallest
/// candidate type that holds them, and any overflow of the last candidate
/// becomes a warning carrying the clamped value.
pub fn literal_to_number(literal: &str, location: &Location) -> (r: Option<ParseRes<Number>>)
    ensures
        (r is None) <==> !(literal@.len() > 0 && spec_is_ascii_digit(literal@[0])),
        spec_plain_decimal(literal@) && spec_radix_value(literal@, 10) <= u64::MAX ==> r == Some(
            ParseRes::<Number>::Value(spec_plain_decimal_number(spec_radix_value(literal@, 10))),
        ),
        spec_plain_decimal(literal@) && spec_radix_value(literal@, 10) > u64::MAX ==> (r matches
            Some(pr) && pr matches ParseRes::ValueErr(v, e) && v == Number::ULongLong(u64::MAX)
            && e.spec_level() is Warning),
        literal@.len() > 0 && spec_is_ascii_digit(literal@[0]) && !spec_has_prefix(literal@)
            && spec_has_dec_marker(literal@) && (spec_is_ascii_digit(literal@.last())
            || literal@.last() == '.') && spec_dec_valid(literal@) ==> r == Some(
            ParseRes::<Number>::Value(Number::Double(spec_dec_literal_double(literal@) as u64)),
        ),
        literal@.len() > 2 && literal@[0] == '0' && (literal@[1] == 'x' || literal@[1] == 'X')
            && spec_has_hex_marker(literal@.skip(2)) && spec_is_ascii_digit(literal@.last())
            && spec_hex_valid(literal@.skip(2)) ==> r == Some(
            ParseRes::<Number>::Value(
                Number::Double(spec_hex_literal_double(literal@.skip(2)) as u64),
            ),
        ),
        r matches Some(pr) ==> ((pr matches ParseRes::Error(e) ==> e.spec_location() == *location)
            && (pr matches ParseRes::ValueErr(v, e) ==> e.spec_location() == *location)),
{
    let chars = to_chars(literal);
    let n = chars.len();
    if n == 0 || !is_ascii_digit(chars[0]) {
        return None;
    }
    // radix prefix
    let is_hex = n >= 2 && chars[0] == '0' && (chars[1] == 'x' || chars[1] == 'X');
    let is_bin = n >= 2 && chars[0] == '0' && (chars[1] == 'b' || chars[1] == 'B');
    let prefix: usize = if is_hex || is_bin {
        2
    } else {
        0
    };
    // float markers
    let mut has_marker = false;
    let mut i: usize = prefix;
    while i < n
        invariant
            prefix <= i <= n,
            n == chars@.len(),
            is_hex ==> has_marker == spec_has_hex_marker(chars@.subrange(prefix as int, i as int)),
            !is_hex ==> has_marker == spec_has_dec_marker(chars@.subrange(prefix as int, i as int)),
        decreases n - i,
    {
        let c = chars[i];
        let hit = if is_hex {
            c == '.' || c == 'p' || c == 'P'
        } else {
            c == '.' || c == 'e' || c == 'E'
        };
        proof {
            assert(chars@.subrange(prefix as int, i + 1 as int).drop_last() =~= chars@.subrange(
                prefix as int,
                i as int,
            ));
            assert(chars@.subrange(prefix as int, i + 1 as int).last() == c);
            if hit {
                assert(chars@.subrange(prefix as int, i + 1 as int)[i - prefix] == c);
            }
        }
        has_marker = has_marker || hit;
        i = i + 1;
    }
    proof {
        assert(chars@.subrange(prefix as int, n as int) =~= chars@.skip(prefix as int));
        if prefix == 0 {
            assert(chars@.skip(0) =~= chars@);
        }
    }
    let is_float = has_marker && !is_bin;
    // type suffix
    let allow_f = !is_hex || has_marker;
    let mut end: usize = n;
    let mut u_count: u64 = 0;
    let mut l_count: u64 = 0;
    let mut f_count: u64 = 0;
    while end > prefix
        invariant
            prefix <= end <= n,
            n == chars@.len(),
            u_count + l_count + f_count == n - end,
            forall|t: int| end <= t < n ==> (#[trigger] chars@[t] == 'u' || chars@[t] == 'U'
                || chars@[t] == 'l' || chars@[t] == 'L' || chars@[t] == 'f' || chars@[t] == 'F'),
        decreases end,
    {
        let c = chars[end - 1];
        if c == 'u' || c == 'U' {
            u_count = u_count + 1;
        } else if c == 'l' || c == 'L' {
            l_count = l_count + 1;
        } else if allow_f && (c == 'f' || c == 'F') {
            f_count = f_count + 1;
        } else {
            break;
        }
        end = end - 1;
    }
    proof {
        if n > 0 && (spec_is_ascii_digit(chars@[n - 1]) || chars@[n - 1] == '.') && end < n {
            assert(chars@[n - 1] == 'u' || chars@[n - 1] == 'U' || chars@[n - 1] == 'l'
                || chars@[n - 1] == 'L' || chars@[n - 1] == 'f' || chars@[n - 1] == 'F');
            assert(false);
        }
    }
    if u_count > 1 || l_count > 2 || f_count > 1 || (f_count == 1 && (u_count > 0 || l_count > 0))
        || (f_count == 1 && !is_float) || (u_count > 0 && is_float) {
        return Some(
            ParseRes::Error(
                location.to_error(String::from_str("invalid suffix in number constant.")),
            ),
        );
    }
    if end == prefix {
        return Some(
            ParseRes::Error(
                location.to_error(String::from_str("a number constant needs at least one digit.")),
            ),
        );
    }
    // the digits, without prefix and suffix
    let mut body: Vec<char> = Vec::new();
    let mut j: usize = prefix;
    while j < end
        invariant
            prefix <= j <= end <= n,
            n == chars@.len(),
            body@ == chars@.subrange(prefix as int, j as int),
        decreases end - j,
    {
        proof {
            assert(chars@.subrange(prefix as int, j + 1 as int).drop_last() =~= chars@.subrange(
                prefix as int,
                j as int,
            ));
        }
        body.push(chars[j]);
        j = j + 1;
    }
    proof {
        if end == n {
            assert(body@ =~= chars@.skip(prefix as int));
        }
    }
    if is_float {
        // float constant: the suffix picks the type
        if l_count > 0 {
            return Some(
                ParseRes::Error(
                    location.to_error(String::from_str("`long double` is not supported yet.")),
                ),
            );
        }
        if is_hex {
            let st = run_hex_scan(&body);
            if st.ok && st.has_digit && st.phase == 3 && st.exp_digit {
                let e2 = hex_e2(&st);
                if f_count == 1 {
                    return Some(
                        ParseRes::Value(Number::Float(float_bits(st.m, e2, st.sticky))),
                    );
                }
                return Some(ParseRes::Value(Number::Double(double_bits(st.m, e2, st.sticky))));
            }
            return Some(
                ParseRes::Error(
                    location.to_error(String::from_str("invalid hexadecimal float number.")),
                ),
            );
        }
        let st = run_dec_scan(&body);
        if st.ok && st.has_digit && (st.phase == 0 || st.phase == 1 || st.exp_digit) {
            let e10 = dec_e10(&st);
            if f_count == 1 {
                return Some(ParseRes::Value(Number::Float(dec_float_bits(st.m, e10, st.sticky))));
            }
            return Some(ParseRes::Value(Number::Double(dec_double_bits(st.m, e10, st.sticky))));
        }
        return Some(
            ParseRes::Error(location.to_error(String::from_str("invalid decimal float number."))),
        );
    }
    // integer constant: octal iff an unprefixed body starts with 0 and has
    // more than that digit
    let is_oct = !is_hex && !is_bin && body.len() > 1 && body[0] == '0';
    let radix: u64 = if is_hex {
        16
    } else if is_bin {
        2
    } else if is_oct {
        8
    } else {
        10
    };
    let chain = int_type_chain(u_count, l_count);
    let mut res = to_int_value(&body, radix, chain[0], location);
    let mut k: usize = 1;
    let mut over = res.overflowed();
    while k < chain.len() && over
        invariant
            1 <= k <= chain@.len(),
            over == (res is ValueOverflow || res is Overflow),
            forall|i2: int| 0 <= i2 < chain@.len() ==> (#[trigger] chain@[i2]).spec_is_int(),
            radix == 2 || radix == 8 || radix == 10 || radix == 16,
            spec_all_digits(body@, radix as nat) ==> forall|i2: int|
                0 <= i2 < k - 1 ==> spec_radix_value(body@, radix as nat) > (
                #[trigger] chain@[i2]).spec_max_value(),
            spec_all_digits(body@, radix as nat) && spec_radix_value(body@, radix as nat)
                <= chain@[k - 1].spec_max_value() ==> res == OverParseRes::<Number>::Value(
                spec_int_number(chain@[k - 1], spec_radix_value(body@, radix as nat)),
            ),
            spec_all_digits(body@, radix as nat) && spec_radix_value(body@, radix as nat)
                > chain@[k - 1].spec_max_value() ==> res == OverParseRes::<Number>::ValueOverflow(
                spec_int_number(chain@[k - 1], chain@[k - 1].spec_max_value()),
            ),
            !spec_all_digits(body@, radix as nat) ==> (res matches OverParseRes::Error(e)
                && e.spec_level() is Error && e.spec_message() == invalid_digit_msg(
                radix as nat,
                spec_first_invalid(body@, radix as nat),
            ) && e.spec_location() == *location),
        decreases chain@.len() - k,
    {
        res = to_int_value(&body, radix, chain[k], location);
        over = res.overflowed();
        k = k + 1;
    }
    proof {
        if spec_plain_decimal(literal@) {
            assert(body@ =~= literal@);
            let v = spec_radix_value(literal@, 10);
            assert(spec_all_digits(body@, radix as nat));
            if v <= 0x7fffffff {
                if k != 1 {
                    assert(v > chain@[0].spec_max_value());
                    assert(false);
                }
            } else if v <= 0x7fffffffffffffff {
                if k == 1 {
                    assert(false);
                }
                if k >= 3 {
                    assert(v > chain@[1].spec_max_value());
                    assert(false);
                }
                assert(res == OverParseRes::<Number>::Value(
                    spec_int_number(NumberType::Long, v),
                ));
            } else if v <= 0xffffffffffffffff {
                if k == 1 || k == 2 || k == 3 {
                    assert(false);
                }
                assert(res == OverParseRes::<Number>::Value(
                    spec_int_number(NumberType::ULongLong, v),
                ));
            } else {
                assert(k == 4);
                assert(res == OverParseRes::<Number>::ValueOverflow(
                    spec_int_number(NumberType::ULongLong, 0xffffffffffffffff),
                ));
            }
        }
    }
    Some(res.ignore_overflow(literal, location))
}

} // verus!
