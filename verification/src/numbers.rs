//! The values of C number constants.

use vstd::prelude::*;

verus! {

/// The C type a number constant is parsed at.
///
/// `long double` is recognised syntactically but unsupported: parsing a
/// constant at that type reports a diagnostic instead of a value.
#[derive(Clone, Copy, PartialEq, Eq, Structural, Debug)]
pub enum NumberType {
    /// `int`, 32-bit signed.
    Int,
    /// `long`, 64-bit signed.
    Long,
    /// `long long`, 64-bit signed.
    LongLong,
    /// `unsigned int`, 32-bit unsigned.
    UInt,
    /// `unsigned long`, 64-bit unsigned.
    ULong,
    /// `unsigned long long`, 64-bit unsigned.
    ULongLong,
    /// `float`, IEEE-754 binary32.
    Float,
    /// `double`, IEEE-754 binary64.
    Double,
    /// `long double`: accepted syntactically, reported as unsupported.
    LongDouble,
}

impl NumberType {
    /// Largest value an integer constant of this type can hold;
    /// 0 for the floating-point types.
    pub open spec fn spec_max_value(self) -> nat {
        match self {
            NumberType::Int => 0x7fff_ffff,
            NumberType::Long => 0x7fff_ffff_ffff_ffff,
            NumberType::LongLong => 0x7fff_ffff_ffff_ffff,
            NumberType::UInt => 0xffff_ffff,
            NumberType::ULong => 0xffff_ffff_ffff_ffff,
            NumberType::ULongLong => 0xffff_ffff_ffff_ffff,
            _ => 0,
        }
    }

    /// True iff this is one of the six integer types.
    pub open spec fn spec_is_int(self) -> bool {
        match self {
            NumberType::Int | NumberType::Long | NumberType::LongLong | NumberType::UInt
                | NumberType::ULong | NumberType::ULongLong => true,
            _ => false,
        }
    }
}

/// The value of a number constant, tagged with its C type.
///
/// The floating variants hold the IEEE-754 encoding of the value as an
/// integer bit pattern: the library proves its arithmetic over plain
/// integers, and a consumer reinterprets the bits as a machine float.
#[derive(Clone, Copy, PartialEq, Eq, Structural, Debug)]
pub enum Number {
    /// An `int` value. Parsed constants are never negative.
    Int(i32),
    /// A `long` value.
    Long(i64),
    /// A `long long` value.
    LongLong(i64),
    /// An `unsigned int` value.
    UInt(u32),
    /// An `unsigned long` value.
    ULong(u64),
    /// An `unsigned long long` value.
    ULongLong(u64),
    /// A `float` value as its IEEE-754 binary32 bit pattern.
    Float(u32),
    /// A `double` value as its IEEE-754 binary64 bit pattern.
    Double(u64),
}

/// The integer constant `v` at integer type `ty`; unspecified at the
/// floating types.
pub open spec fn spec_int_number(ty: NumberType, v: nat) -> Number {
    match ty {
        NumberType::Int => Number::Int(v as i32),
        NumberType::Long => Number::Long(v as i64),
        NumberType::LongLong => Number::LongLong(v as i64),
        NumberType::UInt => Number::UInt(v as u32),
        NumberType::ULong => Number::ULong(v as u64),
        _ => Number::ULongLong(v as u64),
    }
}

/// Builds the integer constant `v` at integer type `ty`.
pub fn int_number(ty: NumberType, v: u64) -> (r: Number)
    requires
        ty.spec_is_int(),
        v as nat <= ty.spec_max_value(),
    ensures
        r == spec_int_number(ty, v as nat),
{
    match ty {
        NumberType::Int => Number::Int(v as i32),
        NumberType::Long => Number::Long(v as i64),
        NumberType::LongLong => Number::LongLong(v as i64),
        NumberType::UInt => Number::UInt(v as u32),
        NumberType::ULong => Number::ULong(v),
        _ => Number::ULongLong(v),
    }
}

} // verus!
