//! Results of parsing a number constant: with and without overflow signals.

use vstd::prelude::*;

use crate::diagnostics::CompileError;
use crate::location::Location;
use crate::strutil::push_str;

verus! {

/// Message of the diagnostic reported when a constant overflows its type.
pub open spec fn overflow_msg(value: Seq<char>) -> Seq<char> {
    "Overflow: "@ + value + " is too big in traditional number"@
}

/// Builds the overflow message for a literal.
fn overflow_message(value: &str) -> (r: String)
    ensures
        r@ == overflow_msg(value@),
{
    let mut out = String::new();
    push_str(&mut out, "Overflow: ");
    push_str(&mut out, value);
    push_str(&mut out, " is too big in traditional number");
    proof {
        assert(out@ =~= overflow_msg(value@));
    }
    out
}

/// Number parse result that can still carry overflow signals.
///
/// A value and a diagnostic can be present at the same time: overflows are
/// warnings, not errors, and carry the value clamped to the type maximum.
pub enum OverParseRes<T> {
    /// Parsing failed.
    Error(CompileError),
    /// Parsing overflowed and no clamped value is available.
    Overflow,
    /// Parsing succeeded.
    Value(T),
    /// Parsing succeeded, with a diagnostic.
    ValueErr(T, CompileError),
    /// Parsing overflowed; the value is clamped to the type maximum.
    ValueOverflow(T),
}

impl<T> OverParseRes<T> {
    /// Marks the result as overflowed, keeping a value already parsed.
    ///
    /// A result that already failed or overflowed is left as it is.
    pub fn add_overflow(self) -> (r: Self)
        ensures
            self matches OverParseRes::Value(v) ==> r == OverParseRes::ValueOverflow(v),
            !(self is Value) ==> r == self,
    {
        match self {
            OverParseRes::Value(val) => OverParseRes::ValueOverflow(val),
            other => other,
        }
    }

    /// The result of a parse that overflowed below the smallest value.
    ///
    /// The sign of the overflow is not kept: the diagnostic only reports an
    /// overflow.
    pub fn from_neg_overflow() -> (r: Self)
        ensures
            r is Overflow,
    {
        OverParseRes::Overflow
    }

    /// The result of a parse that overflowed above the largest value.
    ///
    /// The sign of the overflow is not kept: the diagnostic only reports an
    /// overflow.
    pub fn from_pos_overflow() -> (r: Self)
        ensures
            r is Overflow,
    {
        OverParseRes::Overflow
    }

    /// Checks whether an overflow has occurred.
    pub fn overflowed(&self) -> (r: bool)
        ensures
            r == (self is ValueOverflow || self is Overflow),
    {
        match self {
            OverParseRes::ValueOverflow(_) | OverParseRes::Overflow => true,
            _ => false,
        }
    }

    /// Turns overflow signals into diagnostics on the literal `value`:
    /// a clamped value becomes a warning, a valueless overflow an error.
    pub fn ignore_overflow(self, value: &str, location: &Location) -> (r: ParseRes<T>)
        ensures
            self matches OverParseRes::ValueOverflow(v) ==> (r matches ParseRes::ValueErr(w, err)
                && w == v && err.spec_level() is Warning && err.spec_message() == overflow_msg(
                value@,
            ) && err.spec_location() == *location),
            self is Overflow ==> (r matches ParseRes::Error(err) && err.spec_level() is Error
                && err.spec_message() == overflow_msg(value@) && err.spec_location() == *location),
            self matches OverParseRes::Value(v) ==> r == ParseRes::Value(v),
            self matches OverParseRes::Error(e) ==> r == ParseRes::<T>::Error(e),
            self matches OverParseRes::ValueErr(v, e) ==> r == ParseRes::<T>::ValueErr(v, e),
    {
        match self {
            OverParseRes::ValueOverflow(val) => ParseRes::ValueErr(
                val,
                location.to_warning(overflow_message(value)),
            ),
            OverParseRes::Overflow => ParseRes::Error(location.to_error(overflow_message(value))),
            OverParseRes::Value(val) => ParseRes::Value(val),
            OverParseRes::Error(err_val) => ParseRes::Error(err_val),
            OverParseRes::ValueErr(val, err_val) => ParseRes::ValueErr(val, err_val),
        }
    }

    /// Applies a function to the value, if one is present.
    pub fn map<U, F: Fn(T) -> U>(self, f: F) -> (r: OverParseRes<U>)
        requires
            forall|t: T| #[trigger] call_requires(f, (t,)),
        ensures
            self is Overflow ==> r is Overflow,
            self matches OverParseRes::Error(e) ==> r == OverParseRes::<U>::Error(e),
            self matches OverParseRes::Value(v) ==> (r matches OverParseRes::Value(u)
                && call_ensures(f, (v,), u)),
            self matches OverParseRes::ValueOverflow(v) ==> (r matches
                OverParseRes::ValueOverflow(u) && call_ensures(f, (v,), u)),
            self matches OverParseRes::ValueErr(v, e) ==> (r matches OverParseRes::ValueErr(
                u,
                e2,
            ) && call_ensures(f, (v,), u) && e2 == e),
    {
        match self {
            OverParseRes::Value(val) => OverParseRes::Value(f(val)),
            OverParseRes::Overflow => OverParseRes::Overflow,
            OverParseRes::Error(err) => OverParseRes::Error(err),
            OverParseRes::ValueOverflow(val) => OverParseRes::ValueOverflow(f(val)),
            OverParseRes::ValueErr(val, err) => OverParseRes::ValueErr(f(val), err),
        }
    }
}

/// Number parse result whose overflows were already turned into diagnostics.
pub enum ParseRes<T> {
    /// Parsing failed.
    Error(CompileError),
    /// Parsing succeeded.
    Value(T),
    /// Parsing succeeded, with a diagnostic.
    ValueErr(T, CompileError),
}

impl<T> ParseRes<T> {
    /// Takes the result apart into its value and its diagnostic, each
    /// optional.
    pub fn into_elts(self) -> (r: (Option<T>, Option<CompileError>))
        ensures
            self matches ParseRes::Value(v) ==> r == (Some(v), None::<CompileError>),
            self matches ParseRes::Error(e) ==> r == (None::<T>, Some(e)),
            self matches ParseRes::ValueErr(v, e) ==> r == (Some(v), Some(e)),
    {
        match self {
            ParseRes::Value(value) => (Some(value), None),
            ParseRes::Error(error) => (None, Some(error)),
            ParseRes::ValueErr(value, error) => (Some(value), Some(error)),
        }
    }

    /// Applies a function to the value if one is present, and hands any
    /// diagnostic back to the caller, who pushes it onto its stream.
    pub fn map_or_else<U, F: Fn(T) -> U>(self, f: F) -> (r: (Result<U, ()>, Option<
        CompileError,
    >))
        requires
            forall|t: T| #[trigger] call_requires(f, (t,)),
        ensures
            self matches ParseRes::Value(v) ==> (r.0 matches Ok(u) && call_ensures(f, (v,), u)
                && r.1 is None),
            self matches ParseRes::Error(e) ==> r.0 is Err && r.1 == Some(e),
            self matches ParseRes::ValueErr(v, e) ==> (r.0 matches Ok(u) && call_ensures(
                f,
                (v,),
                u,
            ) && r.1 == Some(e)),
    {
        match self {
            ParseRes::Value(value) => (Ok(f(value)), None),
            ParseRes::Error(error) => (Err(()), Some(error)),
            ParseRes::ValueErr(value, error) => (Ok(f(value)), Some(error)),
        }
    }
}

} // verus!
