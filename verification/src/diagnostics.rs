//! Structured diagnostics: errors, warnings and suggestions with a source
//! location and an underline length, accumulated and never thrown.

use vstd::prelude::*;

use crate::location::Location;

verus! {

/// Severity of a diagnostic. Only [`ErrorLevel::Error`] makes a run fail.
#[derive(Clone, Copy, PartialEq, Eq, Structural, Debug)]
pub enum ErrorLevel {
    /// Surfaced to the user, does not fail the run.
    Warning,
    /// Fails the run; lexing and parsing still continue.
    Error,
    /// Cosmetic advice, does not fail the run.
    Suggestion,
}

/// Text of a severity, as a formatter prints it.
pub open spec fn level_text(level: ErrorLevel) -> Seq<char> {
    match level {
        ErrorLevel::Warning => "warning"@,
        ErrorLevel::Error => "error"@,
        ErrorLevel::Suggestion => "suggestion"@,
    }
}

impl ErrorLevel {
    /// Name of the severity, as a formatter prints it.
    pub fn repr(&self) -> (r: &'static str)
        ensures
            r@ == level_text(*self),
    {
        match self {
            ErrorLevel::Warning => "warning",
            ErrorLevel::Error => "error",
            ErrorLevel::Suggestion => "suggestion",
        }
    }
}

/// One diagnostic: a location, a message, a severity and the number of
/// source columns it underlines.
#[derive(Debug)]
pub struct CompileError {
    /// Severity of the diagnostic.
    pub err_lvl: ErrorLevel,
    /// How many source columns the diagnostic underlines; 0 when unknown.
    pub length: usize,
    /// Where in the source the diagnostic points.
    pub location: Location,
    /// Human-readable message.
    pub message: String,
}

impl CompileError {
    /// Builds a diagnostic with underline length 0.
    pub fn new(location: Location, message: String, err_lvl: ErrorLevel) -> (r: Self)
        ensures
            r.err_lvl == err_lvl,
            r.length == 0,
            r.location == location,
            r.message@ == message@,
    {
        CompileError { err_lvl, length: 0, location, message }
    }

    /// Takes the diagnostic apart: location, message, severity text, length.
    pub fn get(self) -> (r: (Location, String, &'static str, usize))
        ensures
            r.0 == self.location,
            r.1@ == self.message@,
            r.2@ == level_text(self.err_lvl),
            r.3 == self.length,
    {
        (self.location, self.message, self.err_lvl.repr(), self.length)
    }

    /// True iff the diagnostic fails the run.
    pub fn is_error(&self) -> (r: bool)
        ensures
            r == (self.err_lvl is Error),
    {
        match self.err_lvl {
            ErrorLevel::Error => true,
            _ => false,
        }
    }

    /// Sets the number of source columns the diagnostic underlines.
    pub fn specify_length(&mut self, length: usize)
        ensures
            final(self).err_lvl == old(self).err_lvl,
            final(self).length == length,
            final(self).location == old(self).location,
            final(self).message@ == old(self).message@,
    {
        self.length = length;
    }

    /// Severity of the diagnostic.
    pub open spec fn spec_level(&self) -> ErrorLevel {
        self.err_lvl
    }

    /// Where in the source the diagnostic points.
    pub open spec fn spec_location(&self) -> Location {
        self.location
    }

    /// View of the message.
    pub open spec fn spec_message(&self) -> Seq<char> {
        self.message@
    }

    /// Underline length of the diagnostic.
    pub open spec fn spec_length(&self) -> usize {
        self.length
    }

    /// Location accessor for callers that keep the diagnostic.
    pub fn location(&self) -> (r: Location)
        ensures
            r == self.spec_location(),
    {
        self.location
    }

    /// Message accessor for callers that keep the diagnostic.
    pub fn message(&self) -> (r: &String)
        ensures
            r@ == self.spec_message(),
    {
        &self.message
    }

    /// Severity accessor for callers that keep the diagnostic.
    pub fn level(&self) -> (r: ErrorLevel)
        ensures
            r == self.spec_level(),
    {
        self.err_lvl
    }
}

impl Location {
    /// An error diagnostic at this location.
    pub fn to_error(self, message: String) -> (r: CompileError)
        ensures
            r.spec_level() == ErrorLevel::Error,
            r.spec_location() == self,
            r.spec_message() == message@,
            r.spec_length() == 0,
    {
        CompileError::new(self, message, ErrorLevel::Error)
    }

    /// A warning diagnostic at this location.
    pub fn to_warning(self, message: String) -> (r: CompileError)
        ensures
            r.spec_level() == ErrorLevel::Warning,
            r.spec_location() == self,
            r.spec_message() == message@,
            r.spec_length() == 0,
    {
        CompileError::new(self, message, ErrorLevel::Warning)
    }

    /// A suggestion diagnostic at this location.
    pub fn to_suggestion(self, message: String) -> (r: CompileError)
        ensures
            r.spec_level() == ErrorLevel::Suggestion,
            r.spec_location() == self,
            r.spec_message() == message@,
            r.spec_length() == 0,
    {
        CompileError::new(self, message, ErrorLevel::Suggestion)
    }
}

/// True iff some diagnostic in the sequence is an error.
pub open spec fn has_error_diag(errors: Seq<CompileError>) -> bool {
    exists|i: int| 0 <= i < errors.len() && errors[i].spec_level() is Error
}

/// True iff some diagnostic in the vector is an error; a run is failed iff
/// this holds of its diagnostics.
pub fn any_error(errors: &Vec<CompileError>) -> (r: bool)
    ensures
        r == has_error_diag(errors@),
{
    let mut i: usize = 0;
    while i < errors.len()
        invariant
            0 <= i <= errors@.len(),
            forall|j: int| 0 <= j < i ==> !(errors@[j].spec_level() is Error),
        decreases errors@.len() - i,
    {
        if errors[i].is_error() {
            return true;
        }
        i = i + 1;
    }
    false
}

/// A value together with the diagnostics its computation produced.
pub struct Res<T> {
    /// Diagnostics accumulated while computing the result.
    pub errors: Vec<CompileError>,
    /// The computed value; partial when error diagnostics are present.
    pub result: T,
}

impl<T> Res<T> {
    /// Pairs a value with its diagnostics.
    pub fn from_parts(result: T, errors: Vec<CompileError>) -> (r: Self)
        ensures
            r.result == result,
            r.errors == errors,
    {
        Res { errors, result }
    }

    /// The computed value.
    pub open spec fn spec_result(&self) -> &T {
        &self.result
    }

    /// The accumulated diagnostics.
    pub open spec fn spec_errors(&self) -> Seq<CompileError> {
        self.errors@
    }

    /// The diagnostics accumulated while computing the result.
    pub fn errors(&self) -> (r: &Vec<CompileError>)
        ensures
            r@ == self.spec_errors(),
    {
        &self.errors
    }

    /// Takes the result and the diagnostics apart.
    pub fn into_parts(self) -> (r: (T, Vec<CompileError>))
        ensures
            r.0 == *self.spec_result(),
            r.1@ == self.spec_errors(),
    {
        (self.result, self.errors)
    }

    /// The result of a run that produced no diagnostic at all.
    ///
    /// A caller that may have diagnostics takes the parts instead and hands
    /// them to a formatter.
    pub fn unwrap_or_display(self) -> (r: T)
        requires
            self.spec_errors().len() == 0,
        ensures
            r == *self.spec_result(),
    {
        self.result
    }
}

} // verus!
