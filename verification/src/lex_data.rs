//! The accumulating output of the lexer: tokens, diagnostics and the
//! end-of-line flag a line comment raises.

use vstd::prelude::*;

use crate::diagnostics::CompileError;
use crate::tokens::Token;
use crate::tokens::TokenValue;

verus! {

/// Tokens and diagnostics gathered while lexing, with a flag that cuts the
/// current line short when a line comment starts.
pub struct LexingData {
    /// The tokens lexed so far.
    pub tokens: Vec<Token>,
    /// The diagnostics reported so far.
    pub errors: Vec<CompileError>,
    /// True iff the rest of the current line is to be ignored.
    pub end_line: bool,
}

impl LexingData {
    /// Empty output.
    pub fn new() -> (r: Self)
        ensures
            r.tokens@.len() == 0,
            r.errors@.len() == 0,
            r.end_line == false,
    {
        LexingData { tokens: Vec::new(), errors: Vec::new(), end_line: false }
    }

    /// Appends a token.
    pub fn push_token(&mut self, token: Token)
        ensures
            final(self).tokens@ == old(self).tokens@.push(token),
            final(self).errors@ == old(self).errors@,
            final(self).end_line == old(self).end_line,
    {
        self.tokens.push(token);
    }

    /// Appends a diagnostic.
    pub fn push_err(&mut self, error: CompileError)
        ensures
            final(self).errors@ == old(self).errors@.push(error),
            final(self).tokens@ == old(self).tokens@,
            final(self).end_line == old(self).end_line,
    {
        self.errors.push(error);
    }

    /// Removes and returns the most recent token.
    pub fn pop_token(&mut self) -> (r: Option<Token>)
        ensures
            old(self).tokens@.len() == 0 ==> r is None && *final(self) == *old(self),
            old(self).tokens@.len() > 0 ==> (r == Some(old(self).tokens@.last())
                && final(self).tokens@ == old(self).tokens@.drop_last()),
            final(self).errors@ == old(self).errors@,
            final(self).end_line == old(self).end_line,
    {
        if self.tokens.len() == 0 {
            return None;
        }
        let r = self.tokens.pop();
        proof {
            assert(self.tokens@ =~= old(self).tokens@.drop_last());
        }
        r
    }

    /// True iff the most recent token is a string constant.
    pub fn last_is_str(&self) -> (r: bool)
        ensures
            r == (self.tokens@.len() > 0 && self.tokens@.last().value is Str),
    {
        if self.tokens.len() == 0 {
            return false;
        }
        match self.tokens[self.tokens.len() - 1].get_value() {
            TokenValue::Str(_) => true,
            _ => false,
        }
    }

    /// Clears the end-of-line flag for a fresh line.
    pub fn newline(&mut self)
        ensures
            final(self).end_line == false,
            final(self).tokens@ == old(self).tokens@,
            final(self).errors@ == old(self).errors@,
    {
        self.end_line = false;
    }

    /// Raises the end-of-line flag: the rest of the line is ignored.
    pub fn set_end_line(&mut self)
        ensures
            final(self).end_line == true,
            final(self).tokens@ == old(self).tokens@,
            final(self).errors@ == old(self).errors@,
    {
        self.end_line = true;
    }

    /// True iff the rest of the current line is to be ignored.
    pub fn is_end_line(&self) -> (r: bool)
        ensures
            r == self.end_line,
    {
        self.end_line
    }

    /// Takes the gathered tokens out.
    pub fn take_tokens(&mut self) -> (r: Vec<Token>)
        ensures
            r@ == old(self).tokens@,
            final(self).tokens@.len() == 0,
            final(self).errors@ == old(self).errors@,
            final(self).end_line == old(self).end_line,
    {
        let mut out: Vec<Token> = Vec::new();
        core::mem::swap(&mut out, &mut self.tokens);
        out
    }

    /// Takes the gathered diagnostics out.
    pub fn take_errors(&mut self) -> (r: Vec<CompileError>)
        ensures
            r@ == old(self).errors@,
            final(self).errors@.len() == 0,
            final(self).tokens@ == old(self).tokens@,
            final(self).end_line == old(self).end_line,
    {
        let mut out: Vec<CompileError> = Vec::new();
        core::mem::swap(&mut out, &mut self.errors);
        out
    }
}

} // verus!
