//! Tokens: the output of the lexer, and the identifier buffer it fills
//! while reading one.

use vstd::prelude::*;

use crate::keywords::Keyword;
use crate::keywords::TryKeyword;
use crate::keywords::keyword_of;
use crate::keywords::spec_keyword_of;
use crate::keywords::spec_keyword_text;
use crate::lex_data::LexingData;
use crate::location::Location;
use crate::numbers::Number;
use crate::strutil::is_ascii_digit;
use crate::strutil::push_char;
use crate::strutil::push_str;
use crate::strutil::spec_is_ascii_digit;
use crate::symbols::Symbol;

verus! {

/// An identifier under construction: a run of alphanumeric characters,
/// underscores, and the extra characters number literals absorb.
pub struct Ident(pub String);

/// True iff the identifier is number-shaped: it starts with a digit.
pub open spec fn spec_is_number(s: Seq<char>) -> bool {
    s.len() > 0 && spec_is_ascii_digit(s[0])
}

/// True iff the identifier opens a number literal: it starts with a digit,
/// or with a dot directly followed by one. The lexer rewrites the latter
/// to a `0.`-prefixed literal when the identifier closes.
pub open spec fn spec_opens_number(s: Seq<char>) -> bool {
    s.len() > 0 && (spec_is_ascii_digit(s[0]) || (s[0] == '.' && s.len() >= 2
        && spec_is_ascii_digit(s[1])))
}

/// True iff a following sign belongs to the number the identifier opens:
/// its last character is the exponent marker of its radix.
pub open spec fn spec_exp_pending(s: Seq<char>) -> bool {
    spec_opens_number(s) && if spec_is_hex_prefixed(s) {
        s.last() == 'p' || s.last() == 'P'
    } else {
        s.last() == 'e' || s.last() == 'E'
    }
}

/// True iff the identifier starts with a hexadecimal prefix.
pub open spec fn spec_is_hex_prefixed(s: Seq<char>) -> bool {
    s.len() >= 2 && s[0] == '0' && (s[1] == 'x' || s[1] == 'X')
}

/// True iff the last character of a number-shaped identifier is its
/// exponent marker: `p` or `P` for a hexadecimal literal, `e` or `E` for a
/// decimal one.
pub open spec fn spec_last_is_exp(s: Seq<char>) -> bool {
    spec_is_number(s) && if spec_is_hex_prefixed(s) {
        s.last() == 'p' || s.last() == 'P'
    } else {
        s.last() == 'e' || s.last() == 'E'
    }
}

impl Ident {
    /// Checks whether the identifier holds the character.
    pub fn contains(&self, pat: char) -> (r: bool)
        ensures
            r == self.0@.contains(pat),
    {
        let n = self.0.as_str().unicode_len();
        let mut i: usize = 0;
        while i < n
            invariant
                0 <= i <= n,
                n == self.0@.len(),
                forall|j: int| 0 <= j < i ==> self.0@[j] != pat,
            decreases n - i,
        {
            if self.0.as_str().get_char(i) == pat {
                return true;
            }
            i = i + 1;
        }
        proof {
            assert(!self.0@.contains(pat));
        }
        false
    }

    /// The first character of the identifier.
    pub fn first(&self) -> (r: Option<char>)
        ensures
            self.0@.len() == 0 ==> r is None,
            self.0@.len() > 0 ==> r == Some(self.0@[0]),
    {
        if self.0.as_str().unicode_len() == 0 {
            None
        } else {
            Some(self.0.as_str().get_char(0))
        }
    }

    /// True iff the identifier is empty.
    pub fn is_empty(&self) -> (r: bool)
        ensures
            r == (self.0@.len() == 0),
    {
        self.0.as_str().unicode_len() == 0
    }

    /// True iff the identifier is number-shaped: it starts with a digit.
    pub fn is_number(&self) -> (r: bool)
        ensures
            r == spec_is_number(self.0@),
    {
        match self.first() {
            Some(c) => is_ascii_digit(c),
            None => false,
        }
    }

    /// True iff the identifier opens a number literal: it starts with a
    /// digit, or with a dot directly followed by one.
    pub fn opens_number(&self) -> (r: bool)
        ensures
            r == spec_opens_number(self.0@),
    {
        let n = self.0.as_str().unicode_len();
        if n == 0 {
            return false;
        }
        let c0 = self.0.as_str().get_char(0);
        if is_ascii_digit(c0) {
            return true;
        }
        c0 == '.' && n >= 2 && is_ascii_digit(self.0.as_str().get_char(1))
    }

    /// True iff a following sign belongs to the number the identifier
    /// opens.
    pub fn exp_pending(&self) -> (r: bool)
        ensures
            r == spec_exp_pending(self.0@),
    {
        let n = self.0.as_str().unicode_len();
        if n == 0 {
            return false;
        }
        let c0 = self.0.as_str().get_char(0);
        let opens = is_ascii_digit(c0) || (c0 == '.' && n >= 2 && is_ascii_digit(
            self.0.as_str().get_char(1),
        ));
        if !opens {
            return false;
        }
        let last = self.0.as_str().get_char(n - 1);
        let hex = n >= 2 && c0 == '0' && (self.0.as_str().get_char(1) == 'x'
            || self.0.as_str().get_char(1) == 'X');
        if hex {
            last == 'p' || last == 'P'
        } else {
            last == 'e' || last == 'E'
        }
    }

    /// True iff the last character is the exponent marker of the number
    /// being read, so a following sign belongs to the number.
    pub fn last_is_exp(&self) -> (r: bool)
        ensures
            r == spec_last_is_exp(self.0@),
    {
        let n = self.0.as_str().unicode_len();
        if n == 0 || !is_ascii_digit(self.0.as_str().get_char(0)) {
            return false;
        }
        let last = self.0.as_str().get_char(n - 1);
        let hex = n >= 2 && self.0.as_str().get_char(0) == '0' && (self.0.as_str().get_char(1)
            == 'x' || self.0.as_str().get_char(1) == 'X');
        if hex {
            last == 'p' || last == 'P'
        } else {
            last == 'e' || last == 'E'
        }
    }

    /// The number of characters in the identifier.
    pub fn len(&self) -> (r: usize)
        ensures
            r == self.0@.len(),
    {
        self.0.as_str().unicode_len()
    }

    /// Appends a character.
    pub fn push(&mut self, ch: char)
        ensures
            final(self).0@ == old(self).0@.push(ch),
    {
        push_char(&mut self.0, ch);
    }

    /// Takes the underlying string out, leaving the identifier empty.
    pub fn take_value(&mut self) -> (r: String)
        ensures
            r@ == old(self).0@,
            final(self).0@ == Seq::<char>::empty(),
    {
        let mut out = String::new();
        core::mem::swap(&mut out, &mut self.0);
        out
    }

    /// A reference to the underlying string.
    pub fn value(&self) -> (r: &str)
        ensures
            r@ == self.0@,
    {
        self.0.as_str()
    }
}

/// The value of a token.
pub enum TokenValue {
    /// A character constant, delimited by single quotes in the source.
    Char(char),
    /// An identifier: a name that is no keyword.
    Ident(String),
    /// A keyword of the closed C table.
    Keyword(Keyword),
    /// A number constant.
    Number(Number),
    /// A string constant; adjacent string constants are merged into one.
    Str(String),
    /// A punctuation operator.
    Symbol(Symbol),
}

/// A lexed token: a value with the location where it starts.
pub struct Token {
    /// Where the token starts in the source.
    pub location: Location,
    /// The value of the token.
    pub value: TokenValue,
}

/// Message warning about a deprecated underscore keyword spelling.
pub open spec fn deprecated_msg(k: Keyword) -> Seq<char> {
    "Underscore operators are deprecated since C23. Consider using "@ + spec_keyword_text(k)
}

impl Token {
    /// A character-constant token; the location is rewound to the
    /// character itself.
    pub fn from_char(ch: char, location: &Location) -> (r: Token)
        ensures
            r.value == TokenValue::Char(ch),
            r.location == location.spec_into_past(1),
    {
        Token { value: TokenValue::Char(ch), location: location.into_past(1) }
    }

    /// A number-constant token at the given location.
    pub fn from_number(number: Number, location: &Location) -> (r: Token)
        ensures
            r.value == TokenValue::Number(number),
            r.location == *location,
    {
        Token { value: TokenValue::Number(number), location: *location }
    }

    /// A string-constant token; the location is rewound over the content.
    pub fn from_str(str: String, location: &Location) -> (r: Token)
        ensures
            r.value matches TokenValue::Str(s2) && s2@ == str@,
            r.location == location.spec_into_past(str@.len() as usize),
    {
        let n = str.as_str().unicode_len();
        Token { location: location.into_past(n), value: TokenValue::Str(str) }
    }

    /// A symbol token; the location is rewound over its spelling.
    pub fn from_symbol(symbol: Symbol, size: usize, location: &Location) -> (r: Token)
        ensures
            r.value == TokenValue::Symbol(symbol),
            r.location == location.spec_into_past(size),
    {
        Token { value: TokenValue::Symbol(symbol), location: location.into_past(size) }
    }

    /// Turns a closed identifier into a token: a keyword of the table, with
    /// a deprecation warning for an underscore spelling that C23 replaces,
    /// or a plain identifier.
    pub fn from_identifier(lex_data: &mut LexingData, literal: &mut Ident, location: &Location) -> (
        r: Token)
        ensures
            r.location == location.spec_into_past(old(literal).0@.len() as usize),
            spec_keyword_of(old(literal).0@) matches TryKeyword::Success(k) ==> r.value
                == TokenValue::Keyword(k) && final(lex_data).errors@ == old(lex_data).errors@,
            spec_keyword_of(old(literal).0@) matches TryKeyword::Deprecated(k) ==> (r.value
                == TokenValue::Keyword(k) && final(lex_data).errors@.len() == old(
                lex_data,
            ).errors@.len() + 1 && final(lex_data).errors@.last().spec_message()
                == deprecated_msg(k) && final(lex_data).errors@.last().spec_level() is Warning
                && final(lex_data).errors@.last().spec_location() == location.spec_into_past(
                old(literal).0@.len() as usize,
            ) && final(lex_data).errors@.drop_last() == old(lex_data).errors@),
            spec_keyword_of(old(literal).0@) is Failure ==> ((r.value matches TokenValue::Ident(s)
                && s@ == old(literal).0@) && final(lex_data).errors@ == old(lex_data).errors@),
            final(lex_data).tokens@ == old(lex_data).tokens@,
            final(lex_data).end_line == old(lex_data).end_line,
            final(literal).0@ == Seq::<char>::empty(),
            old(lex_data).errors@.is_prefix_of(final(lex_data).errors@),
            final(lex_data).errors@.len() <= old(lex_data).errors@.len() + 1,
            forall|i: int|
                old(lex_data).errors@.len() <= i < final(lex_data).errors@.len() ==> (
                #[trigger] final(lex_data).errors@[i]).spec_location() == location.spec_into_past(
                    old(literal).0@.len() as usize,
                ),
    {
        let len = literal.len();
        let value = literal.take_value();
        let token_value = match keyword_of(value.as_str()) {
            TryKeyword::Success(keyword) => TokenValue::Keyword(keyword),
            TryKeyword::Deprecated(keyword) => {
                let mut msg = String::new();
                push_str(
                    &mut msg,
                    "Underscore operators are deprecated since C23. Consider using ",
                );
                push_str(&mut msg, keyword.text());
                proof {
                    assert(msg@ =~= deprecated_msg(keyword));
                }
                lex_data.push_err(location.into_past(len).to_warning(msg));
                TokenValue::Keyword(keyword)
            },
            TryKeyword::Failure => TokenValue::Ident(value),
        };
        Token { location: location.into_past(len), value: token_value }
    }

    /// A reference to the value of the token.
    pub fn get_value(&self) -> (r: &TokenValue)
        ensures
            r == &self.value,
    {
        &self.value
    }

    /// Takes the token apart into its value and its location.
    pub fn into_value_location(self) -> (r: (TokenValue, Location))
        ensures
            r.0 == self.value,
            r.1 == self.location,
    {
        (self.value, self.location)
    }
}

} // verus!
