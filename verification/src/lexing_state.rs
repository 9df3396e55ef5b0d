//! The state of the lexer automaton: what the cursor stands inside, and the
//! escape machinery for character and string constants.

use vstd::prelude::*;

use crate::lex_data::LexingData;
use crate::location::Location;
use crate::location::loc_le;
use crate::symbols::SymbolState;
use crate::tokens::Ident;
use crate::tokens::Token;

verus! {

/// Position inside a block comment.
#[derive(Clone, Copy, PartialEq, Eq, Structural, Debug)]
pub enum CommentState {
    /// Not inside a comment; the neutral state after one closed.
    False,
    /// Inside a block comment.
    True,
    /// Inside a block comment, just after a `*`.
    Star,
}

/// The flavour of a multi-character escape sequence.
#[derive(Clone, Copy, PartialEq, Eq, Structural, Debug)]
pub enum EscapeKind {
    /// `\u`, exactly four hexadecimal digits.
    ShortUnicode,
    /// `\U`, exactly eight hexadecimal digits.
    Unicode,
    /// `\x`, two or three hexadecimal digits.
    Hexadecimal,
    /// One to three octal digits.
    Octal,
}

/// A multi-character escape sequence being gathered.
pub struct EscapeSequence {
    /// The flavour of the sequence.
    pub kind: EscapeKind,
    /// The digits gathered so far.
    pub digits: Vec<char>,
}

/// The escape machinery: off, just after a backslash, or inside a
/// multi-character sequence.
pub enum EscapeState {
    /// No escape pending.
    False,
    /// A backslash was just read.
    Single,
    /// A multi-character sequence is being gathered.
    Sequence(EscapeSequence),
}

/// What the lexer cursor stands inside.
pub enum LexingState {
    /// At a line start or between tokens.
    StartOfLine,
    /// Inside an identifier or number literal.
    Identifier(Ident),
    /// Inside a run of operator characters.
    Symbols(SymbolState),
    /// Inside a character constant, holding its character once read.
    Char(Option<char>),
    /// Inside a string constant, holding the content read so far.
    Str(String),
    /// Inside a comment.
    Comment(CommentState),
}

/// The name of a lexer state, as diagnostics cite it.
pub open spec fn spec_state_name(state: &LexingState) -> Seq<char> {
    match state {
        LexingState::StartOfLine => "start of line"@,
        LexingState::Identifier(_) => "identifier"@,
        LexingState::Symbols(_) => "symbol"@,
        LexingState::Char(_) => "char"@,
        LexingState::Str(_) => "string"@,
        LexingState::Comment(_) => "comment"@,
    }
}

impl LexingState {
    /// Name of the state, for diagnostics.
    pub fn repr(&self) -> (r: &'static str)
        ensures
            r@ == spec_state_name(self),
    {
        match self {
            LexingState::StartOfLine => "start of line",
            LexingState::Identifier(_) => "identifier",
            LexingState::Symbols(_) => "symbol",
            LexingState::Char(_) => "char",
            LexingState::Str(_) => "string",
            LexingState::Comment(_) => "comment",
        }
    }

    /// The symbol buffers of the state are well formed.
    pub open spec fn wf(&self) -> bool {
        match self {
            LexingState::Symbols(ss) => ss.wf(),
            _ => true,
        }
    }
}

/// How many source columns the pending content of the state spans, at
/// least: every character of it was read at a column before the cursor.
pub open spec fn pending_len(state: &LexingState) -> nat {
    match state {
        LexingState::StartOfLine => 0,
        LexingState::Identifier(id) => id.0@.len(),
        LexingState::Symbols(ss) => ss.buf@.len(),
        LexingState::Char(o) => match o {
            Some(_) => 1,
            None => 0,
        },
        LexingState::Str(s) => s@.len(),
        LexingState::Comment(_) => 0,
    }
}

/// The digits of a pending escape sequence are digits of its radix and no
/// more than its width.
pub open spec fn esc_wf(seq: &EscapeSequence) -> bool {
    match seq.kind {
        EscapeKind::ShortUnicode => seq.digits@.len() <= 4 && forall|i: int|
            0 <= i < seq.digits@.len() ==> crate::strutil::spec_is_hex_digit(
                #[trigger] seq.digits@[i],
            ),
        EscapeKind::Unicode => seq.digits@.len() <= 8 && forall|i: int|
            0 <= i < seq.digits@.len() ==> crate::strutil::spec_is_hex_digit(
                #[trigger] seq.digits@[i],
            ),
        EscapeKind::Hexadecimal => seq.digits@.len() <= 3 && forall|i: int|
            0 <= i < seq.digits@.len() ==> crate::strutil::spec_is_hex_digit(
                #[trigger] seq.digits@[i],
            ),
        EscapeKind::Octal => seq.digits@.len() <= 3 && forall|i: int|
            0 <= i < seq.digits@.len() ==> crate::strutil::spec_is_oct_digit(
                #[trigger] seq.digits@[i],
            ),
    }
}

/// The width an escape sequence closes at.
pub open spec fn esc_max_len(kind: EscapeKind) -> nat {
    match kind {
        EscapeKind::ShortUnicode => 4,
        EscapeKind::Unicode => 8,
        EscapeKind::Hexadecimal => 3,
        EscapeKind::Octal => 3,
    }
}

/// How many source columns the pending escape spans, at least.
pub open spec fn pending_escape(escape: &EscapeState) -> nat {
    match escape {
        EscapeState::False => 0,
        EscapeState::Single => 1,
        EscapeState::Sequence(seq) => match seq.kind {
            EscapeKind::Octal => seq.digits@.len() + 1,
            _ => seq.digits@.len() + 2,
        },
    }
}

/// The pending escape is well formed.
pub open spec fn escape_ok(escape: &EscapeState) -> bool {
    match escape {
        EscapeState::Sequence(seq) => esc_wf(seq),
        _ => true,
    }
}

/// The location `p` columns before `loc`, saturating at column 1.
pub open spec fn anchor(loc: Location, p: nat) -> Location {
    Location {
        col: if loc.col > p {
            (loc.col - p) as usize
        } else {
            1
        },
        ..loc
    }
}

/// Token locations are pairwise non-decreasing.
pub open spec fn tokens_sorted(ts: Seq<Token>) -> bool {
    forall|i: int| 0 <= i < ts.len() - 1 ==> loc_le((#[trigger] ts[i]).location, ts[i + 1].location)
}

/// Every token location has line and column at least 1.
pub open spec fn tokens_wf(ts: Seq<Token>) -> bool {
    forall|i: int| 0 <= i < ts.len() ==> (#[trigger] ts[i].location).wf()
}

/// Every diagnostic location has line and column at least 1.
pub open spec fn errors_wf(es: Seq<crate::diagnostics::CompileError>) -> bool {
    forall|i: int| 0 <= i < es.len() ==> (#[trigger] es[i].spec_location()).wf()
}

/// The gathered output is well formed.
pub open spec fn data_ok(data: &LexingData) -> bool {
    tokens_sorted(data.tokens@) && tokens_wf(data.tokens@) && errors_wf(data.errors@)
}

/// The two outputs hold the same tokens, diagnostics and end-of-line flag.
pub open spec fn data_unchanged(a: &LexingData, b: &LexingData) -> bool {
    a.tokens@ == b.tokens@ && a.errors@ == b.errors@ && a.end_line == b.end_line
}

/// The last token, if any, starts no later than `loc`.
pub open spec fn last_le(ts: Seq<Token>, loc: Location) -> bool {
    ts.len() == 0 || loc_le(ts.last().location, loc)
}

/// The invariant the lexer keeps while standing at `loc`: the output is
/// well formed and every token so far starts no later than the start of
/// the pending content.
pub open spec fn lex_inv(
    state: &LexingState,
    escape: &EscapeState,
    data: &LexingData,
    loc: Location,
) -> bool {
    &&& data_ok(data)
    &&& state.wf()
    &&& escape_ok(escape)
    &&& loc.wf()
    &&& last_le(data.tokens@, anchor(loc, pending_len(state) + pending_escape(escape)))
}

/// Rewinding by more columns moves the anchor no later.
pub proof fn lemma_anchor_mono(loc: Location, p: nat, q: nat)
    requires
        p <= q,
    ensures
        loc_le(anchor(loc, q), anchor(loc, p)),
{
}

/// The anchor of the next column with one more pending character is the
/// anchor of this column.
pub proof fn lemma_anchor_shift(loc: Location, p: nat)
    requires
        loc.col < usize::MAX,
    ensures
        anchor(Location { col: (loc.col + 1) as usize, ..loc }, p + 1) == anchor(loc, p),
{
}

} // verus!
