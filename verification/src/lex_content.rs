//! The lexer driver: one character at a time through the state machine,
//! line by line through the file.

use vstd::prelude::*;

use crate::lex_data::LexingData;
use crate::lexing_state::CommentState;
use crate::lexing_state::EscapeState;
use crate::lexing_state::LexingState;
use crate::lexing_state::anchor;
use crate::lexing_state::data_unchanged;
use crate::lexing_state::last_le;
use crate::lexing_state::lemma_anchor_mono;
use crate::lexing_state::lemma_anchor_shift;
use crate::lexing_state::lex_inv;
use crate::lexing_state::pending_escape;
use crate::lexing_state::pending_len;
use crate::lexing_state::tokens_sorted;
use crate::lexing_state::tokens_wf;
use crate::location::Location;
use crate::special_chars::end_current;
use crate::special_chars::handle_double_quotes;
use crate::special_chars::handle_escaped;
use crate::special_chars::handle_single_quotes;
use crate::special_chars::handle_symbol;
use crate::strutil::is_ascii_digit;
use crate::strutil::is_ident_char;
use crate::strutil::is_whitespace;
use crate::strutil::push_char;
use crate::strutil::push_str;
use crate::strutil::to_chars;
use crate::symbols::is_op_char;
use crate::tokens::Ident;
use crate::tokens::Token;
use crate::diagnostics::Res;

verus! {

/// The location one column to the right.
pub open spec fn next_col(loc: Location) -> Location {
    Location { col: (loc.col + 1) as usize, ..loc }
}

/// Message reported for a backslash outside a literal and not at the end
/// of the line.
pub open spec fn escape_ctx_msg(name: Seq<char>) -> Seq<char> {
    "Escape characters are only authorised in strings or chars, not in '"@ + name + "' context."@
}

/// Message reported for a character no rule accepts.
pub open spec fn unsupported_msg(c: char, name: Seq<char>) -> Seq<char> {
    "Character '"@ + seq![c] + "' not supported in context of a '"@ + name + "'."@
}

/// Feeds one character to the state machine. `eol` marks the last
/// character of the trimmed line, where a backslash means continuation.
#[verifier::rlimit(100)]
#[verifier::spinoff_prover]
fn lex_char(
    ch: char,
    location: &Location,
    lex_data: &mut LexingData,
    lex_state: &mut LexingState,
    escape_state: &mut EscapeState,
    eol: bool,
)
    requires
        lex_inv(old(lex_state), old(escape_state), old(lex_data), *location),
        location.col < usize::MAX - 1,
        old(lex_data).tokens@.len() + 8 < usize::MAX,
        old(lex_data).errors@.len() + 8 < usize::MAX,
    ensures
        lex_inv(final(lex_state), final(escape_state), final(lex_data), next_col(*location)),
        final(lex_data).tokens@.len() <= old(lex_data).tokens@.len() + 4,
        final(lex_data).errors@.len() <= old(lex_data).errors@.len() + 4,
        old(lex_data).end_line ==> final(lex_data).end_line,
        old(lex_data).errors@.is_prefix_of(final(lex_data).errors@),
        // inside a block comment every character is dropped; only the
        // closing pair changes the state
        *old(escape_state) is False && *old(lex_state) == LexingState::Comment(CommentState::True)
            ==> (data_unchanged(final(lex_data), old(lex_data)) && *final(lex_state) == (if ch
            == '*' {
            LexingState::Comment(CommentState::Star)
        } else {
            LexingState::Comment(CommentState::True)
        })),
        *old(escape_state) is False && *old(lex_state) == LexingState::Comment(CommentState::Star)
            ==> (data_unchanged(final(lex_data), old(lex_data)) && *final(lex_state) == (if ch
            == '/' {
            LexingState::Comment(CommentState::False)
        } else if ch == '*' {
            LexingState::Comment(CommentState::Star)
        } else {
            LexingState::Comment(CommentState::True)
        })),
        // whitespace at the start of a line is skipped
        *old(escape_state) is False && *old(lex_state) is StartOfLine
            && crate::strutil::spec_is_whitespace(ch) ==> (data_unchanged(
            final(lex_data),
            old(lex_data),
        ) && *final(lex_state) is StartOfLine && *final(escape_state) is False),
        // a backslash inside a literal, or at the end of the line, arms the
        // escape and leaves everything else alone
        *old(escape_state) is False && ch == '\\' && !(*old(lex_state) is Comment) && (*old(lex_state) == LexingState::Char(None) || *old(lex_state) is Str || eol) ==> (
        data_unchanged(final(lex_data), old(lex_data)) && *final(lex_state) == *old(lex_state)
            && *final(escape_state) is Single),
        // a backslash anywhere else is reported
        *old(escape_state) is False && ch == '\\' && !eol && (*old(lex_state) is StartOfLine
            || *old(lex_state) is Identifier || *old(lex_state) is Symbols) ==> (*final(lex_state)
            == *old(lex_state) && final(lex_data).tokens@ == old(lex_data).tokens@ && final(lex_data).errors@.len() == old(lex_data).errors@.len() + 1 && final(lex_data).errors@.last().spec_message() == escape_ctx_msg(
            crate::lexing_state::spec_state_name(old(lex_state)),
        ) && final(lex_data).errors@.last().spec_level() is Error),
        // closing quote of a filled character constant
        *old(escape_state) is False && ch == '\'' && (*old(lex_state) matches LexingState::Char(
            Some(c),
        )) ==> (final(lex_data).tokens@ == old(lex_data).tokens@.push(
            Token {
                location: crate::lexing_state::anchor(*location, 1),
                value: crate::tokens::TokenValue::Char((*old(lex_state))->Char_0.unwrap()),
            },
        ) && final(lex_data).errors@ == old(lex_data).errors@ && *final(lex_state)
            is StartOfLine),
        // an empty character constant closes silently
        *old(escape_state) is False && ch == '\'' && *old(lex_state) == LexingState::Char(None)
            ==> (data_unchanged(final(lex_data), old(lex_data)) && *final(lex_state)
            is StartOfLine),
        // quotes between tokens open a character or string constant
        *old(escape_state) is False && ch == '\'' && *old(lex_state) is StartOfLine ==> (
        data_unchanged(final(lex_data), old(lex_data)) && *final(lex_state) == LexingState::Char(
            None,
        )),
        *old(escape_state) is False && ch == '"' && *old(lex_state) is StartOfLine ==> (
        data_unchanged(final(lex_data), old(lex_data)) && (*final(lex_state) matches
            LexingState::Str(s) && s@ == Seq::<char>::empty())),
        // a second character in a character constant is reported
        *old(escape_state) is False && (*old(lex_state) matches LexingState::Char(Some(c))) && ch
            != '\'' && !(ch == '\\' && eol) ==> (*final(lex_state) == *old(lex_state) && final(lex_data).tokens@ == old(lex_data).tokens@ && final(lex_data).errors@.len() == old(lex_data).errors@.len() + 1 && final(lex_data).errors@.last().spec_message()
            == crate::special_chars::multi_char_msg() && final(lex_data).errors@.last().spec_level() is Error),
        // content of an open character constant
        *old(escape_state) is False && *old(lex_state) == LexingState::Char(None) && ch != '\''
            && ch != '\\' ==> (data_unchanged(final(lex_data), old(lex_data)) && *final(lex_state) == LexingState::Char(Some(ch))),
        // content of an open string constant
        *old(escape_state) is False && (*old(lex_state) matches LexingState::Str(sv)) && ch != '"'
            && ch != '\\' ==> (data_unchanged(final(lex_data), old(lex_data)) && (*final(lex_state) matches LexingState::Str(s2) && s2@ == (*old(lex_state))->Str_0@.push(ch))),
        // a dot or an exponent sign continues a number literal
        *old(escape_state) is False && *old(lex_state) is Identifier && ({
            let idv = (*old(lex_state))->Identifier_0.0@;
            (ch == '.' && !idv.contains('.') && crate::tokens::spec_opens_number(idv)) || ((ch
                == '+' || ch == '-') && !idv.contains('+') && !idv.contains('-')
                && crate::tokens::spec_exp_pending(idv))
        }) ==> (data_unchanged(
            final(lex_data),
            old(lex_data),
        ) && (*final(lex_state) matches LexingState::Identifier(id2) && id2.0@
            == (*old(lex_state))->Identifier_0.0@.push(ch))),
        // an identifier character extends the identifier
        *old(escape_state) is False && *old(lex_state) is Identifier
            && crate::strutil::spec_is_ident_char(ch) ==> (data_unchanged(
            final(lex_data),
            old(lex_data),
        ) && (*final(lex_state) matches LexingState::Identifier(id2) && id2.0@
            == (*old(lex_state))->Identifier_0.0@.push(ch))),
        // an identifier character between tokens starts an identifier
        *old(escape_state) is False && *old(lex_state) is StartOfLine
            && crate::strutil::spec_is_ident_char(ch) ==> (data_unchanged(
            final(lex_data),
            old(lex_data),
        ) && (*final(lex_state) matches LexingState::Identifier(id2) && id2.0@ == seq![ch])),
        // an operator character between tokens opens a symbol run
        *old(escape_state) is False && *old(lex_state) is StartOfLine
            && crate::symbols::spec_is_op_char(ch) ==> (data_unchanged(
            final(lex_data),
            old(lex_data),
        ) && (*final(lex_state) matches LexingState::Symbols(ss) && ss.buf@ == seq![ch])),
        // whitespace closes the token under construction
        *old(escape_state) is False && crate::strutil::spec_is_whitespace(ch) && (*old(lex_state)
            is Identifier || *old(lex_state) is Symbols) ==> *final(lex_state) is StartOfLine,
        // anything else between tokens is reported
        *old(escape_state) is False && *old(lex_state) is StartOfLine
            && !crate::strutil::spec_is_whitespace(ch) && !crate::strutil::spec_is_ident_char(ch)
            && !crate::symbols::spec_is_op_char(ch) && ch != '\'' && ch != '"' && ch != '\\'
            ==> (*final(lex_state) == *old(lex_state) && final(lex_data).tokens@ == old(lex_data).tokens@ && final(lex_data).errors@.len() == old(lex_data).errors@.len() + 1
            && final(lex_data).errors@.last().spec_message() == unsupported_msg(
            ch,
            crate::lexing_state::spec_state_name(old(lex_state)),
        ) && final(lex_data).errors@.last().spec_level() is Error),
        // while the escape is armed the tokens never change
        *old(escape_state) is Single ==> final(lex_data).tokens@ == old(lex_data).tokens@,
{
    proof {
        lemma_anchor_shift(*location, pending_len(old(lex_state)) + pending_escape(
            old(escape_state),
        ));
    }
    // the escape machinery sees the character first
    let escape_active = match &*escape_state {
        EscapeState::False => false,
        _ => true,
    };
    if escape_active {
        let consumed = handle_escaped(ch, lex_state, escape_state, lex_data, location);
        proof {
            lemma_anchor_mono(
                *location,
                pending_len(lex_state) + pending_escape(escape_state),
                pending_len(old(lex_state)) + pending_escape(old(escape_state)) + 1,
            );
            lemma_anchor_shift(
                *location,
                pending_len(old(lex_state)) + pending_escape(old(escape_state)) + 1,
            );
            lemma_anchor_mono(
                next_col(*location),
                pending_len(lex_state) + pending_escape(escape_state) + 1,
                pending_len(old(lex_state)) + pending_escape(old(escape_state)) + 2,
            );
        }
        if consumed {
            proof {
                lemma_anchor_mono(
                    next_col(*location),
                    pending_len(lex_state) + pending_escape(escape_state),
                    pending_len(old(lex_state)) + pending_escape(old(escape_state)) + 1,
                );
            }
            return ;
        }
    }
    let ghost mid_state = *lex_state;
    // inside a comment only `*` and `/` matter
    let in_comment = match &*lex_state {
        LexingState::Comment(CommentState::True) | LexingState::Comment(CommentState::Star) => true,
        _ => false,
    };
    if in_comment {
        let starred = match &*lex_state {
            LexingState::Comment(CommentState::Star) => true,
            _ => false,
        };
        if starred && ch == '/' {
            *lex_state = LexingState::Comment(CommentState::False);
        } else if ch == '*' {
            *lex_state = LexingState::Comment(CommentState::Star);
        } else {
            *lex_state = LexingState::Comment(CommentState::True);
        }
        return ;
    }
    // past a closed comment the state is neutral again
    let closed_comment = match &*lex_state {
        LexingState::Comment(CommentState::False) => true,
        _ => false,
    };
    if closed_comment {
        *lex_state = LexingState::StartOfLine;
    }
    // a `*` or `/` after a pending `/` opens a comment
    let after_slash = match &*lex_state {
        LexingState::Symbols(ss) => match ss.last() {
            Some(c) => c == '/',
            None => false,
        },
        _ => false,
    };
    if after_slash && ch == '*' {
        match lex_state {
            LexingState::Symbols(ss) => {
                ss.clear_last();
            },
            _ => {},
        }
        proof {
            lemma_anchor_mono(
                *location,
                pending_len(lex_state),
                pending_len(old(lex_state)) + pending_escape(old(escape_state)),
            );
        }
        end_current(lex_state, lex_data, location);
        *lex_state = LexingState::Comment(CommentState::True);
        proof {
            lemma_anchor_mono(next_col(*location), 0, 1);
        }
        return ;
    }
    if after_slash && ch == '/' {
        match lex_state {
            LexingState::Symbols(ss) => {
                ss.clear_last();
            },
            _ => {},
        }
        proof {
            lemma_anchor_mono(
                *location,
                pending_len(lex_state),
                pending_len(old(lex_state)) + pending_escape(old(escape_state)),
            );
        }
        end_current(lex_state, lex_data, location);
        lex_data.set_end_line();
        proof {
            lemma_anchor_mono(next_col(*location), 0, 1);
        }
        return ;
    }
    let ghost pend0 = pending_len(&mid_state) + pending_escape(old(escape_state));
    proof {
        lemma_anchor_mono(*location, pending_len(&mid_state), pend0);
    }
    // a backslash escapes inside literals, or continues the line at its end
    if ch == '\\' {
        let in_literal = match &*lex_state {
            LexingState::Char(o) => match o {
                None => true,
                Some(_) => false,
            },
            LexingState::Str(_) => true,
            _ => false,
        };
        if in_literal || eol {
            *escape_state = EscapeState::Single;
            proof {
                lemma_anchor_shift(*location, pending_len(lex_state));
            }
            return ;
        }
        let in_char = match &*lex_state {
            LexingState::Char(_) => true,
            _ => false,
        };
        if !in_char {
            let mut msg = String::new();
            push_str(&mut msg, "Escape characters are only authorised in strings or chars, not in '");
            push_str(&mut msg, lex_state.repr());
            push_str(&mut msg, "' context.");
            proof {
                assert(msg@ =~= escape_ctx_msg(crate::lexing_state::spec_state_name(lex_state)));
            }
            lex_data.push_err(location.to_error(msg));
            proof {
                lemma_anchor_shift(*location, pending_len(lex_state));
            }
            return ;
        }
    }
    // quotes open and close character and string constants
    if ch == '\'' {
        let in_str = match &*lex_state {
            LexingState::Str(_) => true,
            _ => false,
        };
        if !in_str {
            handle_single_quotes(lex_state, lex_data, location);
            proof {
                lemma_anchor_shift(next_col(*location), pending_len(lex_state));
                lemma_anchor_mono(next_col(*location), pending_len(lex_state), 1);
            }
            return ;
        }
    }
    if ch == '"' {
        let in_char = match &*lex_state {
            LexingState::Char(_) => true,
            _ => false,
        };
        if !in_char {
            handle_double_quotes(lex_state, lex_data, location);
            proof {
                lemma_anchor_mono(next_col(*location), pending_len(lex_state), 1);
            }
            return ;
        }
    }
    // content of an open character or string constant
    let literal_kind: u8 = match &*lex_state {
        LexingState::Char(o) => match o {
            None => 1,
            Some(_) => 2,
        },
        LexingState::Str(_) => 3,
        _ => 0,
    };
    if literal_kind == 2 {
        let mut msg = String::new();
        push_str(&mut msg, "A char must contain only one character.");
        lex_data.push_err(location.to_error(msg));
        proof {
            lemma_anchor_shift(*location, pending_len(lex_state));
        }
        return ;
    }
    if literal_kind == 1 {
        *lex_state = LexingState::Char(Some(ch));
        proof {
            lemma_anchor_shift(*location, pending_len(&mid_state));
        }
        return ;
    }
    if literal_kind == 3 {
        match lex_state {
            LexingState::Str(s) => {
                push_char(s, ch);
            },
            _ => {},
        }
        proof {
            lemma_anchor_shift(*location, pending_len(&mid_state));
        }
        return ;
    }
    // number continuation: a dot or an exponent sign inside a number
    let ident_continues = match &*lex_state {
        LexingState::Identifier(id) => {
            if ch == '.' {
                !id.contains('.') && id.opens_number()
            } else if ch == '+' || ch == '-' {
                !id.contains('-') && !id.contains('+') && id.exp_pending()
            } else {
                false
            }
        },
        _ => false,
    };
    if ident_continues {
        match lex_state {
            LexingState::Identifier(id) => {
                id.push(ch);
            },
            _ => {},
        }
        proof {
            lemma_anchor_shift(*location, pending_len(&mid_state));
        }
        return ;
    }
    // operator characters feed the symbol buffer
    if is_op_char(ch) {
        handle_symbol(ch, lex_state, lex_data, location);
        proof {
            lemma_anchor_shift(*location, (pending_len(lex_state) - 1) as nat);
        }
        return ;
    }
    // whitespace closes whatever is open
    if is_whitespace(ch) {
        end_current(lex_state, lex_data, location);
        proof {
            lemma_anchor_mono(next_col(*location), pending_len(lex_state), 1);
        }
        return ;
    }
    // identifier characters extend or start an identifier
    if is_ident_char(ch) {
        let extends = match &*lex_state {
            LexingState::Identifier(_) => true,
            _ => false,
        };
        if extends {
            match lex_state {
                LexingState::Identifier(id) => {
                    id.push(ch);
                },
                _ => {},
            }
            proof {
                lemma_anchor_shift(*location, pending_len(&mid_state));
            }
            return ;
        }
        // a dot pending in the symbol buffer followed by a digit begins a
        // fractional number
        let dot_number = is_ascii_digit(ch) && (match &*lex_state {
            LexingState::Symbols(ss) => match ss.last() {
                Some(c) => c == '.',
                None => false,
            },
            _ => false,
        });
        if dot_number {
            proof {
                lemma_anchor_mono(*location, 1, pend0);
            }
            match lex_state {
                LexingState::Symbols(ss) => {
                    ss.clear_last();
                },
                _ => {},
            }
            proof {
                lemma_anchor_mono(*location, pending_len(lex_state), pend0);
            }
            let ghost pre_drain = *lex_data;
            crate::special_chars::end_operator(lex_state, lex_data, location);
            let mut name = String::new();
            push_char(&mut name, '.');
            push_char(&mut name, ch);
            *lex_state = LexingState::Identifier(Ident(name));
            proof {
                if lex_data.tokens@.len() <= pre_drain.tokens@.len() {
                    assert(lex_data.tokens@ =~= pre_drain.tokens@);
                }
                assert(crate::lexing_state::last_le(lex_data.tokens@, anchor(*location, 1)));
                lemma_anchor_shift(*location, 1);
                assert(name@ =~= seq!['.', ch]);
            }
            return ;
        }
        end_current(lex_state, lex_data, location);
        let mut name = String::new();
        push_char(&mut name, ch);
        *lex_state = LexingState::Identifier(Ident(name));
        proof {
            lemma_anchor_shift(*location, 0);
        }
        return ;
    }
    // anything else is unsupported here
    let mut msg = String::new();
    push_str(&mut msg, "Character '");
    push_char(&mut msg, ch);
    push_str(&mut msg, "' not supported in context of a '");
    push_str(&mut msg, lex_state.repr());
    push_str(&mut msg, "'.");
    proof {
        assert(msg@ =~= unsupported_msg(ch, crate::lexing_state::spec_state_name(lex_state)));
    }
    lex_data.push_err(location.to_error(msg));
    proof {
        lemma_anchor_shift(*location, pending_len(lex_state));
    }
}

/// True iff the line, with trailing whitespace removed, ends with a
/// backslash: the next line continues it.
pub open spec fn spec_continued(line: Seq<char>, t: int) -> bool {
    t > 0 && line[t - 1] == '\\'
}

/// Lexes one line. The location advances one column per character; tokens
/// close at the end of the line unless a final backslash continues it, in
/// which case the state carries over.
#[verifier::rlimit(100)]
#[verifier::spinoff_prover]
fn lex_line(
    line: &Vec<char>,
    location: &mut Location,
    lex_data: &mut LexingData,
    lex_state: &mut LexingState,
)
    requires
        lex_inv(old(lex_state), &EscapeState::False, old(lex_data), *old(location)),
        old(location).col + line@.len() + 2 < usize::MAX,
        old(lex_data).tokens@.len() + 4 * line@.len() + 8 < usize::MAX,
        old(lex_data).errors@.len() + 4 * line@.len() + 8 < usize::MAX,
    ensures
        lex_inv(final(lex_state), &EscapeState::False, final(lex_data), *final(location)),
        final(location).line == old(location).line,
        final(location).file == old(location).file,
        old(location).col <= final(location).col <= old(location).col + line@.len(),
        final(lex_data).tokens@.len() <= old(lex_data).tokens@.len() + 4 * line@.len() + 4,
        final(lex_data).errors@.len() <= old(lex_data).errors@.len() + 4 * line@.len() + 4,
        old(lex_data).errors@.is_prefix_of(final(lex_data).errors@),
        // after a line without a continuing backslash the state is reset:
        // the symbol buffer is drained and no literal is pending
        !spec_continued(line@, spec_trimmed_len(line@)) ==> *final(lex_state)
            == LexingState::StartOfLine,
        // whitespace after the continuing backslash draws a suggestion
        spec_continued(line@, spec_trimmed_len(line@)) && line@.len() > spec_trimmed_len(line@)
            ==> (final(lex_data).errors@.len() > old(lex_data).errors@.len() && final(lex_data).errors@.last().spec_message()
            == "found white space after '\\' at EOL. Please remove the space."@
            && final(lex_data).errors@.last().spec_level() is Suggestion),
        // a lone continuing backslash carries the state over untouched:
        // nothing closes across the continuation
        spec_trimmed_len(line@) == 1 && line@[0] == '\\' && line@.len() == 1 && !(*old(lex_state)
            is Comment) ==> (*final(lex_state) == *old(lex_state) && final(lex_data).tokens@
            == old(lex_data).tokens@ && final(lex_data).errors@ == old(lex_data).errors@),
{
    lex_data.newline();
    // trim trailing whitespace
    let mut t: usize = line.len();
    while t > 0 && is_whitespace(line[t - 1])
        invariant
            0 <= t <= line@.len(),
            forall|j: int| t <= j < line@.len() ==> crate::strutil::spec_is_whitespace(
                #[trigger] line@[j],
            ),
        decreases t,
    {
        t = t - 1;
    }
    proof {
        lemma_trimmed_len(line@, t as int);
    }
    let mut escape = EscapeState::False;
    let mut i: usize = 0;
    while i < t && !lex_data.end_line
        invariant
            lex_inv(lex_state, &escape, lex_data, *location),
            0 <= i <= t <= line@.len(),
            location.line == old(location).line,
            location.file == old(location).file,
            location.col == old(location).col + i,
            old(location).col + line@.len() + 2 < usize::MAX,
            lex_data.tokens@.len() <= old(lex_data).tokens@.len() + 4 * i,
            lex_data.errors@.len() <= old(lex_data).errors@.len() + 4 * i,
            old(lex_data).tokens@.len() + 4 * line@.len() + 8 < usize::MAX,
            old(lex_data).errors@.len() + 4 * line@.len() + 8 < usize::MAX,
            old(lex_data).errors@.is_prefix_of(lex_data.errors@),
            i == 0 ==> (escape is False && *lex_state == *old(lex_state) && lex_data.tokens@
                == old(lex_data).tokens@ && lex_data.errors@ == old(lex_data).errors@
                && !lex_data.end_line),
            t == 1 && line@[0] == '\\' && !(*old(lex_state) is Comment) && i == 1 ==> (
            *lex_state == *old(lex_state) && escape is Single && lex_data.tokens@ == old(lex_data).tokens@ && lex_data.errors@ == old(lex_data).errors@ && !lex_data.end_line),
        decreases t - i,
    {
        let cur = *location;
        lex_char(line[i], &cur, lex_data, lex_state, &mut escape, i == t - 1);
        location.incr_col();
        i = i + 1;
    }
    let continued = t > 0 && line[t - 1] == '\\';
    let cur = *location;
    proof {
        lemma_anchor_mono(
            *location,
            pending_len(lex_state),
            pending_len(lex_state) + pending_escape(&escape),
        );
    }
    if continued {
        let escape_single = match &escape {
            EscapeState::Single => true,
            _ => false,
        };
        if !escape_single {
            end_current(lex_state, lex_data, &cur);
        }
        if line.len() > t {
            let mut msg = String::new();
            push_str(
                &mut msg,
                "found white space after '\\' at EOL. Please remove the space.",
            );
            lex_data.push_err(cur.to_suggestion(msg));
        }
    } else {
        // the line ends here: everything closes and the state resets, a
        // comment included
        end_current(lex_state, lex_data, &cur);
        *lex_state = LexingState::StartOfLine;
    }
}

/// The length of the line once trailing whitespace is removed.
pub open spec fn spec_trimmed_len(line: Seq<char>) -> int
    decreases line.len(),
{
    if line.len() == 0 {
        0
    } else if crate::strutil::spec_is_whitespace(line.last()) {
        spec_trimmed_len(line.drop_last())
    } else {
        line.len() as int
    }
}

/// A scan from the right that stops at the first non-whitespace character
/// finds the trimmed length.
proof fn lemma_trimmed_len(line: Seq<char>, t: int)
    requires
        0 <= t <= line.len(),
        forall|j: int| t <= j < line.len() ==> crate::strutil::spec_is_whitespace(
            #[trigger] line[j],
        ),
        t > 0 ==> !crate::strutil::spec_is_whitespace(line[t - 1]),
    ensures
        spec_trimmed_len(line) == t,
    decreases line.len(),
{
    if line.len() > 0 {
        if t == line.len() {
        } else {
            assert(crate::strutil::spec_is_whitespace(line.last()));
            lemma_trimmed_len(line.drop_last(), t);
        }
    }
}

/// How many line feeds the text holds.
pub open spec fn spec_newline_count(s: Seq<char>) -> nat
    decreases s.len(),
{
    if s.len() == 0 {
        0
    } else if s.last() == '\n' {
        spec_newline_count(s.drop_last()) + 1
    } else {
        spec_newline_count(s.drop_last())
    }
}

/// How many lines the text holds: one per line feed, plus a final line
/// without one.
pub open spec fn spec_line_count(s: Seq<char>) -> nat {
    if s.len() == 0 {
        0
    } else if s.last() == '\n' {
        spec_newline_count(s)
    } else {
        spec_newline_count(s) + 1
    }
}

/// A stretch without line feeds adds none to the count.
proof fn lemma_nl_skip(s: Seq<char>, a: int, b: int)
    requires
        0 <= a <= b <= s.len(),
        forall|k: int| a <= k < b ==> s[k] != '\n',
    ensures
        spec_newline_count(s.subrange(0, b)) == spec_newline_count(s.subrange(0, a)),
    decreases b - a,
{
    if a < b {
        assert(s.subrange(0, b).drop_last() =~= s.subrange(0, b - 1));
        assert(s.subrange(0, b).last() == s[b - 1]);
        lemma_nl_skip(s, a, b - 1);
    }
}

/// Lexes a preprocessed source file into its token stream.
///
/// The location advances line by line and column by column. The returned
/// token locations are monotonically non-decreasing, and every token and
/// diagnostic location has line and column at least one.
#[verifier::rlimit(100)]
#[verifier::spinoff_prover]
#[verifier::loop_isolation(false)]
pub fn lex_file(content: &str, location: &mut Location) -> (r: Res<Vec<Token>>)
    requires
        old(location).wf(),
        old(location).line < usize::MAX / 4,
        old(location).col < usize::MAX / 4,
        content@.len() < usize::MAX / 16,
    ensures
        tokens_sorted(r.spec_result()@),
        tokens_wf(r.spec_result()@),
        crate::lexing_state::errors_wf(r.spec_errors()),
        content@.len() == 0 ==> (r.spec_result()@.len() == 0 && r.spec_errors().len() == 0
            && *final(location) == *old(location)),
        final(location).file == old(location).file,
        final(location).line == old(location).line + spec_line_count(content@),
        content@.len() > 0 ==> final(location).col == 1,
{
    let chars = to_chars(content);
    let n = chars.len();
    let mut lex_data = LexingData::new();
    let mut lex_state = LexingState::StartOfLine;
    let mut i: usize = 0;
    let ghost mut lines_done: nat = 0;
    while i < n
        invariant
            lex_inv(&lex_state, &EscapeState::False, &lex_data, *location),
            0 <= i <= n,
            n == chars@.len(),
            n < usize::MAX / 16,
            location.file == old(location).file,
            location.line == old(location).line + lines_done,
            lines_done <= i + 1,
            (lines_done == spec_newline_count(chars@.subrange(0, i as int)) && (i == 0
                || chars@[i - 1] == '\n')) || (i == n && n > 0 && chars@[n - 1] != '\n'
                && lines_done == spec_newline_count(chars@) + 1),
            i == 0 ==> *location == *old(location),
            i == 0 ==> lex_data.tokens@.len() == 0 && lex_data.errors@.len() == 0,
            i > 0 ==> location.col == 1,
            location.col <= old(location).col + n,
            old(location).line < usize::MAX / 4,
            old(location).col < usize::MAX / 4,
            lex_data.tokens@.len() <= 8 * i + 4,
            lex_data.errors@.len() <= 8 * i + 4,
        decreases n - i,
    {
        // take the next line, tolerating a trailing carriage return
        let mut j = i;
        while j < n && chars[j] != '\n'
            invariant
                i <= j <= n,
                n == chars@.len(),
                forall|k: int| i <= k < j ==> chars@[k] != '\n',
            decreases n - j,
        {
            j = j + 1;
        }
        let end = if j > i && chars[j - 1] == '\r' {
            j - 1
        } else {
            j
        };
        let mut seg: Vec<char> = Vec::new();
        let mut k = i;
        while k < end
            invariant
                i <= k <= end <= n,
                n == chars@.len(),
                seg@.len() == k - i,
            decreases end - k,
        {
            seg.push(chars[k]);
            k = k + 1;
        }
        lex_line(&seg, location, &mut lex_data, &mut lex_state);
        location.new_line();
        proof {
            lines_done = lines_done + 1;
            lemma_nl_skip(chars@, i as int, j as int);
        }
        if j == n {
            // the last line carried no line feed
            proof {
                assert(chars@.subrange(0, n as int) =~= chars@);
            }
            i = n;
        } else {
            proof {
                assert(chars@.subrange(0, j + 1 as int).drop_last() =~= chars@.subrange(
                    0,
                    j as int,
                ));
                assert(chars@.subrange(0, j + 1 as int).last() == chars@[j as int]);
            }
            i = j + 1;
        }
    }
    proof {
        assert(chars@.subrange(0, n as int) =~= chars@);
    }
    let tokens = lex_data.take_tokens();
    let errors = lex_data.take_errors();
    Res::from_parts(tokens, errors)
}

} // verus!
