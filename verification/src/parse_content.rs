//! The top-level parse driver: walks the token stream and folds it into a
//! tree, managing a stack of open parentheses, brace lists and statement
//! blocks.

use vstd::prelude::*;

use crate::ast::Ast;
use crate::ast::BinaryOperator;
use crate::ast::Literal;
use crate::ast::UnaryOperator;
use crate::ast::no_hole;
use crate::diagnostics::CompileError;
use crate::diagnostics::Res;
use crate::handlers::handle_comma;
use crate::handlers::handle_double_binary;
use crate::handlers::handle_double_unary;
use crate::handlers::push_op;
use crate::keyword_sort::KeywordParsing;
use crate::keyword_sort::PushInNode;
use crate::keywords::Keyword;
use crate::location::Location;
use crate::numbers::Number;
use crate::push_op::OpDesc;
use crate::push_op::colon_node;
use crate::push_op::fill_node;
use crate::push_op::spec_fill as fill_spec;
use crate::push_op::has_no_hole;
use crate::strutil::push_str;
use crate::symbols::Symbol;
use crate::tokens::Token;
use crate::tokens::TokenValue;

verus! {

/// The operator a symbol with a single reading pushes; the symbols with
/// two readings, the conditional pair, the separators and the grouping
/// symbols are handled apart.
pub open spec fn spec_single_op(sym: Symbol) -> Option<OpDesc> {
    match sym {
        Symbol::Divide => Some(OpDesc::Bin(BinaryOperator::Divide)),
        Symbol::Modulo => Some(OpDesc::Bin(BinaryOperator::Modulo)),
        Symbol::ShiftLeft => Some(OpDesc::Bin(BinaryOperator::ShiftLeft)),
        Symbol::ShiftRight => Some(OpDesc::Bin(BinaryOperator::ShiftRight)),
        Symbol::Lt => Some(OpDesc::Bin(BinaryOperator::Lt)),
        Symbol::Gt => Some(OpDesc::Bin(BinaryOperator::Gt)),
        Symbol::Le => Some(OpDesc::Bin(BinaryOperator::Le)),
        Symbol::Ge => Some(OpDesc::Bin(BinaryOperator::Ge)),
        Symbol::Equal => Some(OpDesc::Bin(BinaryOperator::Equal)),
        Symbol::NotEqual => Some(OpDesc::Bin(BinaryOperator::NotEqual)),
        Symbol::LogicalAnd => Some(OpDesc::Bin(BinaryOperator::LogicalAnd)),
        Symbol::LogicalOr => Some(OpDesc::Bin(BinaryOperator::LogicalOr)),
        Symbol::BitwiseXor => Some(OpDesc::Bin(BinaryOperator::BitwiseXor)),
        Symbol::BitwiseOr => Some(OpDesc::Bin(BinaryOperator::BitwiseOr)),
        Symbol::Assign => Some(OpDesc::Bin(BinaryOperator::Assign)),
        Symbol::AddAssign => Some(OpDesc::Bin(BinaryOperator::AddAssign)),
        Symbol::SubAssign => Some(OpDesc::Bin(BinaryOperator::SubAssign)),
        Symbol::MulAssign => Some(OpDesc::Bin(BinaryOperator::MulAssign)),
        Symbol::DivAssign => Some(OpDesc::Bin(BinaryOperator::DivAssign)),
        Symbol::ModAssign => Some(OpDesc::Bin(BinaryOperator::ModAssign)),
        Symbol::ShiftLeftAssign => Some(OpDesc::Bin(BinaryOperator::ShiftLeftAssign)),
        Symbol::ShiftRightAssign => Some(OpDesc::Bin(BinaryOperator::ShiftRightAssign)),
        Symbol::AndAssign => Some(OpDesc::Bin(BinaryOperator::AndAssign)),
        Symbol::OrAssign => Some(OpDesc::Bin(BinaryOperator::OrAssign)),
        Symbol::XorAssign => Some(OpDesc::Bin(BinaryOperator::XorAssign)),
        Symbol::BitwiseNot => Some(OpDesc::Un(UnaryOperator::BitwiseNot)),
        Symbol::LogicalNot => Some(OpDesc::Un(UnaryOperator::LogicalNot)),
        _ => None,
    }
}

/// The two readings of a symbol spelled like two operators: the first is
/// tried first.
pub open spec fn spec_double_op(sym: Symbol) -> Option<(OpDesc, OpDesc)> {
    match sym {
        Symbol::Star => Some(
            (OpDesc::Bin(BinaryOperator::Multiply), OpDesc::Un(UnaryOperator::Indirection)),
        ),
        Symbol::Ampersand => Some(
            (OpDesc::Bin(BinaryOperator::BitwiseAnd), OpDesc::Un(UnaryOperator::AddressOf)),
        ),
        Symbol::Plus => Some((OpDesc::Bin(BinaryOperator::Add), OpDesc::Un(UnaryOperator::Plus))),
        Symbol::Minus => Some(
            (OpDesc::Bin(BinaryOperator::Subtract), OpDesc::Un(UnaryOperator::Minus)),
        ),
        Symbol::Increment => Some(
            (
                OpDesc::Un(UnaryOperator::PostfixIncrement),
                OpDesc::Un(UnaryOperator::PrefixIncrement),
            ),
        ),
        Symbol::Decrement => Some(
            (
                OpDesc::Un(UnaryOperator::PostfixDecrement),
                OpDesc::Un(UnaryOperator::PrefixDecrement),
            ),
        ),
        _ => None,
    }
}

/// An open grouping the driver has not closed yet.
enum OpenCtx {
    /// An open `(`, holding the tree outside it.
    Parens(Ast),
    /// An open `{` read as a list initialiser, holding the tree outside it
    /// and the elements gathered so far.
    List(Ast, Vec<Ast>),
}

/// Fills the current hole with a complete value, or reports.
fn push_leaf(current: &mut Ast, leaf: Ast, location: Location, errors: &mut Vec<CompileError>)
    requires
        old(errors)@.len() < usize::MAX,
    ensures
        old(errors)@.len() <= final(errors)@.len() <= old(errors)@.len() + 1,
        fill_spec(old(current).view(), leaf.view()) matches Some(n) ==> (final(current).view()
            == n && final(errors)@ == old(errors)@),
        fill_spec(old(current).view(), leaf.view()) is None ==> (final(current).view() == old(current).view() && final(errors)@.len() == old(errors)@.len() + 1),
{
    let mut tmp = Ast::Empty;
    core::mem::swap(current, &mut tmp);
    match fill_node(tmp, leaf) {
        Ok(n) => {
            *current = n;
        },
        Err(n) => {
            *current = n;
            let mut msg = String::new();
            push_str(&mut msg, "expected an operator before this operand");
            errors.push(location.to_error(msg));
        },
    }
}

/// Pushes an operator, reporting a failure as a diagnostic.
fn push_op_or_report(
    current: &mut Ast,
    op: OpDesc,
    location: Location,
    errors: &mut Vec<CompileError>,
)
    requires
        old(errors)@.len() < usize::MAX,
    ensures
        old(errors)@.len() <= final(errors)@.len() <= old(errors)@.len() + 1,
        crate::push_op::spec_ins(old(current).view(), op) matches Some(n) ==> (final(current).view() == n && final(errors)@ == old(errors)@),
        crate::push_op::spec_ins(old(current).view(), op) is None ==> (final(current).view()
            == old(current).view() && final(errors)@.len() == old(errors)@.len() + 1),
{
    match push_op(current, op) {
        Ok(()) => {},
        Err(msg) => {
            errors.push(location.to_error(msg));
        },
    }
}

/// Folds a token stream into a tree.
///
/// Statements separated by `;` gather into a block; parentheses group
/// subtrees; braces build list initialisers. Diagnostics accumulate and
/// never abort the walk; when none is an error, the resulting tree has no
/// hole left on its right spine, or is the empty tree of an input with no
/// expression at all.
pub fn parse_tokens(tokens: Vec<Token>) -> (r: Res<Ast>)
    ensures
        !crate::diagnostics::has_error_diag(r.spec_errors()) ==> (no_hole(r.spec_result().view())
            || r.spec_result().view() is Empty),
        tokens@.len() == 0 ==> (r.spec_result().view() is Empty && r.spec_errors().len() == 0),
        tokens@.len() == 1 && tokens@[0].value is Ident ==> (r.spec_result().view()
            == crate::ast::AstV::Leaf(
            crate::ast::LitV::Variable(tokens@[0].value->Ident_0@),
        ) && r.spec_errors().len() == 0),
{
    let mut errors: Vec<CompileError> = Vec::new();
    let mut current = Ast::Empty;
    let mut stack: Vec<OpenCtx> = Vec::new();
    let mut statements: Vec<Ast> = Vec::new();
    let mut toks = tokens;
    proof {
        assert(toks@ =~= tokens@.skip(0));
    }
    // the driver consumes the tokens front to back
    while toks.len() > 0 && errors.len() < usize::MAX - 8
        invariant
            errors@.len() < usize::MAX - 4,
            toks@.len() <= tokens@.len(),
            toks@ == tokens@.skip(tokens@.len() - toks@.len()),
            tokens@.len() == 0 ==> (current is Empty && errors@.len() == 0 && stack@.len() == 0
                && statements@.len() == 0),
            tokens@.len() == 1 && tokens@[0].value is Ident ==> ({
                &&& (toks@.len() == 1 ==> (current is Empty && errors@.len() == 0 && stack@.len()
                    == 0 && statements@.len() == 0))
                &&& (toks@.len() == 0 ==> (current.view() == crate::ast::AstV::Leaf(
                    crate::ast::LitV::Variable(tokens@[0].value->Ident_0@),
                ) && errors@.len() == 0 && stack@.len() == 0 && statements@.len() == 0))
            }),
        decreases toks@.len(),
    {
        let ghost consumed = tokens@.len() - toks@.len();
        let token = toks.remove(0);
        proof {
            assert(toks@ =~= tokens@.skip(consumed + 1));
        }
        let (value, location) = token.into_value_location();
        match value {
            TokenValue::Char(c) => {
                push_leaf(&mut current, Ast::Leaf(Literal::Char(c)), location, &mut errors);
            },
            TokenValue::Str(s) => {
                push_leaf(&mut current, Ast::Leaf(Literal::Str(s)), location, &mut errors);
            },
            TokenValue::Number(nb) => {
                push_leaf(&mut current, Ast::Leaf(Literal::Number(nb)), location, &mut errors);
            },
            TokenValue::Ident(name) => {
                push_leaf(&mut current, Ast::Leaf(Literal::Variable(name)), location, &mut errors);
            },
            TokenValue::Keyword(k) => {
                let sorted = KeywordParsing::from_keyword(k, false);
                match sorted.push_in_node(&mut current) {
                    Ok(()) => {},
                    Err(msg) => {
                        errors.push(location.to_error(msg));
                    },
                }
            },
            TokenValue::Symbol(sym) => {
                dispatch_symbol(
                    sym,
                    &mut current,
                    &mut stack,
                    &mut statements,
                    location,
                    &mut errors,
                );
            },
        }
    }
    // close what is still open
    while stack.len() > 0
        invariant
            errors@.len() < usize::MAX - 2,
            tokens@.len() == 0 ==> (current is Empty && errors@.len() == 0 && stack@.len() == 0
                && statements@.len() == 0),
            tokens@.len() == 1 && tokens@[0].value is Ident ==> (current.view()
                == crate::ast::AstV::Leaf(
                crate::ast::LitV::Variable(tokens@[0].value->Ident_0@),
            ) && errors@.len() == 0 && stack@.len() == 0 && statements@.len() == 0),
        decreases stack@.len(),
    {
        if errors.len() >= usize::MAX - 8 {
            break ;
        }
        let top = match stack.pop() {
            Some(t) => t,
            None => {
                break ;
            },
        };
        let mut msg = String::new();
        match top {
            OpenCtx::Parens(outer) => {
                push_str(&mut msg, "unmatched '(' at end of input");
                current = outer;
            },
            OpenCtx::List(outer, _) => {
                push_str(&mut msg, "unmatched '{' at end of input");
                current = outer;
            },
        }
        errors.push(Location::new(0).to_error(msg));
    }
    if statements.len() > 0 {
        let mut done = Ast::Empty;
        core::mem::swap(&mut done, &mut current);
        let empty_tail = match &done {
            Ast::Empty => true,
            _ => false,
        };
        if !empty_tail {
            statements.push(done);
        }
        current = Ast::Block(statements);
    }
    // a hole that nothing filled is an operand that never arrived; an
    // input with no expression at all keeps its empty tree silently
    let untouched = match &current {
        Ast::Empty => true,
        _ => false,
    };
    if !untouched && !has_no_hole(&current) {
        let mut msg = String::new();
        push_str(&mut msg, "an operand is missing at the end of the input");
        errors.push(Location::new(0).to_error(msg));
        proof {
            assert(crate::diagnostics::has_error_diag(errors@)) by {
                assert(errors@.last().spec_level() is Error);
            }
        }
    }
    Res::from_parts(current, errors)
}

/// Reacts to one operator token.
#[verifier::rlimit(100)]
#[verifier::spinoff_prover]
fn dispatch_symbol(
    sym: Symbol,
    current: &mut Ast,
    stack: &mut Vec<OpenCtx>,
    statements: &mut Vec<Ast>,
    location: Location,
    errors: &mut Vec<CompileError>,
)
    requires
        old(errors)@.len() < usize::MAX - 8,
    ensures
        final(errors)@.len() >= old(errors)@.len(),
        final(errors)@.len() <= old(errors)@.len() + 1,
        // a symbol with one operator reading inserts it, or reports
        spec_single_op(sym) matches Some(op) ==> ({
            &&& (crate::push_op::spec_ins(old(current).view(), op) matches Some(n) ==> (final(current).view() == n && final(errors)@ == old(errors)@))
            &&& (crate::push_op::spec_ins(old(current).view(), op) is None ==> (final(current).view() == old(current).view() && final(errors)@.len() == old(errors)@.len() + 1))
        }),
        // a symbol with two readings tries the first and falls back
        spec_double_op(sym) matches Some(pair) ==> ({
            &&& (crate::push_op::spec_ins(old(current).view(), pair.0) matches Some(n) ==> (final(current).view() == n && final(errors)@ == old(errors)@))
            &&& (crate::push_op::spec_ins(old(current).view(), pair.0) is None ==> (
            crate::push_op::spec_ins(old(current).view(), pair.1) matches Some(n2) ==> (final(current).view() == n2 && final(errors)@ == old(errors)@)))
            &&& (crate::push_op::spec_ins(old(current).view(), pair.0) is None
                && crate::push_op::spec_ins(old(current).view(), pair.1) is None ==> (final(current).view() == old(current).view() && final(errors)@.len() == old(errors)@.len()
                + 1))
        }),
        // the conditional pair
        sym == Symbol::Interrogation ==> ({
            &&& (crate::push_op::spec_ins(old(current).view(), OpDesc::TernQ) matches Some(n) ==> (final(current).view() == n && final(errors)@ == old(errors)@))
            &&& (crate::push_op::spec_ins(old(current).view(), OpDesc::TernQ) is None ==> (final(current).view() == old(current).view() && final(errors)@.len() == old(errors)@.len()
                + 1))
        }),
        sym == Symbol::Colon ==> ({
            &&& (crate::push_op::spec_colon(old(current).view()) matches Some(n) ==> (final(current).view() == n && final(errors)@ == old(errors)@))
            &&& (crate::push_op::spec_colon(old(current).view()) is None ==> (final(current).view()
                == old(current).view() && final(errors)@.len() == old(errors)@.len() + 1))
        }),
        // a semicolon closes the statement
        sym == Symbol::SemiColon ==> (*final(current) is Empty && final(errors)@ == old(errors)@
            && (!(*old(current) is Empty) ==> final(statements)@ == old(statements)@.push(
            *old(current),
        )) && (*old(current) is Empty ==> final(statements)@ == old(statements)@)),
        // an opening parenthesis saves the outside and starts afresh
        sym == Symbol::LeftParenthesis ==> (*final(current) is Empty && final(errors)@ == old(errors)@ && final(stack)@.len() == old(stack)@.len() + 1),
        sym == Symbol::LeftBrace ==> (*final(current) is Empty && final(errors)@ == old(errors)@
            && final(stack)@.len() == old(stack)@.len() + 1),
{
    match sym {
        // grouping
        Symbol::LeftParenthesis => {
            let mut outer = Ast::Empty;
            core::mem::swap(&mut outer, current);
            stack.push(OpenCtx::Parens(outer));
        },
        Symbol::RightParenthesis => {
            let mut inner = Ast::Empty;
            core::mem::swap(&mut inner, current);
            match stack.pop() {
                Some(OpenCtx::Parens(outer)) => {
                    *current = outer;
                    push_leaf(current, Ast::ParensBlock(Box::new(inner)), location, errors);
                },
                Some(other) => {
                    stack.push(other);
                    *current = inner;
                    let mut msg = String::new();
                    push_str(&mut msg, "unmatched ')'");
                    errors.push(location.to_error(msg));
                },
                None => {
                    *current = inner;
                    let mut msg = String::new();
                    push_str(&mut msg, "unmatched ')'");
                    errors.push(location.to_error(msg));
                },
            }
        },
        Symbol::LeftBrace => {
            let mut outer = Ast::Empty;
            core::mem::swap(&mut outer, current);
            stack.push(OpenCtx::List(outer, Vec::new()));
        },
        Symbol::RightBrace => {
            let mut inner = Ast::Empty;
            core::mem::swap(&mut inner, current);
            match stack.pop() {
                Some(OpenCtx::List(outer, mut elems)) => {
                    let empty_inner = match &inner {
                        Ast::Empty => true,
                        _ => false,
                    };
                    if !empty_inner {
                        elems.push(inner);
                    }
                    *current = outer;
                    push_leaf(current, Ast::ListInitialiser(elems), location, errors);
                },
                Some(other) => {
                    stack.push(other);
                    *current = inner;
                    let mut msg = String::new();
                    push_str(&mut msg, "unmatched '}'");
                    errors.push(location.to_error(msg));
                },
                None => {
                    *current = inner;
                    let mut msg = String::new();
                    push_str(&mut msg, "unmatched '}'");
                    errors.push(location.to_error(msg));
                },
            }
        },
        // separators
        Symbol::Comma => {
            // inside an open brace list a comma ends the element
            let in_list = stack.len() > 0 && (match &stack[stack.len() - 1] {
                OpenCtx::List(_, _) => true,
                _ => false,
            });
            if in_list {
                let mut elem = Ast::Empty;
            core::mem::swap(&mut elem, current);
                match stack.pop() {
                    Some(OpenCtx::List(outer, mut elems)) => {
                        elems.push(elem);
                        stack.push(OpenCtx::List(outer, elems));
                    },
                    Some(other) => {
                        stack.push(other);
                    },
                    None => {},
                }
            } else {
                match handle_comma(current) {
                    Ok(()) => {},
                    Err(msg) => {
                        errors.push(location.to_error(msg));
                    },
                }
            }
        },
        Symbol::SemiColon => {
            let mut done = Ast::Empty;
            core::mem::swap(&mut done, current);
            let empty_stmt = match &done {
                Ast::Empty => true,
                _ => false,
            };
            if !empty_stmt {
                statements.push(done);
            }
        },
        // the conditional operator
        Symbol::Interrogation => {
            push_op_or_report(current, OpDesc::TernQ, location, errors);
        },
        Symbol::Colon => {
            let mut tmp = Ast::Empty;
            core::mem::swap(&mut tmp, current);
            match colon_node(tmp) {
                Ok(n) => {
                    *current = n;
                },
                Err(n) => {
                    *current = n;
                    let mut msg = String::new();
                    push_str(&mut msg, "':' without a matching '?'");
                    errors.push(location.to_error(msg));
                },
            }
        },
        // operators with one reading
        Symbol::Divide => {
            push_op_or_report(current, OpDesc::Bin(BinaryOperator::Divide), location, errors)
        },
        Symbol::Modulo => {
            push_op_or_report(current, OpDesc::Bin(BinaryOperator::Modulo), location, errors)
        },
        Symbol::ShiftLeft => {
            push_op_or_report(current, OpDesc::Bin(BinaryOperator::ShiftLeft), location, errors)
        },
        Symbol::ShiftRight => {
            push_op_or_report(current, OpDesc::Bin(BinaryOperator::ShiftRight), location, errors)
        },
        Symbol::Lt => push_op_or_report(current, OpDesc::Bin(BinaryOperator::Lt), location, errors),
        Symbol::Gt => push_op_or_report(current, OpDesc::Bin(BinaryOperator::Gt), location, errors),
        Symbol::Le => push_op_or_report(current, OpDesc::Bin(BinaryOperator::Le), location, errors),
        Symbol::Ge => push_op_or_report(current, OpDesc::Bin(BinaryOperator::Ge), location, errors),
        Symbol::Equal => {
            push_op_or_report(current, OpDesc::Bin(BinaryOperator::Equal), location, errors)
        },
        Symbol::NotEqual => {
            push_op_or_report(current, OpDesc::Bin(BinaryOperator::NotEqual), location, errors)
        },
        Symbol::LogicalAnd => {
            push_op_or_report(current, OpDesc::Bin(BinaryOperator::LogicalAnd), location, errors)
        },
        Symbol::LogicalOr => {
            push_op_or_report(current, OpDesc::Bin(BinaryOperator::LogicalOr), location, errors)
        },
        Symbol::BitwiseXor => {
            push_op_or_report(current, OpDesc::Bin(BinaryOperator::BitwiseXor), location, errors)
        },
        Symbol::BitwiseOr => {
            push_op_or_report(current, OpDesc::Bin(BinaryOperator::BitwiseOr), location, errors)
        },
        Symbol::Assign => {
            push_op_or_report(current, OpDesc::Bin(BinaryOperator::Assign), location, errors)
        },
        Symbol::AddAssign => {
            push_op_or_report(current, OpDesc::Bin(BinaryOperator::AddAssign), location, errors)
        },
        Symbol::SubAssign => {
            push_op_or_report(current, OpDesc::Bin(BinaryOperator::SubAssign), location, errors)
        },
        Symbol::MulAssign => {
            push_op_or_report(current, OpDesc::Bin(BinaryOperator::MulAssign), location, errors)
        },
        Symbol::DivAssign => {
            push_op_or_report(current, OpDesc::Bin(BinaryOperator::DivAssign), location, errors)
        },
        Symbol::ModAssign => {
            push_op_or_report(current, OpDesc::Bin(BinaryOperator::ModAssign), location, errors)
        },
        Symbol::ShiftLeftAssign => {
            push_op_or_report(
                current,
                OpDesc::Bin(BinaryOperator::ShiftLeftAssign),
                location,
                errors,
            )
        },
        Symbol::ShiftRightAssign => {
            push_op_or_report(
                current,
                OpDesc::Bin(BinaryOperator::ShiftRightAssign),
                location,
                errors,
            )
        },
        Symbol::AndAssign => {
            push_op_or_report(current, OpDesc::Bin(BinaryOperator::AndAssign), location, errors)
        },
        Symbol::OrAssign => {
            push_op_or_report(current, OpDesc::Bin(BinaryOperator::OrAssign), location, errors)
        },
        Symbol::XorAssign => {
            push_op_or_report(current, OpDesc::Bin(BinaryOperator::XorAssign), location, errors)
        },
        Symbol::BitwiseNot => {
            push_op_or_report(current, OpDesc::Un(UnaryOperator::BitwiseNot), location, errors)
        },
        Symbol::LogicalNot => {
            push_op_or_report(current, OpDesc::Un(UnaryOperator::LogicalNot), location, errors)
        },
        // operators with two readings
        Symbol::Star => {
            match handle_double_binary(
                current,
                BinaryOperator::Multiply,
                UnaryOperator::Indirection,
            ) {
                Ok(()) => {},
                Err(msg) => {
                    errors.push(location.to_error(msg));
                },
            }
        },
        Symbol::Ampersand => {
            match handle_double_binary(
                current,
                BinaryOperator::BitwiseAnd,
                UnaryOperator::AddressOf,
            ) {
                Ok(()) => {},
                Err(msg) => {
                    errors.push(location.to_error(msg));
                },
            }
        },
        Symbol::Plus => {
            match handle_double_binary(current, BinaryOperator::Add, UnaryOperator::Plus) {
                Ok(()) => {},
                Err(msg) => {
                    errors.push(location.to_error(msg));
                },
            }
        },
        Symbol::Minus => {
            match handle_double_binary(current, BinaryOperator::Subtract, UnaryOperator::Minus) {
                Ok(()) => {},
                Err(msg) => {
                    errors.push(location.to_error(msg));
                },
            }
        },
        Symbol::Increment => {
            match handle_double_unary(
                current,
                UnaryOperator::PostfixIncrement,
                UnaryOperator::PrefixIncrement,
            ) {
                Ok(()) => {},
                Err(msg) => {
                    errors.push(location.to_error(msg));
                },
            }
        },
        Symbol::Decrement => {
            match handle_double_unary(
                current,
                UnaryOperator::PostfixDecrement,
                UnaryOperator::PrefixDecrement,
            ) {
                Ok(()) => {},
                Err(msg) => {
                    errors.push(location.to_error(msg));
                },
            }
        },
        // the rest has no place in an expression
        _ => {
            let mut msg = String::new();
            push_str(&mut msg, "this symbol is not supported in an expression");
            errors.push(location.to_error(msg));
        },
    }
}

} // verus!
