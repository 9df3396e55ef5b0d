//! The operator insertion engine: a new operator enters the tree at the
//! deepest point of the right spine its precedence and associativity allow,
//! taking what stands there as its left operand and opening a fresh hole.

use vstd::prelude::*;

use crate::ast::Ast;
use crate::ast::AstV;
use crate::ast::Binary;
use crate::ast::BinaryOperator;
use crate::ast::Ternary;
use crate::ast::TernaryOperator;
use crate::ast::Unary;
use crate::ast::UnaryOperator;
use crate::ast::no_hole;
use crate::ast::spec_binary_assoc;
use crate::ast::spec_binary_prec;
use crate::ast::spec_is_postfix;
use crate::ast::spec_unary_assoc;
use crate::ast::spec_unary_prec;
use crate::ast::Associativity;

verus! {

/// An operator a token pushes into the tree.
#[derive(Clone, Copy, PartialEq, Eq, Structural, Debug)]
pub enum OpDesc {
    /// A prefix or postfix operator.
    Un(UnaryOperator),
    /// An infix operator.
    Bin(BinaryOperator),
    /// The `?` of the conditional operator.
    TernQ,
}

/// The precedence of a pushed operator.
pub open spec fn op_prec(op: OpDesc) -> int {
    match op {
        OpDesc::Un(u) => spec_unary_prec(u),
        OpDesc::Bin(b) => spec_binary_prec(b),
        OpDesc::TernQ => 13,
    }
}

/// True iff the pushed operator groups right to left.
pub open spec fn op_rtl(op: OpDesc) -> bool {
    match op {
        OpDesc::Un(u) => spec_unary_assoc(u) is RightToLeft,
        OpDesc::Bin(b) => spec_binary_assoc(b) is RightToLeft,
        OpDesc::TernQ => true,
    }
}

/// Wraps a complete value as the left operand of the operator; a prefix
/// operator takes no left operand.
pub open spec fn spec_wrap(a: AstV, op: OpDesc) -> Option<AstV> {
    match op {
        OpDesc::Bin(b) => Some(AstV::Bin(b, seq![a])),
        OpDesc::Un(u) => if spec_is_postfix(u) {
            Some(AstV::Un(u, seq![a]))
        } else {
            None
        },
        OpDesc::TernQ => Some(AstV::Ter(seq![a, AstV::Empty])),
    }
}

/// The node a prefix operator forms when it lands in a hole.
pub open spec fn spec_hole_op(op: OpDesc) -> Option<AstV> {
    match op {
        OpDesc::Un(u) => if spec_is_postfix(u) {
            None
        } else {
            Some(AstV::Un(u, Seq::empty()))
        },
        _ => None,
    }
}

/// Fills the current hole — the rightmost missing operand — with a
/// complete value; `None` when no hole is open.
pub open spec fn spec_fill(a: AstV, leaf: AstV) -> Option<AstV>
    decreases a,
{
    match a {
        AstV::Empty => Some(leaf),
        AstV::Leaf(_) | AstV::Parens(_) | AstV::List(_) | AstV::Blk(_) => None,
        AstV::Un(u, args) => if args.len() == 0 {
            if spec_is_postfix(u) {
                None
            } else {
                Some(AstV::Un(u, seq![leaf]))
            }
        } else {
            match spec_fill(args[0], leaf) {
                Some(c) => Some(AstV::Un(u, seq![c])),
                None => None,
            }
        },
        AstV::Bin(b, args) => if args.len() == 1 {
            Some(AstV::Bin(b, seq![args[0], leaf]))
        } else if args.len() == 2 {
            match spec_fill(args[1], leaf) {
                Some(c) => Some(AstV::Bin(b, seq![args[0], c])),
                None => None,
            }
        } else {
            None
        },
        AstV::Ter(args) => if args.len() == 2 {
            match spec_fill(args[1], leaf) {
                Some(c) => Some(AstV::Ter(seq![args[0], c])),
                None => None,
            }
        } else if args.len() == 3 {
            match spec_fill(args[2], leaf) {
                Some(c) => Some(AstV::Ter(seq![args[0], args[1], c])),
                None => None,
            }
        } else {
            None
        },
        AstV::Decl(attrs, args) => if args.len() == 1 {
            match spec_fill(args[0], leaf) {
                Some(c) => Some(AstV::Decl(attrs, seq![c])),
                None => None,
            }
        } else {
            None
        },
    }
}

/// Inserts an operator at the deepest admissible point of the right spine.
///
/// Descending past a node is allowed when the new operator binds strictly
/// tighter, or equally tightly while grouping right to left; otherwise the
/// node itself — if complete — becomes the left operand.
pub open spec fn spec_ins(a: AstV, op: OpDesc) -> Option<AstV>
    decreases a,
{
    match a {
        AstV::Empty => spec_hole_op(op),
        AstV::Leaf(_) | AstV::Parens(_) | AstV::List(_) | AstV::Blk(_) => spec_wrap(a, op),
        AstV::Un(u, args) => if args.len() == 0 {
            match spec_hole_op(op) {
                Some(c) => Some(AstV::Un(u, seq![c])),
                None => None,
            }
        } else if args.len() == 1 {
            if op_prec(op) < spec_unary_prec(u) || (op_prec(op) == spec_unary_prec(u) && op_rtl(
                op,
            )) {
                match spec_ins(args[0], op) {
                    Some(c) => Some(AstV::Un(u, seq![c])),
                    None => None,
                }
            } else if no_hole(a) {
                spec_wrap(a, op)
            } else {
                None
            }
        } else {
            None
        },
        AstV::Bin(b, args) => if args.len() == 1 {
            match spec_hole_op(op) {
                Some(c) => Some(AstV::Bin(b, seq![args[0], c])),
                None => None,
            }
        } else if args.len() == 2 {
            if op_prec(op) < spec_binary_prec(b) || (op_prec(op) == spec_binary_prec(b) && op_rtl(
                op,
            )) {
                match spec_ins(args[1], op) {
                    Some(c) => Some(AstV::Bin(b, seq![args[0], c])),
                    None => None,
                }
            } else if no_hole(a) {
                spec_wrap(a, op)
            } else {
                None
            }
        } else {
            None
        },
        AstV::Ter(args) => if args.len() == 2 {
            if op_prec(op) < 13 || (op_prec(op) == 13 && op_rtl(op)) {
                match spec_ins(args[1], op) {
                    Some(c) => Some(AstV::Ter(seq![args[0], c])),
                    None => None,
                }
            } else if no_hole(a) {
                spec_wrap(a, op)
            } else {
                None
            }
        } else if args.len() == 3 {
            if op_prec(op) < 13 || (op_prec(op) == 13 && op_rtl(op)) {
                match spec_ins(args[2], op) {
                    Some(c) => Some(AstV::Ter(seq![args[0], args[1], c])),
                    None => None,
                }
            } else if no_hole(a) {
                spec_wrap(a, op)
            } else {
                None
            }
        } else {
            None
        },
        AstV::Decl(attrs, args) => if args.len() == 1 {
            match spec_ins(args[0], op) {
                Some(c) => Some(AstV::Decl(attrs, seq![c])),
                None => None,
            }
        } else {
            None
        },
    }
}

/// Closes the innermost open conditional on the right spine: its success
/// branch is complete and the `:` opens the failure hole.
pub open spec fn spec_colon(a: AstV) -> Option<AstV>
    decreases a,
{
    match a {
        AstV::Un(u, args) => if args.len() == 1 {
            match spec_colon(args[0]) {
                Some(c) => Some(AstV::Un(u, seq![c])),
                None => None,
            }
        } else {
            None
        },
        AstV::Bin(b, args) => if args.len() == 2 {
            match spec_colon(args[1]) {
                Some(c) => Some(AstV::Bin(b, seq![args[0], c])),
                None => None,
            }
        } else {
            None
        },
        AstV::Decl(attrs, args) => if args.len() == 1 {
            match spec_colon(args[0]) {
                Some(c) => Some(AstV::Decl(attrs, seq![c])),
                None => None,
            }
        } else {
            None
        },
        AstV::Ter(args) => if args.len() == 2 {
            match spec_colon(args[1]) {
                Some(c) => Some(AstV::Ter(seq![args[0], c])),
                None => if no_hole(args[1]) {
                    Some(AstV::Ter(seq![args[0], args[1], AstV::Empty]))
                } else {
                    None
                },
            }
        } else if args.len() == 3 {
            match spec_colon(args[2]) {
                Some(c) => Some(AstV::Ter(seq![args[0], args[1], c])),
                None => None,
            }
        } else {
            None
        },
        _ => None,
    }
}

/// Fills the current hole with a complete value, as [`spec_fill`]
/// describes; on failure the tree comes back unchanged.
pub fn fill_node(a: Ast, leaf: Ast) -> (r: Result<Ast, Ast>)
    ensures
        r matches Ok(n) ==> spec_fill(a.view(), leaf.view()) == Some(n.view()),
        r matches Err(n) ==> spec_fill(a.view(), leaf.view()) is None && n.view() == a.view(),
    decreases a,
{
    match a {
        Ast::Empty => Ok(leaf),
        Ast::Unary(u) => {
            let Unary { op, arg } = u;
            match arg {
                None => {
                    if op.precedence() == 1 {
                        Err(Ast::Unary(Unary { op, arg: None }))
                    } else {
                        Ok(Ast::Unary(Unary { op, arg: Some(Box::new(leaf)) }))
                    }
                },
                Some(child) => {
                    match fill_node(*child, leaf) {
                        Ok(c) => Ok(Ast::Unary(Unary { op, arg: Some(Box::new(c)) })),
                        Err(c) => Err(Ast::Unary(Unary { op, arg: Some(Box::new(c)) })),
                    }
                },
            }
        },
        Ast::Binary(b) => {
            let Binary { op, lhs, rhs } = b;
            match rhs {
                None => Ok(Ast::Binary(Binary { op, lhs, rhs: Some(Box::new(leaf)) })),
                Some(child) => {
                    match fill_node(*child, leaf) {
                        Ok(c) => Ok(Ast::Binary(Binary { op, lhs, rhs: Some(Box::new(c)) })),
                        Err(c) => Err(Ast::Binary(Binary { op, lhs, rhs: Some(Box::new(c)) })),
                    }
                },
            }
        },
        Ast::Ternary(t) => {
            let Ternary { op, condition, success, failure } = t;
            match failure {
                None => {
                    match fill_node(*success, leaf) {
                        Ok(c) => Ok(
                            Ast::Ternary(
                                Ternary { op, condition, success: Box::new(c), failure: None },
                            ),
                        ),
                        Err(c) => Err(
                            Ast::Ternary(
                                Ternary { op, condition, success: Box::new(c), failure: None },
                            ),
                        ),
                    }
                },
                Some(f) => {
                    match fill_node(*f, leaf) {
                        Ok(c) => Ok(
                            Ast::Ternary(
                                Ternary { op, condition, success, failure: Some(Box::new(c)) },
                            ),
                        ),
                        Err(c) => Err(
                            Ast::Ternary(
                                Ternary { op, condition, success, failure: Some(Box::new(c)) },
                            ),
                        ),
                    }
                },
            }
        },
        Ast::Declaration(d) => {
            let crate::ast::Declaration { attrs, inner } = d;
            match fill_node(*inner, leaf) {
                Ok(c) => Ok(
                    Ast::Declaration(
                        crate::ast::Declaration { attrs, inner: Box::new(c) },
                    ),
                ),
                Err(c) => Err(
                    Ast::Declaration(
                        crate::ast::Declaration { attrs, inner: Box::new(c) },
                    ),
                ),
            }
        },
        other => Err(other),
    }
}

/// Checks that the tree has no hole left on its right spine.
pub fn has_no_hole(a: &Ast) -> (r: bool)
    ensures
        r == no_hole(a.view()),
    decreases a,
{
    match a {
        Ast::Empty => false,
        Ast::Leaf(_) => true,
        Ast::Unary(u) => match &u.arg {
            Some(c) => has_no_hole(c),
            None => false,
        },
        Ast::Binary(b) => match &b.rhs {
            Some(c) => has_no_hole(c),
            None => false,
        },
        Ast::Ternary(t) => match &t.failure {
            Some(c) => has_no_hole(c),
            None => false,
        },
        Ast::ParensBlock(_) => true,
        Ast::ListInitialiser(_) => true,
        Ast::Block(_) => true,
        Ast::Declaration(d) => has_no_hole(&d.inner),
    }
}

/// Wraps a complete value as the left operand of the operator.
fn wrap_node(a: Ast, op: OpDesc) -> (r: Result<Ast, Ast>)
    ensures
        r matches Ok(n) ==> spec_wrap(a.view(), op) == Some(n.view()),
        r matches Err(n) ==> spec_wrap(a.view(), op) is None && n.view() == a.view(),
{
    match op {
        OpDesc::Bin(b) => Ok(Ast::Binary(Binary { op: b, lhs: Box::new(a), rhs: None })),
        OpDesc::Un(u) => {
            if u.precedence() == 1 {
                Ok(Ast::Unary(Unary { op: u, arg: Some(Box::new(a)) }))
            } else {
                Err(a)
            }
        },
        OpDesc::TernQ => Ok(
            Ast::Ternary(
                Ternary {
                    op: TernaryOperator,
                    condition: Box::new(a),
                    success: Box::new(Ast::Empty),
                    failure: None,
                },
            ),
        ),
    }
}

/// The precedence of a pushed operator.
fn op_precedence(op: OpDesc) -> (r: u32)
    ensures
        r as int == op_prec(op),
{
    match op {
        OpDesc::Un(u) => u.precedence(),
        OpDesc::Bin(b) => b.precedence(),
        OpDesc::TernQ => 13,
    }
}

/// True iff the pushed operator groups right to left.
fn op_right_to_left(op: OpDesc) -> (r: bool)
    ensures
        r == op_rtl(op),
{
    match op {
        OpDesc::Un(u) => match u.associativity() {
            Associativity::RightToLeft => true,
            Associativity::LeftToRight => false,
        },
        OpDesc::Bin(b) => match b.associativity() {
            Associativity::RightToLeft => true,
            Associativity::LeftToRight => false,
        },
        OpDesc::TernQ => true,
    }
}

/// The node a prefix operator forms when it lands in a hole.
fn hole_op_node(op: OpDesc) -> (r: Result<Ast, ()>)
    ensures
        r matches Ok(n) ==> spec_hole_op(op) == Some(n.view()),
        r is Err ==> spec_hole_op(op) is None,
{
    match op {
        OpDesc::Un(u) => {
            if u.precedence() == 1 {
                Err(())
            } else {
                Ok(Ast::Unary(Unary { op: u, arg: None }))
            }
        },
        _ => Err(()),
    }
}

/// Inserts an operator at the deepest admissible point of the right spine,
/// as [`spec_ins`] describes; on failure the tree comes back unchanged.
pub fn insert_node(a: Ast, op: OpDesc) -> (r: Result<Ast, Ast>)
    ensures
        r matches Ok(n) ==> spec_ins(a.view(), op) == Some(n.view()),
        r matches Err(n) ==> spec_ins(a.view(), op) is None && n.view() == a.view(),
    decreases a,
{
    match a {
        Ast::Empty => {
            match hole_op_node(op) {
                Ok(c) => Ok(c),
                Err(_) => Err(Ast::Empty),
            }
        },
        Ast::Leaf(l) => wrap_node(Ast::Leaf(l), op),
        Ast::ParensBlock(p) => wrap_node(Ast::ParensBlock(p), op),
        Ast::ListInitialiser(v) => wrap_node(Ast::ListInitialiser(v), op),
        Ast::Block(v) => wrap_node(Ast::Block(v), op),
        Ast::Declaration(d) => {
            let crate::ast::Declaration { attrs, inner } = d;
            match insert_node(*inner, op) {
                Ok(c) => Ok(
                    Ast::Declaration(
                        crate::ast::Declaration { attrs, inner: Box::new(c) },
                    ),
                ),
                Err(c) => Err(
                    Ast::Declaration(
                        crate::ast::Declaration { attrs, inner: Box::new(c) },
                    ),
                ),
            }
        },
        Ast::Unary(u) => {
            let Unary { op: uop, arg } = u;
            match arg {
                None => {
                    match hole_op_node(op) {
                        Ok(c) => Ok(Ast::Unary(Unary { op: uop, arg: Some(Box::new(c)) })),
                        Err(_) => Err(Ast::Unary(Unary { op: uop, arg: None })),
                    }
                },
                Some(child) => {
                    let p = op_precedence(op);
                    let q = uop.precedence();
                    if p < q || (p == q && op_right_to_left(op)) {
                        match insert_node(*child, op) {
                            Ok(c) => Ok(Ast::Unary(Unary { op: uop, arg: Some(Box::new(c)) })),
                            Err(c) => Err(Ast::Unary(Unary { op: uop, arg: Some(Box::new(c)) })),
                        }
                    } else {
                        let node = Ast::Unary(Unary { op: uop, arg: Some(child) });
                        if has_no_hole(&node) {
                            wrap_node(node, op)
                        } else {
                            Err(node)
                        }
                    }
                },
            }
        },
        Ast::Binary(b) => {
            let Binary { op: bop, lhs, rhs } = b;
            match rhs {
                None => {
                    match hole_op_node(op) {
                        Ok(c) => Ok(
                            Ast::Binary(Binary { op: bop, lhs, rhs: Some(Box::new(c)) }),
                        ),
                        Err(_) => Err(Ast::Binary(Binary { op: bop, lhs, rhs: None })),
                    }
                },
                Some(child) => {
                    let p = op_precedence(op);
                    let q = bop.precedence();
                    if p < q || (p == q && op_right_to_left(op)) {
                        match insert_node(*child, op) {
                            Ok(c) => Ok(
                                Ast::Binary(Binary { op: bop, lhs, rhs: Some(Box::new(c)) }),
                            ),
                            Err(c) => Err(
                                Ast::Binary(Binary { op: bop, lhs, rhs: Some(Box::new(c)) }),
                            ),
                        }
                    } else {
                        let node = Ast::Binary(Binary { op: bop, lhs, rhs: Some(child) });
                        if has_no_hole(&node) {
                            wrap_node(node, op)
                        } else {
                            Err(node)
                        }
                    }
                },
            }
        },
        Ast::Ternary(t) => {
            let Ternary { op: top, condition, success, failure } = t;
            let p = op_precedence(op);
            let descend = p < 13 || (p == 13 && op_right_to_left(op));
            match failure {
                None => {
                    if descend {
                        match insert_node(*success, op) {
                            Ok(c) => Ok(
                                Ast::Ternary(
                                    Ternary {
                                        op: top,
                                        condition,
                                        success: Box::new(c),
                                        failure: None,
                                    },
                                ),
                            ),
                            Err(c) => Err(
                                Ast::Ternary(
                                    Ternary {
                                        op: top,
                                        condition,
                                        success: Box::new(c),
                                        failure: None,
                                    },
                                ),
                            ),
                        }
                    } else {
                        let node = Ast::Ternary(
                            Ternary { op: top, condition, success, failure: None },
                        );
                        if has_no_hole(&node) {
                            wrap_node(node, op)
                        } else {
                            Err(node)
                        }
                    }
                },
                Some(f) => {
                    if descend {
                        match insert_node(*f, op) {
                            Ok(c) => Ok(
                                Ast::Ternary(
                                    Ternary {
                                        op: top,
                                        condition,
                                        success,
                                        failure: Some(Box::new(c)),
                                    },
                                ),
                            ),
                            Err(c) => Err(
                                Ast::Ternary(
                                    Ternary {
                                        op: top,
                                        condition,
                                        success,
                                        failure: Some(Box::new(c)),
                                    },
                                ),
                            ),
                        }
                    } else {
                        let node = Ast::Ternary(
                            Ternary { op: top, condition, success, failure: Some(f) },
                        );
                        if has_no_hole(&node) {
                            wrap_node(node, op)
                        } else {
                            Err(node)
                        }
                    }
                },
            }
        },
    }
}

/// Closes the innermost open conditional, as [`spec_colon`] describes; on
/// failure the tree comes back unchanged.
pub fn colon_node(a: Ast) -> (r: Result<Ast, Ast>)
    ensures
        r matches Ok(n) ==> spec_colon(a.view()) == Some(n.view()),
        r matches Err(n) ==> spec_colon(a.view()) is None && n.view() == a.view(),
    decreases a,
{
    match a {
        Ast::Unary(u) => {
            let Unary { op, arg } = u;
            match arg {
                Some(child) => {
                    match colon_node(*child) {
                        Ok(c) => Ok(Ast::Unary(Unary { op, arg: Some(Box::new(c)) })),
                        Err(c) => Err(Ast::Unary(Unary { op, arg: Some(Box::new(c)) })),
                    }
                },
                None => Err(Ast::Unary(Unary { op, arg: None })),
            }
        },
        Ast::Binary(b) => {
            let Binary { op, lhs, rhs } = b;
            match rhs {
                Some(child) => {
                    match colon_node(*child) {
                        Ok(c) => Ok(Ast::Binary(Binary { op, lhs, rhs: Some(Box::new(c)) })),
                        Err(c) => Err(Ast::Binary(Binary { op, lhs, rhs: Some(Box::new(c)) })),
                    }
                },
                None => Err(Ast::Binary(Binary { op, lhs, rhs: None })),
            }
        },
        Ast::Ternary(t) => {
            let Ternary { op, condition, success, failure } = t;
            match failure {
                None => {
                    match colon_node(*success) {
                        Ok(c) => Ok(
                            Ast::Ternary(
                                Ternary { op, condition, success: Box::new(c), failure: None },
                            ),
                        ),
                        Err(c) => {
                            if has_no_hole(&c) {
                                let closed = Ast::Ternary(
                                    Ternary {
                                        op,
                                        condition,
                                        success: Box::new(c),
                                        failure: Some(Box::new(Ast::Empty)),
                                    },
                                );
                                proof {
                                    assert(closed.view() == AstV::Ter(
                                        seq![
                                            a.view()->Ter_0[0],
                                            a.view()->Ter_0[1],
                                            AstV::Empty,
                                        ],
                                    ));
                                }
                                Ok(closed)
                            } else {
                                Err(
                                    Ast::Ternary(
                                        Ternary {
                                            op,
                                            condition,
                                            success: Box::new(c),
                                            failure: None,
                                        },
                                    ),
                                )
                            }
                        },
                    }
                },
                Some(f) => {
                    match colon_node(*f) {
                        Ok(c) => Ok(
                            Ast::Ternary(
                                Ternary { op, condition, success, failure: Some(Box::new(c)) },
                            ),
                        ),
                        Err(c) => Err(
                            Ast::Ternary(
                                Ternary { op, condition, success, failure: Some(Box::new(c)) },
                            ),
                        ),
                    }
                },
            }
        },
        Ast::Declaration(d) => {
            let crate::ast::Declaration { attrs, inner } = d;
            match colon_node(*inner) {
                Ok(c) => Ok(
                    Ast::Declaration(
                        crate::ast::Declaration { attrs, inner: Box::new(c) },
                    ),
                ),
                Err(c) => Err(
                    Ast::Declaration(
                        crate::ast::Declaration { attrs, inner: Box::new(c) },
                    ),
                ),
            }
        },
        other => Err(other),
    }
}

} // verus!
