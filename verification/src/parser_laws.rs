//! Grouping laws of the operator insertion engine, stated over the
//! specification of the engine itself and proved step by step.

use vstd::prelude::*;

use crate::ast::AstV;
use crate::ast::BinaryOperator;
use crate::ast::LitV;
use crate::ast::UnaryOperator;
use crate::ast::no_hole;
use crate::ast::spec_binary_prec;
use crate::push_op::OpDesc;
use crate::push_op::op_prec;
use crate::push_op::op_rtl;
use crate::push_op::spec_colon;
use crate::push_op::spec_fill;
use crate::push_op::spec_hole_op;
use crate::push_op::spec_ins;
use crate::push_op::spec_wrap;

verus! {

/// Filling the hole itself.
proof fn step_fill_empty(leaf: AstV)
    ensures
        spec_fill(AstV::Empty, leaf) == Some(leaf),
{
}

/// Filling the open right operand of an infix node.
proof fn step_fill_bin_open(b: BinaryOperator, x: AstV, leaf: AstV)
    ensures
        spec_fill(AstV::Bin(b, seq![x]), leaf) == Some(AstV::Bin(b, seq![x, leaf])),
{
    assert(seq![x].len() == 1);
    assert(seq![seq![x][0], leaf] =~= seq![x, leaf]);
}

/// Filling descends through a filled infix node into its right operand.
proof fn step_fill_bin_closed(b: BinaryOperator, x: AstV, y: AstV, leaf: AstV, z: AstV)
    requires
        spec_fill(y, leaf) == Some(z),
    ensures
        spec_fill(AstV::Bin(b, seq![x, y]), leaf) == Some(AstV::Bin(b, seq![x, z])),
{
    assert(seq![x, y].len() == 2);
    assert(seq![x, y][0] == x && seq![x, y][1] == y);
    assert(seq![seq![x, y][0], z] =~= seq![x, z]);
}

/// Filling descends into the open success branch of a conditional.
proof fn step_fill_ter2(x: AstV, y: AstV, leaf: AstV, z: AstV)
    requires
        spec_fill(y, leaf) == Some(z),
    ensures
        spec_fill(AstV::Ter(seq![x, y]), leaf) == Some(AstV::Ter(seq![x, z])),
{
    assert(seq![x, y].len() == 2);
    assert(seq![x, y][0] == x && seq![x, y][1] == y);
    assert(seq![seq![x, y][0], z] =~= seq![x, z]);
}

/// Filling descends into the failure branch of a closed conditional.
proof fn step_fill_ter3(x: AstV, y: AstV, w: AstV, leaf: AstV, z: AstV)
    requires
        spec_fill(w, leaf) == Some(z),
    ensures
        spec_fill(AstV::Ter(seq![x, y, w]), leaf) == Some(AstV::Ter(seq![x, y, z])),
{
    assert(seq![x, y, w].len() == 3);
    assert(seq![x, y, w][0] == x && seq![x, y, w][1] == y && seq![x, y, w][2] == w);
    assert(seq![seq![x, y, w][0], seq![x, y, w][1], z] =~= seq![x, y, z]);
}

/// An operator lands on a hole.
proof fn step_ins_empty(op: OpDesc)
    ensures
        spec_ins(AstV::Empty, op) == spec_hole_op(op),
{
}

/// An operator takes a literal as its left operand.
proof fn step_ins_leaf(l: LitV, op: OpDesc)
    ensures
        spec_ins(AstV::Leaf(l), op) == spec_wrap(AstV::Leaf(l), op),
{
}

/// An operator that binds tighter, or as tightly while grouping right to
/// left, descends past a filled infix node.
proof fn step_ins_bin_descend(b: BinaryOperator, x: AstV, y: AstV, op: OpDesc, z: AstV)
    requires
        op_prec(op) < spec_binary_prec(b) || (op_prec(op) == spec_binary_prec(b) && op_rtl(op)),
        spec_ins(y, op) == Some(z),
    ensures
        spec_ins(AstV::Bin(b, seq![x, y]), op) == Some(AstV::Bin(b, seq![x, z])),
{
    assert(seq![x, y].len() == 2);
    assert(seq![x, y][0] == x && seq![x, y][1] == y);
    assert(seq![seq![x, y][0], z] =~= seq![x, z]);
}

/// An operator that binds no tighter takes the whole complete infix node
/// as its left operand.
proof fn step_ins_bin_wrap(b: BinaryOperator, x: AstV, y: AstV, op: OpDesc)
    requires
        !(op_prec(op) < spec_binary_prec(b) || (op_prec(op) == spec_binary_prec(b) && op_rtl(op))),
        no_hole(y),
    ensures
        spec_ins(AstV::Bin(b, seq![x, y]), op) == spec_wrap(AstV::Bin(b, seq![x, y]), op),
{
    assert(seq![x, y].len() == 2);
    assert(seq![x, y][1] == y);
    assert(no_hole(AstV::Bin(b, seq![x, y])));
}

/// An operator that groups with the conditional descends into the failure
/// branch of a closed conditional.
proof fn step_ins_ter3_descend(x: AstV, y: AstV, w: AstV, op: OpDesc, z: AstV)
    requires
        op_prec(op) < 13 || (op_prec(op) == 13 && op_rtl(op)),
        spec_ins(w, op) == Some(z),
    ensures
        spec_ins(AstV::Ter(seq![x, y, w]), op) == Some(AstV::Ter(seq![x, y, z])),
{
    assert(seq![x, y, w].len() == 3);
    assert(seq![x, y, w][0] == x && seq![x, y, w][1] == y && seq![x, y, w][2] == w);
    assert(seq![seq![x, y, w][0], seq![x, y, w][1], z] =~= seq![x, y, z]);
}

/// A tight operator descends through a prefix node into its operand.
proof fn step_ins_un_descend(u: UnaryOperator, x: AstV, op: OpDesc, z: AstV)
    requires
        op_prec(op) < crate::ast::spec_unary_prec(u) || (op_prec(op) == crate::ast::spec_unary_prec(
            u,
        ) && op_rtl(op)),
        spec_ins(x, op) == Some(z),
    ensures
        spec_ins(AstV::Un(u, seq![x]), op) == Some(AstV::Un(u, seq![z])),
{
    assert(seq![x].len() == 1 && seq![x][0] == x);
}

/// A colon closes a conditional whose success branch is complete.
proof fn step_colon_close(x: AstV, y: AstV)
    requires
        spec_colon(y) is None,
        no_hole(y),
    ensures
        spec_colon(AstV::Ter(seq![x, y])) == Some(AstV::Ter(seq![x, y, AstV::Empty])),
{
    assert(seq![x, y].len() == 2);
    assert(seq![x, y][0] == x && seq![x, y][1] == y);
    assert(seq![seq![x, y][0], seq![x, y][1], AstV::Empty] =~= seq![x, y, AstV::Empty]);
}

/// A colon descends into the failure branch of a closed conditional.
proof fn step_colon_ter3(x: AstV, y: AstV, w: AstV, z: AstV)
    requires
        spec_colon(w) == Some(z),
    ensures
        spec_colon(AstV::Ter(seq![x, y, w])) == Some(AstV::Ter(seq![x, y, z])),
{
    assert(seq![x, y, w].len() == 3);
    assert(seq![x, y, w][0] == x && seq![x, y, w][1] == y && seq![x, y, w][2] == w);
    assert(seq![seq![x, y, w][0], seq![x, y, w][1], z] =~= seq![x, y, z]);
}

/// A literal is no open conditional and has no hole.
proof fn step_leaf_facts(l: LitV)
    ensures
        spec_colon(AstV::Leaf(l)) is None,
        no_hole(AstV::Leaf(l)),
{
}

/// The tree the engine builds for `a - b - c`: subtraction groups left to
/// right, so the result is `(a - b) - c`.
pub proof fn lemma_subtraction_groups_left(a: LitV, b: LitV, c: LitV)
    ensures
        ({
            let t0 = spec_fill(AstV::Empty, AstV::Leaf(a)).unwrap();
            let t1 = spec_ins(t0, OpDesc::Bin(BinaryOperator::Subtract)).unwrap();
            let t2 = spec_fill(t1, AstV::Leaf(b)).unwrap();
            let t3 = spec_ins(t2, OpDesc::Bin(BinaryOperator::Subtract)).unwrap();
            let t4 = spec_fill(t3, AstV::Leaf(c)).unwrap();
            t4 == AstV::Bin(
                BinaryOperator::Subtract,
                seq![
                    AstV::Bin(BinaryOperator::Subtract, seq![AstV::Leaf(a), AstV::Leaf(b)]),
                    AstV::Leaf(c),
                ],
            )
        }),
{
    let la = AstV::Leaf(a);
    let lb = AstV::Leaf(b);
    let lc = AstV::Leaf(c);
    let sub = OpDesc::Bin(BinaryOperator::Subtract);
    step_fill_empty(la);
    step_ins_leaf(a, sub);
    let t2 = AstV::Bin(BinaryOperator::Subtract, seq![la, lb]);
    step_fill_bin_open(BinaryOperator::Subtract, la, lb);
    step_leaf_facts(b);
    step_ins_bin_wrap(BinaryOperator::Subtract, la, lb, sub);
    step_fill_bin_open(BinaryOperator::Subtract, t2, lc);
}

/// The tree the engine builds for `a = b = c`: assignment groups right to
/// left, so the result is `a = (b = c)`.
pub proof fn lemma_assignment_groups_right(a: LitV, b: LitV, c: LitV)
    ensures
        ({
            let t0 = spec_fill(AstV::Empty, AstV::Leaf(a)).unwrap();
            let t1 = spec_ins(t0, OpDesc::Bin(BinaryOperator::Assign)).unwrap();
            let t2 = spec_fill(t1, AstV::Leaf(b)).unwrap();
            let t3 = spec_ins(t2, OpDesc::Bin(BinaryOperator::Assign)).unwrap();
            let t4 = spec_fill(t3, AstV::Leaf(c)).unwrap();
            t4 == AstV::Bin(
                BinaryOperator::Assign,
                seq![
                    AstV::Leaf(a),
                    AstV::Bin(BinaryOperator::Assign, seq![AstV::Leaf(b), AstV::Leaf(c)]),
                ],
            )
        }),
{
    let la = AstV::Leaf(a);
    let lb = AstV::Leaf(b);
    let lc = AstV::Leaf(c);
    let asg = OpDesc::Bin(BinaryOperator::Assign);
    step_fill_empty(la);
    step_ins_leaf(a, asg);
    step_fill_bin_open(BinaryOperator::Assign, la, lb);
    step_ins_leaf(b, asg);
    let inner = AstV::Bin(BinaryOperator::Assign, seq![lb]);
    step_ins_bin_descend(BinaryOperator::Assign, la, lb, asg, inner);
    step_fill_bin_open(BinaryOperator::Assign, lb, lc);
    let inner2 = AstV::Bin(BinaryOperator::Assign, seq![lb, lc]);
    step_fill_bin_closed(BinaryOperator::Assign, la, inner, lc, inner2);
}

/// The tree the engine builds for `a ? b : c ? d : e`: the conditional
/// groups right to left, so the result is `a ? b : (c ? d : e)`.
pub proof fn lemma_conditional_groups_right(a: LitV, b: LitV, c: LitV, d: LitV, e: LitV)
    ensures
        ({
            let t0 = spec_fill(AstV::Empty, AstV::Leaf(a)).unwrap();
            let t1 = spec_ins(t0, OpDesc::TernQ).unwrap();
            let t2 = spec_fill(t1, AstV::Leaf(b)).unwrap();
            let t3 = spec_colon(t2).unwrap();
            let t4 = spec_fill(t3, AstV::Leaf(c)).unwrap();
            let t5 = spec_ins(t4, OpDesc::TernQ).unwrap();
            let t6 = spec_fill(t5, AstV::Leaf(d)).unwrap();
            let t7 = spec_colon(t6).unwrap();
            let t8 = spec_fill(t7, AstV::Leaf(e)).unwrap();
            t8 == AstV::Ter(
                seq![
                    AstV::Leaf(a),
                    AstV::Leaf(b),
                    AstV::Ter(seq![AstV::Leaf(c), AstV::Leaf(d), AstV::Leaf(e)]),
                ],
            )
        }),
{
    let la = AstV::Leaf(a);
    let lb = AstV::Leaf(b);
    let lc = AstV::Leaf(c);
    let ld = AstV::Leaf(d);
    let le = AstV::Leaf(e);
    step_fill_empty(la);
    step_ins_leaf(a, OpDesc::TernQ);
    step_fill_empty(lb);
    step_fill_ter2(la, AstV::Empty, lb, lb);
    step_leaf_facts(b);
    step_colon_close(la, lb);
    step_fill_empty(lc);
    step_fill_ter3(la, lb, AstV::Empty, lc, lc);
    step_ins_leaf(c, OpDesc::TernQ);
    let inner1 = AstV::Ter(seq![lc, AstV::Empty]);
    step_ins_ter3_descend(la, lb, lc, OpDesc::TernQ, inner1);
    step_fill_empty(ld);
    step_fill_ter2(lc, AstV::Empty, ld, ld);
    let inner2 = AstV::Ter(seq![lc, ld]);
    step_fill_ter3(la, lb, inner1, ld, inner2);
    step_leaf_facts(d);
    step_colon_close(lc, ld);
    let inner3 = AstV::Ter(seq![lc, ld, AstV::Empty]);
    step_colon_ter3(la, lb, inner2, inner3);
    step_fill_empty(le);
    step_fill_ter3(lc, ld, AstV::Empty, le, le);
    let inner4 = AstV::Ter(seq![lc, ld, le]);
    step_fill_ter3(la, lb, inner3, le, inner4);
}

/// The tree the engine builds for `*p++`: the postfix increment binds
/// tighter than the dereference, so the result is `*(p++)`.
pub proof fn lemma_indirection_after_postfix(p: LitV)
    ensures
        ({
            let t0 = spec_ins(AstV::Empty, OpDesc::Un(UnaryOperator::Indirection)).unwrap();
            let t1 = spec_fill(t0, AstV::Leaf(p)).unwrap();
            let t2 = spec_ins(t1, OpDesc::Un(UnaryOperator::PostfixIncrement)).unwrap();
            t2 == AstV::Un(
                UnaryOperator::Indirection,
                seq![AstV::Un(UnaryOperator::PostfixIncrement, seq![AstV::Leaf(p)])],
            )
        }),
{
    let lp = AstV::Leaf(p);
    let ind = OpDesc::Un(UnaryOperator::Indirection);
    let inc = OpDesc::Un(UnaryOperator::PostfixIncrement);
    step_ins_empty(ind);
    let t0 = AstV::Un(UnaryOperator::Indirection, Seq::<AstV>::empty());
    assert(spec_fill(t0, lp) == Some(AstV::Un(UnaryOperator::Indirection, seq![lp])));
    step_ins_leaf(p, inc);
    let inner = AstV::Un(UnaryOperator::PostfixIncrement, seq![lp]);
    step_ins_un_descend(UnaryOperator::Indirection, lp, inc, inner);
}

} // verus!
