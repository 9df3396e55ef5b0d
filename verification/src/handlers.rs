//! Symbol fall-through handlers: operators whose spelling is shared by two
//! operator positions try one reading and fall back to the other.

use vstd::prelude::*;

use crate::ast::Ast;
use crate::ast::BinaryOperator;
use crate::ast::UnaryOperator;
use crate::push_op::OpDesc;
use crate::push_op::insert_node;
use crate::push_op::spec_ins;
use crate::strutil::push_str;

verus! {

/// Pushes one operator into the tree; on failure the tree is unchanged and
/// the message comes back.
pub fn push_op(current: &mut Ast, op: OpDesc) -> (r: Result<(), String>)
    ensures
        spec_ins(old(current).view(), op) matches Some(n) ==> (r is Ok && final(current).view()
            == n),
        spec_ins(old(current).view(), op) is None ==> (r is Err && final(current).view() == old(current).view()),
{
    let mut tmp = Ast::Empty;
    core::mem::swap(current, &mut tmp);
    match insert_node(tmp, op) {
        Ok(n) => {
            *current = n;
            Ok(())
        },
        Err(n) => {
            *current = n;
            let mut msg = String::new();
            push_str(&mut msg, "operator with no operand");
            Err(msg)
        },
    }
}

/// Pushes a comma: the comma operator of C.
///
/// Inside an open brace list the parse driver ends the current element
/// itself, before this handler would run.
pub fn handle_comma(current: &mut Ast) -> (r: Result<(), String>)
    ensures
        spec_ins(old(current).view(), OpDesc::Bin(BinaryOperator::Comma)) matches Some(n) ==> (r
            is Ok && final(current).view() == n),
        spec_ins(old(current).view(), OpDesc::Bin(BinaryOperator::Comma)) is None ==> (r is Err
            && final(current).view() == old(current).view()),
{
    push_op(current, OpDesc::Bin(BinaryOperator::Comma))
}

/// Pushes an operator spelled like both an infix and a prefix operator,
/// such as `*`, `&`, `+` or `-`: the infix reading is tried first.
pub fn handle_double_binary(current: &mut Ast, bin_op: BinaryOperator, un_op: UnaryOperator) -> (r:
    Result<(), String>)
    ensures
        spec_ins(old(current).view(), OpDesc::Bin(bin_op)) matches Some(n) ==> (r is Ok && final(current).view() == n),
        spec_ins(old(current).view(), OpDesc::Bin(bin_op)) is None ==> (spec_ins(
            old(current).view(),
            OpDesc::Un(un_op),
        ) matches Some(n) ==> (r is Ok && final(current).view() == n)),
        spec_ins(old(current).view(), OpDesc::Bin(bin_op)) is None && spec_ins(
            old(current).view(),
            OpDesc::Un(un_op),
        ) is None ==> (r is Err && final(current).view() == old(current).view()),
{
    match push_op(current, OpDesc::Bin(bin_op)) {
        Ok(()) => Ok(()),
        Err(_) => push_op(current, OpDesc::Un(un_op)),
    }
}

/// Pushes an operator spelled like two unary operators, such as `++` as
/// prefix or postfix: the first reading is tried first.
pub fn handle_double_unary(current: &mut Ast, first: UnaryOperator, second: UnaryOperator) -> (r:
    Result<(), String>)
    ensures
        spec_ins(old(current).view(), OpDesc::Un(first)) matches Some(n) ==> (r is Ok && final(current).view() == n),
        spec_ins(old(current).view(), OpDesc::Un(first)) is None ==> (spec_ins(
            old(current).view(),
            OpDesc::Un(second),
        ) matches Some(n) ==> (r is Ok && final(current).view() == n)),
        spec_ins(old(current).view(), OpDesc::Un(first)) is None && spec_ins(
            old(current).view(),
            OpDesc::Un(second),
        ) is None ==> (r is Err && final(current).view() == old(current).view()),
{
    match push_op(current, OpDesc::Un(first)) {
        Ok(()) => Ok(()),
        Err(_) => push_op(current, OpDesc::Un(second)),
    }
}

} // verus!
