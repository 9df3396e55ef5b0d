//! The abstract syntax tree and its operators: unary, binary and ternary
//! nodes with precedence and associativity.

use vstd::prelude::*;

use crate::numbers::Number;

verus! {

/// Grouping direction of equal-precedence operators.
#[derive(Clone, Copy, PartialEq, Eq, Structural, Debug)]
pub enum Associativity {
    /// `a - b - c` groups as `(a - b) - c`.
    LeftToRight,
    /// `a = b = c` groups as `a = (b = c)`.
    RightToLeft,
}

/// A prefix or postfix operator.
#[derive(Clone, Copy, PartialEq, Eq, Structural, Debug)]
pub enum UnaryOperator {
    /// `&` before an operand.
    AddressOf,
    /// `~`
    BitwiseNot,
    /// `*` before an operand.
    Indirection,
    /// `!`
    LogicalNot,
    /// `-` before an operand.
    Minus,
    /// `+` before an operand.
    Plus,
    /// `--` after an operand.
    PostfixDecrement,
    /// `++` after an operand.
    PostfixIncrement,
    /// `--` before an operand.
    PrefixDecrement,
    /// `++` before an operand.
    PrefixIncrement,
}

/// The grouping direction of a unary operator.
pub open spec fn spec_unary_assoc(op: UnaryOperator) -> Associativity {
    match op {
        UnaryOperator::PostfixIncrement | UnaryOperator::PostfixDecrement
            => Associativity::LeftToRight,
        _ => Associativity::RightToLeft,
    }
}

/// The precedence of a unary operator; smaller binds tighter.
pub open spec fn spec_unary_prec(op: UnaryOperator) -> int {
    match op {
        UnaryOperator::PostfixIncrement | UnaryOperator::PostfixDecrement => 1,
        _ => 2,
    }
}

/// True iff the operator stands after its operand.
pub open spec fn spec_is_postfix(op: UnaryOperator) -> bool {
    op is PostfixIncrement || op is PostfixDecrement
}

impl UnaryOperator {
    /// The grouping direction of the operator.
    pub fn associativity(&self) -> (r: Associativity)
        ensures
            r == spec_unary_assoc(*self),
    {
        match self {
            UnaryOperator::PostfixIncrement | UnaryOperator::PostfixDecrement
                => Associativity::LeftToRight,
            _ => Associativity::RightToLeft,
        }
    }

    /// The precedence of the operator; smaller binds tighter.
    pub fn precedence(&self) -> (r: u32)
        ensures
            r as int == spec_unary_prec(*self),
    {
        match self {
            UnaryOperator::PostfixIncrement | UnaryOperator::PostfixDecrement => 1,
            _ => 2,
        }
    }

    /// The spelling of the operator.
    pub fn repr(&self) -> (r: &'static str) {
        match self {
            UnaryOperator::PostfixIncrement | UnaryOperator::PrefixIncrement => "++",
            UnaryOperator::PostfixDecrement | UnaryOperator::PrefixDecrement => "--",
            UnaryOperator::Plus => "+",
            UnaryOperator::Minus => "-",
            UnaryOperator::BitwiseNot => "~",
            UnaryOperator::LogicalNot => "!",
            UnaryOperator::Indirection => "*",
            UnaryOperator::AddressOf => "&",
        }
    }
}

/// An infix operator.
#[derive(Clone, Copy, PartialEq, Eq, Structural, Debug)]
pub enum BinaryOperator {
    /// `*`
    Multiply,
    /// `/`
    Divide,
    /// `%`
    Modulo,
    /// `+`
    Add,
    /// `-`
    Subtract,
    /// `<<`
    ShiftLeft,
    /// `>>`
    ShiftRight,
    /// `<`
    Lt,
    /// `>`
    Gt,
    /// `<=`
    Le,
    /// `>=`
    Ge,
    /// `==`
    Equal,
    /// `!=`
    NotEqual,
    /// `&`
    BitwiseAnd,
    /// `^`
    BitwiseXor,
    /// `|`
    BitwiseOr,
    /// `&&`
    LogicalAnd,
    /// `||`
    LogicalOr,
    /// `=`
    Assign,
    /// `+=`
    AddAssign,
    /// `-=`
    SubAssign,
    /// `*=`
    MulAssign,
    /// `/=`
    DivAssign,
    /// `%=`
    ModAssign,
    /// `<<=`
    ShiftLeftAssign,
    /// `>>=`
    ShiftRightAssign,
    /// `&=`
    AndAssign,
    /// `^=`
    XorAssign,
    /// `|=`
    OrAssign,
    /// `,`
    Comma,
}

/// The precedence of a binary operator; smaller binds tighter.
pub open spec fn spec_binary_prec(op: BinaryOperator) -> int {
    match op {
        BinaryOperator::Multiply | BinaryOperator::Divide | BinaryOperator::Modulo => 3,
        BinaryOperator::Add | BinaryOperator::Subtract => 4,
        BinaryOperator::ShiftLeft | BinaryOperator::ShiftRight => 5,
        BinaryOperator::Lt | BinaryOperator::Gt | BinaryOperator::Le | BinaryOperator::Ge => 6,
        BinaryOperator::Equal | BinaryOperator::NotEqual => 7,
        BinaryOperator::BitwiseAnd => 8,
        BinaryOperator::BitwiseXor => 9,
        BinaryOperator::BitwiseOr => 10,
        BinaryOperator::LogicalAnd => 11,
        BinaryOperator::LogicalOr => 12,
        BinaryOperator::Comma => 15,
        _ => 14,
    }
}

/// The grouping direction of a binary operator: the assignments group
/// right to left, everything else left to right.
pub open spec fn spec_binary_assoc(op: BinaryOperator) -> Associativity {
    if spec_binary_prec(op) == 14 {
        Associativity::RightToLeft
    } else {
        Associativity::LeftToRight
    }
}

impl BinaryOperator {
    /// The precedence of the operator; smaller binds tighter.
    pub fn precedence(&self) -> (r: u32)
        ensures
            r as int == spec_binary_prec(*self),
    {
        match self {
            BinaryOperator::Multiply | BinaryOperator::Divide | BinaryOperator::Modulo => 3,
            BinaryOperator::Add | BinaryOperator::Subtract => 4,
            BinaryOperator::ShiftLeft | BinaryOperator::ShiftRight => 5,
            BinaryOperator::Lt | BinaryOperator::Gt | BinaryOperator::Le | BinaryOperator::Ge
                => 6,
            BinaryOperator::Equal | BinaryOperator::NotEqual => 7,
            BinaryOperator::BitwiseAnd => 8,
            BinaryOperator::BitwiseXor => 9,
            BinaryOperator::BitwiseOr => 10,
            BinaryOperator::LogicalAnd => 11,
            BinaryOperator::LogicalOr => 12,
            BinaryOperator::Comma => 15,
            _ => 14,
        }
    }

    /// The grouping direction of the operator.
    pub fn associativity(&self) -> (r: Associativity)
        ensures
            r == spec_binary_assoc(*self),
    {
        if self.precedence() == 14 {
            Associativity::RightToLeft
        } else {
            Associativity::LeftToRight
        }
    }
}

/// The conditional operator `?:`: a fixed precedence and right-to-left
/// grouping, held as a struct so the node can expose them like the others.
#[derive(Clone, Copy, PartialEq, Eq, Structural, Debug)]
pub struct TernaryOperator;

impl TernaryOperator {
    /// The precedence of the conditional operator.
    pub fn precedence(&self) -> (r: u32)
        ensures
            r == 13,
    {
        13
    }

    /// The conditional operator groups right to left.
    pub fn associativity(&self) -> (r: Associativity)
        ensures
            r == Associativity::RightToLeft,
    {
        Associativity::RightToLeft
    }
}

/// A literal leaf of the tree.
pub enum Literal {
    /// A number constant.
    Number(Number),
    /// A string constant.
    Str(String),
    /// A character constant.
    Char(char),
    /// A name.
    Variable(String),
    /// `true` or `false`.
    ConstantBool(bool),
    /// `nullptr` or `NULL`.
    Nullptr,
}

/// A unary node: the operand may still be missing while the tree grows.
pub struct Unary {
    /// The operator.
    pub op: UnaryOperator,
    /// The operand; `None` is the hole a later token fills.
    pub arg: Option<Box<Ast>>,
}

/// A binary node: the right operand may still be missing.
pub struct Binary {
    /// The operator.
    pub op: BinaryOperator,
    /// The left operand.
    pub lhs: Box<Ast>,
    /// The right operand; `None` is the hole a later token fills.
    pub rhs: Option<Box<Ast>>,
}

/// A conditional node `condition ? success : failure`.
pub struct Ternary {
    /// The conditional operator, for its precedence and associativity.
    pub op: TernaryOperator,
    /// The tree before `?`.
    pub condition: Box<Ast>,
    /// The tree between `?` and `:`; [`Ast::Empty`] while still open.
    pub success: Box<Ast>,
    /// The tree after `:`; `None` before the `:` arrives.
    pub failure: Option<Box<Ast>>,
}

/// A declaration under construction: the modifier keywords seen so far
/// and the declarator they apply to.
pub struct Declaration {
    /// The modifier keywords, in source order.
    pub attrs: Vec<crate::keyword_sort::AttributeKeyword>,
    /// The declarator and initialiser; [`Ast::Empty`] while still open.
    pub inner: Box<Ast>,
}

/// A tree under construction: the rightmost missing operand along the
/// right spine is the hole the next token fills.
pub enum Ast {
    /// A hole: an operand not yet seen.
    Empty,
    /// A literal.
    Leaf(Literal),
    /// A prefix or postfix operator.
    Unary(Unary),
    /// An infix operator.
    Binary(Binary),
    /// The conditional operator.
    Ternary(Ternary),
    /// A parenthesised subtree.
    ParensBlock(Box<Ast>),
    /// A brace-delimited list `{ a, b, c }`.
    ListInitialiser(Vec<Ast>),
    /// A brace-delimited sequence of statements.
    Block(Vec<Ast>),
    /// A declaration: modifier keywords applied to a declarator.
    Declaration(Declaration),
}

/// A literal, over mathematical values.
pub enum LitV {
    /// A number constant.
    Number(Number),
    /// A string constant.
    Str(Seq<char>),
    /// A character constant.
    Char(char),
    /// A name.
    Variable(Seq<char>),
    /// `true` or `false`.
    ConstantBool(bool),
    /// `nullptr` or `NULL`.
    Nullptr,
}

/// The mathematical model of a tree: children are sequences, so a missing
/// operand is an empty sequence.
#[verifier::ext_equal]
pub enum AstV {
    /// A hole.
    Empty,
    /// A literal.
    Leaf(LitV),
    /// A prefix or postfix operator; the sequence holds at most one child.
    Un(UnaryOperator, Seq<AstV>),
    /// An infix operator; the sequence holds the left child and, once
    /// filled, the right one.
    Bin(BinaryOperator, Seq<AstV>),
    /// The conditional; the sequence holds condition, success and, once
    /// filled, failure.
    Ter(Seq<AstV>),
    /// A parenthesised subtree.
    Parens(Seq<AstV>),
    /// A brace-delimited list, modelled by how many elements it holds.
    List(nat),
    /// A brace-delimited sequence of statements, modelled by how many it
    /// holds.
    Blk(nat),
    /// A declaration: the modifiers and, as a one-element sequence, the
    /// declarator.
    Decl(Seq<crate::keyword_sort::AttributeKeyword>, Seq<AstV>),
}

impl Literal {
    /// The model of the literal.
    pub open spec fn view(&self) -> LitV {
        match self {
            Literal::Number(n) => LitV::Number(*n),
            Literal::Str(s) => LitV::Str(s@),
            Literal::Char(c) => LitV::Char(*c),
            Literal::Variable(s) => LitV::Variable(s@),
            Literal::ConstantBool(b) => LitV::ConstantBool(*b),
            Literal::Nullptr => LitV::Nullptr,
        }
    }
}

impl Ast {
    /// The model of the tree.
    pub open spec fn view(&self) -> AstV
        decreases self,
    {
        match self {
            Ast::Empty => AstV::Empty,
            Ast::Leaf(l) => AstV::Leaf(l.view()),
            Ast::Unary(u) => AstV::Un(
                u.op,
                match u.arg {
                    Some(a) => seq![a.view()],
                    None => Seq::empty(),
                },
            ),
            Ast::Binary(b) => AstV::Bin(
                b.op,
                match b.rhs {
                    Some(r) => seq![b.lhs.view(), r.view()],
                    None => seq![b.lhs.view()],
                },
            ),
            Ast::Ternary(t) => AstV::Ter(
                match t.failure {
                    Some(f) => seq![t.condition.view(), t.success.view(), f.view()],
                    None => seq![t.condition.view(), t.success.view()],
                },
            ),
            Ast::ParensBlock(a) => AstV::Parens(seq![a.view()]),
            Ast::ListInitialiser(v) => AstV::List(v@.len()),
            Ast::Block(v) => AstV::Blk(v@.len()),
            Ast::Declaration(d) => AstV::Decl(d.attrs@, seq![d.inner.view()]),
        }
    }
}

/// True iff the tree has no hole on its right spine: every operand a later
/// token could have been waiting for is filled.
pub open spec fn no_hole(a: AstV) -> bool
    decreases a,
{
    match a {
        AstV::Empty => false,
        AstV::Leaf(_) => true,
        AstV::Un(_, args) => args.len() == 1 && no_hole(args[0]),
        AstV::Bin(_, args) => args.len() == 2 && no_hole(args[1]),
        AstV::Ter(args) => args.len() == 3 && no_hole(args[2]),
        AstV::Parens(_) => true,
        AstV::List(_) => true,
        AstV::Blk(_) => true,
        AstV::Decl(_, args) => args.len() == 1 && no_hole(args[0]),
    }
}

} // verus!
