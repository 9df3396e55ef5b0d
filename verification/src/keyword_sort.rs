//! Sorting keywords into the four families the parser reacts to.

use vstd::prelude::*;

use crate::ast::Ast;
use crate::ast::Literal;
use crate::keywords::Keyword;
use crate::push_op::fill_node;
use crate::push_op::spec_fill;
use crate::ast::AstV;
use crate::ast::LitV;
use crate::strutil::push_str;

verus! {

/// A keyword that attaches to a declaration as a modifier.
#[derive(Clone, Copy, PartialEq, Eq, Structural, Debug)]
pub enum AttributeKeyword {
    /// `auto`
    Auto,
    /// `char`
    Char,
    /// `const`
    Const,
    /// `constexpr`
    Constexpr,
    /// `default` outside a switch body
    Default,
    /// `double`
    Double,
    /// `extern`
    Extern,
    /// `float`
    Float,
    /// `inline`
    Inline,
    /// `int`
    Int,
    /// `long`
    Long,
    /// `register`
    Register,
    /// `restrict`
    Restrict,
    /// `short`
    Short,
    /// `signed`
    Signed,
    /// `static`
    Static,
    /// `unsigned`
    Unsigned,
    /// `void`
    Void,
    /// `volatile`
    Volatile,
    /// `alignas` and `_Alignas`
    Alignas,
    /// `bool` and `_Bool`
    Bool,
    /// `thread_local` and `_Thread_local`
    ThreadLocal,
    /// `_Atomic`
    UAtomic,
    /// `_BitInt`
    UBigInt,
    /// `_Complex`
    UComplex,
    /// `_Decimal128`
    UDecimal128,
    /// `_Decimal32`
    UDecimal32,
    /// `_Decimal64`
    UDecimal64,
    /// `_Generic`
    UGeneric,
    /// `_Imaginary`
    UImaginary,
    /// `_Noreturn`
    UNoreturn,
}

/// A keyword that drives its own statement machine.
#[derive(Clone, Copy, PartialEq, Eq, Structural, Debug)]
pub enum ControlFlowKeyword {
    /// `break`
    Break,
    /// `case`
    Case,
    /// `continue`
    Continue,
    /// `default` inside a switch body
    Default,
    /// `do`
    Do,
    /// `else`
    Else,
    /// `enum`
    Enum,
    /// `for`
    For,
    /// `goto`
    Goto,
    /// `if`
    If,
    /// `return`
    Return,
    /// `struct`
    Struct,
    /// `switch`
    Switch,
    /// `typedef`
    Typedef,
    /// `union`
    Union,
    /// `while`
    While,
}

/// A keyword used like a function, expecting parentheses.
#[derive(Clone, Copy, PartialEq, Eq, Structural, Debug)]
pub enum FunctionKeyword {
    /// `alignof` and `_Alignof`
    Alignof,
    /// `sizeof`
    Sizeof,
    /// `static_assert` and `_Static_assert`
    StaticAssert,
    /// `typeof`
    Typeof,
    /// `typeof_unqual`
    TypeofUnqual,
}

/// The four families a keyword sorts into, with the boolean constants and
/// the null pointer pulled out as literals.
#[derive(Clone, Copy, PartialEq, Eq, Structural, Debug)]
pub enum KeywordParsing {
    /// A declaration modifier.
    Attr(AttributeKeyword),
    /// A statement keyword.
    CtrlFlow(ControlFlowKeyword),
    /// The constant `false`.
    False,
    /// A function-like keyword.
    Func(FunctionKeyword),
    /// `nullptr` or `NULL`.
    Nullptr,
    /// The constant `true`.
    True,
}

/// The family of a keyword; `default` is a statement keyword exactly when a
/// switch body is open.
pub open spec fn spec_sort_keyword(keyword: Keyword, case_context: bool) -> KeywordParsing {
    match keyword {
        Keyword::True => KeywordParsing::True,
        Keyword::False => KeywordParsing::False,
        Keyword::Null | Keyword::Nullptr => KeywordParsing::Nullptr,
        Keyword::Sizeof => KeywordParsing::Func(FunctionKeyword::Sizeof),
        Keyword::Typeof => KeywordParsing::Func(FunctionKeyword::Typeof),
        Keyword::TypeofUnqual => KeywordParsing::Func(FunctionKeyword::TypeofUnqual),
        Keyword::Alignof | Keyword::UAlignof => KeywordParsing::Func(FunctionKeyword::Alignof),
        Keyword::StaticAssert | Keyword::UStaticAssert => KeywordParsing::Func(
            FunctionKeyword::StaticAssert,
        ),
        Keyword::Do => KeywordParsing::CtrlFlow(ControlFlowKeyword::Do),
        Keyword::If => KeywordParsing::CtrlFlow(ControlFlowKeyword::If),
        Keyword::For => KeywordParsing::CtrlFlow(ControlFlowKeyword::For),
        Keyword::Case => KeywordParsing::CtrlFlow(ControlFlowKeyword::Case),
        Keyword::Else => KeywordParsing::CtrlFlow(ControlFlowKeyword::Else),
        Keyword::Goto => KeywordParsing::CtrlFlow(ControlFlowKeyword::Goto),
        Keyword::While => KeywordParsing::CtrlFlow(ControlFlowKeyword::While),
        Keyword::Break => KeywordParsing::CtrlFlow(ControlFlowKeyword::Break),
        Keyword::Return => KeywordParsing::CtrlFlow(ControlFlowKeyword::Return),
        Keyword::Switch => KeywordParsing::CtrlFlow(ControlFlowKeyword::Switch),
        Keyword::Continue => KeywordParsing::CtrlFlow(ControlFlowKeyword::Continue),
        Keyword::Default => if case_context {
            KeywordParsing::CtrlFlow(ControlFlowKeyword::Default)
        } else {
            KeywordParsing::Attr(AttributeKeyword::Default)
        },
        Keyword::Enum => KeywordParsing::CtrlFlow(ControlFlowKeyword::Enum),
        Keyword::Union => KeywordParsing::CtrlFlow(ControlFlowKeyword::Union),
        Keyword::Struct => KeywordParsing::CtrlFlow(ControlFlowKeyword::Struct),
        Keyword::Typedef => KeywordParsing::CtrlFlow(ControlFlowKeyword::Typedef),
        Keyword::Int => KeywordParsing::Attr(AttributeKeyword::Int),
        Keyword::Long => KeywordParsing::Attr(AttributeKeyword::Long),
        Keyword::Auto => KeywordParsing::Attr(AttributeKeyword::Auto),
        Keyword::Char => KeywordParsing::Attr(AttributeKeyword::Char),
        Keyword::Void => KeywordParsing::Attr(AttributeKeyword::Void),
        Keyword::Short => KeywordParsing::Attr(AttributeKeyword::Short),
        Keyword::Float => KeywordParsing::Attr(AttributeKeyword::Float),
        Keyword::Const => KeywordParsing::Attr(AttributeKeyword::Const),
        Keyword::Inline => KeywordParsing::Attr(AttributeKeyword::Inline),
        Keyword::Double => KeywordParsing::Attr(AttributeKeyword::Double),
        Keyword::Signed => KeywordParsing::Attr(AttributeKeyword::Signed),
        Keyword::Extern => KeywordParsing::Attr(AttributeKeyword::Extern),
        Keyword::Static => KeywordParsing::Attr(AttributeKeyword::Static),
        Keyword::UAtomic => KeywordParsing::Attr(AttributeKeyword::UAtomic),
        Keyword::UBigInt => KeywordParsing::Attr(AttributeKeyword::UBigInt),
        Keyword::Unsigned => KeywordParsing::Attr(AttributeKeyword::Unsigned),
        Keyword::Register => KeywordParsing::Attr(AttributeKeyword::Register),
        Keyword::Restrict => KeywordParsing::Attr(AttributeKeyword::Restrict),
        Keyword::Volatile => KeywordParsing::Attr(AttributeKeyword::Volatile),
        Keyword::UComplex => KeywordParsing::Attr(AttributeKeyword::UComplex),
        Keyword::UGeneric => KeywordParsing::Attr(AttributeKeyword::UGeneric),
        Keyword::UNoreturn => KeywordParsing::Attr(AttributeKeyword::UNoreturn),
        Keyword::Constexpr => KeywordParsing::Attr(AttributeKeyword::Constexpr),
        Keyword::UDecimal64 => KeywordParsing::Attr(AttributeKeyword::UDecimal64),
        Keyword::UImaginary => KeywordParsing::Attr(AttributeKeyword::UImaginary),
        Keyword::UDecimal32 => KeywordParsing::Attr(AttributeKeyword::UDecimal32),
        Keyword::UDecimal128 => KeywordParsing::Attr(AttributeKeyword::UDecimal128),
        Keyword::Alignas | Keyword::UAlignas => KeywordParsing::Attr(AttributeKeyword::Alignas),
        Keyword::Bool | Keyword::UBool => KeywordParsing::Attr(AttributeKeyword::Bool),
        Keyword::ThreadLocal | Keyword::UThreadLocal => KeywordParsing::Attr(
            AttributeKeyword::ThreadLocal,
        ),
    }
}

impl KeywordParsing {
    /// Sorts a keyword into its family; `case_context` says whether a
    /// switch body is open, where `default` is a label rather than an
    /// attribute.
    pub fn from_keyword(keyword: Keyword, case_context: bool) -> (r: KeywordParsing)
        ensures
            r == spec_sort_keyword(keyword, case_context),
    {
        match keyword {
            Keyword::True => KeywordParsing::True,
            Keyword::False => KeywordParsing::False,
            Keyword::Null | Keyword::Nullptr => KeywordParsing::Nullptr,
            Keyword::Sizeof => KeywordParsing::Func(FunctionKeyword::Sizeof),
            Keyword::Typeof => KeywordParsing::Func(FunctionKeyword::Typeof),
            Keyword::TypeofUnqual => KeywordParsing::Func(FunctionKeyword::TypeofUnqual),
            Keyword::Alignof | Keyword::UAlignof => KeywordParsing::Func(FunctionKeyword::Alignof),
            Keyword::StaticAssert | Keyword::UStaticAssert => KeywordParsing::Func(
                FunctionKeyword::StaticAssert,
            ),
            Keyword::Do => KeywordParsing::CtrlFlow(ControlFlowKeyword::Do),
            Keyword::If => KeywordParsing::CtrlFlow(ControlFlowKeyword::If),
            Keyword::For => KeywordParsing::CtrlFlow(ControlFlowKeyword::For),
            Keyword::Case => KeywordParsing::CtrlFlow(ControlFlowKeyword::Case),
            Keyword::Else => KeywordParsing::CtrlFlow(ControlFlowKeyword::Else),
            Keyword::Goto => KeywordParsing::CtrlFlow(ControlFlowKeyword::Goto),
            Keyword::While => KeywordParsing::CtrlFlow(ControlFlowKeyword::While),
            Keyword::Break => KeywordParsing::CtrlFlow(ControlFlowKeyword::Break),
            Keyword::Return => KeywordParsing::CtrlFlow(ControlFlowKeyword::Return),
            Keyword::Switch => KeywordParsing::CtrlFlow(ControlFlowKeyword::Switch),
            Keyword::Continue => KeywordParsing::CtrlFlow(ControlFlowKeyword::Continue),
            Keyword::Default => {
                if case_context {
                    KeywordParsing::CtrlFlow(ControlFlowKeyword::Default)
                } else {
                    KeywordParsing::Attr(AttributeKeyword::Default)
                }
            },
            Keyword::Enum => KeywordParsing::CtrlFlow(ControlFlowKeyword::Enum),
            Keyword::Union => KeywordParsing::CtrlFlow(ControlFlowKeyword::Union),
            Keyword::Struct => KeywordParsing::CtrlFlow(ControlFlowKeyword::Struct),
            Keyword::Typedef => KeywordParsing::CtrlFlow(ControlFlowKeyword::Typedef),
            Keyword::Int => KeywordParsing::Attr(AttributeKeyword::Int),
            Keyword::Long => KeywordParsing::Attr(AttributeKeyword::Long),
            Keyword::Auto => KeywordParsing::Attr(AttributeKeyword::Auto),
            Keyword::Char => KeywordParsing::Attr(AttributeKeyword::Char),
            Keyword::Void => KeywordParsing::Attr(AttributeKeyword::Void),
            Keyword::Short => KeywordParsing::Attr(AttributeKeyword::Short),
            Keyword::Float => KeywordParsing::Attr(AttributeKeyword::Float),
            Keyword::Const => KeywordParsing::Attr(AttributeKeyword::Const),
            Keyword::Inline => KeywordParsing::Attr(AttributeKeyword::Inline),
            Keyword::Double => KeywordParsing::Attr(AttributeKeyword::Double),
            Keyword::Signed => KeywordParsing::Attr(AttributeKeyword::Signed),
            Keyword::Extern => KeywordParsing::Attr(AttributeKeyword::Extern),
            Keyword::Static => KeywordParsing::Attr(AttributeKeyword::Static),
            Keyword::UAtomic => KeywordParsing::Attr(AttributeKeyword::UAtomic),
            Keyword::UBigInt => KeywordParsing::Attr(AttributeKeyword::UBigInt),
            Keyword::Unsigned => KeywordParsing::Attr(AttributeKeyword::Unsigned),
            Keyword::Register => KeywordParsing::Attr(AttributeKeyword::Register),
            Keyword::Restrict => KeywordParsing::Attr(AttributeKeyword::Restrict),
            Keyword::Volatile => KeywordParsing::Attr(AttributeKeyword::Volatile),
            Keyword::UComplex => KeywordParsing::Attr(AttributeKeyword::UComplex),
            Keyword::UGeneric => KeywordParsing::Attr(AttributeKeyword::UGeneric),
            Keyword::UNoreturn => KeywordParsing::Attr(AttributeKeyword::UNoreturn),
            Keyword::Constexpr => KeywordParsing::Attr(AttributeKeyword::Constexpr),
            Keyword::UDecimal64 => KeywordParsing::Attr(AttributeKeyword::UDecimal64),
            Keyword::UImaginary => KeywordParsing::Attr(AttributeKeyword::UImaginary),
            Keyword::UDecimal32 => KeywordParsing::Attr(AttributeKeyword::UDecimal32),
            Keyword::UDecimal128 => KeywordParsing::Attr(AttributeKeyword::UDecimal128),
            Keyword::Alignas | Keyword::UAlignas => KeywordParsing::Attr(AttributeKeyword::Alignas),
            Keyword::Bool | Keyword::UBool => KeywordParsing::Attr(AttributeKeyword::Bool),
            Keyword::ThreadLocal | Keyword::UThreadLocal => KeywordParsing::Attr(
                AttributeKeyword::ThreadLocal,
            ),
        }
    }
}

/// Pushing a sorted keyword into the tree under construction.
pub trait PushInNode {
    /// Pushes the keyword into the current tree: the literal keywords fill
    /// the current hole; a keyword the expression engine does not support
    /// comes back as an error message.
    fn push_in_node(self, node: &mut Ast) -> (r: Result<(), String>);
}

impl PushInNode for KeywordParsing {
    /// The literal keywords fill the current hole; an attribute keyword
    /// opens a declaration, or joins the modifiers of one whose declarator
    /// has not started. The control-flow and function keywords drive
    /// statement machines the expression engine does not build: they are
    /// reported to the caller as an error.
    fn push_in_node(self, node: &mut Ast) -> (r: Result<(), String>)
        ensures
            self is True ==> (spec_fill(old(node).view(), AstV::Leaf(LitV::ConstantBool(true)))
                matches Some(n) ==> (r is Ok && final(node).view() == n)),
            self is False ==> (spec_fill(old(node).view(), AstV::Leaf(LitV::ConstantBool(false)))
                matches Some(n) ==> (r is Ok && final(node).view() == n)),
            self is Nullptr ==> (spec_fill(old(node).view(), AstV::Leaf(LitV::Nullptr)) matches
                Some(n) ==> (r is Ok && final(node).view() == n)),
            self matches KeywordParsing::Attr(a) ==> ({
                &&& (*old(node) is Empty ==> (r is Ok && final(node).view() == AstV::Decl(
                    seq![a],
                    seq![AstV::Empty],
                )))
                &&& ((*old(node) matches Ast::Declaration(d) && *d.inner is Empty) ==> (r is Ok
                    && final(node).view() == AstV::Decl(
                    (*old(node))->Declaration_0.attrs@.push(a),
                    seq![AstV::Empty],
                )))
                &&& (!(*old(node) is Empty || (*old(node) matches Ast::Declaration(d2)
                    && *d2.inner is Empty)) ==> (r is Err && *final(node) == *old(node)))
            }),
            self is CtrlFlow || self is Func ==> (r is Err && *final(node) == *old(node)),
    {
        let leaf = match self {
            KeywordParsing::True => Literal::ConstantBool(true),
            KeywordParsing::False => Literal::ConstantBool(false),
            KeywordParsing::Nullptr => Literal::Nullptr,
            KeywordParsing::Attr(a) => {
                let mut tmp = Ast::Empty;
                core::mem::swap(node, &mut tmp);
                match tmp {
                    Ast::Empty => {
                        let mut attrs: Vec<AttributeKeyword> = Vec::new();
                        attrs.push(a);
                        proof {
                            assert(attrs@ =~= seq![a]);
                        }
                        *node = Ast::Declaration(
                            crate::ast::Declaration { attrs, inner: Box::new(Ast::Empty) },
                        );
                        return Ok(());
                    },
                    Ast::Declaration(d) => {
                        let crate::ast::Declaration { mut attrs, inner } = d;
                        let open = match &*inner {
                            Ast::Empty => true,
                            _ => false,
                        };
                        if open {
                            attrs.push(a);
                            *node = Ast::Declaration(
                                crate::ast::Declaration { attrs, inner },
                            );
                            return Ok(());
                        }
                        *node = Ast::Declaration(crate::ast::Declaration { attrs, inner });
                        let mut msg = String::new();
                        push_str(&mut msg, "unexpected keyword in an expression");
                        return Err(msg);
                    },
                    other => {
                        *node = other;
                        let mut msg = String::new();
                        push_str(&mut msg, "unexpected keyword in an expression");
                        return Err(msg);
                    },
                }
            },
            _ => {
                let mut msg = String::new();
                push_str(&mut msg, "unexpected keyword in an expression");
                return Err(msg);
            },
        };
        let mut tmp = Ast::Empty;
        core::mem::swap(node, &mut tmp);
        match fill_node(tmp, Ast::Leaf(leaf)) {
            Ok(n) => {
                *node = n;
                Ok(())
            },
            Err(n) => {
                *node = n;
                let mut msg = String::new();
                push_str(&mut msg, "no operand expected here");
                Err(msg)
            },
        }
    }
}

} // verus!
