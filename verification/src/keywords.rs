//! The closed set of C keywords the lexer recognises, a C23 superset.

use vstd::prelude::*;

use crate::strutil::str_eq;

verus! {

/// A C keyword.
///
/// The variants starting with `U` are the underscore spellings; the five of
/// them that C23 deprecates in favour of plain spellings are translated by
/// the lexer and never appear in its output.
#[derive(Clone, Copy, PartialEq, Eq, Structural, Debug)]
pub enum Keyword {
    /// `auto`
    Auto,
    /// `break`
    Break,
    /// `case`
    Case,
    /// `char`
    Char,
    /// `const`
    Const,
    /// `constexpr`
    Constexpr,
    /// `continue`
    Continue,
    /// `default`
    Default,
    /// `do`
    Do,
    /// `double`
    Double,
    /// `else`
    Else,
    /// `enum`
    Enum,
    /// `extern`
    Extern,
    /// `false`
    False,
    /// `float`
    Float,
    /// `for`
    For,
    /// `goto`
    Goto,
    /// `if`
    If,
    /// `inline`
    Inline,
    /// `int`
    Int,
    /// `long`
    Long,
    /// `NULL`
    Null,
    /// `nullptr`
    Nullptr,
    /// `register`
    Register,
    /// `restrict`
    Restrict,
    /// `return`
    Return,
    /// `short`
    Short,
    /// `signed`
    Signed,
    /// `sizeof`
    Sizeof,
    /// `static`
    Static,
    /// `static_assert`
    StaticAssert,
    /// `struct`
    Struct,
    /// `switch`
    Switch,
    /// `thread_local`
    ThreadLocal,
    /// `true`
    True,
    /// `typedef`
    Typedef,
    /// `typeof`
    Typeof,
    /// `typeof_unqual`
    TypeofUnqual,
    /// `union`
    Union,
    /// `unsigned`
    Unsigned,
    /// `void`
    Void,
    /// `volatile`
    Volatile,
    /// `while`
    While,
    /// `alignas`
    Alignas,
    /// `alignof`
    Alignof,
    /// `bool`
    Bool,
    /// `_Atomic`
    UAtomic,
    /// `_BitInt`
    UBigInt,
    /// `_Complex`
    UComplex,
    /// `_Decimal128`
    UDecimal128,
    /// `_Decimal32`
    UDecimal32,
    /// `_Decimal64`
    UDecimal64,
    /// `_Generic`
    UGeneric,
    /// `_Imaginary`
    UImaginary,
    /// `_Noreturn`
    UNoreturn,
    /// `_Alignas`
    UAlignas,
    /// `_Alignof`
    UAlignof,
    /// `_Bool`
    UBool,
    /// `_Static_assert`
    UStaticAssert,
    /// `_Thread_local`
    UThreadLocal,
}

/// The source spelling of a keyword.
pub open spec fn spec_keyword_text(k: Keyword) -> Seq<char> {
    match k {
        Keyword::Auto => "auto"@,
        Keyword::Break => "break"@,
        Keyword::Case => "case"@,
        Keyword::Char => "char"@,
        Keyword::Const => "const"@,
        Keyword::Constexpr => "constexpr"@,
        Keyword::Continue => "continue"@,
        Keyword::Default => "default"@,
        Keyword::Do => "do"@,
        Keyword::Double => "double"@,
        Keyword::Else => "else"@,
        Keyword::Enum => "enum"@,
        Keyword::Extern => "extern"@,
        Keyword::False => "false"@,
        Keyword::Float => "float"@,
        Keyword::For => "for"@,
        Keyword::Goto => "goto"@,
        Keyword::If => "if"@,
        Keyword::Inline => "inline"@,
        Keyword::Int => "int"@,
        Keyword::Long => "long"@,
        Keyword::Null => "NULL"@,
        Keyword::Nullptr => "nullptr"@,
        Keyword::Register => "register"@,
        Keyword::Restrict => "restrict"@,
        Keyword::Return => "return"@,
        Keyword::Short => "short"@,
        Keyword::Signed => "signed"@,
        Keyword::Sizeof => "sizeof"@,
        Keyword::Static => "static"@,
        Keyword::StaticAssert => "static_assert"@,
        Keyword::Struct => "struct"@,
        Keyword::Switch => "switch"@,
        Keyword::ThreadLocal => "thread_local"@,
        Keyword::True => "true"@,
        Keyword::Typedef => "typedef"@,
        Keyword::Typeof => "typeof"@,
        Keyword::TypeofUnqual => "typeof_unqual"@,
        Keyword::Union => "union"@,
        Keyword::Unsigned => "unsigned"@,
        Keyword::Void => "void"@,
        Keyword::Volatile => "volatile"@,
        Keyword::While => "while"@,
        Keyword::Alignas => "alignas"@,
        Keyword::Alignof => "alignof"@,
        Keyword::Bool => "bool"@,
        Keyword::UAtomic => "_Atomic"@,
        Keyword::UBigInt => "_BitInt"@,
        Keyword::UComplex => "_Complex"@,
        Keyword::UDecimal128 => "_Decimal128"@,
        Keyword::UDecimal32 => "_Decimal32"@,
        Keyword::UDecimal64 => "_Decimal64"@,
        Keyword::UGeneric => "_Generic"@,
        Keyword::UImaginary => "_Imaginary"@,
        Keyword::UNoreturn => "_Noreturn"@,
        Keyword::UAlignas => "_Alignas"@,
        Keyword::UAlignof => "_Alignof"@,
        Keyword::UBool => "_Bool"@,
        Keyword::UStaticAssert => "_Static_assert"@,
        Keyword::UThreadLocal => "_Thread_local"@,
    }
}

impl Keyword {
    /// The source spelling of the keyword.
    pub fn text(&self) -> (r: &'static str)
        ensures
            r@ == spec_keyword_text(*self),
    {
        match self {
        Keyword::Auto => "auto",
        Keyword::Break => "break",
        Keyword::Case => "case",
        Keyword::Char => "char",
        Keyword::Const => "const",
        Keyword::Constexpr => "constexpr",
        Keyword::Continue => "continue",
        Keyword::Default => "default",
        Keyword::Do => "do",
        Keyword::Double => "double",
        Keyword::Else => "else",
        Keyword::Enum => "enum",
        Keyword::Extern => "extern",
        Keyword::False => "false",
        Keyword::Float => "float",
        Keyword::For => "for",
        Keyword::Goto => "goto",
        Keyword::If => "if",
        Keyword::Inline => "inline",
        Keyword::Int => "int",
        Keyword::Long => "long",
        Keyword::Null => "NULL",
        Keyword::Nullptr => "nullptr",
        Keyword::Register => "register",
        Keyword::Restrict => "restrict",
        Keyword::Return => "return",
        Keyword::Short => "short",
        Keyword::Signed => "signed",
        Keyword::Sizeof => "sizeof",
        Keyword::Static => "static",
        Keyword::StaticAssert => "static_assert",
        Keyword::Struct => "struct",
        Keyword::Switch => "switch",
        Keyword::ThreadLocal => "thread_local",
        Keyword::True => "true",
        Keyword::Typedef => "typedef",
        Keyword::Typeof => "typeof",
        Keyword::TypeofUnqual => "typeof_unqual",
        Keyword::Union => "union",
        Keyword::Unsigned => "unsigned",
        Keyword::Void => "void",
        Keyword::Volatile => "volatile",
        Keyword::While => "while",
        Keyword::Alignas => "alignas",
        Keyword::Alignof => "alignof",
        Keyword::Bool => "bool",
        Keyword::UAtomic => "_Atomic",
        Keyword::UBigInt => "_BitInt",
        Keyword::UComplex => "_Complex",
        Keyword::UDecimal128 => "_Decimal128",
        Keyword::UDecimal32 => "_Decimal32",
        Keyword::UDecimal64 => "_Decimal64",
        Keyword::UGeneric => "_Generic",
        Keyword::UImaginary => "_Imaginary",
        Keyword::UNoreturn => "_Noreturn",
        Keyword::UAlignas => "_Alignas",
        Keyword::UAlignof => "_Alignof",
        Keyword::UBool => "_Bool",
        Keyword::UStaticAssert => "_Static_assert",
        Keyword::UThreadLocal => "_Thread_local",
        }
    }
}

/// Result of looking an identifier up in the keyword table.
#[derive(Clone, Copy, PartialEq, Eq, Structural, Debug)]
pub enum TryKeyword {
    /// The identifier is this keyword.
    Success(Keyword),
    /// The identifier is a deprecated spelling of this keyword.
    Deprecated(Keyword),
    /// The identifier is no keyword.
    Failure,
}

/// The keyword an identifier names: the deprecated underscore spellings map
/// to their C23 replacements.
pub open spec fn spec_keyword_of(s: Seq<char>) -> TryKeyword {
    if s == "auto"@ {
        TryKeyword::Success(Keyword::Auto)
    } else if s == "break"@ {
        TryKeyword::Success(Keyword::Break)
    } else if s == "case"@ {
        TryKeyword::Success(Keyword::Case)
    } else if s == "char"@ {
        TryKeyword::Success(Keyword::Char)
    } else if s == "const"@ {
        TryKeyword::Success(Keyword::Const)
    } else if s == "constexpr"@ {
        TryKeyword::Success(Keyword::Constexpr)
    } else if s == "continue"@ {
        TryKeyword::Success(Keyword::Continue)
    } else if s == "default"@ {
        TryKeyword::Success(Keyword::Default)
    } else if s == "do"@ {
        TryKeyword::Success(Keyword::Do)
    } else if s == "double"@ {
        TryKeyword::Success(Keyword::Double)
    } else if s == "else"@ {
        TryKeyword::Success(Keyword::Else)
    } else if s == "enum"@ {
        TryKeyword::Success(Keyword::Enum)
    } else if s == "extern"@ {
        TryKeyword::Success(Keyword::Extern)
    } else if s == "false"@ {
        TryKeyword::Success(Keyword::False)
    } else if s == "float"@ {
        TryKeyword::Success(Keyword::Float)
    } else if s == "for"@ {
        TryKeyword::Success(Keyword::For)
    } else if s == "goto"@ {
        TryKeyword::Success(Keyword::Goto)
    } else if s == "if"@ {
        TryKeyword::Success(Keyword::If)
    } else if s == "inline"@ {
        TryKeyword::Success(Keyword::Inline)
    } else if s == "int"@ {
        TryKeyword::Success(Keyword::Int)
    } else if s == "long"@ {
        TryKeyword::Success(Keyword::Long)
    } else if s == "NULL"@ {
        TryKeyword::Success(Keyword::Null)
    } else if s == "nullptr"@ {
        TryKeyword::Success(Keyword::Nullptr)
    } else if s == "register"@ {
        TryKeyword::Success(Keyword::Register)
    } else if s == "restrict"@ {
        TryKeyword::Success(Keyword::Restrict)
    } else if s == "return"@ {
        TryKeyword::Success(Keyword::Return)
    } else if s == "short"@ {
        TryKeyword::Success(Keyword::Short)
    } else if s == "signed"@ {
        TryKeyword::Success(Keyword::Signed)
    } else if s == "sizeof"@ {
        TryKeyword::Success(Keyword::Sizeof)
    } else if s == "static"@ {
        TryKeyword::Success(Keyword::Static)
    } else if s == "static_assert"@ {
        TryKeyword::Success(Keyword::StaticAssert)
    } else if s == "struct"@ {
        TryKeyword::Success(Keyword::Struct)
    } else if s == "switch"@ {
        TryKeyword::Success(Keyword::Switch)
    } else if s == "thread_local"@ {
        TryKeyword::Success(Keyword::ThreadLocal)
    } else if s == "true"@ {
        TryKeyword::Success(Keyword::True)
    } else if s == "typedef"@ {
        TryKeyword::Success(Keyword::Typedef)
    } else if s == "typeof"@ {
        TryKeyword::Success(Keyword::Typeof)
    } else if s == "typeof_unqual"@ {
        TryKeyword::Success(Keyword::TypeofUnqual)
    } else if s == "union"@ {
        TryKeyword::Success(Keyword::Union)
    } else if s == "unsigned"@ {
        TryKeyword::Success(Keyword::Unsigned)
    } else if s == "void"@ {
        TryKeyword::Success(Keyword::Void)
    } else if s == "volatile"@ {
        TryKeyword::Success(Keyword::Volatile)
    } else if s == "while"@ {
        TryKeyword::Success(Keyword::While)
    } else if s == "alignas"@ {
        TryKeyword::Success(Keyword::Alignas)
    } else if s == "alignof"@ {
        TryKeyword::Success(Keyword::Alignof)
    } else if s == "bool"@ {
        TryKeyword::Success(Keyword::Bool)
    } else if s == "_Atomic"@ {
        TryKeyword::Success(Keyword::UAtomic)
    } else if s == "_BitInt"@ {
        TryKeyword::Success(Keyword::UBigInt)
    } else if s == "_Complex"@ {
        TryKeyword::Success(Keyword::UComplex)
    } else if s == "_Decimal128"@ {
        TryKeyword::Success(Keyword::UDecimal128)
    } else if s == "_Decimal32"@ {
        TryKeyword::Success(Keyword::UDecimal32)
    } else if s == "_Decimal64"@ {
        TryKeyword::Success(Keyword::UDecimal64)
    } else if s == "_Generic"@ {
        TryKeyword::Success(Keyword::UGeneric)
    } else if s == "_Imaginary"@ {
        TryKeyword::Success(Keyword::UImaginary)
    } else if s == "_Noreturn"@ {
        TryKeyword::Success(Keyword::UNoreturn)
    } else if s == "_Alignas"@ {
        TryKeyword::Deprecated(Keyword::Alignas)
    } else if s == "_Alignof"@ {
        TryKeyword::Deprecated(Keyword::Alignof)
    } else if s == "_Bool"@ {
        TryKeyword::Deprecated(Keyword::Bool)
    } else if s == "_Static_assert"@ {
        TryKeyword::Deprecated(Keyword::StaticAssert)
    } else if s == "_Thread_local"@ {
        TryKeyword::Deprecated(Keyword::ThreadLocal)
    } else {
        TryKeyword::Failure
    }
}

/// Looks an identifier up in the keyword table.
pub fn keyword_of(s: &str) -> (r: TryKeyword)
    ensures
        r == spec_keyword_of(s@),
{
    if str_eq(s, "auto") {
        TryKeyword::Success(Keyword::Auto)
    } else if str_eq(s, "break") {
        TryKeyword::Success(Keyword::Break)
    } else if str_eq(s, "case") {
        TryKeyword::Success(Keyword::Case)
    } else if str_eq(s, "char") {
        TryKeyword::Success(Keyword::Char)
    } else if str_eq(s, "const") {
        TryKeyword::Success(Keyword::Const)
    } else if str_eq(s, "constexpr") {
        TryKeyword::Success(Keyword::Constexpr)
    } else if str_eq(s, "continue") {
        TryKeyword::Success(Keyword::Continue)
    } else if str_eq(s, "default") {
        TryKeyword::Success(Keyword::Default)
    } else if str_eq(s, "do") {
        TryKeyword::Success(Keyword::Do)
    } else if str_eq(s, "double") {
        TryKeyword::Success(Keyword::Double)
    } else if str_eq(s, "else") {
        TryKeyword::Success(Keyword::Else)
    } else if str_eq(s, "enum") {
        TryKeyword::Success(Keyword::Enum)
    } else if str_eq(s, "extern") {
        TryKeyword::Success(Keyword::Extern)
    } else if str_eq(s, "false") {
        TryKeyword::Success(Keyword::False)
    } else if str_eq(s, "float") {
        TryKeyword::Success(Keyword::Float)
    } else if str_eq(s, "for") {
        TryKeyword::Success(Keyword::For)
    } else if str_eq(s, "goto") {
        TryKeyword::Success(Keyword::Goto)
    } else if str_eq(s, "if") {
        TryKeyword::Success(Keyword::If)
    } else if str_eq(s, "inline") {
        TryKeyword::Success(Keyword::Inline)
    } else if str_eq(s, "int") {
        TryKeyword::Success(Keyword::Int)
    } else if str_eq(s, "long") {
        TryKeyword::Success(Keyword::Long)
    } else if str_eq(s, "NULL") {
        TryKeyword::Success(Keyword::Null)
    } else if str_eq(s, "nullptr") {
        TryKeyword::Success(Keyword::Nullptr)
    } else if str_eq(s, "register") {
        TryKeyword::Success(Keyword::Register)
    } else if str_eq(s, "restrict") {
        TryKeyword::Success(Keyword::Restrict)
    } else if str_eq(s, "return") {
        TryKeyword::Success(Keyword::Return)
    } else if str_eq(s, "short") {
        TryKeyword::Success(Keyword::Short)
    } else if str_eq(s, "signed") {
        TryKeyword::Success(Keyword::Signed)
    } else if str_eq(s, "sizeof") {
        TryKeyword::Success(Keyword::Sizeof)
    } else if str_eq(s, "static") {
        TryKeyword::Success(Keyword::Static)
    } else if str_eq(s, "static_assert") {
        TryKeyword::Success(Keyword::StaticAssert)
    } else if str_eq(s, "struct") {
        TryKeyword::Success(Keyword::Struct)
    } else if str_eq(s, "switch") {
        TryKeyword::Success(Keyword::Switch)
    } else if str_eq(s, "thread_local") {
        TryKeyword::Success(Keyword::ThreadLocal)
    } else if str_eq(s, "true") {
        TryKeyword::Success(Keyword::True)
    } else if str_eq(s, "typedef") {
        TryKeyword::Success(Keyword::Typedef)
    } else if str_eq(s, "typeof") {
        TryKeyword::Success(Keyword::Typeof)
    } else if str_eq(s, "typeof_unqual") {
        TryKeyword::Success(Keyword::TypeofUnqual)
    } else if str_eq(s, "union") {
        TryKeyword::Success(Keyword::Union)
    } else if str_eq(s, "unsigned") {
        TryKeyword::Success(Keyword::Unsigned)
    } else if str_eq(s, "void") {
        TryKeyword::Success(Keyword::Void)
    } else if str_eq(s, "volatile") {
        TryKeyword::Success(Keyword::Volatile)
    } else if str_eq(s, "while") {
        TryKeyword::Success(Keyword::While)
    } else if str_eq(s, "alignas") {
        TryKeyword::Success(Keyword::Alignas)
    } else if str_eq(s, "alignof") {
        TryKeyword::Success(Keyword::Alignof)
    } else if str_eq(s, "bool") {
        TryKeyword::Success(Keyword::Bool)
    } else if str_eq(s, "_Atomic") {
        TryKeyword::Success(Keyword::UAtomic)
    } else if str_eq(s, "_BitInt") {
        TryKeyword::Success(Keyword::UBigInt)
    } else if str_eq(s, "_Complex") {
        TryKeyword::Success(Keyword::UComplex)
    } else if str_eq(s, "_Decimal128") {
        TryKeyword::Success(Keyword::UDecimal128)
    } else if str_eq(s, "_Decimal32") {
        TryKeyword::Success(Keyword::UDecimal32)
    } else if str_eq(s, "_Decimal64") {
        TryKeyword::Success(Keyword::UDecimal64)
    } else if str_eq(s, "_Generic") {
        TryKeyword::Success(Keyword::UGeneric)
    } else if str_eq(s, "_Imaginary") {
        TryKeyword::Success(Keyword::UImaginary)
    } else if str_eq(s, "_Noreturn") {
        TryKeyword::Success(Keyword::UNoreturn)
    } else if str_eq(s, "_Alignas") {
        TryKeyword::Deprecated(Keyword::Alignas)
    } else if str_eq(s, "_Alignof") {
        TryKeyword::Deprecated(Keyword::Alignof)
    } else if str_eq(s, "_Bool") {
        TryKeyword::Deprecated(Keyword::Bool)
    } else if str_eq(s, "_Static_assert") {
        TryKeyword::Deprecated(Keyword::StaticAssert)
    } else if str_eq(s, "_Thread_local") {
        TryKeyword::Deprecated(Keyword::ThreadLocal)
    } else {
        TryKeyword::Failure
    }
}

} // verus!
