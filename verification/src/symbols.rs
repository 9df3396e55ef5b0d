//! The punctuation operators of C and the greedy buffer that groups
//! operator characters into multi-character symbols.

use vstd::prelude::*;

verus! {

/// A punctuation operator, with a canonical spelling of one to three
/// characters.
#[derive(Clone, Copy, PartialEq, Eq, Structural, Debug)]
pub enum Symbol {
    /// `(`
    LeftParenthesis,
    /// `)`
    RightParenthesis,
    /// `[`
    LeftBracket,
    /// `]`
    RightBracket,
    /// `{`
    LeftBrace,
    /// `}`
    RightBrace,
    /// `~`
    BitwiseNot,
    /// `!`
    LogicalNot,
    /// `*`
    Star,
    /// `&`
    Ampersand,
    /// `%`
    Modulo,
    /// `/`
    Divide,
    /// `>`
    Gt,
    /// `<`
    Lt,
    /// `=`
    Assign,
    /// `|`
    BitwiseOr,
    /// `^`
    BitwiseXor,
    /// `,`
    Comma,
    /// `?`
    Interrogation,
    /// `:`
    Colon,
    /// `;`
    SemiColon,
    /// `.`
    Dot,
    /// `+`
    Plus,
    /// `-`
    Minus,
    /// `<<`
    ShiftLeft,
    /// `>>`
    ShiftRight,
    /// `<=`
    Le,
    /// `>=`
    Ge,
    /// `==`
    Equal,
    /// `!=`
    NotEqual,
    /// `&&`
    LogicalAnd,
    /// `||`
    LogicalOr,
    /// `+=`
    AddAssign,
    /// `-=`
    SubAssign,
    /// `*=`
    MulAssign,
    /// `/=`
    DivAssign,
    /// `%=`
    ModAssign,
    /// `&=`
    AndAssign,
    /// `|=`
    OrAssign,
    /// `^=`
    XorAssign,
    /// `->`
    Arrow,
    /// `++`
    Increment,
    /// `--`
    Decrement,
    /// `<<=`
    ShiftLeftAssign,
    /// `>>=`
    ShiftRightAssign,
    /// `...`
    Ellipsis,
}

/// The spelling of a symbol.
pub open spec fn spec_symbol_text(s: Symbol) -> Seq<char> {
    match s {
        Symbol::LeftParenthesis => "("@,
        Symbol::RightParenthesis => ")"@,
        Symbol::LeftBracket => "["@,
        Symbol::RightBracket => "]"@,
        Symbol::LeftBrace => "{"@,
        Symbol::RightBrace => "}"@,
        Symbol::BitwiseNot => "~"@,
        Symbol::LogicalNot => "!"@,
        Symbol::Star => "*"@,
        Symbol::Ampersand => "&"@,
        Symbol::Modulo => "%"@,
        Symbol::Divide => "/"@,
        Symbol::Gt => ">"@,
        Symbol::Lt => "<"@,
        Symbol::Assign => "="@,
        Symbol::BitwiseOr => "|"@,
        Symbol::BitwiseXor => "^"@,
        Symbol::Comma => ","@,
        Symbol::Interrogation => "?"@,
        Symbol::Colon => ":"@,
        Symbol::SemiColon => ";"@,
        Symbol::Dot => "."@,
        Symbol::Plus => "+"@,
        Symbol::Minus => "-"@,
        Symbol::ShiftLeft => "<<"@,
        Symbol::ShiftRight => ">>"@,
        Symbol::Le => "<="@,
        Symbol::Ge => ">="@,
        Symbol::Equal => "=="@,
        Symbol::NotEqual => "!="@,
        Symbol::LogicalAnd => "&&"@,
        Symbol::LogicalOr => "||"@,
        Symbol::AddAssign => "+="@,
        Symbol::SubAssign => "-="@,
        Symbol::MulAssign => "*="@,
        Symbol::DivAssign => "/="@,
        Symbol::ModAssign => "%="@,
        Symbol::AndAssign => "&="@,
        Symbol::OrAssign => "|="@,
        Symbol::XorAssign => "^="@,
        Symbol::Arrow => "->"@,
        Symbol::Increment => "++"@,
        Symbol::Decrement => "--"@,
        Symbol::ShiftLeftAssign => "<<="@,
        Symbol::ShiftRightAssign => ">>="@,
        Symbol::Ellipsis => "..."@,
    }
}

/// The spelling length of a symbol, 1 to 3.
pub open spec fn spec_symbol_len(s: Symbol) -> nat {
    match s {
        Symbol::LeftParenthesis => 1,
        Symbol::RightParenthesis => 1,
        Symbol::LeftBracket => 1,
        Symbol::RightBracket => 1,
        Symbol::LeftBrace => 1,
        Symbol::RightBrace => 1,
        Symbol::BitwiseNot => 1,
        Symbol::LogicalNot => 1,
        Symbol::Star => 1,
        Symbol::Ampersand => 1,
        Symbol::Modulo => 1,
        Symbol::Divide => 1,
        Symbol::Gt => 1,
        Symbol::Lt => 1,
        Symbol::Assign => 1,
        Symbol::BitwiseOr => 1,
        Symbol::BitwiseXor => 1,
        Symbol::Comma => 1,
        Symbol::Interrogation => 1,
        Symbol::Colon => 1,
        Symbol::SemiColon => 1,
        Symbol::Dot => 1,
        Symbol::Plus => 1,
        Symbol::Minus => 1,
        Symbol::ShiftLeft => 2,
        Symbol::ShiftRight => 2,
        Symbol::Le => 2,
        Symbol::Ge => 2,
        Symbol::Equal => 2,
        Symbol::NotEqual => 2,
        Symbol::LogicalAnd => 2,
        Symbol::LogicalOr => 2,
        Symbol::AddAssign => 2,
        Symbol::SubAssign => 2,
        Symbol::MulAssign => 2,
        Symbol::DivAssign => 2,
        Symbol::ModAssign => 2,
        Symbol::AndAssign => 2,
        Symbol::OrAssign => 2,
        Symbol::XorAssign => 2,
        Symbol::Arrow => 2,
        Symbol::Increment => 2,
        Symbol::Decrement => 2,
        Symbol::ShiftLeftAssign => 3,
        Symbol::ShiftRightAssign => 3,
        Symbol::Ellipsis => 3,
    }
}

impl Symbol {
    /// The spelling of the symbol.
    pub fn text(&self) -> (r: &'static str)
        ensures
            r@ == spec_symbol_text(*self),
    {
        match self {
        Symbol::LeftParenthesis => "(",
        Symbol::RightParenthesis => ")",
        Symbol::LeftBracket => "[",
        Symbol::RightBracket => "]",
        Symbol::LeftBrace => "{",
        Symbol::RightBrace => "}",
        Symbol::BitwiseNot => "~",
        Symbol::LogicalNot => "!",
        Symbol::Star => "*",
        Symbol::Ampersand => "&",
        Symbol::Modulo => "%",
        Symbol::Divide => "/",
        Symbol::Gt => ">",
        Symbol::Lt => "<",
        Symbol::Assign => "=",
        Symbol::BitwiseOr => "|",
        Symbol::BitwiseXor => "^",
        Symbol::Comma => ",",
        Symbol::Interrogation => "?",
        Symbol::Colon => ":",
        Symbol::SemiColon => ";",
        Symbol::Dot => ".",
        Symbol::Plus => "+",
        Symbol::Minus => "-",
        Symbol::ShiftLeft => "<<",
        Symbol::ShiftRight => ">>",
        Symbol::Le => "<=",
        Symbol::Ge => ">=",
        Symbol::Equal => "==",
        Symbol::NotEqual => "!=",
        Symbol::LogicalAnd => "&&",
        Symbol::LogicalOr => "||",
        Symbol::AddAssign => "+=",
        Symbol::SubAssign => "-=",
        Symbol::MulAssign => "*=",
        Symbol::DivAssign => "/=",
        Symbol::ModAssign => "%=",
        Symbol::AndAssign => "&=",
        Symbol::OrAssign => "|=",
        Symbol::XorAssign => "^=",
        Symbol::Arrow => "->",
        Symbol::Increment => "++",
        Symbol::Decrement => "--",
        Symbol::ShiftLeftAssign => "<<=",
        Symbol::ShiftRightAssign => ">>=",
        Symbol::Ellipsis => "...",
        }
    }
}

/// True iff `c` can start or extend an operator.
pub open spec fn spec_is_op_char(c: char) -> bool {
    c == '(' || c == ')' || c == '[' || c == ']' || c == '{' || c == '}' || c == '~' || c == '!' || c == '*' || c == '&' || c == '%' || c == '/' || c == '>' || c == '<' || c == '=' || c == '|' || c == '^' || c == ',' || c == '?' || c == ':' || c == ';' || c == '.' || c == '+' || c == '-'
}

/// The one-character symbol a character spells, if any.
pub open spec fn spec_sym1(c: char) -> Option<Symbol> {
    match c {
        '(' => Some(Symbol::LeftParenthesis),
        ')' => Some(Symbol::RightParenthesis),
        '[' => Some(Symbol::LeftBracket),
        ']' => Some(Symbol::RightBracket),
        '{' => Some(Symbol::LeftBrace),
        '}' => Some(Symbol::RightBrace),
        '~' => Some(Symbol::BitwiseNot),
        '!' => Some(Symbol::LogicalNot),
        '*' => Some(Symbol::Star),
        '&' => Some(Symbol::Ampersand),
        '%' => Some(Symbol::Modulo),
        '/' => Some(Symbol::Divide),
        '>' => Some(Symbol::Gt),
        '<' => Some(Symbol::Lt),
        '=' => Some(Symbol::Assign),
        '|' => Some(Symbol::BitwiseOr),
        '^' => Some(Symbol::BitwiseXor),
        ',' => Some(Symbol::Comma),
        '?' => Some(Symbol::Interrogation),
        ':' => Some(Symbol::Colon),
        ';' => Some(Symbol::SemiColon),
        '.' => Some(Symbol::Dot),
        '+' => Some(Symbol::Plus),
        '-' => Some(Symbol::Minus),
        _ => None,
    }
}

/// The two-character symbol two characters spell, if any.
pub open spec fn spec_sym2(a: char, b: char) -> Option<Symbol> {
    if a == '<' && b == '<' {
        Some(Symbol::ShiftLeft)
    } else if a == '>' && b == '>' {
        Some(Symbol::ShiftRight)
    } else if a == '<' && b == '=' {
        Some(Symbol::Le)
    } else if a == '>' && b == '=' {
        Some(Symbol::Ge)
    } else if a == '=' && b == '=' {
        Some(Symbol::Equal)
    } else if a == '!' && b == '=' {
        Some(Symbol::NotEqual)
    } else if a == '&' && b == '&' {
        Some(Symbol::LogicalAnd)
    } else if a == '|' && b == '|' {
        Some(Symbol::LogicalOr)
    } else if a == '+' && b == '=' {
        Some(Symbol::AddAssign)
    } else if a == '-' && b == '=' {
        Some(Symbol::SubAssign)
    } else if a == '*' && b == '=' {
        Some(Symbol::MulAssign)
    } else if a == '/' && b == '=' {
        Some(Symbol::DivAssign)
    } else if a == '%' && b == '=' {
        Some(Symbol::ModAssign)
    } else if a == '&' && b == '=' {
        Some(Symbol::AndAssign)
    } else if a == '|' && b == '=' {
        Some(Symbol::OrAssign)
    } else if a == '^' && b == '=' {
        Some(Symbol::XorAssign)
    } else if a == '-' && b == '>' {
        Some(Symbol::Arrow)
    } else if a == '+' && b == '+' {
        Some(Symbol::Increment)
    } else if a == '-' && b == '-' {
        Some(Symbol::Decrement)
    } else {
        None
    }
}

/// The three-character symbol three characters spell, if any.
pub open spec fn spec_sym3(a: char, b: char, c: char) -> Option<Symbol> {
    if a == '<' && b == '<' && c == '=' {
        Some(Symbol::ShiftLeftAssign)
    } else if a == '>' && b == '>' && c == '=' {
        Some(Symbol::ShiftRightAssign)
    } else if a == '.' && b == '.' && c == '.' {
        Some(Symbol::Ellipsis)
    } else {
        None
    }
}

/// The one-character symbol a character spells, if any.
pub fn sym1(c: char) -> (r: Option<Symbol>)
    ensures
        r == spec_sym1(c),
{
    match c {
        '(' => Some(Symbol::LeftParenthesis),
        ')' => Some(Symbol::RightParenthesis),
        '[' => Some(Symbol::LeftBracket),
        ']' => Some(Symbol::RightBracket),
        '{' => Some(Symbol::LeftBrace),
        '}' => Some(Symbol::RightBrace),
        '~' => Some(Symbol::BitwiseNot),
        '!' => Some(Symbol::LogicalNot),
        '*' => Some(Symbol::Star),
        '&' => Some(Symbol::Ampersand),
        '%' => Some(Symbol::Modulo),
        '/' => Some(Symbol::Divide),
        '>' => Some(Symbol::Gt),
        '<' => Some(Symbol::Lt),
        '=' => Some(Symbol::Assign),
        '|' => Some(Symbol::BitwiseOr),
        '^' => Some(Symbol::BitwiseXor),
        ',' => Some(Symbol::Comma),
        '?' => Some(Symbol::Interrogation),
        ':' => Some(Symbol::Colon),
        ';' => Some(Symbol::SemiColon),
        '.' => Some(Symbol::Dot),
        '+' => Some(Symbol::Plus),
        '-' => Some(Symbol::Minus),
        _ => None,
    }
}

/// The two-character symbol two characters spell, if any.
pub fn sym2(a: char, b: char) -> (r: Option<Symbol>)
    ensures
        r == spec_sym2(a, b),
{
    if a == '<' && b == '<' {
        Some(Symbol::ShiftLeft)
    } else if a == '>' && b == '>' {
        Some(Symbol::ShiftRight)
    } else if a == '<' && b == '=' {
        Some(Symbol::Le)
    } else if a == '>' && b == '=' {
        Some(Symbol::Ge)
    } else if a == '=' && b == '=' {
        Some(Symbol::Equal)
    } else if a == '!' && b == '=' {
        Some(Symbol::NotEqual)
    } else if a == '&' && b == '&' {
        Some(Symbol::LogicalAnd)
    } else if a == '|' && b == '|' {
        Some(Symbol::LogicalOr)
    } else if a == '+' && b == '=' {
        Some(Symbol::AddAssign)
    } else if a == '-' && b == '=' {
        Some(Symbol::SubAssign)
    } else if a == '*' && b == '=' {
        Some(Symbol::MulAssign)
    } else if a == '/' && b == '=' {
        Some(Symbol::DivAssign)
    } else if a == '%' && b == '=' {
        Some(Symbol::ModAssign)
    } else if a == '&' && b == '=' {
        Some(Symbol::AndAssign)
    } else if a == '|' && b == '=' {
        Some(Symbol::OrAssign)
    } else if a == '^' && b == '=' {
        Some(Symbol::XorAssign)
    } else if a == '-' && b == '>' {
        Some(Symbol::Arrow)
    } else if a == '+' && b == '+' {
        Some(Symbol::Increment)
    } else if a == '-' && b == '-' {
        Some(Symbol::Decrement)
    } else {
        None
    }
}

/// The three-character symbol three characters spell, if any.
pub fn sym3(a: char, b: char, c: char) -> (r: Option<Symbol>)
    ensures
        r == spec_sym3(a, b, c),
{
    if a == '<' && b == '<' && c == '=' {
        Some(Symbol::ShiftLeftAssign)
    } else if a == '>' && b == '>' && c == '=' {
        Some(Symbol::ShiftRightAssign)
    } else if a == '.' && b == '.' && c == '.' {
        Some(Symbol::Ellipsis)
    } else {
        None
    }
}

/// Every operator character spells a one-character symbol.
pub proof fn lemma_op_char_sym1(c: char)
    requires
        spec_is_op_char(c),
    ensures
        spec_sym1(c) is Some,
{
}

/// True iff `c` checks as an operator character.
pub fn is_op_char(c: char) -> (r: bool)
    ensures
        r == spec_is_op_char(c),
{
    c == '(' || c == ')' || c == '[' || c == ']' || c == '{' || c == '}' || c == '~' || c == '!' || c == '*' || c == '&' || c == '%' || c == '/' || c == '>' || c == '<' || c == '=' || c == '|' || c == '^' || c == ',' || c == '?' || c == ':' || c == ';' || c == '.' || c == '+' || c == '-'
}

/// Pending operator characters, at most three, drained greedily into the
/// longest known symbols.
pub struct SymbolState {
    /// The pending characters, oldest first.
    pub buf: Vec<char>,
}

impl SymbolState {
    /// All pending characters are operator characters and at most three are
    /// pending.
    pub open spec fn wf(&self) -> bool {
        self.buf@.len() <= 3 && forall|i: int|
            0 <= i < self.buf@.len() ==> spec_is_op_char(#[trigger] self.buf@[i])
    }

    /// A buffer holding one character.
    pub fn new(ch: char) -> (r: Self)
        requires
            spec_is_op_char(ch),
        ensures
            r.buf@ == seq![ch],
            r.wf(),
    {
        let mut buf: Vec<char> = Vec::new();
        buf.push(ch);
        proof {
            assert(buf@ =~= seq![ch]);
        }
        SymbolState { buf }
    }

    /// True iff nothing is pending.
    pub fn is_empty(&self) -> (r: bool)
        ensures
            r == (self.buf@.len() == 0),
    {
        self.buf.len() == 0
    }

    /// The most recent pending character.
    pub fn last(&self) -> (r: Option<char>)
        ensures
            self.buf@.len() == 0 ==> r is None,
            self.buf@.len() > 0 ==> r == Some(self.buf@.last()),
    {
        if self.buf.len() == 0 {
            None
        } else {
            Some(self.buf[self.buf.len() - 1])
        }
    }

    /// Removes the most recent pending character.
    pub fn clear_last(&mut self)
        requires
            old(self).buf@.len() > 0,
        ensures
            final(self).buf@ == old(self).buf@.drop_last(),
    {
        self.buf.pop();
        proof {
            assert(self.buf@ =~= old(self).buf@.drop_last());
        }
    }
}

/// What draining one symbol from the front of the buffer yields: the
/// symbol with its length, and the remaining characters. The three-
/// character spelling is tried first, then two, then one.
pub open spec fn spec_take_op(buf: Seq<char>) -> (Option<(nat, Symbol)>, Seq<char>) {
    if buf.len() >= 3 && spec_sym3(buf[0], buf[1], buf[2]) is Some {
        (Some((3nat, spec_sym3(buf[0], buf[1], buf[2]).unwrap())), buf.skip(3))
    } else if buf.len() >= 2 && spec_sym2(buf[0], buf[1]) is Some {
        (Some((2nat, spec_sym2(buf[0], buf[1]).unwrap())), buf.skip(2))
    } else if buf.len() >= 1 && spec_sym1(buf[0]) is Some {
        (Some((1nat, spec_sym1(buf[0]).unwrap())), buf.skip(1))
    } else {
        (None, buf)
    }
}

impl SymbolState {
    /// Drains the longest known symbol from the front of the buffer.
    ///
    /// On a well-formed nonempty buffer this always yields a symbol, since
    /// every operator character alone spells one.
    pub fn try_to_operator(&mut self) -> (r: Option<(usize, Symbol)>)
        requires
            old(self).wf(),
        ensures
            final(self).wf(),
            ({
                let (op, rest) = spec_take_op(old(self).buf@);
                &&& final(self).buf@ == rest
                &&& (match r {
                    Some((n, sym)) => op == Some((n as nat, sym)),
                    None => op is None,
                })
            }),
            old(self).buf@.len() > 0 ==> r is Some,
            old(self).buf@.len() == 0 ==> r is None,
            final(self).buf@.len() <= old(self).buf@.len(),
            old(self).buf@.len() > 0 ==> final(self).buf@.len() < old(self).buf@.len(),
    {
        if self.buf.len() >= 3 {
            if let Some(sym) = sym3(self.buf[0], self.buf[1], self.buf[2]) {
                let mut rest: Vec<char> = Vec::new();
                copy_from(&mut rest, &self.buf, 3);
                self.buf = rest;
                return Some((3, sym));
            }
        }
        if self.buf.len() >= 2 {
            if let Some(sym) = sym2(self.buf[0], self.buf[1]) {
                let mut rest: Vec<char> = Vec::new();
                copy_from(&mut rest, &self.buf, 2);
                self.buf = rest;
                return Some((2, sym));
            }
        }
        if self.buf.len() >= 1 {
            proof {
                lemma_op_char_sym1(self.buf@[0]);
            }
            if let Some(sym) = sym1(self.buf[0]) {
                let mut rest: Vec<char> = Vec::new();
                copy_from(&mut rest, &self.buf, 1);
                self.buf = rest;
                return Some((1, sym));
            }
        }
        None
    }

    /// Adds an operator character; a full buffer first drains its longest
    /// leading symbol, which is handed back for emission together with the
    /// width of the whole buffer it came from, so the caller can rewind the
    /// token location to where that buffer started.
    pub fn push(&mut self, ch: char) -> (r: Option<(usize, Symbol)>)
        requires
            old(self).wf(),
            spec_is_op_char(ch),
        ensures
            final(self).wf(),
            old(self).buf@.len() < 3 ==> r is None && final(self).buf@ == old(self).buf@.push(ch),
            old(self).buf@.len() == 3 ==> ({
                let (op, rest) = spec_take_op(old(self).buf@);
                &&& (match r {
                    Some((n, sym)) => op matches Some((w, sym2)) && sym2 == sym && n == 3,
                    None => op is None,
                })
                &&& final(self).buf@ == rest.push(ch)
            }),
    {
        if self.buf.len() < 3 {
            self.buf.push(ch);
            return None;
        }
        let out = self.try_to_operator();
        self.buf.push(ch);
        match out {
            Some((_, sym)) => Some((3, sym)),
            None => None,
        }
    }
}

/// Copies the characters of `src` from `from` on into `dst`, which starts
/// empty.
fn copy_from(dst: &mut Vec<char>, src: &Vec<char>, from: usize)
    requires
        old(dst)@.len() == 0,
        from <= src@.len(),
    ensures
        final(dst)@ == src@.skip(from as int),
{
    let mut i: usize = from;
    while i < src.len()
        invariant
            from <= i <= src@.len(),
            dst@ == src@.subrange(from as int, i as int),
        decreases src@.len() - i,
    {
        proof {
            assert(src@.subrange(from as int, i + 1 as int).drop_last() =~= src@.subrange(
                from as int,
                i as int,
            ));
        }
        dst.push(src[i]);
        i = i + 1;
    }
    proof {
        assert(src@.subrange(from as int, src@.len() as int) =~= src@.skip(from as int));
    }
}

} // verus!
