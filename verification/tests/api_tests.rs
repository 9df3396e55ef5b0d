//! Unit checks on the public pieces: locations, diagnostics, identifier
//! buffers, parse results, the radix parsers and the token handlers.

use c_parser::ast::Ast;
use c_parser::ast::BinaryOperator;
use c_parser::ast::UnaryOperator;
use c_parser::diagnostics::any_error;
use c_parser::diagnostics::CompileError;
use c_parser::diagnostics::ErrorLevel;
use c_parser::diagnostics::Res;
use c_parser::handlers::handle_comma;
use c_parser::handlers::handle_double_binary;
use c_parser::handlers::handle_double_unary;
use c_parser::keyword_sort::ControlFlowKeyword;
use c_parser::keyword_sort::AttributeKeyword;
use c_parser::keyword_sort::KeywordParsing;
use c_parser::keywords::Keyword;
use c_parser::lex_data::LexingData;
use c_parser::lexing_state::EscapeKind;
use c_parser::lexing_state::EscapeSequence;
use c_parser::lexing_state::EscapeState;
use c_parser::lexing_state::LexingState;
use c_parser::location::Location;
use c_parser::numbers::Number;
use c_parser::numbers::NumberType;
use c_parser::parse_res::OverParseRes;
use c_parser::parse_res::ParseRes;
use c_parser::number_parse::literal_to_number;
use c_parser::number_parse::to_bin_value;
use c_parser::number_parse::to_decimal_value;
use c_parser::number_parse::to_hex_value;
use c_parser::number_parse::to_oct_value;
use c_parser::special_chars::end_both;
use c_parser::special_chars::end_escape_sequence;
use c_parser::special_chars::end_operator;
use c_parser::special_chars::handle_double_quotes;
use c_parser::special_chars::handle_escaped;
use c_parser::special_chars::handle_single_quotes;
use c_parser::special_chars::handle_symbol;
use c_parser::symbols::Symbol;
use c_parser::tokens::Ident;
use c_parser::tokens::TokenValue;

#[test]
fn location_moves() {
    let mut loc = Location::new(3);
    assert_eq!(loc.get(), (3, 1, 1));
    loc.incr_col();
    loc.incr_col();
    loc.incr_line();
    assert_eq!(loc.get(), (3, 2, 3));
    loc.new_line();
    assert_eq!(loc.get(), (3, 3, 1));
    assert_eq!(loc.into_past(2).get(), (3, 3, 1), "rewinding saturates at column 1");
    let far = Location { file: 3, line: 3, col: 9 };
    assert_eq!(far.into_past(2).get(), (3, 3, 7));
}

#[test]
fn diagnostics_api() {
    let loc = Location::new(0);
    let mut err = loc.to_error(String::from("boom"));
    assert!(err.is_error());
    err.specify_length(4);
    let (at, message, level, length) = err.get();
    assert_eq!(at.get(), (0, 1, 1));
    assert_eq!(message, "boom");
    assert_eq!(level, "error");
    assert_eq!(length, 4);
    let warn = loc.to_warning(String::from("meh"));
    assert!(!warn.is_error());
    let sugg = loc.to_suggestion(String::from("nit"));
    assert_eq!(sugg.level(), ErrorLevel::Suggestion);
    let errors: Vec<CompileError> = vec![warn, sugg];
    assert!(!any_error(&errors));
    let res = Res::from_parts(7u64, Vec::new());
    assert_eq!(res.errors().len(), 0);
    assert_eq!(res.unwrap_or_display(), 7);
}

#[test]
fn ident_buffer() {
    let mut id = Ident(String::new());
    assert!(id.is_empty());
    assert!(!id.is_number());
    id.push('0');
    id.push('x');
    id.push('1');
    id.push('p');
    assert_eq!(id.len(), 4);
    assert_eq!(id.first(), Some('0'));
    assert!(id.contains('x'));
    assert!(!id.contains('.'));
    assert!(id.is_number());
    assert!(id.last_is_exp(), "p ends a hexadecimal exponent");
    assert_eq!(id.value(), "0x1p");
    let taken = id.take_value();
    assert_eq!(taken, "0x1p");
    assert!(id.is_empty());
    let dec = Ident(String::from("1e"));
    assert!(dec.last_is_exp(), "e ends a decimal exponent");
    let frac = Ident(String::from(".5"));
    assert!(!frac.is_number(), "a number-shaped identifier starts with a digit");
    assert!(frac.opens_number(), "a dot followed by a digit still opens a number literal");
    assert!(Ident(String::from(".5e")).exp_pending());
}

#[test]
fn over_parse_res_api() {
    let loc = Location::new(0);
    let r: OverParseRes<u32> = OverParseRes::Value(5);
    assert!(!r.overflowed());
    let r = r.add_overflow();
    assert!(r.overflowed());
    match r.ignore_overflow("5", &loc) {
        ParseRes::ValueErr(v, e) => {
            assert_eq!(v, 5);
            assert_eq!(e.message(), "Overflow: 5 is too big in traditional number");
            assert_eq!(e.level(), ErrorLevel::Warning);
        }
        _ => panic!("a clamped overflow keeps its value and warns"),
    }
    let o: OverParseRes<u32> = OverParseRes::from_pos_overflow();
    assert!(o.overflowed());
    match o.ignore_overflow("big", &loc) {
        ParseRes::Error(e) => assert!(e.is_error()),
        _ => panic!("a valueless overflow is an error"),
    }
    let n: OverParseRes<u32> = OverParseRes::from_neg_overflow();
    let mapped = n.map(|v: u32| v + 1);
    assert!(matches!(mapped, OverParseRes::Overflow));
    let doubled = OverParseRes::Value(21u32).map(|v: u32| v * 2);
    assert!(matches!(doubled, OverParseRes::Value(42)));
}

#[test]
fn parse_res_api() {
    let loc = Location::new(0);
    let v: ParseRes<u32> = ParseRes::Value(3);
    let (value, err) = v.into_elts();
    assert_eq!(value, Some(3));
    assert!(err.is_none());
    let v: ParseRes<u32> = ParseRes::ValueErr(3, loc.to_warning(String::from("w")));
    let (out, carried) = v.map_or_else(|x: u32| x + 1);
    assert_eq!(out, Ok(4));
    assert_eq!(carried.unwrap().message(), "w");
    let v: ParseRes<u32> = ParseRes::Error(loc.to_error(String::from("e")));
    let (out, carried) = v.map_or_else(|x: u32| x + 1);
    assert_eq!(out, Err(()));
    assert!(carried.unwrap().is_error());
}

#[test]
fn radix_parsers() {
    let loc = Location::new(0);
    assert!(matches!(
        to_decimal_value("123", &NumberType::Int, &loc),
        OverParseRes::Value(Number::Int(123))
    ));
    assert!(matches!(
        to_decimal_value("2147483648", &NumberType::Int, &loc),
        OverParseRes::ValueOverflow(Number::Int(2147483647))
    ));
    assert!(matches!(
        to_oct_value("123", &NumberType::Int, &loc),
        OverParseRes::Value(Number::Int(83))
    ));
    match to_oct_value("1f3", &NumberType::Int, &loc) {
        OverParseRes::Error(e) => assert!(e.message().contains("invalid character 'f'")),
        _ => panic!("a foreign octal digit is an error"),
    }
    assert!(matches!(
        to_hex_value("ff", &NumberType::UInt, &loc),
        OverParseRes::Value(Number::UInt(255))
    ));
    assert!(matches!(
        to_bin_value("101", &NumberType::Int, &loc),
        OverParseRes::Value(Number::Int(5))
    ));
    match to_decimal_value("1", &NumberType::LongDouble, &loc) {
        OverParseRes::Error(e) => assert!(e.message().contains("long double")),
        _ => panic!("long double is reported as unsupported"),
    }
    match literal_to_number("abc", &loc) {
        None => {}
        Some(_) => panic!("an identifier is no number"),
    }
    match literal_to_number("0777", &loc) {
        Some(ParseRes::Value(Number::Int(511))) => {}
        _ => panic!("a leading zero makes an octal constant"),
    }
}

#[test]
fn keyword_sorting() {
    assert!(matches!(
        KeywordParsing::from_keyword(Keyword::If, false),
        KeywordParsing::CtrlFlow(ControlFlowKeyword::If)
    ));
    assert!(matches!(
        KeywordParsing::from_keyword(Keyword::Default, true),
        KeywordParsing::CtrlFlow(ControlFlowKeyword::Default)
    ));
    assert!(matches!(
        KeywordParsing::from_keyword(Keyword::Default, false),
        KeywordParsing::Attr(AttributeKeyword::Default)
    ));
    assert!(matches!(
        KeywordParsing::from_keyword(Keyword::True, false),
        KeywordParsing::True
    ));
    assert!(matches!(
        KeywordParsing::from_keyword(Keyword::Sizeof, false),
        KeywordParsing::Func(_)
    ));
}

#[test]
fn double_readings() {
    // `a * b`: the infix reading wins on a filled operand
    let mut current = Ast::Leaf(c_parser::ast::Literal::Variable(String::from("a")));
    handle_double_binary(&mut current, BinaryOperator::Multiply, UnaryOperator::Indirection)
        .unwrap();
    assert!(matches!(
        &current,
        Ast::Binary(b) if b.op == BinaryOperator::Multiply
    ));
    // `* a`: the prefix reading wins on a hole
    let mut current = Ast::Empty;
    handle_double_binary(&mut current, BinaryOperator::Multiply, UnaryOperator::Indirection)
        .unwrap();
    assert!(matches!(
        &current,
        Ast::Unary(u) if u.op == UnaryOperator::Indirection
    ));
    // `a ++`: the postfix reading wins on a filled operand
    let mut current = Ast::Leaf(c_parser::ast::Literal::Variable(String::from("a")));
    handle_double_unary(
        &mut current,
        UnaryOperator::PostfixIncrement,
        UnaryOperator::PrefixIncrement,
    )
    .unwrap();
    assert!(matches!(
        &current,
        Ast::Unary(u) if u.op == UnaryOperator::PostfixIncrement
    ));
    // `a , b` builds the comma operator
    let mut current = Ast::Leaf(c_parser::ast::Literal::Variable(String::from("a")));
    handle_comma(&mut current).unwrap();
    assert!(matches!(
        &current,
        Ast::Binary(b) if b.op == BinaryOperator::Comma
    ));
    // an operator with no operand is refused and leaves the tree unchanged
    let mut current = Ast::Empty;
    assert!(handle_comma(&mut current).is_err());
    assert!(matches!(current, Ast::Empty));
}

#[test]
fn lexer_handlers() {
    let loc = Location { file: 0, line: 1, col: 8 };
    // closing an identifier makes a keyword token
    let mut data = LexingData::new();
    let mut state = LexingState::Identifier(Ident(String::from("while")));
    end_both(&mut state, &mut data, &loc);
    assert!(matches!(state, LexingState::StartOfLine));
    assert!(matches!(
        data.tokens[0].get_value(),
        TokenValue::Keyword(Keyword::While)
    ));
    // closing a run of operator characters drains greedy symbols
    let mut data = LexingData::new();
    let mut state = LexingState::StartOfLine;
    handle_symbol('<', &mut state, &mut data, &loc);
    handle_symbol('<', &mut state, &mut data, &loc);
    handle_symbol('=', &mut state, &mut data, &loc);
    end_operator(&mut state, &mut data, &loc);
    assert_eq!(data.tokens.len(), 1);
    assert!(matches!(
        data.tokens[0].get_value(),
        TokenValue::Symbol(Symbol::ShiftLeftAssign)
    ));
    // quotes open and close character and string constants
    let mut data = LexingData::new();
    let mut state = LexingState::StartOfLine;
    handle_single_quotes(&mut state, &mut data, &loc);
    assert!(matches!(state, LexingState::Char(None)));
    state = LexingState::Char(Some('x'));
    handle_single_quotes(&mut state, &mut data, &loc);
    assert!(matches!(data.tokens[0].get_value(), TokenValue::Char('x')));
    let mut state = LexingState::StartOfLine;
    handle_double_quotes(&mut state, &mut data, &loc);
    assert!(matches!(state, LexingState::Str(_)));
    // an escape sequence resolves into the open string
    let mut state = LexingState::Str(String::from("A"));
    let mut escape = EscapeState::Sequence(EscapeSequence {
        kind: EscapeKind::Hexadecimal,
        digits: vec!['4', '2'],
    });
    let closed = end_escape_sequence(&mut state, &mut escape, &mut data, &loc);
    assert!(closed.is_ok());
    assert!(matches!(&state, LexingState::Str(s) if s == "AB"));
    // a backslash followed by `n` resolves to a newline
    let mut escape = EscapeState::Single;
    let consumed = handle_escaped('n', &mut state, &mut escape, &mut data, &loc);
    assert!(consumed);
    assert!(matches!(&state, LexingState::Str(s) if s == "AB\n"));
}
