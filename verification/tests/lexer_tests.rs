//! End-to-end lexer checks on small source snippets.

use c_parser::diagnostics::ErrorLevel;
use c_parser::lex_content::lex_file;
use c_parser::location::Location;
use c_parser::numbers::Number;
use c_parser::keywords::Keyword;
use c_parser::symbols::Symbol;
use c_parser::tokens::TokenValue;

fn lex(src: &str) -> (Vec<c_parser::tokens::Token>, Vec<c_parser::diagnostics::CompileError>) {
    let mut loc = Location::new(0);
    lex_file(src, &mut loc).into_parts()
}

#[test]
fn hex_float_declaration() {
    let (tokens, errors) = lex("int x = 0x1p+3;");
    assert!(errors.is_empty());
    assert_eq!(tokens.len(), 5);
    assert!(matches!(tokens[0].get_value(), TokenValue::Keyword(Keyword::Int)));
    assert!(matches!(tokens[1].get_value(), TokenValue::Ident(s) if s == "x"));
    assert!(matches!(tokens[2].get_value(), TokenValue::Symbol(Symbol::Assign)));
    assert!(
        matches!(tokens[3].get_value(), TokenValue::Number(Number::Double(b)) if *b == 8.0f64.to_bits())
    );
    assert!(matches!(tokens[4].get_value(), TokenValue::Symbol(Symbol::SemiColon)));
}

#[test]
fn short_unicode_char() {
    let (tokens, errors) = lex("'\\u00e9'");
    assert!(errors.is_empty());
    assert_eq!(tokens.len(), 1);
    assert!(matches!(tokens[0].get_value(), TokenValue::Char(c) if *c == '\u{e9}'));
}

#[test]
fn short_unicode_too_few_digits() {
    let (_, errors) = lex("'\\u00e'");
    assert_eq!(errors.len(), 1);
    assert!(errors[0].message().contains("must contain 4 digits, but found only 3"));
    assert!(matches!(errors[0].level(), ErrorLevel::Error));
}

#[test]
fn adjacent_strings_merge() {
    let (tokens, errors) = lex("\"\\x41\\x42\" \"C\"");
    assert!(errors.is_empty());
    assert_eq!(tokens.len(), 1);
    assert!(matches!(tokens[0].get_value(), TokenValue::Str(s) if s == "ABC"));
}

#[test]
fn octal_and_bad_octal() {
    let (tokens, errors) = lex("0777");
    assert!(errors.is_empty());
    assert!(matches!(tokens[0].get_value(), TokenValue::Number(Number::Int(511))));
    let (_, errors) = lex("08");
    assert_eq!(errors.len(), 1);
    assert!(errors[0]
        .message()
        .starts_with("an octal constant must only contain digits between '0' and '7'"));
}

#[test]
fn deprecated_underscore_keyword() {
    let (tokens, errors) = lex("_Bool x;");
    assert!(matches!(tokens[0].get_value(), TokenValue::Keyword(Keyword::Bool)));
    assert_eq!(errors.len(), 1);
    assert!(matches!(errors[0].level(), ErrorLevel::Warning));
    assert_eq!(
        errors[0].message(),
        "Underscore operators are deprecated since C23. Consider using bool"
    );
}

#[test]
fn locations_are_monotone_and_positive() {
    let (tokens, _) = lex("int a = 1 + 2;\nchar c = 'x'; // tail\nlong l = a<<=2;");
    let mut prev = (0usize, 0usize);
    for t in &tokens {
        let (_, line, col) = t.location.get();
        assert!(line >= 1 && col >= 1);
        assert!((line, col) >= prev);
        prev = (line, col);
    }
    assert!(tokens.len() > 8);
}

#[test]
fn comments_and_operators() {
    let (tokens, errors) = lex("a /* comment */ + b // rest\n<<= c");
    assert!(errors.is_empty());
    let kinds: Vec<String> = tokens
        .iter()
        .map(|t| c_parser::dump::token_text(t))
        .collect();
    assert_eq!(kinds, vec!["a", "+", "b", "<<=", "c"]);
}

#[test]
fn line_continuation() {
    let (tokens, errors) = lex("ab\\\ncd");
    assert!(errors.is_empty());
    assert_eq!(tokens.len(), 1);
    assert!(matches!(tokens[0].get_value(), TokenValue::Ident(s) if s == "abcd"));
}

#[test]
fn octal_escape_overflow_keeps_third_digit() {
    let (tokens, errors) = lex("\"\\777\"");
    assert!(errors.is_empty());
    assert!(matches!(tokens[0].get_value(), TokenValue::Str(s) if s == "\u{3f}7"));
}

#[test]
fn escape() {
    let (_, errors) = lex("char e[] = \"\\t\\n\\x41 \\101 \\u0041 \\U00000041\";");
    assert!(errors.is_empty());
}

#[test]
fn general() {
    let (tokens, errors) = lex("int main;\nint x = 2 + 3 * 4;\n");
    assert!(errors.is_empty());
    assert!(tokens.len() == 12);
}

#[test]
fn operators() {
    let (tokens, errors) = lex("a ++ -- << >> <= >= == != && || += -> ... b");
    assert!(errors.is_empty());
    assert_eq!(tokens.len(), 15);
}

#[test]
fn no_control_flow() {
    let (_, errors) = lex("x = y ? 1 : 2; z += \"s\" 'c' 0x1f 3ull;\n");
    assert!(errors.is_empty());
}

#[test]
fn lexer_escape() {
    let (_, errors) = lex("\"\\e\\v\\f\\r\\0\\'\\\"\\?\"");
    assert!(errors.is_empty());
}

#[test]
fn lexer_general() {
    let (tokens, errors) = lex("unsigned long v = 077u;\n");
    assert!(errors.is_empty());
    assert!(matches!(tokens[4].get_value(), TokenValue::Number(Number::UInt(63))));
}

#[test]
fn lexer_numbers_1() {
    let (tokens, errors) = lex("1 2147483647 2147483648 4294967295u 0b101 0x10");
    assert!(errors.is_empty());
    assert!(matches!(tokens[0].get_value(), TokenValue::Number(Number::Int(1))));
    assert!(matches!(tokens[1].get_value(), TokenValue::Number(Number::Int(2147483647))));
    assert!(matches!(tokens[2].get_value(), TokenValue::Number(Number::Long(2147483648))));
    assert!(matches!(tokens[3].get_value(), TokenValue::Number(Number::UInt(4294967295))));
    assert!(matches!(tokens[4].get_value(), TokenValue::Number(Number::Int(5))));
    assert!(matches!(tokens[5].get_value(), TokenValue::Number(Number::Int(16))));
}

#[test]
fn lexer_numbers_2() {
    let (tokens, errors) = lex("1.5 2e3 0x1.8p1 .5 3f");
    assert_eq!(errors.len(), 1, "3f has an invalid suffix");
    assert!(matches!(tokens[0].get_value(), TokenValue::Number(Number::Double(b)) if *b == 1.5f64.to_bits()));
    assert!(matches!(tokens[1].get_value(), TokenValue::Number(Number::Double(b)) if *b == 2000.0f64.to_bits()));
    assert!(matches!(tokens[2].get_value(), TokenValue::Number(Number::Double(b)) if *b == 3.0f64.to_bits()));
    assert!(matches!(tokens[3].get_value(), TokenValue::Number(Number::Double(b)) if *b == 0.5f64.to_bits()));
}

#[test]
fn integer_overflow_is_one_warning() {
    // a value beyond `unsigned int` grows to the next unsigned type silently
    let (tokens, errors) = lex("4294967296u");
    assert!(errors.is_empty());
    assert!(matches!(tokens[0].get_value(), TokenValue::Number(Number::ULong(4294967296))));
    // a value beyond every candidate type clamps with exactly one warning
    let (tokens, errors) = lex("99999999999999999999999u");
    assert_eq!(errors.len(), 1);
    assert!(matches!(errors[0].level(), ErrorLevel::Warning));
    assert!(errors[0].message().starts_with("Overflow:"));
    assert!(matches!(tokens[0].get_value(), TokenValue::Number(Number::ULongLong(u64::MAX))));
}

#[test]
fn round_trip_token_stream() {
    let (tokens, errors) = lex("int x = a + 41u - 0x1p+3 << \"hi\\n\" 'c' ;");
    assert!(errors.is_empty());
    let text = c_parser::dump::tokens_text(&tokens);
    let (tokens2, errors2) = lex(&text);
    assert!(errors2.is_empty());
    let text2 = c_parser::dump::tokens_text(&tokens2);
    assert_eq!(text, text2);
    assert_eq!(tokens.len(), tokens2.len());
    for (t1, t2) in tokens.iter().zip(tokens2.iter()) {
        assert_eq!(
            c_parser::dump::token_text(t1),
            c_parser::dump::token_text(t2)
        );
    }
}
