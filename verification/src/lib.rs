//! Front end of a C compiler: a lexer that turns source text into a token
//! stream and a parser that folds that stream into an abstract syntax tree,
//! both carrying source locations and accumulating structured diagnostics.

pub mod location;
pub mod diagnostics;
pub mod strutil;
pub mod numbers;
pub mod float_bits;
pub mod parse_res;
pub mod number_parse;
pub mod keywords;
pub mod symbols;
pub mod tokens;
pub mod lex_data;
pub mod lexing_state;
pub mod special_chars;
pub mod lex_content;
pub mod ast;
pub mod push_op;
pub mod keyword_sort;
pub mod handlers;
pub mod parse_content;
pub mod parser_laws;
pub mod dump;
