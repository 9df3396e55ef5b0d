//! End-to-end parser checks on small token streams.

use c_parser::ast::Ast;
use c_parser::ast::Binary;
use c_parser::ast::BinaryOperator;
use c_parser::ast::Literal;
use c_parser::ast::Ternary;
use c_parser::ast::Unary;
use c_parser::ast::UnaryOperator;
use c_parser::lex_content::lex_file;
use c_parser::location::Location;
use c_parser::parse_content::parse_tokens;

fn parse(src: &str) -> (Ast, Vec<c_parser::diagnostics::CompileError>) {
    let mut loc = Location::new(0);
    let (tokens, errors) = lex_file(src, &mut loc).into_parts();
    assert!(errors.is_empty(), "lexing failed");
    parse_tokens(tokens).into_parts()
}

fn var_name(a: &Ast) -> &str {
    match a {
        Ast::Leaf(Literal::Variable(s)) => s.as_str(),
        _ => panic!("expected a variable leaf"),
    }
}

#[test]
fn subtraction_groups_left() {
    let (ast, errors) = parse("a - b - c");
    assert!(errors.is_empty());
    match ast {
        Ast::Binary(Binary { op: BinaryOperator::Subtract, lhs, rhs: Some(rhs) }) => {
            assert_eq!(var_name(&rhs), "c");
            match *lhs {
                Ast::Binary(Binary { op: BinaryOperator::Subtract, lhs, rhs: Some(rhs) }) => {
                    assert_eq!(var_name(&lhs), "a");
                    assert_eq!(var_name(&rhs), "b");
                }
                _ => panic!("left operand should be a - b"),
            }
        }
        _ => panic!("expected a subtraction at the root"),
    }
}

#[test]
fn assignment_groups_right() {
    let (ast, errors) = parse("a = b = c");
    assert!(errors.is_empty());
    match ast {
        Ast::Binary(Binary { op: BinaryOperator::Assign, lhs, rhs: Some(rhs) }) => {
            assert_eq!(var_name(&lhs), "a");
            match *rhs {
                Ast::Binary(Binary { op: BinaryOperator::Assign, lhs, rhs: Some(rhs) }) => {
                    assert_eq!(var_name(&lhs), "b");
                    assert_eq!(var_name(&rhs), "c");
                }
                _ => panic!("right operand should be b = c"),
            }
        }
        _ => panic!("expected an assignment at the root"),
    }
}

#[test]
fn conditional_groups_right() {
    let (ast, errors) = parse("a ? b : c ? d : e");
    assert!(errors.is_empty());
    match ast {
        Ast::Ternary(Ternary { condition, success, failure: Some(failure), .. }) => {
            assert_eq!(var_name(&condition), "a");
            assert_eq!(var_name(&success), "b");
            match *failure {
                Ast::Ternary(Ternary { condition, success, failure: Some(failure), .. }) => {
                    assert_eq!(var_name(&condition), "c");
                    assert_eq!(var_name(&success), "d");
                    assert_eq!(var_name(&failure), "e");
                }
                _ => panic!("failure branch should be an inner conditional"),
            }
        }
        _ => panic!("expected a conditional at the root"),
    }
}

#[test]
fn indirection_of_postfix_increment() {
    let (ast, errors) = parse("*p++");
    assert!(errors.is_empty());
    match ast {
        Ast::Unary(Unary { op: UnaryOperator::Indirection, arg: Some(arg) }) => match *arg {
            Ast::Unary(Unary { op: UnaryOperator::PostfixIncrement, arg: Some(arg) }) => {
                assert_eq!(var_name(&arg), "p");
            }
            _ => panic!("operand should be a postfix increment"),
        },
        _ => panic!("expected an indirection at the root"),
    }
}

#[test]
fn missing_operand_is_reported() {
    let (_, errors) = parse("a +");
    assert!(errors.iter().any(|e| e.is_error()));
}

#[test]
fn parens_and_lists() {
    let (ast, errors) = parse("(a + b) * c");
    assert!(errors.is_empty());
    assert!(matches!(
        ast,
        Ast::Binary(Binary { op: BinaryOperator::Multiply, .. })
    ));
    let (ast, errors) = parse("{ a, b, c }");
    assert!(errors.is_empty());
    assert!(matches!(ast, Ast::ListInitialiser(v) if v.len() == 3));
}

#[test]
fn statements_form_a_block() {
    let (ast, errors) = parse("a = 1; b = 2;");
    assert!(errors.is_empty());
    assert!(matches!(ast, Ast::Block(v) if v.len() == 2));
}

#[test]
fn declarations_take_attribute_keywords() {
    let (ast, errors) = parse("int x = 1;");
    assert!(errors.is_empty(), "a declaration is no longer an error");
    match ast {
        Ast::Block(stmts) => {
            assert_eq!(stmts.len(), 1);
            match &stmts[0] {
                Ast::Declaration(d) => {
                    assert_eq!(d.attrs.len(), 1);
                    assert!(matches!(
                        &*d.inner,
                        Ast::Binary(Binary { op: BinaryOperator::Assign, .. })
                    ));
                }
                _ => panic!("the statement should be a declaration"),
            }
        }
        _ => panic!("statements gather into a block"),
    }
    let (ast, errors) = parse("unsigned long long v");
    assert!(errors.is_empty());
    assert!(matches!(ast, Ast::Declaration(d) if d.attrs.len() == 3));
}

#[test]
fn empty_input_parses_to_nothing() {
    let (ast, errors) = parse("");
    assert!(errors.is_empty());
    assert!(matches!(ast, Ast::Empty));
}

#[test]
fn keyword_literals() {
    let (ast, errors) = parse("a = true");
    assert!(errors.is_empty());
    match ast {
        Ast::Binary(Binary { rhs: Some(rhs), .. }) => {
            assert!(matches!(*rhs, Ast::Leaf(Literal::ConstantBool(true))));
        }
        _ => panic!("expected an assignment"),
    }
}
