use rlox::expr::Expr;
use rlox::parser::{Parser, ParserError};
use rlox::scanner::Scanner;
use rlox::token_type::TokenType;

fn parse_source(source: &str) -> Result<Expr, ParserError> {
    let (tokens, errors) = Scanner::new(source).scan_tokens();
    assert!(errors.is_empty());
    Parser::new(tokens).parse()
}

fn rendered(source: &str) -> String {
    parse_source(source).unwrap().render()
}

#[test]
fn subtraction_is_left_associative() {
    // "1-2-3" parses equivalently to "(1-2)-3".
    assert_eq!(rendered("1-2-3"), "((1 - 2) - 3)");
}

#[test]
fn double_negation_nests() {
    assert_eq!(rendered("--1"), "(-(-1))");
}

#[test]
fn multiplication_binds_tighter_than_addition() {
    // "2*3" is the right operand of "+".
    assert_eq!(rendered("1+2*3"), "(1 + (2 * 3))");
}

#[test]
fn grouping_round_trip() {
    // The parsed tree of "(1+2)" renders back to an outer-grouping,
    // operator-infix form.
    assert_eq!(rendered("(1+2)"), "((1 + 2))");
}

#[test]
fn comparison_and_equality_levels() {
    assert_eq!(rendered("1<2==3>4"), "((1 < 2) == (3 > 4))");
}

#[test]
fn unary_binds_tighter_than_factor() {
    assert_eq!(rendered("-1*2"), "((-1) * 2)");
}

#[test]
fn missing_close_paren_reports_eof() {
    match parse_source("(1") {
        Err(ParserError::UnexpectedEOF { message }) => {
            assert_eq!(
                message,
                "Expected ')' after grouping expression but no token left!"
            );
        }
        other => panic!("expected an end-of-input error, got {:?}", other),
    }
}

#[test]
fn wrong_close_token_names_expected_paren() {
    match parse_source("(1 2") {
        Err(ParserError::UnexpectedToken { expected, found }) => {
            assert_eq!(expected, ")");
            assert_eq!(found.typ, TokenType::NUMBER(2f64.to_bits()));
        }
        other => panic!("expected an unexpected-token error, got {:?}", other),
    }
}

#[test]
fn operator_without_operand_expects_literal() {
    match parse_source("+") {
        Err(ParserError::UnexpectedToken { expected, found }) => {
            assert_eq!(expected, "literal");
            assert_eq!(found.typ, TokenType::PLUS);
        }
        other => panic!("expected an unexpected-token error, got {:?}", other),
    }
}

#[test]
fn empty_input_reports_eof() {
    match parse_source("") {
        Err(ParserError::UnexpectedEOF { message }) => {
            assert_eq!(message, "No token left!");
        }
        other => panic!("expected an end-of-input error, got {:?}", other),
    }
}

#[test]
fn string_and_keyword_literals_parse() {
    assert_eq!(rendered("\"hi\""), "hi");
    assert_eq!(rendered("true"), "true");
    assert_eq!(rendered("false"), "false");
    assert_eq!(rendered("nil"), "nil");
}
