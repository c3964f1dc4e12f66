use rlox::interpreter::{Interpreter, Value};
use rlox::run_source;
use rlox::token::Token;
use rlox::token_type::TokenType;
use rlox::{Error, RunError};

fn eval(source: &str) -> Value {
    run_source(source).unwrap()
}

fn runtime_message(source: &str) -> String {
    match run_source(source) {
        Err(RunError::Runtime(e)) => e.0,
        other => panic!("expected a runtime error, got {:?}", other),
    }
}

#[test]
fn addition_of_numbers() {
    assert_eq!(eval("1+2"), Value::Number(3f64.to_bits()));
}

#[test]
fn concatenation_of_strings() {
    assert_eq!(eval("\"a\"+\"b\""), Value::String("ab".to_string()));
}

#[test]
fn mixed_plus_is_a_runtime_error() {
    assert_eq!(
        runtime_message("1+\"a\""),
        "Operands must be two numbers or two strings"
    );
}

#[test]
fn equality_of_equal_numbers() {
    assert_eq!(eval("1==1"), Value::Bool(true));
}

#[test]
fn cross_kind_values_are_never_equal() {
    assert_eq!(eval("1==\"1\""), Value::Bool(false));
    assert_eq!(eval("nil==false"), Value::Bool(false));
}

#[test]
fn division_by_zero_gives_positive_infinity() {
    // Intentional IEEE-754 behavior, not an error.
    assert_eq!(eval("1/0"), Value::Number(f64::INFINITY.to_bits()));
}

#[test]
fn zero_over_zero_is_nan_and_unequal_to_itself() {
    match eval("0/0") {
        Value::Number(bits) => assert!(f64::from_bits(bits).is_nan()),
        other => panic!("expected a number, got {:?}", other),
    }
    assert_eq!(eval("0/0==0/0"), Value::Bool(false));
}

#[test]
fn arithmetic_operators() {
    assert_eq!(eval("7-2"), Value::Number(5f64.to_bits()));
    assert_eq!(eval("3*4"), Value::Number(12f64.to_bits()));
    assert_eq!(eval("9/2"), Value::Number(4.5f64.to_bits()));
    assert_eq!(eval("2.5*2"), Value::Number(5f64.to_bits()));
}

#[test]
fn unary_negation_requires_number() {
    assert_eq!(eval("-3"), Value::Number((-3f64).to_bits()));
    assert_eq!(eval("--3"), Value::Number(3f64.to_bits()));
    assert_eq!(runtime_message("-\"a\""), "Operand must be a number");
}

#[test]
fn logical_not_requires_strict_boolean() {
    assert_eq!(eval("!true"), Value::Bool(false));
    assert_eq!(eval("!!true"), Value::Bool(true));
    // Strict-boolean policy: no general truthiness.
    assert_eq!(runtime_message("!1"), "Operand must be a boolean");
    assert_eq!(runtime_message("!nil"), "Operand must be a boolean");
}

#[test]
fn comparisons_require_numbers() {
    assert_eq!(eval("1<2"), Value::Bool(true));
    assert_eq!(eval("2<=2"), Value::Bool(true));
    assert_eq!(eval("3>4"), Value::Bool(false));
    assert_eq!(eval("4>=4"), Value::Bool(true));
    assert_eq!(runtime_message("1<\"a\""), "Operands must be numbers");
}

#[test]
fn inequality_is_negated_equality() {
    assert_eq!(eval("1!=1"), Value::Bool(false));
    assert_eq!(eval("1!=2"), Value::Bool(true));
    assert_eq!(eval("\"a\"!=\"b\""), Value::Bool(true));
}

#[test]
fn grouping_changes_evaluation_order() {
    assert_eq!(eval("(1+2)*3"), Value::Number(9f64.to_bits()));
    assert_eq!(eval("1+2*3"), Value::Number(7f64.to_bits()));
}

#[test]
fn value_rendering() {
    assert_eq!(eval("1+2").render(), "3");
    assert_eq!(eval("2.5*2").render(), "5");
    assert_eq!(eval("\"a\"+\"b\"").render(), "ab");
    assert_eq!(eval("!false").render(), "true");
    assert_eq!(eval("1/0").render(), "inf");
    assert_eq!(eval("-1/0").render(), "-inf");
    assert_eq!(eval("0/0").render(), "NaN");
    assert_eq!(run_source("nil").unwrap().render(), "nil");
}

#[test]
fn unsupported_variant_names_its_kind() {
    let expr = rlox::expr::Expr::Variable {
        name: Token::new(TokenType::IDENTIFIER, "x".to_string(), 1),
    };
    let interpreter = Interpreter::new();
    match interpreter.interpret(&expr) {
        Err(e) => assert_eq!(e.0, "Unsupported expression: Variable"),
        Ok(v) => panic!("expected a runtime error, got {:?}", v),
    }
}

#[test]
fn scan_error_fails_the_whole_run() {
    // A run that saw any scan error is failed, in the lex/parse class.
    match run_source("\"abc") {
        Err(e @ RunError::Scan(_)) => assert_eq!(e.class(), Error::ParserError),
        other => panic!("expected a scan failure, got {:?}", other),
    }
}

#[test]
fn parse_error_class_is_parser_error() {
    match run_source("(1") {
        Err(e @ RunError::Parse(_)) => assert_eq!(e.class(), Error::ParserError),
        other => panic!("expected a parse failure, got {:?}", other),
    }
}

#[test]
fn runtime_error_class_is_runtime() {
    match run_source("1+\"a\"") {
        Err(e @ RunError::Runtime(_)) => assert_eq!(e.class(), Error::RuntimeError),
        other => panic!("expected a runtime failure, got {:?}", other),
    }
}
