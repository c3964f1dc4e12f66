//! Core of a small dynamically-typed expression language: a Unicode-aware
//! lexer over grapheme clusters, a recursive-descent expression parser, and a
//! tree-walking evaluator with per-operator dynamic type contracts.
//!
//! [`run_source`] chains the three stages; [`run_spec`] is the model it is
//! proved to follow exactly. A run with any scan error fails before parsing.

pub mod chars;
pub mod expr;
pub mod interpreter;
pub mod numeric;
pub mod parser;
pub mod scanner;
pub mod segment;
pub mod stmt;
pub mod token;
pub mod token_type;
pub mod utils;

use crate::interpreter::{eval_expr, Interpreter, RuntimeError, RuntimeErrorV, Value, ValueV};
use crate::parser::{p_expression, Parser, ParserError, ParserErrorV};
use crate::scanner::{error_views, lex_from, ScanError, ScanErrorV, Scanner};
use crate::segment::graphemes_of;
use crate::token::token_views;
use vstd::prelude::*;

verus! {

/// The coarse failure class of a whole run, as a driver's exit-code
/// convention sees it: lexing and parsing failures are one class, runtime
/// failures the other.
#[derive(Debug, Clone, PartialEq)]
pub enum Error {
    ParserError,
    RuntimeError,
}

/// A whole-run failure, with everything a driver needs to report it.
#[derive(Debug)]
pub enum RunError {
    Scan(Vec<ScanError>),
    Parse(ParserError),
    Runtime(RuntimeError),
}

/// The mathematical shape of a whole-run failure.
pub enum RunErrorV {
    Scan(Seq<ScanErrorV>),
    Parse(ParserErrorV),
    Runtime(RuntimeErrorV),
}

impl View for RunError {
    type V = RunErrorV;

    open spec fn view(&self) -> RunErrorV {
        match self {
            RunError::Scan(errors) => RunErrorV::Scan(error_views(errors@)),
            RunError::Parse(e) => RunErrorV::Parse(e@),
            RunError::Runtime(e) => RunErrorV::Runtime(e@),
        }
    }
}

impl RunError {
    /// The failure class of this error.
    pub fn class(&self) -> (r: Error)
        ensures
            (match self {
                RunError::Scan(_) => r == Error::ParserError,
                RunError::Parse(_) => r == Error::ParserError,
                RunError::Runtime(_) => r == Error::RuntimeError,
            }),
    {
        match self {
            RunError::Scan(_) => Error::ParserError,
            RunError::Parse(_) => Error::ParserError,
            RunError::Runtime(_) => Error::RuntimeError,
        }
    }
}

/// The model of a whole run over a cluster sequence: lex, then parse, then
/// evaluate. Any scan error fails the run; otherwise the first parse or
/// runtime error does.
pub open spec fn run_spec(cs: Seq<Seq<char>>) -> Result<ValueV, RunErrorV> {
    let out = lex_from(cs, 0, 1);
    if out.errors.len() > 0 {
        Err(RunErrorV::Scan(out.errors))
    } else {
        match p_expression(out.tokens, 0) {
            Err(pe) => Err(RunErrorV::Parse(pe)),
            Ok(pair) => match eval_expr(pair.0) {
                Err(re) => Err(RunErrorV::Runtime(re)),
                Ok(v) => Ok(v),
            },
        }
    }
}

/// Runs the three stages on source text: the resulting value, or the failure
/// that stopped the run, exactly as [`run_spec`] gives them over the source's
/// grapheme clusters.
pub fn run_source(source: &str) -> (r: Result<Value, RunError>)
    ensures
        (match r {
            Ok(v) => run_spec(graphemes_of(source@)) == Ok::<ValueV, RunErrorV>(v@),
            Err(e) => run_spec(graphemes_of(source@)) == Err::<ValueV, RunErrorV>(e@),
        }),
{
    let ghost cs = graphemes_of(source@);
    let scanner = Scanner::new(source);
    let (tokens, errors) = scanner.scan_tokens();
    proof {
        assert(token_views(tokens@) == lex_from(cs, 0, 1).tokens);
        assert(error_views(errors@) == lex_from(cs, 0, 1).errors);
    }
    if errors.len() > 0 {
        return Err(RunError::Scan(errors));
    }
    let parser = Parser::new(tokens);
    let parsed = parser.parse();
    match parsed {
        Err(pe) => Err(RunError::Parse(pe)),
        Ok(expr) => {
            let interpreter = Interpreter::new();
            let value = interpreter.interpret(&expr);
            match value {
                Err(re) => Err(RunError::Runtime(re)),
                Ok(v) => Ok(v),
            }
        },
    }
}

} // verus!
