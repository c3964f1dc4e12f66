//! Statement shapes. These exist for forward compatibility: the evaluator of
//! this core does not execute statements.

use crate::expr::{Expr, Variable};
use crate::token::Token;
use vstd::prelude::*;

verus! {

#[derive(Debug)]
pub enum Stmt {
    Block { statements: Vec<Stmt> },
    Class { name: Token, super_class: Variable, methods: Vec<Function> },
    Expression { expression: Expr },
    Function { name: Token, params: Vec<Token>, body: Vec<Stmt> },
    If { condition: Expr, then_branch: Box<Stmt>, else_branch: Option<Box<Stmt>> },
    Print { expression: Expr },
    Return { keyword: Token, value: Option<Expr> },
    Var { name: Token, initializer: Option<Expr> },
    While { condition: Expr, body: Box<Stmt> },
}

#[derive(Debug)]
pub struct Function {
    pub name: Token,
    pub params: Vec<Token>,
    pub body: Vec<Stmt>,
}

} // verus!
