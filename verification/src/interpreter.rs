//! The tree-walking evaluator: a post-order recursive walk that applies each
//! operator's dynamic type contract.
//!
//! The model [`eval_expr`] gives the exact value or failure of every
//! expression tree; `Interpreter::interpret` is proved to return it. Only
//! `Literal`, `Grouping`, `Unary` and `Binary` are interpreted; every other
//! variant fails with a runtime error naming its kind, since no binding
//! environment exists in this core.

use crate::expr::{Expr, ExprV};
use crate::numeric::{
    add_bits, div_bits, mul_bits, neg_bits, num_add, num_cmp, num_div, num_eq, num_ge, num_gt,
    num_le, num_lt, num_mul, num_neg, num_sub, render_number, render_number_spec, sub_bits,
};
use crate::token::{Token, TokenV};
use crate::token_type::{Literal, LiteralV, TokenType, TokenTypeV};
use vstd::prelude::*;

verus! {

/// A runtime failure, carrying a human-readable message.
#[derive(Debug, Clone, PartialEq)]
pub struct RuntimeError(pub String);

/// The mathematical shape of a runtime failure.
pub struct RuntimeErrorV {
    pub message: Seq<char>,
}

impl View for RuntimeError {
    type V = RuntimeErrorV;

    open spec fn view(&self) -> RuntimeErrorV {
        RuntimeErrorV { message: self.0@ }
    }
}

/// A runtime value: the tagged union of the language's four kinds. A number
/// is the bit pattern of the IEEE-754 double it denotes.
#[derive(Debug, Clone, PartialEq)]
pub enum Value {
    String(String),
    Number(u64),
    Bool(bool),
    Nil,
}

/// The mathematical shape of a runtime value.
pub enum ValueV {
    String(Seq<char>),
    Number(u64),
    Bool(bool),
    Nil,
}

impl View for Value {
    type V = ValueV;

    open spec fn view(&self) -> ValueV {
        match self {
            Value::String(s) => ValueV::String(s@),
            Value::Number(n) => ValueV::Number(*n),
            Value::Bool(b) => ValueV::Bool(*b),
            Value::Nil => ValueV::Nil,
        }
    }
}

/// Structural equality over values: values of differing kinds are never
/// equal; numbers compare by IEEE-754 equality, so a NaN equals nothing.
pub open spec fn value_eq_spec(a: ValueV, b: ValueV) -> bool {
    match (a, b) {
        (ValueV::String(x), ValueV::String(y)) => x == y,
        (ValueV::Number(x), ValueV::Number(y)) => num_eq(x, y),
        (ValueV::Bool(x), ValueV::Bool(y)) => x == y,
        (ValueV::Nil, ValueV::Nil) => true,
        _ => false,
    }
}

/// Compares two values structurally, numbers by IEEE-754 equality.
pub fn value_eq(a: &Value, b: &Value) -> (r: bool)
    ensures
        r == value_eq_spec(a@, b@),
{
    match (a, b) {
        (Value::String(x), Value::String(y)) => *x == *y,
        (Value::Number(x), Value::Number(y)) => num_cmp(*x, *y) == 1,
        (Value::Bool(x), Value::Bool(y)) => *x == *y,
        (Value::Nil, Value::Nil) => true,
        _ => false,
    }
}

/// The canonical text of a value: a string raw, a number in decimal,
/// booleans as `true`/`false`, nil as `nil`.
pub open spec fn render_value_spec(v: ValueV) -> Seq<char> {
    match v {
        ValueV::String(s) => s,
        ValueV::Number(n) => render_number_spec(n),
        ValueV::Bool(b) => if b {
            "true"@
        } else {
            "false"@
        },
        ValueV::Nil => "nil"@,
    }
}

impl Value {
    /// Renders the value to its canonical text.
    pub fn render(&self) -> (r: String)
        ensures
            r@ == render_value_spec(self@),
    {
        match self {
            Value::String(s) => s.clone(),
            Value::Number(n) => render_number(*n),
            Value::Bool(b) => if *b {
                String::from_str("true")
            } else {
                String::from_str("false")
            },
            Value::Nil => String::from_str("nil"),
        }
    }
}

/// The name of an expression kind, for the error on unsupported variants.
pub open spec fn kind_name(e: ExprV) -> Seq<char> {
    match e {
        ExprV::Assign { .. } => "Assign"@,
        ExprV::Binary { .. } => "Binary"@,
        ExprV::Call { .. } => "Call"@,
        ExprV::Get { .. } => "Get"@,
        ExprV::Grouping { .. } => "Grouping"@,
        ExprV::Literal { .. } => "Literal"@,
        ExprV::Logical { .. } => "Logical"@,
        ExprV::SetField { .. } => "Set"@,
        ExprV::Super { .. } => "Super"@,
        ExprV::This { .. } => "This"@,
        ExprV::Unary { .. } => "Unary"@,
        ExprV::Variable { .. } => "Variable"@,
    }
}

/// The result of a unary operator on an evaluated operand: `-` requires a
/// number, `!` requires a boolean.
pub open spec fn eval_unary(op: TokenV, v: ValueV) -> Result<ValueV, RuntimeErrorV> {
    if op.typ is MINUS {
        match v {
            ValueV::Number(n) => Ok(ValueV::Number(neg_bits(n))),
            _ => Err(RuntimeErrorV { message: "Operand must be a number"@ }),
        }
    } else if op.typ is BANG {
        match v {
            ValueV::Bool(b) => Ok(ValueV::Bool(!b)),
            _ => Err(RuntimeErrorV { message: "Operand must be a boolean"@ }),
        }
    } else {
        Err(RuntimeErrorV { message: "Unknown unary operator: "@ + op.lexeme })
    }
}

/// The result of a binary operator on two evaluated operands: `+` adds
/// numbers or concatenates strings; `-`, `*`, `/` and the orderings require
/// numbers, `/` with IEEE-754 division; `==` and `!=` compare any two kinds
/// structurally.
pub open spec fn eval_binary(op: TokenV, l: ValueV, r: ValueV) -> Result<ValueV, RuntimeErrorV> {
    if op.typ is PLUS {
        match (l, r) {
            (ValueV::Number(a), ValueV::Number(b)) => Ok(ValueV::Number(add_bits(a, b))),
            (ValueV::String(x), ValueV::String(y)) => Ok(ValueV::String(x + y)),
            _ => Err(RuntimeErrorV { message: "Operands must be two numbers or two strings"@ }),
        }
    } else if op.typ is MINUS {
        match (l, r) {
            (ValueV::Number(a), ValueV::Number(b)) => Ok(ValueV::Number(sub_bits(a, b))),
            _ => Err(RuntimeErrorV { message: "Operands must be numbers"@ }),
        }
    } else if op.typ is STAR {
        match (l, r) {
            (ValueV::Number(a), ValueV::Number(b)) => Ok(ValueV::Number(mul_bits(a, b))),
            _ => Err(RuntimeErrorV { message: "Operands must be numbers"@ }),
        }
    } else if op.typ is SLASH {
        match (l, r) {
            (ValueV::Number(a), ValueV::Number(b)) => Ok(ValueV::Number(div_bits(a, b))),
            _ => Err(RuntimeErrorV { message: "Operands must be numbers"@ }),
        }
    } else if op.typ is GREATER {
        match (l, r) {
            (ValueV::Number(a), ValueV::Number(b)) => Ok(ValueV::Bool(num_gt(a, b))),
            _ => Err(RuntimeErrorV { message: "Operands must be numbers"@ }),
        }
    } else if op.typ is GREATER_EQUAL {
        match (l, r) {
            (ValueV::Number(a), ValueV::Number(b)) => Ok(ValueV::Bool(num_ge(a, b))),
            _ => Err(RuntimeErrorV { message: "Operands must be numbers"@ }),
        }
    } else if op.typ is LESS {
        match (l, r) {
            (ValueV::Number(a), ValueV::Number(b)) => Ok(ValueV::Bool(num_lt(a, b))),
            _ => Err(RuntimeErrorV { message: "Operands must be numbers"@ }),
        }
    } else if op.typ is LESS_EQUAL {
        match (l, r) {
            (ValueV::Number(a), ValueV::Number(b)) => Ok(ValueV::Bool(num_le(a, b))),
            _ => Err(RuntimeErrorV { message: "Operands must be numbers"@ }),
        }
    } else if op.typ is BANG_EQUAL {
        Ok(ValueV::Bool(!value_eq_spec(l, r)))
    } else if op.typ is EQUAL_EQUAL {
        Ok(ValueV::Bool(value_eq_spec(l, r)))
    } else {
        Err(RuntimeErrorV { message: "Unknown binary operator: "@ + op.lexeme })
    }
}

/// The model of evaluation: a post-order walk, operands before operators,
/// left before right, stopping at the first failure.
pub open spec fn eval_expr(e: ExprV) -> Result<ValueV, RuntimeErrorV>
    decreases e,
{
    match e {
        ExprV::Literal { value } => match value {
            LiteralV::String(s) => Ok(ValueV::String(s)),
            LiteralV::Number(n) => Ok(ValueV::Number(n)),
            LiteralV::True => Ok(ValueV::Bool(true)),
            LiteralV::False => Ok(ValueV::Bool(false)),
            LiteralV::Nil => Ok(ValueV::Nil),
        },
        ExprV::Grouping { expression } => eval_expr(*expression),
        ExprV::Unary { operator, right } => match eval_expr(*right) {
            Err(er) => Err(er),
            Ok(v) => eval_unary(operator, v),
        },
        ExprV::Binary { left, operator, right } => match eval_expr(*left) {
            Err(er) => Err(er),
            Ok(l) => match eval_expr(*right) {
                Err(er) => Err(er),
                Ok(r) => eval_binary(operator, l, r),
            },
        },
        _ => Err(RuntimeErrorV { message: "Unsupported expression: "@ + kind_name(e) }),
    }
}

pub struct Interpreter {}

impl Interpreter {
    pub fn new() -> (r: Interpreter)
        ensures
            r == (Interpreter {  }),
    {
        Interpreter {  }
    }

    /// Evaluates an expression tree to a value or a runtime failure, exactly
    /// as the model [`eval_expr`] gives it.
    pub fn interpret(&self, expr: &Expr) -> (r: Result<Value, RuntimeError>)
        ensures
            (match r {
                Ok(v) => eval_expr(expr@) == Ok::<ValueV, RuntimeErrorV>(v@),
                Err(er) => eval_expr(expr@) == Err::<ValueV, RuntimeErrorV>(er@),
            }),
        decreases expr,
    {
        match expr {
            Expr::Literal { value } => match value {
                Literal::String(s) => Ok(Value::String(s.clone())),
                Literal::Number(n) => Ok(Value::Number(*n)),
                Literal::True => Ok(Value::Bool(true)),
                Literal::False => Ok(Value::Bool(false)),
                Literal::Nil => Ok(Value::Nil),
            },
            Expr::Grouping { expression } => self.interpret(expression),
            Expr::Unary { operator, right } => {
                let v = self.interpret(right);
                match v {
                    Err(er) => Err(er),
                    Ok(v) => apply_unary(operator, v),
                }
            },
            Expr::Binary { left, operator, right } => {
                let l = self.interpret(left);
                match l {
                    Err(er) => Err(er),
                    Ok(l) => {
                        let r2 = self.interpret(right);
                        match r2 {
                            Err(er) => Err(er),
                            Ok(r2) => apply_binary(operator, l, r2),
                        }
                    },
                }
            },
            _ => {
                let mut message = String::from_str("Unsupported expression: ");
                let kind = kind_name_exec(expr);
                message.append(kind.as_str());
                Err(RuntimeError(message))
            },
        }
    }
}

/// Applies a unary operator token to an evaluated operand.
fn apply_unary(operator: &Token, v: Value) -> (r: Result<Value, RuntimeError>)
    ensures
        (match r {
            Ok(rv) => eval_unary(operator@, v@) == Ok::<ValueV, RuntimeErrorV>(rv@),
            Err(er) => eval_unary(operator@, v@) == Err::<ValueV, RuntimeErrorV>(er@),
        }),
{
    match operator.typ {
        TokenType::MINUS => match v {
            Value::Number(n) => Ok(Value::Number(num_neg(n))),
            _ => Err(RuntimeError(String::from_str("Operand must be a number"))),
        },
        TokenType::BANG => match v {
            Value::Bool(b) => Ok(Value::Bool(!b)),
            _ => Err(RuntimeError(String::from_str("Operand must be a boolean"))),
        },
        _ => {
            let mut message = String::from_str("Unknown unary operator: ");
            message.append(operator.lexeme.as_str());
            Err(RuntimeError(message))
        },
    }
}

/// Applies a binary operator token to two evaluated operands.
fn apply_binary(operator: &Token, l: Value, r: Value) -> (res: Result<Value, RuntimeError>)
    ensures
        (match res {
            Ok(rv) => eval_binary(operator@, l@, r@) == Ok::<ValueV, RuntimeErrorV>(rv@),
            Err(er) => eval_binary(operator@, l@, r@) == Err::<ValueV, RuntimeErrorV>(er@),
        }),
{
    match operator.typ {
        TokenType::PLUS => match (l, r) {
            (Value::Number(a), Value::Number(b)) => Ok(Value::Number(num_add(a, b))),
            (Value::String(x), Value::String(y)) => {
                let mut s = x;
                s.append(y.as_str());
                Ok(Value::String(s))
            },
            _ => Err(
                RuntimeError(String::from_str("Operands must be two numbers or two strings")),
            ),
        },
        TokenType::MINUS => match (l, r) {
            (Value::Number(a), Value::Number(b)) => Ok(Value::Number(num_sub(a, b))),
            _ => Err(RuntimeError(String::from_str("Operands must be numbers"))),
        },
        TokenType::STAR => match (l, r) {
            (Value::Number(a), Value::Number(b)) => Ok(Value::Number(num_mul(a, b))),
            _ => Err(RuntimeError(String::from_str("Operands must be numbers"))),
        },
        TokenType::SLASH => match (l, r) {
            (Value::Number(a), Value::Number(b)) => Ok(Value::Number(num_div(a, b))),
            _ => Err(RuntimeError(String::from_str("Operands must be numbers"))),
        },
        TokenType::GREATER => match (l, r) {
            (Value::Number(a), Value::Number(b)) => Ok(Value::Bool(num_cmp(a, b) == 2)),
            _ => Err(RuntimeError(String::from_str("Operands must be numbers"))),
        },
        TokenType::GREATER_EQUAL => match (l, r) {
            (Value::Number(a), Value::Number(b)) => {
                let c = num_cmp(a, b);
                Ok(Value::Bool(c == 1 || c == 2))
            },
            _ => Err(RuntimeError(String::from_str("Operands must be numbers"))),
        },
        TokenType::LESS => match (l, r) {
            (Value::Number(a), Value::Number(b)) => Ok(Value::Bool(num_cmp(a, b) == 0)),
            _ => Err(RuntimeError(String::from_str("Operands must be numbers"))),
        },
        TokenType::LESS_EQUAL => match (l, r) {
            (Value::Number(a), Value::Number(b)) => {
                let c = num_cmp(a, b);
                Ok(Value::Bool(c == 0 || c == 1))
            },
            _ => Err(RuntimeError(String::from_str("Operands must be numbers"))),
        },
        TokenType::BANG_EQUAL => Ok(Value::Bool(!value_eq(&l, &r))),
        TokenType::EQUAL_EQUAL => Ok(Value::Bool(value_eq(&l, &r))),
        _ => {
            let mut message = String::from_str("Unknown binary operator: ");
            message.append(operator.lexeme.as_str());
            Err(RuntimeError(message))
        },
    }
}

/// The name of an expression's kind.
fn kind_name_exec(e: &Expr) -> (r: String)
    ensures
        r@ == kind_name(e@),
{
    match e {
        Expr::Assign { .. } => String::from_str("Assign"),
        Expr::Binary { .. } => String::from_str("Binary"),
        Expr::Call { .. } => String::from_str("Call"),
        Expr::Get { .. } => String::from_str("Get"),
        Expr::Grouping { .. } => String::from_str("Grouping"),
        Expr::Literal { .. } => String::from_str("Literal"),
        Expr::Logical { .. } => String::from_str("Logical"),
        Expr::SetField { .. } => String::from_str("Set"),
        Expr::Super { .. } => String::from_str("Super"),
        Expr::This { .. } => String::from_str("This"),
        Expr::Unary { .. } => String::from_str("Unary"),
        Expr::Variable { .. } => String::from_str("Variable"),
    }
}

} // verus!
