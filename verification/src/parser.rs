//! The recursive-descent expression parser.
//!
//! Grammar, lowest to highest precedence, binary rules left-associative:
//!
//! ```text
//! expression := equality
//! equality   := comparison ( ("!=" | "==") comparison )*
//! comparison := term ( (">" | ">=" | "<" | "<=") term )*
//! term       := factor ( ("-" | "+") factor )*
//! factor     := unary ( ("/" | "*") unary )*
//! unary      := ("!" | "-") unary | primary
//! primary    := NUMBER | STRING | "true" | "false" | "nil" | "(" expression ")"
//! ```
//!
//! The four binary rules differ only in their operator set, so both the model
//! and the parser treat them as one rule indexed by a precedence level:
//! 0 factor, 1 term, 2 comparison, 3 equality. The model functions
//! [`p_expression`] and friends give, for every token sequence and position,
//! the exact parse result and how many tokens it consumes; `Parser::parse` is
//! proved to return exactly that result. Parsing is strictly left-to-right
//! with one token of lookahead, stops at the first error, and does not check
//! for trailing tokens after a complete expression.

use crate::expr::{Expr, ExprV};
use crate::token::{token_views, Token, TokenV};
use crate::token_type::{Literal, LiteralV, TokenType, TokenTypeV};
use vstd::prelude::*;

verus! {

/// A parse failure: the unexpected token with what was expected instead, or
/// an exhausted token stream.
#[derive(Debug, Clone, PartialEq)]
pub enum ParserError {
    UnexpectedToken { expected: String, found: Token },
    UnexpectedEOF { message: String },
}

/// The mathematical shape of a parse failure.
pub enum ParserErrorV {
    UnexpectedToken { expected: Seq<char>, found: TokenV },
    UnexpectedEOF { message: Seq<char> },
}

impl View for ParserError {
    type V = ParserErrorV;

    open spec fn view(&self) -> ParserErrorV {
        match self {
            ParserError::UnexpectedToken { expected, found } => ParserErrorV::UnexpectedToken {
                expected: expected@,
                found: found@,
            },
            ParserError::UnexpectedEOF { message } => ParserErrorV::UnexpectedEOF {
                message: message@,
            },
        }
    }
}

/// The next token, with the end-of-input token filtered out: the parser never
/// consumes it.
pub open spec fn peek_v(toks: Seq<TokenV>, i: nat) -> Option<TokenV> {
    if i < toks.len() && !(toks[i as int].typ is EOF) {
        Some(toks[i as int])
    } else {
        None
    }
}

/// How many tokens remain from position `i`; the termination measure of the
/// parse model.
pub open spec fn parse_fuel(toks: Seq<TokenV>, i: nat) -> nat {
    if i <= toks.len() {
        (toks.len() - i) as nat
    } else {
        0
    }
}

/// The operator set of each binary precedence level.
pub open spec fn level_op(level: nat, t: TokenTypeV) -> bool {
    if level == 0 {
        t is SLASH || t is STAR
    } else if level == 1 {
        t is MINUS || t is PLUS
    } else if level == 2 {
        t is GREATER || t is GREATER_EQUAL || t is LESS || t is LESS_EQUAL
    } else {
        t is BANG_EQUAL || t is EQUAL_EQUAL
    }
}

/// The parse of a primary expression at `i`: a literal, or a parenthesised
/// expression. `Ok` carries the tree and the count of tokens consumed.
pub open spec fn p_primary(toks: Seq<TokenV>, i: nat) -> Result<(ExprV, nat), ParserErrorV>
    decreases parse_fuel(toks, i), 0int,
{
    match peek_v(toks, i) {
        None => Err(ParserErrorV::UnexpectedEOF { message: "No token left!"@ }),
        Some(t) => match t.typ {
            TokenTypeV::FALSE => Ok((ExprV::Literal { value: LiteralV::False }, 1)),
            TokenTypeV::TRUE => Ok((ExprV::Literal { value: LiteralV::True }, 1)),
            TokenTypeV::NIL => Ok((ExprV::Literal { value: LiteralV::Nil }, 1)),
            TokenTypeV::NUMBER(n) => Ok((ExprV::Literal { value: LiteralV::Number(n) }, 1)),
            TokenTypeV::STRING(s) => Ok((ExprV::Literal { value: LiteralV::String(s) }, 1)),
            TokenTypeV::LEFT_PAREN => match p_expression(toks, (i + 1) as nat) {
                Err(e) => Err(e),
                Ok(pair) => match peek_v(toks, (i + 1 + pair.1) as nat) {
                    Some(t2) => if t2.typ is RIGHT_PAREN {
                        Ok((ExprV::Grouping { expression: Box::new(pair.0) }, (pair.1 + 2) as nat))
                    } else {
                        Err(ParserErrorV::UnexpectedToken { expected: ")"@, found: t2 })
                    },
                    None => Err(
                        ParserErrorV::UnexpectedEOF {
                            message: "Expected ')' after grouping expression but no token left!"@,
                        },
                    ),
                },
            },
            _ => Err(ParserErrorV::UnexpectedToken { expected: "literal"@, found: t }),
        },
    }
}

/// The parse of a unary expression at `i`: `!` or `-` applied to a unary
/// expression (right-associative), else a primary expression.
pub open spec fn p_unary(toks: Seq<TokenV>, i: nat) -> Result<(ExprV, nat), ParserErrorV>
    decreases parse_fuel(toks, i), 1int,
{
    let p = peek_v(toks, i);
    if p is Some && ((p->0).typ is BANG || (p->0).typ is MINUS) {
        match p_unary(toks, (i + 1) as nat) {
            Ok(pair) => Ok(
                (ExprV::Unary { operator: p->0, right: Box::new(pair.0) }, (pair.1 + 1) as nat),
            ),
            Err(e) => Err(e),
        }
    } else {
        p_primary(toks, i)
    }
}

/// The operand of a binary level: the next level down, or a unary expression
/// at the bottom.
pub open spec fn p_operand(toks: Seq<TokenV>, i: nat, level: nat) -> Result<
    (ExprV, nat),
    ParserErrorV,
>
    decreases parse_fuel(toks, i), 3 * level + 2,
{
    if level == 0 {
        p_unary(toks, i)
    } else {
        p_binary(toks, i, (level - 1) as nat)
    }
}

/// The left fold of a binary level from `j`: while the next token is one of
/// the level's operators, consume it and fold a new node with the next
/// operand. `Ok` carries the folded tree and the count of tokens consumed
/// from `j` on.
pub open spec fn p_more(toks: Seq<TokenV>, j: nat, acc: ExprV, level: nat) -> Result<
    (ExprV, nat),
    ParserErrorV,
>
    decreases parse_fuel(toks, j), 3 * level + 3,
{
    let p = peek_v(toks, j);
    if p is Some && level_op(level, (p->0).typ) {
        match p_operand(toks, (j + 1) as nat, level) {
            Err(e) => Err(e),
            Ok(pair) => match p_more(
                toks,
                (j + 1 + pair.1) as nat,
                ExprV::Binary { left: Box::new(acc), operator: p->0, right: Box::new(pair.0) },
                level,
            ) {
                Err(e) => Err(e),
                Ok(pair2) => Ok((pair2.0, (1 + pair.1 + pair2.1) as nat)),
            },
        }
    } else {
        Ok((acc, 0))
    }
}

/// The parse of one binary precedence level at `i`: one operand, then the
/// left fold of the level's operators.
pub open spec fn p_binary(toks: Seq<TokenV>, i: nat, level: nat) -> Result<
    (ExprV, nat),
    ParserErrorV,
>
    decreases parse_fuel(toks, i), 3 * level + 4,
{
    match p_operand(toks, i, level) {
        Err(e) => Err(e),
        Ok(pair) => match p_more(toks, (i + pair.1) as nat, pair.0, level) {
            Err(e) => Err(e),
            Ok(pair2) => Ok((pair2.0, (pair.1 + pair2.1) as nat)),
        },
    }
}

/// The parse of a whole expression at `i`: the lowest-precedence level.
pub open spec fn p_expression(toks: Seq<TokenV>, i: nat) -> Result<(ExprV, nat), ParserErrorV>
    decreases parse_fuel(toks, i), 14int,
{
    p_binary(toks, i, 3)
}

/// How an execution step relates to the model: on success the consumed count
/// matches the movement of the cursor; on failure the errors agree.
pub open spec fn parse_rel(
    m: Result<(ExprV, nat), ParserErrorV>,
    r: Result<Expr, ParserError>,
    i0: nat,
    i1: nat,
) -> bool {
    match r {
        Ok(e) => i1 > i0 && m == Ok::<(ExprV, nat), ParserErrorV>((e@, (i1 - i0) as nat)),
        Err(pe) => m == Err::<(ExprV, nat), ParserErrorV>(pe@),
    }
}

/// The parser: an owned token sequence and a cursor, moved strictly left to
/// right with one token of lookahead.
pub struct Parser {
    tokens: Vec<Token>,
    current: usize,
}

impl Parser {
    /// The token sequence being parsed.
    pub closed spec fn toks(&self) -> Seq<TokenV> {
        token_views(self.tokens@)
    }

    /// The cursor stands at the first token.
    pub closed spec fn at_start(&self) -> bool {
        self.current == 0
    }

    /// The cursor is within bounds.
    spec fn wf(&self) -> bool {
        self.current <= self.tokens@.len()
    }

    pub fn new(tokens: Vec<Token>) -> (p: Parser)
        ensures
            p.toks() == token_views(tokens@),
            p.at_start(),
    {
        Parser { tokens, current: 0 }
    }

    /// Parses one top-level expression, exactly as the model [`p_expression`]
    /// gives it. Trailing tokens after the expression are not checked.
    pub fn parse(self) -> (r: Result<Expr, ParserError>)
        requires
            self.at_start(),
        ensures
            (match r {
                Ok(e) => p_expression(self.toks(), 0) == Ok::<(ExprV, nat), ParserErrorV>(
                    (e@, p_expression(self.toks(), 0)->Ok_0.1),
                ),
                Err(pe) => p_expression(self.toks(), 0) == Err::<(ExprV, nat), ParserErrorV>(pe@),
            }),
    {
        let mut this = self;
        this.expression()
    }

    fn expression(&mut self) -> (r: Result<Expr, ParserError>)
        requires
            old(self).wf(),
        ensures
            final(self).wf(),
            final(self).toks() == old(self).toks(),
            final(self).current >= old(self).current,
            parse_rel(
                p_expression(old(self).toks(), old(self).current as nat),
                r,
                old(self).current as nat,
                final(self).current as nat,
            ),
        decreases parse_fuel(token_views(self.tokens@), self.current as nat), 14int,
    {
        let r = self.binary_level(3);
        proof {
            assert(p_expression(old(self).toks(), old(self).current as nat) == p_binary(
                old(self).toks(),
                old(self).current as nat,
                3,
            ));
        }
        r
    }

    /// One binary precedence level: an operand, then a left fold over the
    /// level's operators.
    fn binary_level(&mut self, level: u8) -> (r: Result<Expr, ParserError>)
        requires
            old(self).wf(),
            level <= 3,
        ensures
            final(self).wf(),
            final(self).toks() == old(self).toks(),
            final(self).current >= old(self).current,
            parse_rel(
                p_binary(old(self).toks(), old(self).current as nat, level as nat),
                r,
                old(self).current as nat,
                final(self).current as nat,
            ),
        decreases parse_fuel(token_views(self.tokens@), self.current as nat), 3 * (level as nat) + 4,
    {
        let ghost toks = old(self).toks();
        let ghost i0 = old(self).current as nat;
        let first = self.operand(level);
        let mut expr: Expr;
        match first {
            Err(e) => {
                return Err(e);
            },
            Ok(e0) => {
                expr = e0;
            },
        }
        loop
            invariant_except_break
                self.wf(),
                level <= 3,
                toks == old(self).toks(),
                i0 == old(self).current as nat,
                self.toks() == toks,
                self.current as nat > i0,
                (match p_more(toks, self.current as nat, expr@, level as nat) {
                    Ok(pair2) => p_binary(toks, i0, level as nat) == Ok::<
                        (ExprV, nat),
                        ParserErrorV,
                    >((pair2.0, ((self.current as nat - i0) + pair2.1) as nat)),
                    Err(e) => p_binary(toks, i0, level as nat) == Err::<
                        (ExprV, nat),
                        ParserErrorV,
                    >(e),
                }),
            ensures
                self.wf(),
                self.toks() == toks,
                self.current as nat > i0,
                p_binary(toks, i0, level as nat) == Ok::<(ExprV, nat), ParserErrorV>(
                    (expr@, (self.current as nat - i0) as nat),
                ),
            decreases parse_fuel(toks, self.current as nat), 0int,
        {
            let has_op = self.next_is_level_op(level);
            if !has_op {
                proof {
                    lemma_p_more_stop(toks, expr@, self.current as nat, level as nat);
                }
                break ;
            }
            let ghost cur1 = self.current as nat;
            let operator = self.take_operator();
            let right = self.operand(level);
            match right {
                Err(e) => {
                    proof {
                        lemma_p_more_step_err(toks, expr@, cur1, level as nat, e@);
                    }
                    return Err(e);
                },
                Ok(r2) => {
                    let ghost old_expr = expr@;
                    let ghost n2 = (self.current as nat - (cur1 + 1)) as nat;
                    proof {
                        lemma_p_more_step_ok(toks, old_expr, cur1, level as nat, r2@, n2);
                    }
                    expr = Expr::Binary { left: Box::new(expr), operator, right: Box::new(r2) };
                    proof {
                        assert(expr@ == (ExprV::Binary {
                            left: Box::new(old_expr),
                            operator: peek_v(toks, cur1)->0,
                            right: Box::new(r2@),
                        }));
                    }
                },
            }
        }
        Ok(expr)
    }

    /// The operand of a binary level: the next level down, or a unary
    /// expression at the bottom.
    fn operand(&mut self, level: u8) -> (r: Result<Expr, ParserError>)
        requires
            old(self).wf(),
            level <= 3,
        ensures
            final(self).wf(),
            final(self).toks() == old(self).toks(),
            final(self).current >= old(self).current,
            parse_rel(
                p_operand(old(self).toks(), old(self).current as nat, level as nat),
                r,
                old(self).current as nat,
                final(self).current as nat,
            ),
        decreases parse_fuel(token_views(self.tokens@), self.current as nat), 3 * (level as nat) + 2,
    {
        if level == 0 {
            self.unary()
        } else {
            self.binary_level(level - 1)
        }
    }

    /// A unary expression: `!` or `-` applied recursively, else a primary.
    fn unary(&mut self) -> (r: Result<Expr, ParserError>)
        requires
            old(self).wf(),
        ensures
            final(self).wf(),
            final(self).toks() == old(self).toks(),
            final(self).current >= old(self).current,
            parse_rel(
                p_unary(old(self).toks(), old(self).current as nat),
                r,
                old(self).current as nat,
                final(self).current as nat,
            ),
        decreases parse_fuel(token_views(self.tokens@), self.current as nat), 1int,
    {
        let is_un = self.next_is_unary_op();
        if is_un {
            let operator = self.take_operator();
            let right = self.unary();
            match right {
                Err(e) => Err(e),
                Ok(r2) => Ok(Expr::Unary { operator, right: Box::new(r2) }),
            }
        } else {
            self.primary()
        }
    }

    /// A primary expression: a literal, or a parenthesised expression that
    /// must be closed by a matching parenthesis.
    fn primary(&mut self) -> (r: Result<Expr, ParserError>)
        requires
            old(self).wf(),
        ensures
            final(self).wf(),
            final(self).toks() == old(self).toks(),
            final(self).current >= old(self).current,
            parse_rel(
                p_primary(old(self).toks(), old(self).current as nat),
                r,
                old(self).current as nat,
                final(self).current as nat,
            ),
        decreases parse_fuel(token_views(self.tokens@), self.current as nat), 0int,
    {
        let ghost toks = old(self).toks();
        let ghost i0 = old(self).current as nat;
        let next = self.peek_clone();
        match next {
            None => Err(
                ParserError::UnexpectedEOF { message: String::from_str("No token left!") },
            ),
            Some(t) => match t.typ {
                TokenType::FALSE => {
                    self.advance_cursor();
                    Ok(Expr::Literal { value: Literal::False })
                },
                TokenType::TRUE => {
                    self.advance_cursor();
                    Ok(Expr::Literal { value: Literal::True })
                },
                TokenType::NIL => {
                    self.advance_cursor();
                    Ok(Expr::Literal { value: Literal::Nil })
                },
                TokenType::NUMBER(n) => {
                    self.advance_cursor();
                    Ok(Expr::Literal { value: Literal::Number(n) })
                },
                TokenType::STRING(s) => {
                    self.advance_cursor();
                    Ok(Expr::Literal { value: Literal::String(s) })
                },
                TokenType::LEFT_PAREN => {
                    self.advance_cursor();
                    let inner = self.expression();
                    match inner {
                        Err(e) => Err(e),
                        Ok(e1) => {
                            let ghost n1 = self.current as nat - (i0 + 1);
                            let close = self.peek_clone();
                            match close {
                                Some(t2) => {
                                    if matches!(t2.typ, TokenType::RIGHT_PAREN) {
                                        self.advance_cursor();
                                        Ok(Expr::Grouping { expression: Box::new(e1) })
                                    } else {
                                        Err(
                                            ParserError::UnexpectedToken {
                                                expected: String::from_str(")"),
                                                found: t2,
                                            },
                                        )
                                    }
                                },
                                None => Err(
                                    ParserError::UnexpectedEOF {
                                        message: String::from_str(
                                            "Expected ')' after grouping expression but no token left!",
                                        ),
                                    },
                                ),
                            }
                        },
                    }
                },
                _ => Err(
                    ParserError::UnexpectedToken {
                        expected: String::from_str("literal"),
                        found: t,
                    },
                ),
            },
        }
    }

    /// A clone of the next token, with end-of-input filtered out.
    fn peek_clone(&self) -> (r: Option<Token>)
        requires
            self.wf(),
        ensures
            (match r {
                Some(t) => peek_v(self.toks(), self.current as nat) == Some(t@) && self.current
                    < self.tokens@.len(),
                None => peek_v(self.toks(), self.current as nat) is None,
            }),
    {
        if self.current >= self.tokens.len() {
            return None;
        }
        let t = &self.tokens[self.current];
        proof {
            assert(self.toks()[self.current as int] == self.tokens@[self.current as int]@);
        }
        if matches!(t.typ, TokenType::EOF) {
            None
        } else {
            Some(t.clone())
        }
    }

    /// Whether the next token is one of the given level's operators.
    fn next_is_level_op(&self, level: u8) -> (r: bool)
        requires
            self.wf(),
        ensures
            r == ({
                let p = peek_v(self.toks(), self.current as nat);
                p is Some && level_op(level as nat, (p->0).typ)
            }),
            r ==> self.current < self.tokens@.len(),
    {
        if self.current >= self.tokens.len() {
            return false;
        }
        let t = &self.tokens[self.current];
        proof {
            assert(self.toks()[self.current as int] == self.tokens@[self.current as int]@);
        }
        if level == 0 {
            matches!(t.typ, TokenType::SLASH | TokenType::STAR)
        } else if level == 1 {
            matches!(t.typ, TokenType::MINUS | TokenType::PLUS)
        } else if level == 2 {
            matches!(
                t.typ,
                TokenType::GREATER | TokenType::GREATER_EQUAL | TokenType::LESS
                    | TokenType::LESS_EQUAL
            )
        } else {
            matches!(t.typ, TokenType::BANG_EQUAL | TokenType::EQUAL_EQUAL)
        }
    }

    /// Whether the next token starts a unary expression.
    fn next_is_unary_op(&self) -> (r: bool)
        requires
            self.wf(),
        ensures
            r == ({
                let p = peek_v(self.toks(), self.current as nat);
                p is Some && ((p->0).typ is BANG || (p->0).typ is MINUS)
            }),
            r ==> self.current < self.tokens@.len(),
    {
        if self.current >= self.tokens.len() {
            return false;
        }
        let t = &self.tokens[self.current];
        proof {
            assert(self.toks()[self.current as int] == self.tokens@[self.current as int]@);
        }
        matches!(t.typ, TokenType::BANG | TokenType::MINUS)
    }

    /// Clones the token under the cursor and moves past it.
    fn take_operator(&mut self) -> (r: Token)
        requires
            old(self).wf(),
            old(self).current < old(self).tokens@.len(),
        ensures
            final(self).wf(),
            final(self).toks() == old(self).toks(),
            final(self).current == old(self).current + 1,
            r@ == old(self).toks()[old(self).current as int],
    {
        proof {
            assert(self.toks()[self.current as int] == self.tokens@[self.current as int]@);
        }
        let n = self.tokens.len();
        proof {
            assert(self.current < n);
        }
        let t = self.tokens[self.current].clone();
        self.current = self.current + 1;
        t
    }

    /// Moves past the token under the cursor.
    fn advance_cursor(&mut self)
        requires
            old(self).wf(),
            old(self).current < old(self).tokens@.len(),
        ensures
            final(self).wf(),
            final(self).toks() == old(self).toks(),
            final(self).current == old(self).current + 1,
    {
        let n = self.tokens.len();
        proof {
            assert(self.current < n);
        }
        self.current = self.current + 1;
    }
}

/// The fold of a level stops where the next token is not one of its
/// operators: nothing more is consumed.
proof fn lemma_p_more_stop(toks: Seq<TokenV>, acc: ExprV, j: nat, level: nat)
    requires
        !({ let p = peek_v(toks, j); p is Some && level_op(level, (p->0).typ) }),
    ensures
        p_more(toks, j, acc, level) == Ok::<(ExprV, nat), ParserErrorV>((acc, 0)),
{
}

/// One failing fold step: the operand after the operator fails, and the fold
/// hands that failure on.
proof fn lemma_p_more_step_err(toks: Seq<TokenV>, acc: ExprV, j: nat, level: nat, e: ParserErrorV)
    requires
        ({ let p = peek_v(toks, j); p is Some && level_op(level, (p->0).typ) }),
        p_operand(toks, (j + 1) as nat, level) == Err::<(ExprV, nat), ParserErrorV>(e),
    ensures
        p_more(toks, j, acc, level) == Err::<(ExprV, nat), ParserErrorV>(e),
{
}

/// One successful fold step: the operator and its operand are consumed, the
/// accumulated tree becomes the left side of a new node, and the fold goes on.
proof fn lemma_p_more_step_ok(toks: Seq<TokenV>, acc: ExprV, j: nat, level: nat, e2: ExprV, n2: nat)
    requires
        ({ let p = peek_v(toks, j); p is Some && level_op(level, (p->0).typ) }),
        p_operand(toks, (j + 1) as nat, level) == Ok::<(ExprV, nat), ParserErrorV>((e2, n2)),
    ensures
        p_more(toks, j, acc, level) == (match p_more(
            toks,
            (j + 1 + n2) as nat,
            ExprV::Binary {
                left: Box::new(acc),
                operator: peek_v(toks, j)->0,
                right: Box::new(e2),
            },
            level,
        ) {
            Err(e) => Err::<(ExprV, nat), ParserErrorV>(e),
            Ok(pair2) => Ok::<(ExprV, nat), ParserErrorV>((pair2.0, (1 + n2 + pair2.1) as nat)),
        }),
{
}

} // verus!
