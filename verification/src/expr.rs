//! The expression tree: a closed variant set, each node exclusively owning
//! its children. Only `Literal`, `Grouping`, `Unary` and `Binary` are
//! interpreted by this core; the remaining variants exist structurally for
//! later extension.

use crate::numeric::{render_number, render_number_spec};
use crate::token::{Token, TokenV};
use crate::token_type::{Literal, LiteralV};
use vstd::prelude::*;

verus! {

#[derive(Debug)]
pub enum Expr {
    Assign { name: Token, value: Box<Expr> },
    Binary { left: Box<Expr>, operator: Token, right: Box<Expr> },
    Call { callee: Box<Expr>, paren: Token, arguments: Vec<Expr> },
    Get { object: Box<Expr>, name: Token },
    Grouping { expression: Box<Expr> },
    Literal { value: Literal },
    Logical { left: Box<Expr>, operator: Token, right: Box<Expr> },
    SetField { object: Box<Expr>, name: Token, value: Box<Expr> },
    Super { keyword: Token, method: Token },
    This { keyword: Token },
    Unary { operator: Token, right: Box<Expr> },
    Variable { name: Token },
}

/// The mathematical shape of an expression tree.
pub enum ExprV {
    Assign { name: TokenV, value: Box<ExprV> },
    Binary { left: Box<ExprV>, operator: TokenV, right: Box<ExprV> },
    Call { callee: Box<ExprV>, paren: TokenV, arguments: Seq<ExprV> },
    Get { object: Box<ExprV>, name: TokenV },
    Grouping { expression: Box<ExprV> },
    Literal { value: LiteralV },
    Logical { left: Box<ExprV>, operator: TokenV, right: Box<ExprV> },
    SetField { object: Box<ExprV>, name: TokenV, value: Box<ExprV> },
    Super { keyword: TokenV, method: TokenV },
    This { keyword: TokenV },
    Unary { operator: TokenV, right: Box<ExprV> },
    Variable { name: TokenV },
}

/// The view of an expression tree.
pub open spec fn expr_view(e: Expr) -> ExprV
    decreases e,
{
    match e {
        Expr::Assign { name, value } => ExprV::Assign {
            name: name@,
            value: Box::new(expr_view(*value)),
        },
        Expr::Binary { left, operator, right } => ExprV::Binary {
            left: Box::new(expr_view(*left)),
            operator: operator@,
            right: Box::new(expr_view(*right)),
        },
        Expr::Call { callee, paren, arguments } => ExprV::Call {
            callee: Box::new(expr_view(*callee)),
            paren: paren@,
            arguments: arg_views(arguments@),
        },
        Expr::Get { object, name } => ExprV::Get {
            object: Box::new(expr_view(*object)),
            name: name@,
        },
        Expr::Grouping { expression } => ExprV::Grouping {
            expression: Box::new(expr_view(*expression)),
        },
        Expr::Literal { value } => ExprV::Literal { value: value@ },
        Expr::Logical { left, operator, right } => ExprV::Logical {
            left: Box::new(expr_view(*left)),
            operator: operator@,
            right: Box::new(expr_view(*right)),
        },
        Expr::SetField { object, name, value } => ExprV::SetField {
            object: Box::new(expr_view(*object)),
            name: name@,
            value: Box::new(expr_view(*value)),
        },
        Expr::Super { keyword, method } => ExprV::Super { keyword: keyword@, method: method@ },
        Expr::This { keyword } => ExprV::This { keyword: keyword@ },
        Expr::Unary { operator, right } => ExprV::Unary {
            operator: operator@,
            right: Box::new(expr_view(*right)),
        },
        Expr::Variable { name } => ExprV::Variable { name: name@ },
    }
}

/// The views of a call's arguments, in order.
pub open spec fn arg_views(args: Seq<Expr>) -> Seq<ExprV>
    decreases args,
{
    if args.len() == 0 {
        Seq::empty()
    } else {
        arg_views(args.drop_last()).push(expr_view(args.last()))
    }
}

/// Each argument view is the view of the argument at the same position.
pub proof fn lemma_arg_views(args: Seq<Expr>)
    ensures
        arg_views(args).len() == args.len(),
        forall|i: int| 0 <= i < args.len() ==> arg_views(args)[i] == expr_view(#[trigger] args[i]),
    decreases args.len(),
{
    if args.len() > 0 {
        lemma_arg_views(args.drop_last());
        assert forall|i: int| 0 <= i < args.len() implies arg_views(args)[i] == expr_view(
            args[i],
        ) by {
            if i < args.len() - 1 {
                assert(args.drop_last()[i] == args[i]);
            }
        }
    }
}

impl View for Expr {
    type V = ExprV;

    open spec fn view(&self) -> ExprV {
        expr_view(*self)
    }
}

/// The text of a literal: a string raw, a number in its canonical decimal
/// form, the keywords as themselves.
pub open spec fn render_literal_spec(v: LiteralV) -> Seq<char> {
    match v {
        LiteralV::String(s) => s,
        LiteralV::Number(n) => render_number_spec(n),
        LiteralV::True => "true"@,
        LiteralV::False => "false"@,
        LiteralV::Nil => "nil"@,
    }
}

/// The text an expression renders to: parenthesised, operator-infix form,
/// each operator shown by its lexeme.
pub open spec fn render_expr_spec(e: ExprV) -> Seq<char>
    decreases e,
{
    match e {
        ExprV::Assign { name, value } => name.lexeme + " = "@ + render_expr_spec(*value),
        ExprV::Binary { left, operator, right } => "("@ + render_expr_spec(*left) + " "@
            + operator.lexeme + " "@ + render_expr_spec(*right) + ")"@,
        ExprV::Call { callee, paren: _, arguments } => render_expr_spec(*callee) + "("@
            + render_args_spec(arguments) + ")"@,
        ExprV::Get { object, name } => "("@ + render_expr_spec(*object) + ")."@ + name.lexeme,
        ExprV::Grouping { expression } => "("@ + render_expr_spec(*expression) + ")"@,
        ExprV::Literal { value } => render_literal_spec(value),
        ExprV::Logical { left, operator, right } => "("@ + render_expr_spec(*left) + " "@
            + operator.lexeme + " "@ + render_expr_spec(*right) + ")"@,
        ExprV::SetField { object, name, value } => "("@ + render_expr_spec(*object) + ")."@
            + name.lexeme + " = "@ + render_expr_spec(*value),
        ExprV::Super { keyword: _, method } => "super."@ + method.lexeme,
        ExprV::This { keyword: _ } => "this"@,
        ExprV::Unary { operator, right } => "("@ + operator.lexeme + render_expr_spec(*right)
            + ")"@,
        ExprV::Variable { name } => name.lexeme,
    }
}

/// The text of a call's argument list: one space before each argument.
pub open spec fn render_args_spec(args: Seq<ExprV>) -> Seq<char>
    decreases args,
{
    if args.len() == 0 {
        Seq::empty()
    } else {
        " "@ + render_expr_spec(args[0]) + render_args_spec(args.skip(1))
    }
}

impl Expr {
    /// Renders the tree back to text.
    pub fn render(&self) -> (r: String)
        ensures
            r@ == render_expr_spec(self@),
        decreases self,
    {
        match self {
            Expr::Assign { name, value } => {
                let mut s = String::new();
                s.append(name.lexeme.as_str());
                s.append(" = ");
                let v = value.render();
                s.append(v.as_str());
                s
            },
            Expr::Binary { left, operator, right } => {
                let mut s = String::new();
                s.append("(");
                let l = left.render();
                s.append(l.as_str());
                s.append(" ");
                s.append(operator.lexeme.as_str());
                s.append(" ");
                let r = right.render();
                s.append(r.as_str());
                s.append(")");
                s
            },
            Expr::Call { callee, paren: _, arguments } => {
                let mut s = callee.render();
                s.append("(");
                let ghost argviews = arg_views(arguments@);
                proof {
                    lemma_arg_views(arguments@);
                    assert(*self matches Expr::Call { arguments: a2, .. } && a2 == *arguments);
                    assert(argviews.skip(0) =~= argviews);
                }
                let ghost base = s@ + render_args_spec(argviews);
                let mut i: usize = 0;
                while i < arguments.len()
                    invariant
                        i <= arguments@.len(),
                        (*self matches Expr::Call { arguments: a2, .. } && a2 == *arguments),
                        argviews == arg_views(arguments@),
                        argviews.len() == arguments@.len(),
                        forall|k: int|
                            0 <= k < arguments@.len() ==> argviews[k] == expr_view(
                                #[trigger] arguments@[k],
                            ),
                        s@ + render_args_spec(argviews.skip(i as int)) == base,
                    decreases arguments@.len() - i,
                {
                    proof {
                        assert(argviews.skip(i as int)[0] == argviews[i as int]);
                        assert(argviews.skip(i as int).skip(1) =~= argviews.skip(i + 1));
                        assert(decreases_to!(*self => self->Call_arguments));
                        assert(self->Call_arguments == *arguments);
                        assert(decreases_to!(*arguments => arguments@));
                        assert(decreases_to!(arguments@ => arguments@[i as int]));
                    }
                    s.append(" ");
                    let a = arguments[i].render();
                    s.append(a.as_str());
                    i = i + 1;
                }
                proof {
                    assert(argviews.skip(i as int) =~= Seq::<ExprV>::empty());
                }
                s.append(")");
                s
            },
            Expr::Get { object, name } => {
                let mut s = String::new();
                s.append("(");
                let o = object.render();
                s.append(o.as_str());
                s.append(").");
                s.append(name.lexeme.as_str());
                s
            },
            Expr::Grouping { expression } => {
                let mut s = String::new();
                s.append("(");
                let e = expression.render();
                s.append(e.as_str());
                s.append(")");
                s
            },
            Expr::Literal { value } => render_literal(value),
            Expr::Logical { left, operator, right } => {
                let mut s = String::new();
                s.append("(");
                let l = left.render();
                s.append(l.as_str());
                s.append(" ");
                s.append(operator.lexeme.as_str());
                s.append(" ");
                let r = right.render();
                s.append(r.as_str());
                s.append(")");
                s
            },
            Expr::SetField { object, name, value } => {
                let mut s = String::new();
                s.append("(");
                let o = object.render();
                s.append(o.as_str());
                s.append(").");
                s.append(name.lexeme.as_str());
                s.append(" = ");
                let v = value.render();
                s.append(v.as_str());
                s
            },
            Expr::Super { keyword: _, method } => {
                let mut s = String::new();
                s.append("super.");
                s.append(method.lexeme.as_str());
                s
            },
            Expr::This { keyword: _ } => String::from_str("this"),
            Expr::Unary { operator, right } => {
                let mut s = String::new();
                s.append("(");
                s.append(operator.lexeme.as_str());
                let r = right.render();
                s.append(r.as_str());
                s.append(")");
                s
            },
            Expr::Variable { name } => {
                let mut s = String::new();
                s.append(name.lexeme.as_str());
                s
            },
        }
    }
}

/// Renders a literal payload to its text.
pub fn render_literal(value: &Literal) -> (r: String)
    ensures
        r@ == render_literal_spec(value@),
{
    match value {
        Literal::String(s) => s.clone(),
        Literal::Number(n) => render_number(*n),
        Literal::True => String::from_str("true"),
        Literal::False => String::from_str("false"),
        Literal::Nil => String::from_str("nil"),
    }
}

/// A variable reference; kept for the statement forms that are not executed
/// by this core.
#[derive(Debug, Clone)]
pub struct Variable {
    pub name: Token,
}

impl Variable {
    /// Renders the reference as its name's lexeme.
    pub fn render(&self) -> (r: String)
        ensures
            r@ == self.name.lexeme@,
    {
        let mut s = String::new();
        s.append(self.name.lexeme.as_str());
        s
    }
}

} // verus!
