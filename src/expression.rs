use vstd::prelude::*;

use crate::for_expr::{for_expr_same, ForExpr};
use crate::identifier::Identifier;

verus! {

/// An operator that joins two operands.
#[derive(Debug, Clone, Copy, PartialEq, Eq, Structural)]
pub enum BinaryOperator {
    Eq,
    NotEq,
    LessEq,
    GreaterEq,
    Less,
    Greater,
    Plus,
    Minus,
    Mul,
    Div,
    Mod,
    And,
    Or,
}

/// An operation on two operands, such as `x * 2` or `x > 10`.
#[derive(Debug, PartialEq, Eq)]
pub struct BinaryOp {
    pub lhs_expr: Expression,
    pub operator: BinaryOperator,
    pub rhs_expr: Expression,
}

/// A node of the expression tree. A `for` expression is one kind of node, and
/// owns the expressions it is made of.
#[derive(Debug, PartialEq, Eq)]
pub enum Expression {
    Null,
    Bool(bool),
    Number(i64),
    String(String),
    Array(Vec<Expression>),
    Variable(Identifier),
    Operation(Box<BinaryOp>),
    ForExpr(Box<ForExpr>),
}

/// `a` and `b` are the same tree: equal node by node, with the items of two
/// arrays compared one by one.
pub open spec fn expr_same(a: Expression, b: Expression) -> bool
    decreases a,
{
    match a {
        Expression::Array(xs) => {
            &&& b is Array
            &&& xs.len() == b->Array_0.len()
            &&& forall|i: int|
                0 <= i < xs.len() ==> #[trigger] expr_same(xs[i], b->Array_0[i])
        },
        Expression::Operation(op) => {
            &&& b is Operation
            &&& expr_same(op.lhs_expr, b->Operation_0.lhs_expr)
            &&& op.operator == b->Operation_0.operator
            &&& expr_same(op.rhs_expr, b->Operation_0.rhs_expr)
        },
        Expression::ForExpr(f) => b is ForExpr && for_expr_same(*f, *b->ForExpr_0),
        _ => a == b,
    }
}

impl Clone for BinaryOp {
    fn clone(&self) -> (r: BinaryOp)
        ensures
            expr_same(self.lhs_expr, r.lhs_expr),
            r.operator == self.operator,
            expr_same(self.rhs_expr, r.rhs_expr),
        decreases self,
    {
        BinaryOp {
            lhs_expr: self.lhs_expr.clone(),
            operator: self.operator,
            rhs_expr: self.rhs_expr.clone(),
        }
    }
}

impl Clone for Expression {
    fn clone(&self) -> (r: Expression)
        ensures
            expr_same(*self, r),
        decreases self,
    {
        match self {
            Expression::Null => Expression::Null,
            Expression::Bool(b) => Expression::Bool(*b),
            Expression::Number(n) => Expression::Number(*n),
            Expression::String(s) => Expression::String(s.clone()),
            Expression::Array(items) => {
                let mut out: Vec<Expression> = Vec::new();
                let mut i: usize = 0;
                while i < items.len()
                    invariant
                        i <= items.len(),
                        *self == Expression::Array(*items),
                        out.len() == i,
                        forall|j: int| 0 <= j < i ==> #[trigger] expr_same(items[j], out[j]),
                    decreases items.len() - i,
                {
                    proof {
                        broadcast use vstd::std_specs::vec::axiom_vec_index_decreases;
                        assert(decreases_to!(*self => self->Array_0));
                        assert(decreases_to!(*items => items[i as int]));
                    }
                    out.push(items[i].clone());
                    i += 1;
                }
                assert(forall|j: int| 0 <= j < items.len() ==> expr_same(items[j], out[j]));
                let r = Expression::Array(out);
                assert(expr_same(*self, r));
                r
            },
            Expression::Variable(id) => Expression::Variable(id.clone()),
            Expression::Operation(op) => Expression::Operation(Box::new((**op).clone())),
            Expression::ForExpr(f) => Expression::ForExpr(Box::new((**f).clone())),
        }
    }
}

impl From<bool> for Expression {
    fn from(v: bool) -> Expression {
        Expression::Bool(v)
    }
}

impl vstd::std_specs::convert::FromSpecImpl<bool> for Expression {
    open spec fn obeys_from_spec() -> bool {
        true
    }

    open spec fn from_spec(v: bool) -> Expression {
        Expression::Bool(v)
    }
}

impl From<i64> for Expression {
    fn from(v: i64) -> Expression {
        Expression::Number(v)
    }
}

impl vstd::std_specs::convert::FromSpecImpl<i64> for Expression {
    open spec fn obeys_from_spec() -> bool {
        true
    }

    open spec fn from_spec(v: i64) -> Expression {
        Expression::Number(v)
    }
}

impl From<String> for Expression {
    fn from(v: String) -> Expression {
        Expression::String(v)
    }
}

impl vstd::std_specs::convert::FromSpecImpl<String> for Expression {
    open spec fn obeys_from_spec() -> bool {
        true
    }

    open spec fn from_spec(v: String) -> Expression {
        Expression::String(v)
    }
}

impl From<Vec<Expression>> for Expression {
    fn from(v: Vec<Expression>) -> Expression {
        Expression::Array(v)
    }
}

impl vstd::std_specs::convert::FromSpecImpl<Vec<Expression>> for Expression {
    open spec fn obeys_from_spec() -> bool {
        true
    }

    open spec fn from_spec(v: Vec<Expression>) -> Expression {
        Expression::Array(v)
    }
}

/// An identifier used as an expression is a reference to that variable.
impl From<Identifier> for Expression {
    fn from(v: Identifier) -> Expression {
        Expression::Variable(v)
    }
}

impl vstd::std_specs::convert::FromSpecImpl<Identifier> for Expression {
    open spec fn obeys_from_spec() -> bool {
        true
    }

    open spec fn from_spec(v: Identifier) -> Expression {
        Expression::Variable(v)
    }
}

impl From<BinaryOp> for Expression {
    fn from(v: BinaryOp) -> Expression {
        Expression::Operation(Box::new(v))
    }
}

impl vstd::std_specs::convert::FromSpecImpl<BinaryOp> for Expression {
    open spec fn obeys_from_spec() -> bool {
        true
    }

    open spec fn from_spec(v: BinaryOp) -> Expression {
        Expression::Operation(Box::new(v))
    }
}

impl From<ForExpr> for Expression {
    fn from(v: ForExpr) -> Expression {
        Expression::ForExpr(Box::new(v))
    }
}

impl vstd::std_specs::convert::FromSpecImpl<ForExpr> for Expression {
    open spec fn obeys_from_spec() -> bool {
        true
    }

    open spec fn from_spec(v: ForExpr) -> Expression {
        Expression::ForExpr(Box::new(v))
    }
}

} // verus!
