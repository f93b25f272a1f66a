//! Abstract syntax for `for` expressions: comprehensions that project one
//! collection into a new list or object, optionally filtering the elements
//! and grouping the values of equal keys.

pub mod expression;
pub mod for_expr;
pub mod identifier;

pub use expression::{BinaryOp, BinaryOperator, Expression};
pub use for_expr::{ForExpr, ForIntro, ForListExpr, ForObjectExpr};
pub use identifier::Identifier;
