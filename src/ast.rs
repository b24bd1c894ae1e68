//! The expression tree produced by the parser, and its mathematical model.
use vstd::prelude::*;

use crate::record::BuildStatus;

verus! {

/// A comparison operator.
#[derive(Debug, Clone, Copy, PartialEq, Eq, Structural)]
pub enum Operator {
    EqualTo,
    NotEqualTo,
    GreaterThan,
    GreaterThanOrEqualTo,
    LessThan,
    LessThanOrEqualTo,
}

/// A field of a build record that an expression can read.
#[derive(Debug, Clone, Copy, PartialEq, Eq, Structural)]
pub enum Property {
    Branch,
    Status,
    Definition,
    Project,
    Build,
    Collector,
    Provider,
}

/// A typed value.
#[derive(Debug, Clone, PartialEq)]
pub enum Constant {
    Boolean(bool),
    Number(i64),
    Text(String),
    Status(BuildStatus),
}

/// The model of a [`Constant`]: text is a sequence of characters.
pub ghost enum ConstantView {
    Boolean(bool),
    Number(i64),
    Text(Seq<char>),
    Status(BuildStatus),
}

impl View for Constant {
    type V = ConstantView;

    open spec fn view(&self) -> ConstantView {
        match self {
            Constant::Boolean(b) => ConstantView::Boolean(*b),
            Constant::Number(n) => ConstantView::Number(*n),
            Constant::Text(t) => ConstantView::Text(t@),
            Constant::Status(s) => ConstantView::Status(*s),
        }
    }
}

/// A node of the expression tree; each node owns its children.
#[derive(Debug, PartialEq)]
pub enum Expression {
    Or(Box<Expression>, Box<Expression>),
    And(Box<Expression>, Box<Expression>),
    Not(Box<Expression>),
    Relational(Box<Expression>, Box<Expression>, Operator),
    Property(Property),
    Constant(Constant),
}

/// The model of an [`Expression`].
pub ghost enum ExprView {
    Or(Box<ExprView>, Box<ExprView>),
    And(Box<ExprView>, Box<ExprView>),
    Not(Box<ExprView>),
    Relational(Box<ExprView>, Box<ExprView>, Operator),
    Property(Property),
    Constant(ConstantView),
}

impl View for Expression {
    type V = ExprView;

    open spec fn view(&self) -> ExprView
        decreases self,
    {
        match self {
            Expression::Or(l, r) => ExprView::Or(Box::new((**l).view()), Box::new((**r).view())),
            Expression::And(l, r) => ExprView::And(Box::new((**l).view()), Box::new((**r).view())),
            Expression::Not(e) => ExprView::Not(Box::new((**e).view())),
            Expression::Relational(l, r, op) => ExprView::Relational(
                Box::new((**l).view()),
                Box::new((**r).view()),
                *op,
            ),
            Expression::Property(p) => ExprView::Property(*p),
            Expression::Constant(c) => ExprView::Constant(c@),
        }
    }
}

} // verus!
