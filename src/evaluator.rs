//! The evaluator: an expression tree and a build record to a typed value.
use vstd::prelude::*;

use crate::ast::{Constant, ConstantView, Expression, ExprView, Operator, Property};
use crate::record::Build;

verus! {

/// A type error met while evaluating; evaluation never aborts the process.
#[derive(Debug, Clone, Copy, PartialEq, Eq, Structural)]
pub enum EvalError {
    /// An operand of `or` is not a boolean.
    CannotEvaluateOr,
    /// An operand of `and` is not a boolean.
    CannotEvaluateAnd,
    /// The operand of `not` is not a boolean.
    CannotNegate,
    /// The operands do not suit the comparison.
    CannotCompare(Operator),
}

/// The value of a property on a build record.
pub open spec fn property_value(p: Property, ctx: Build) -> ConstantView {
    match p {
        Property::Branch => ConstantView::Text(ctx.branch@),
        Property::Status => ConstantView::Status(ctx.status),
        Property::Definition => ConstantView::Text(ctx.definition_id@),
        Property::Project => ConstantView::Text(ctx.project_id@),
        Property::Build => ConstantView::Text(ctx.build_id@),
        Property::Collector => ConstantView::Text(ctx.collector@),
        Property::Provider => ConstantView::Text(ctx.provider@),
    }
}

/// Logical or of two values; both must be booleans.
pub open spec fn either(a: ConstantView, b: ConstantView) -> Result<ConstantView, EvalError> {
    match (a, b) {
        (ConstantView::Boolean(x), ConstantView::Boolean(y)) => Ok(ConstantView::Boolean(x || y)),
        _ => Err(EvalError::CannotEvaluateOr),
    }
}

/// Logical and of two values; both must be booleans.
pub open spec fn both(a: ConstantView, b: ConstantView) -> Result<ConstantView, EvalError> {
    match (a, b) {
        (ConstantView::Boolean(x), ConstantView::Boolean(y)) => Ok(ConstantView::Boolean(x && y)),
        _ => Err(EvalError::CannotEvaluateAnd),
    }
}

/// Logical negation; the value must be a boolean.
pub open spec fn negation(a: ConstantView) -> Result<ConstantView, EvalError> {
    match a {
        ConstantView::Boolean(x) => Ok(ConstantView::Boolean(!x)),
        _ => Err(EvalError::CannotNegate),
    }
}

/// Whether two values are of one variant and equal; `None` if the variants differ.
pub open spec fn same_value(a: ConstantView, b: ConstantView) -> Option<bool> {
    match (a, b) {
        (ConstantView::Number(x), ConstantView::Number(y)) => Some(x == y),
        (ConstantView::Boolean(x), ConstantView::Boolean(y)) => Some(x == y),
        (ConstantView::Text(x), ConstantView::Text(y)) => Some(x == y),
        (ConstantView::Status(x), ConstantView::Status(y)) => Some(x == y),
        _ => None,
    }
}

/// A comparison: equality on any two values of one variant, order on numbers only.
pub open spec fn compare(op: Operator, a: ConstantView, b: ConstantView) -> Result<
    ConstantView,
    EvalError,
> {
    match op {
        Operator::EqualTo => match same_value(a, b) {
            Some(x) => Ok(ConstantView::Boolean(x)),
            None => Err(EvalError::CannotCompare(op)),
        },
        Operator::NotEqualTo => match same_value(a, b) {
            Some(x) => Ok(ConstantView::Boolean(!x)),
            None => Err(EvalError::CannotCompare(op)),
        },
        _ => match (a, b) {
            (ConstantView::Number(x), ConstantView::Number(y)) => Ok(
                ConstantView::Boolean(
                    match op {
                        Operator::GreaterThan => x > y,
                        Operator::GreaterThanOrEqualTo => x >= y,
                        Operator::LessThan => x < y,
                        _ => x <= y,
                    },
                ),
            ),
            _ => Err(EvalError::CannotCompare(op)),
        },
    }
}

/// Both operands are evaluated, left first, before they are combined.
pub open spec fn binary(
    a: Result<ConstantView, EvalError>,
    b: Result<ConstantView, EvalError>,
    f: spec_fn(ConstantView, ConstantView) -> Result<ConstantView, EvalError>,
) -> Result<ConstantView, EvalError> {
    match a {
        Err(x) => Err(x),
        Ok(x) => match b {
            Err(y) => Err(y),
            Ok(y) => f(x, y),
        },
    }
}

/// The value of an expression on a build record.
pub open spec fn eval(e: ExprView, ctx: Build) -> Result<ConstantView, EvalError>
    decreases e,
{
    match e {
        ExprView::Or(l, r) => binary(eval(*l, ctx), eval(*r, ctx), |x, y| either(x, y)),
        ExprView::And(l, r) => binary(eval(*l, ctx), eval(*r, ctx), |x, y| both(x, y)),
        ExprView::Not(o) => match eval(*o, ctx) {
            Ok(x) => negation(x),
            Err(x) => Err(x),
        },
        ExprView::Relational(l, r, op) => binary(
            eval(*l, ctx),
            eval(*r, ctx),
            |x, y| compare(op, x, y),
        ),
        ExprView::Property(p) => Ok(property_value(p, ctx)),
        ExprView::Constant(c) => Ok(c),
    }
}

/// The model of an evaluation result.
pub open spec fn outcome(r: Result<Constant, EvalError>) -> Result<ConstantView, EvalError> {
    match r {
        Ok(c) => Ok(c@),
        Err(x) => Err(x),
    }
}

/// Evaluates expression trees against build records.
pub struct BuildEvaluator {}

impl BuildEvaluator {
    /// Reduces `expr` to a value on `ctx`; the tree is only read.
    pub fn evaluate(&self, ctx: &Build, expr: &Expression) -> (r: Result<Constant, EvalError>)
        ensures
            outcome(r) == eval(expr@, *ctx),
        decreases expr,
    {
        match expr {
            Expression::Or(l, r) => {
                let left = self.evaluate(ctx, l)?;
                let right = self.evaluate(ctx, r)?;
                self.or(left, right)
            },
            Expression::And(l, r) => {
                let left = self.evaluate(ctx, l)?;
                let right = self.evaluate(ctx, r)?;
                self.and(left, right)
            },
            Expression::Not(o) => {
                let operand = self.evaluate(ctx, o)?;
                self.not(operand)
            },
            Expression::Relational(l, r, op) => {
                let left = self.evaluate(ctx, l)?;
                let right = self.evaluate(ctx, r)?;
                self.relational(left, right, *op)
            },
            Expression::Property(p) => Ok(self.property(ctx, *p)),
            Expression::Constant(c) => Ok(self.constant(c)),
        }
    }

    pub fn or(&self, left: Constant, right: Constant) -> (r: Result<Constant, EvalError>)
        ensures
            outcome(r) == either(left@, right@),
    {
        match (left, right) {
            (Constant::Boolean(x), Constant::Boolean(y)) => Ok(Constant::Boolean(x || y)),
            _ => Err(EvalError::CannotEvaluateOr),
        }
    }

    pub fn and(&self, left: Constant, right: Constant) -> (r: Result<Constant, EvalError>)
        ensures
            outcome(r) == both(left@, right@),
    {
        match (left, right) {
            (Constant::Boolean(x), Constant::Boolean(y)) => Ok(Constant::Boolean(x && y)),
            _ => Err(EvalError::CannotEvaluateAnd),
        }
    }

    pub fn not(&self, operand: Constant) -> (r: Result<Constant, EvalError>)
        ensures
            outcome(r) == negation(operand@),
    {
        match operand {
            Constant::Boolean(x) => Ok(Constant::Boolean(!x)),
            _ => Err(EvalError::CannotNegate),
        }
    }

    pub fn constant(&self, constant: &Constant) -> (r: Constant)
        ensures
            r@ == constant@,
    {
        match constant {
            Constant::Boolean(b) => Constant::Boolean(*b),
            Constant::Number(n) => Constant::Number(*n),
            Constant::Text(t) => Constant::Text(t.clone()),
            Constant::Status(s) => Constant::Status(*s),
        }
    }

    pub fn property(&self, ctx: &Build, property: Property) -> (r: Constant)
        ensures
            r@ == property_value(property, *ctx),
    {
        match property {
            Property::Branch => Constant::Text(ctx.branch.clone()),
            Property::Status => Constant::Status(ctx.status),
            Property::Definition => Constant::Text(ctx.definition_id.clone()),
            Property::Project => Constant::Text(ctx.project_id.clone()),
            Property::Build => Constant::Text(ctx.build_id.clone()),
            Property::Collector => Constant::Text(ctx.collector.clone()),
            Property::Provider => Constant::Text(ctx.provider.clone()),
        }
    }

    pub fn relational(&self, left: Constant, right: Constant, operator: Operator) -> (r: Result<
        Constant,
        EvalError,
    >)
        ensures
            outcome(r) == compare(operator, left@, right@),
    {
        let same = match (&left, &right) {
            (Constant::Number(x), Constant::Number(y)) => Some(*x == *y),
            (Constant::Boolean(x), Constant::Boolean(y)) => Some(*x == *y),
            (Constant::Text(x), Constant::Text(y)) => Some(*x == *y),
            (Constant::Status(x), Constant::Status(y)) => Some(*x == *y),
            _ => None,
        };
        match operator {
            Operator::EqualTo => match same {
                Some(x) => Ok(Constant::Boolean(x)),
                None => Err(EvalError::CannotCompare(operator)),
            },
            Operator::NotEqualTo => match same {
                Some(x) => Ok(Constant::Boolean(!x)),
                None => Err(EvalError::CannotCompare(operator)),
            },
            _ => match (left, right) {
                (Constant::Number(x), Constant::Number(y)) => Ok(
                    Constant::Boolean(
                        match operator {
                            Operator::GreaterThan => x > y,
                            Operator::GreaterThanOrEqualTo => x >= y,
                            Operator::LessThan => x < y,
                            _ => x <= y,
                        },
                    ),
                ),
                _ => Err(EvalError::CannotCompare(operator)),
            },
        }
    }
}

impl Expression {
    /// Evaluates the expression with `evaluator` on `ctx`.
    pub fn accept(&self, ctx: &Build, evaluator: &BuildEvaluator) -> (r: Result<
        Constant,
        EvalError,
    >)
        ensures
            outcome(r) == eval(self@, *ctx),
    {
        evaluator.evaluate(ctx, self)
    }
}

} // verus!
