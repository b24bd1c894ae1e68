//! The recursive-descent parser: a token stream to an expression tree.
//!
//! Grammar, loosest binding first:
//!   or_expr   := and_expr ("or" and_expr)*
//!   and_expr  := predicate ("and" predicate)*
//!   predicate := "not" predicate | relation
//!   relation  := literal (comparison_op literal)?
//!   literal   := property | string | integer | status | "true" | "false" | "(" or_expr ")"
use vstd::prelude::*;
use vstd::string::StrSliceExecFns;

use crate::ast::{Constant, ConstantView, Expression, ExprView, Property};
use crate::lexer::{step, token_at, Token, TokenStream, TokenView};

verus! {

/// An error of the parser.
#[derive(Debug, PartialEq, Clone)]
pub enum SyntaxError {
    UnexpectedEnd,
    UnknownProperty(String),
    InvalidLiteral,
    MissingClosingParen,
}

/// The model of a [`SyntaxError`].
pub ghost enum SyntaxErrorView {
    UnexpectedEnd,
    UnknownProperty(Seq<char>),
    InvalidLiteral,
    MissingClosingParen,
}

impl View for SyntaxError {
    type V = SyntaxErrorView;

    open spec fn view(&self) -> SyntaxErrorView {
        match self {
            SyntaxError::UnexpectedEnd => SyntaxErrorView::UnexpectedEnd,
            SyntaxError::UnknownProperty(w) => SyntaxErrorView::UnknownProperty(w@),
            SyntaxError::InvalidLiteral => SyntaxErrorView::InvalidLiteral,
            SyntaxError::MissingClosingParen => SyntaxErrorView::MissingClosingParen,
        }
    }
}

/// What a parsing step yields: a tree and the cursor after it, or an error.
pub type Parsed = Result<(ExprView, int), SyntaxErrorView>;

/// The property that a word names; the match is case-sensitive.
pub open spec fn property_named(w: Seq<char>) -> Option<Property> {
    if w == "branch"@ {
        Some(Property::Branch)
    } else if w == "status"@ {
        Some(Property::Status)
    } else if w == "project"@ {
        Some(Property::Project)
    } else if w == "definition"@ {
        Some(Property::Definition)
    } else if w == "build"@ {
        Some(Property::Build)
    } else if w == "collector"@ {
        Some(Property::Collector)
    } else if w == "provider"@ {
        Some(Property::Provider)
    } else {
        None
    }
}

// Each rule below guards the cursor that a sub-rule handed back before it goes
// on from there. The executable parser proves that the guard always holds; the
// guard lets the definitions terminate.

/// `literal` at `pos`; the cursor stays on the literal's last token.
pub open spec fn literal_at(t: Seq<TokenView>, pos: int) -> Parsed
    decreases t.len() - pos, 0int,
{
    match token_at(t, pos) {
        None => Err(SyntaxErrorView::UnexpectedEnd),
        Some(TokenView::Word(w)) => match property_named(w) {
            Some(p) => Ok((ExprView::Property(p), pos)),
            None => Err(SyntaxErrorView::UnknownProperty(w)),
        },
        Some(TokenView::Literal(l)) => Ok((ExprView::Constant(ConstantView::Text(l)), pos)),
        Some(TokenView::Integer(n)) => Ok((ExprView::Constant(ConstantView::Number(n)), pos)),
        Some(TokenView::Status(s)) => Ok((ExprView::Constant(ConstantView::Status(s)), pos)),
        Some(TokenView::True) => Ok((ExprView::Constant(ConstantView::Boolean(true)), pos)),
        Some(TokenView::False) => Ok((ExprView::Constant(ConstantView::Boolean(false)), pos)),
        Some(TokenView::LParen) => match or_at(t, pos + 1) {
            Ok((e, q)) => if token_at(t, q) == Some(TokenView::RParen) {
                Ok((e, q))
            } else {
                Err(SyntaxErrorView::MissingClosingParen)
            },
            Err(x) => Err(x),
        },
        Some(_) => Err(SyntaxErrorView::InvalidLiteral),
    }
}

/// `relation` at `pos`; the cursor ends past the relation.
pub open spec fn relation_at(t: Seq<TokenView>, pos: int) -> Parsed
    decreases t.len() - pos, 1int,
{
    if token_at(t, pos) is None {
        Err(SyntaxErrorView::UnexpectedEnd)
    } else {
        match literal_at(t, pos) {
            Err(x) => Err(x),
            Ok((left, q)) => if pos <= q < t.len() {
                let q1 = q + 1;
                match token_at(t, q1) {
                    Some(TokenView::Operator(op)) => match literal_at(t, q1 + 1) {
                        Ok((right, q2)) => Ok(
                            (ExprView::Relational(Box::new(left), Box::new(right), op), step(t, q2)),
                        ),
                        Err(x) => Err(x),
                    },
                    _ => Ok((left, q1)),
                }
            } else {
                Err(SyntaxErrorView::UnexpectedEnd)
            },
        }
    }
}

/// `predicate` at `pos`.
pub open spec fn predicate_at(t: Seq<TokenView>, pos: int) -> Parsed
    decreases t.len() - pos, 2int,
{
    match token_at(t, pos) {
        None => Err(SyntaxErrorView::UnexpectedEnd),
        Some(TokenView::Not) => match predicate_at(t, pos + 1) {
            Ok((e, q)) => Ok((ExprView::Not(Box::new(e)), q)),
            Err(x) => Err(x),
        },
        Some(_) => relation_at(t, pos),
    }
}

/// The rest of an `and_expr` after `acc`, folded to the left.
pub open spec fn and_tail(t: Seq<TokenView>, pos: int, acc: ExprView) -> Parsed
    decreases t.len() - pos, 3int,
{
    match token_at(t, pos) {
        Some(TokenView::And) => match predicate_at(t, pos + 1) {
            Ok((right, q)) => if pos < q <= t.len() {
                and_tail(t, q, ExprView::And(Box::new(acc), Box::new(right)))
            } else {
                Err(SyntaxErrorView::UnexpectedEnd)
            },
            Err(x) => Err(x),
        },
        _ => Ok((acc, pos)),
    }
}

/// `and_expr` at `pos`.
pub open spec fn and_at(t: Seq<TokenView>, pos: int) -> Parsed
    decreases t.len() - pos, 4int,
{
    if token_at(t, pos) is None {
        Err(SyntaxErrorView::UnexpectedEnd)
    } else {
        match predicate_at(t, pos) {
            Ok((e, q)) => if pos <= q <= t.len() {
                and_tail(t, q, e)
            } else {
                Err(SyntaxErrorView::UnexpectedEnd)
            },
            Err(x) => Err(x),
        }
    }
}

/// The rest of an `or_expr` after `acc`, folded to the left.
pub open spec fn or_tail(t: Seq<TokenView>, pos: int, acc: ExprView) -> Parsed
    decreases t.len() - pos, 5int,
{
    match token_at(t, pos) {
        Some(TokenView::Or) => match and_at(t, pos + 1) {
            Ok((right, q)) => if pos < q <= t.len() {
                or_tail(t, q, ExprView::Or(Box::new(acc), Box::new(right)))
            } else {
                Err(SyntaxErrorView::UnexpectedEnd)
            },
            Err(x) => Err(x),
        },
        _ => Ok((acc, pos)),
    }
}

/// `or_expr` at `pos`: a whole expression.
pub open spec fn or_at(t: Seq<TokenView>, pos: int) -> Parsed
    decreases t.len() - pos, 6int,
{
    if token_at(t, pos) is None {
        Err(SyntaxErrorView::UnexpectedEnd)
    } else {
        match and_at(t, pos) {
            Ok((e, q)) => if pos <= q <= t.len() {
                or_tail(t, q, e)
            } else {
                Err(SyntaxErrorView::UnexpectedEnd)
            },
            Err(x) => Err(x),
        }
    }
}

/// `r` is what the model `m` gives, with the cursor ending at `pos`.
pub open spec fn agrees(m: Parsed, r: Result<Expression, SyntaxError>, pos: int) -> bool {
    match r {
        Ok(e) => m == Ok::<(ExprView, int), SyntaxErrorView>((e@, pos)),
        Err(x) => m == Err::<(ExprView, int), SyntaxErrorView>(x@),
    }
}

/// Parses an expression from the cursor on; tokens after it are left unread.
pub fn parse(stream: &mut TokenStream) -> (r: Result<Expression, SyntaxError>)
    ensures
        final(stream).tokens_view() == old(stream).tokens_view(),
        agrees(
            or_at(old(stream).tokens_view(), old(stream).position()),
            r,
            final(stream).position(),
        ),
{
    parse_or(stream)
}

fn parse_or(stream: &mut TokenStream) -> (r: Result<Expression, SyntaxError>)
    ensures
        final(stream).tokens_view() == old(stream).tokens_view(),
        agrees(
            or_at(old(stream).tokens_view(), old(stream).position()),
            r,
            final(stream).position(),
        ),
        r is Ok ==> old(stream).position() < final(stream).position()
            <= old(stream).tokens_view().len(),
    decreases old(stream).tokens_view().len() - old(stream).position(), 6int,
{
    let ghost t = stream.tokens_view();
    let ghost pos = stream.position();
    if stream.current().is_none() {
        return Err(SyntaxError::UnexpectedEnd);
    }
    let mut expression = parse_and(stream)?;
    loop
        invariant
            t == old(stream).tokens_view(),
            pos == old(stream).position(),
            stream.tokens_view() == t,
            pos < stream.position() <= t.len(),
            or_at(t, pos) == or_tail(t, stream.position(), expression@),
        ensures
            or_at(t, pos) == Ok::<(ExprView, int), SyntaxErrorView>((expression@, stream.position())),
        decreases t.len() - stream.position(),
    {
        let is_or = match stream.current() {
            Some(Token::Or) => true,
            _ => false,
        };
        if !is_or {
            break;
        }
        stream.move_next();
        let right = parse_and(stream)?;
        expression = Expression::Or(Box::new(expression), Box::new(right));
    }
    Ok(expression)
}

fn parse_and(stream: &mut TokenStream) -> (r: Result<Expression, SyntaxError>)
    ensures
        final(stream).tokens_view() == old(stream).tokens_view(),
        agrees(
            and_at(old(stream).tokens_view(), old(stream).position()),
            r,
            final(stream).position(),
        ),
        r is Ok ==> old(stream).position() < final(stream).position()
            <= old(stream).tokens_view().len(),
    decreases old(stream).tokens_view().len() - old(stream).position(), 4int,
{
    let ghost t = stream.tokens_view();
    let ghost pos = stream.position();
    if stream.current().is_none() {
        return Err(SyntaxError::UnexpectedEnd);
    }
    let mut expression = parse_predicate(stream)?;
    loop
        invariant
            t == old(stream).tokens_view(),
            pos == old(stream).position(),
            stream.tokens_view() == t,
            pos < stream.position() <= t.len(),
            and_at(t, pos) == and_tail(t, stream.position(), expression@),
        ensures
            and_at(t, pos) == Ok::<(ExprView, int), SyntaxErrorView>((expression@, stream.position())),
        decreases t.len() - stream.position(),
    {
        let is_and = match stream.current() {
            Some(Token::And) => true,
            _ => false,
        };
        if !is_and {
            break;
        }
        stream.move_next();
        let right = parse_predicate(stream)?;
        expression = Expression::And(Box::new(expression), Box::new(right));
    }
    Ok(expression)
}

fn parse_predicate(stream: &mut TokenStream) -> (r: Result<Expression, SyntaxError>)
    ensures
        final(stream).tokens_view() == old(stream).tokens_view(),
        agrees(
            predicate_at(old(stream).tokens_view(), old(stream).position()),
            r,
            final(stream).position(),
        ),
        r is Ok ==> old(stream).position() < final(stream).position()
            <= old(stream).tokens_view().len(),
    decreases old(stream).tokens_view().len() - old(stream).position(), 2int,
{
    let is_not = match stream.current() {
        None => {
            return Err(SyntaxError::UnexpectedEnd);
        },
        Some(Token::Not) => true,
        Some(_) => false,
    };
    if is_not {
        stream.move_next();
        let operand = parse_predicate(stream)?;
        return Ok(Expression::Not(Box::new(operand)));
    }
    parse_relation(stream)
}

fn parse_relation(stream: &mut TokenStream) -> (r: Result<Expression, SyntaxError>)
    ensures
        final(stream).tokens_view() == old(stream).tokens_view(),
        agrees(
            relation_at(old(stream).tokens_view(), old(stream).position()),
            r,
            final(stream).position(),
        ),
        r is Ok ==> old(stream).position() < final(stream).position()
            <= old(stream).tokens_view().len(),
    decreases old(stream).tokens_view().len() - old(stream).position(), 1int,
{
    if stream.current().is_none() {
        return Err(SyntaxError::UnexpectedEnd);
    }
    let left = parse_literal(stream)?;
    stream.move_next();
    let op = match stream.current() {
        Some(token) => token.get_operator(),
        None => None,
    };
    match op {
        Some(op) => {
            stream.move_next();
            let right = parse_literal(stream)?;
            stream.move_next();
            Ok(Expression::Relational(Box::new(left), Box::new(right), op))
        },
        None => Ok(left),
    }
}

fn parse_literal(stream: &mut TokenStream) -> (r: Result<Expression, SyntaxError>)
    ensures
        final(stream).tokens_view() == old(stream).tokens_view(),
        agrees(
            literal_at(old(stream).tokens_view(), old(stream).position()),
            r,
            final(stream).position(),
        ),
        r is Ok ==> old(stream).position() <= final(stream).position()
            < old(stream).tokens_view().len(),
    decreases old(stream).tokens_view().len() - old(stream).position(), 0int,
{
    let is_group = match stream.current() {
        None => {
            return Err(SyntaxError::UnexpectedEnd);
        },
        Some(Token::Word(word)) => {
            let property = property_of(word.as_str());
            return match property {
                Some(p) => Ok(Expression::Property(p)),
                None => Err(SyntaxError::UnknownProperty(word.clone())),
            };
        },
        Some(Token::Literal(text)) => {
            return Ok(Expression::Constant(Constant::Text(text.clone())));
        },
        Some(Token::Integer(n)) => {
            return Ok(Expression::Constant(Constant::Number(*n)));
        },
        Some(Token::Status(s)) => {
            return Ok(Expression::Constant(Constant::Status(*s)));
        },
        Some(Token::True) => {
            return Ok(Expression::Constant(Constant::Boolean(true)));
        },
        Some(Token::False) => {
            return Ok(Expression::Constant(Constant::Boolean(false)));
        },
        Some(Token::LParen) => true,
        Some(_) => false,
    };
    if !is_group {
        return Err(SyntaxError::InvalidLiteral);
    }
    stream.move_next();
    let inner = parse_or(stream)?;
    let closed = match stream.current() {
        Some(Token::RParen) => true,
        _ => false,
    };
    if !closed {
        return Err(SyntaxError::MissingClosingParen);
    }
    Ok(inner)
}

/// Whether two texts hold the same characters.
fn same_text(a: &str, b: &str) -> (r: bool)
    ensures
        r == (a@ == b@),
{
    let n = a.unicode_len();
    if n != b.unicode_len() {
        return false;
    }
    let mut i: usize = 0;
    while i < n
        invariant
            n == a@.len(),
            n == b@.len(),
            i <= n,
            forall|k: int| 0 <= k < i ==> #[trigger] a@[k] == b@[k],
        decreases n - i,
    {
        if a.get_char(i) != b.get_char(i) {
            return false;
        }
        i = i + 1;
    }
    assert(a@ =~= b@);
    true
}

/// The property that a word names, matched exactly.
fn property_of(word: &str) -> (r: Option<Property>)
    ensures
        r == property_named(word@),
{
    if same_text(word, "branch") {
        Some(Property::Branch)
    } else if same_text(word, "status") {
        Some(Property::Status)
    } else if same_text(word, "project") {
        Some(Property::Project)
    } else if same_text(word, "definition") {
        Some(Property::Definition)
    } else if same_text(word, "build") {
        Some(Property::Build)
    } else if same_text(word, "collector") {
        Some(Property::Collector)
    } else if same_text(word, "provider") {
        Some(Property::Provider)
    } else {
        None
    }
}

} // verus!
