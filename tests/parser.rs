use duck::ast::{Constant, Expression, Operator, Property};
use duck::lexer::{self, Token, TokenStream};
use duck::parser::{parse, SyntaxError};
use duck::query::{parse_query, QueryError};
use duck::record::BuildStatus;

fn boxed(e: Expression) -> Box<Expression> {
    Box::new(e)
}

fn number(n: i64) -> Expression {
    Expression::Constant(Constant::Number(n))
}

#[test]
fn should_parse_expression() {
    let query = "branch == 'master' and status != skipped";
    let tokens = &mut lexer::tokenize(&query[..]).unwrap();

    let expression = parse(tokens).unwrap();

    assert_eq!(
        expression,
        Expression::And(
            Box::new(Expression::Relational(
                Box::new(Expression::Property(Property::Branch)),
                Box::new(Expression::Constant(Constant::Text("master".to_owned()))),
                Operator::EqualTo
            )),
            Box::new(Expression::Relational(
                Box::new(Expression::Property(Property::Status)),
                Box::new(Expression::Constant(Constant::Status(BuildStatus::Skipped))),
                Operator::NotEqualTo
            ))
        )
    )
}

#[test]
fn unknown_property_is_named() {
    assert_eq!(
        parse_query("foo == 1").err(),
        Some(QueryError::Parse(SyntaxError::UnknownProperty("foo".to_owned())))
    );
}

#[test]
fn properties_are_case_sensitive() {
    assert_eq!(
        parse_query("Branch == 'x'").err(),
        Some(QueryError::Parse(SyntaxError::UnknownProperty("Branch".to_owned())))
    );
}

#[test]
fn missing_operand_is_end_of_tokens() {
    assert_eq!(
        parse_query("branch ==").err(),
        Some(QueryError::Parse(SyntaxError::UnexpectedEnd))
    );
    assert_eq!(parse_query("").err(), Some(QueryError::Parse(SyntaxError::UnexpectedEnd)));
    assert_eq!(
        parse_query("true and").err(),
        Some(QueryError::Parse(SyntaxError::UnexpectedEnd))
    );
    assert_eq!(parse_query("not").err(), Some(QueryError::Parse(SyntaxError::UnexpectedEnd)));
}

#[test]
fn operator_in_place_of_literal_fails() {
    assert_eq!(
        parse_query("== 1").err(),
        Some(QueryError::Parse(SyntaxError::InvalidLiteral))
    );
}

#[test]
fn lex_errors_pass_through() {
    assert_eq!(
        parse_query("branch == 'x").err(),
        Some(QueryError::Lex(lexer::LexError::UnterminatedString))
    );
}

#[test]
fn or_binds_looser_than_and() {
    assert_eq!(
        parse_query("1 or 2 and 3").unwrap(),
        Expression::Or(
            boxed(number(1)),
            boxed(Expression::And(boxed(number(2)), boxed(number(3))))
        )
    );
}

#[test]
fn chains_fold_to_the_left() {
    assert_eq!(
        parse_query("1 or 2 or 3").unwrap(),
        Expression::Or(
            boxed(Expression::Or(boxed(number(1)), boxed(number(2)))),
            boxed(number(3))
        )
    );
    assert_eq!(
        parse_query("1 && 2 && 3").unwrap(),
        Expression::And(
            boxed(Expression::And(boxed(number(1)), boxed(number(2)))),
            boxed(number(3))
        )
    );
}

#[test]
fn not_nests_to_the_right() {
    assert_eq!(
        parse_query("not not true").unwrap(),
        Expression::Not(boxed(Expression::Not(boxed(Expression::Constant(
            Constant::Boolean(true)
        )))))
    );
}

#[test]
fn parentheses_group() {
    assert_eq!(
        parse_query("(1 or 2) and 3").unwrap(),
        Expression::And(
            boxed(Expression::Or(boxed(number(1)), boxed(number(2)))),
            boxed(number(3))
        )
    );
}

#[test]
fn unclosed_parenthesis_fails() {
    assert_eq!(
        parse_query("(1 or 2").err(),
        Some(QueryError::Parse(SyntaxError::MissingClosingParen))
    );
}

#[test]
fn parse_leaves_the_cursor_after_the_expression() {
    let mut stream = TokenStream::new(vec![
        Token::Integer(1),
        Token::Operator(Operator::LessThan),
        Token::Integer(2),
        Token::RParen,
    ]);
    let e = parse(&mut stream).unwrap();
    assert_eq!(
        e,
        Expression::Relational(boxed(number(1)), boxed(number(2)), Operator::LessThan)
    );
    assert_eq!(stream.current(), Some(&Token::RParen));
}
