use duck::ast::{Constant, Operator};
use duck::evaluator::{BuildEvaluator, EvalError};
use duck::query::{evaluate_query, parse_query, QueryError};
use duck::record::{Build, BuildStatus};

fn build(branch: &str, status: BuildStatus) -> Build {
    Build {
        branch: branch.to_owned(),
        status,
        definition_id: "bar".to_owned(),
        project_id: "foo".to_owned(),
        build_id: "123".to_owned(),
        collector: "test".to_owned(),
        provider: "TeamCity".to_owned(),
    }
}

fn dummy() -> Build {
    build("master", BuildStatus::Success)
}

fn value(text: &str) -> Constant {
    let evaluator = BuildEvaluator {};
    let expression = parse_query(text).unwrap();
    expression.accept(&dummy(), &evaluator).unwrap()
}

#[test]
fn integer_comparisons() {
    let cases = [
        ("3 == 3", true),
        ("3 == 2", false),
        ("3 != 2", true),
        ("3 != 3", false),
        ("3 > 2", true),
        ("3 > 3", false),
        ("3 >= 2", true),
        ("3 >= 3", true),
        ("3 >= 4", false),
        ("2 < 3", true),
        ("3 < 3", false),
        ("2 <= 3", true),
        ("2 <= 2", true),
        ("2 <= 1", false),
        ("9223372036854775807 > 0", true),
        ("0 >= 9223372036854775807", false),
    ];
    for (text, expected) in cases {
        assert_eq!(value(text), Constant::Boolean(expected), "{}", text);
    }
}

#[test]
fn negation() {
    assert_eq!(value("!true"), Constant::Boolean(false));
    assert_eq!(value("NOT true"), Constant::Boolean(false));
    assert_eq!(value("!false"), Constant::Boolean(true));
    assert_eq!(value("NOT false"), Constant::Boolean(true));
    assert_eq!(value("not true"), Constant::Boolean(false));
    assert_eq!(value("not not true"), Constant::Boolean(true));
    assert_eq!(value("! ! ! true"), Constant::Boolean(false));
}

#[test]
fn and_or() {
    assert_eq!(value("true and true"), Constant::Boolean(true));
    assert_eq!(value("true and false"), Constant::Boolean(false));
    assert_eq!(value("true or true"), Constant::Boolean(true));
    assert_eq!(value("true or false"), Constant::Boolean(true));
    assert_eq!(value("false or false"), Constant::Boolean(false));
    assert_eq!(value("false or true"), Constant::Boolean(true));
    assert_eq!(value("false || true && false"), Constant::Boolean(false));
    assert_eq!(value("(false || true) && true"), Constant::Boolean(true));
}

#[test]
fn properties() {
    let evaluator = BuildEvaluator {};
    let ctx = Build {
        branch: "develop".to_owned(),
        status: BuildStatus::Queued,
        definition_id: "bar".to_owned(),
        project_id: "foo".to_owned(),
        build_id: "123".to_owned(),
        collector: "test".to_owned(),
        provider: "TeamCity".to_owned(),
    };
    for text in [
        "branch == 'develop'",
        "status == queued",
        "project == 'foo'",
        "definition == 'bar'",
        "build == '123'",
        "collector == 'test'",
        "provider == 'TeamCity'",
    ] {
        let expression = parse_query(text).unwrap();
        assert_eq!(
            expression.accept(&ctx, &evaluator).unwrap(),
            Constant::Boolean(true),
            "{}",
            text
        );
    }
    assert_eq!(
        evaluate_query("branch", &ctx).unwrap(),
        Constant::Text("develop".to_owned())
    );
    assert_eq!(
        evaluate_query("status", &ctx).unwrap(),
        Constant::Status(BuildStatus::Queued)
    );
    assert_eq!(
        evaluate_query("status != queued", &ctx).unwrap(),
        Constant::Boolean(false)
    );
}

#[test]
fn no_short_circuit() {
    assert_eq!(
        evaluate_query("true or 1", &dummy()).err(),
        Some(QueryError::Eval(EvalError::CannotEvaluateOr))
    );
    assert_eq!(
        evaluate_query("false and 'x'", &dummy()).err(),
        Some(QueryError::Eval(EvalError::CannotEvaluateAnd))
    );
    assert_eq!(
        evaluate_query("true or (1 > true)", &dummy()).err(),
        Some(QueryError::Eval(EvalError::CannotCompare(Operator::GreaterThan)))
    );
}

#[test]
fn type_mismatch_is_an_error() {
    assert_eq!(
        evaluate_query("true > false", &dummy()).err(),
        Some(QueryError::Eval(EvalError::CannotCompare(Operator::GreaterThan)))
    );
    assert_eq!(
        evaluate_query("1 == '1'", &dummy()).err(),
        Some(QueryError::Eval(EvalError::CannotCompare(Operator::EqualTo)))
    );
    assert_eq!(
        evaluate_query("branch < 'z'", &dummy()).err(),
        Some(QueryError::Eval(EvalError::CannotCompare(Operator::LessThan)))
    );
    assert_eq!(
        evaluate_query("not 1", &dummy()).err(),
        Some(QueryError::Eval(EvalError::CannotNegate))
    );
}

#[test]
fn equality_on_each_variant() {
    assert_eq!(value("true == true"), Constant::Boolean(true));
    assert_eq!(value("true != false"), Constant::Boolean(true));
    assert_eq!(value("'a' == 'a'"), Constant::Boolean(true));
    assert_eq!(value("'a' != 'b'"), Constant::Boolean(true));
    assert_eq!(value("success == success"), Constant::Boolean(true));
    assert_eq!(value("success != failed"), Constant::Boolean(true));
    assert_eq!(value("canceled == cancelled"), Constant::Boolean(true));
}

#[test]
fn constants_evaluate_to_themselves() {
    assert_eq!(value("42"), Constant::Number(42));
    assert_eq!(value("'hi'"), Constant::Text("hi".to_owned()));
    assert_eq!(value("running"), Constant::Status(BuildStatus::Running));
}

#[test]
fn same_tree_on_two_builds() {
    let evaluator = BuildEvaluator {};
    let expression = parse_query("branch == 'master' and status != skipped").unwrap();
    let first = build("master", BuildStatus::Success);
    let second = build("develop", BuildStatus::Success);
    let third = build("master", BuildStatus::Skipped);
    assert_eq!(expression.accept(&first, &evaluator).unwrap(), Constant::Boolean(true));
    assert_eq!(expression.accept(&second, &evaluator).unwrap(), Constant::Boolean(false));
    assert_eq!(expression.accept(&first, &evaluator).unwrap(), Constant::Boolean(true));
    assert_eq!(expression.accept(&third, &evaluator).unwrap(), Constant::Boolean(false));
    assert_eq!(expression, parse_query("branch == 'master' and status != skipped").unwrap());
}

#[test]
fn evaluator_parts() {
    let e = BuildEvaluator {};
    assert_eq!(
        e.or(Constant::Boolean(false), Constant::Boolean(true)),
        Ok(Constant::Boolean(true))
    );
    assert_eq!(
        e.and(Constant::Boolean(true), Constant::Number(1)),
        Err(EvalError::CannotEvaluateAnd)
    );
    assert_eq!(e.not(Constant::Boolean(true)), Ok(Constant::Boolean(false)));
    assert_eq!(
        e.relational(Constant::Number(-5), Constant::Number(3), Operator::LessThan),
        Ok(Constant::Boolean(true))
    );
    assert_eq!(
        e.property(&dummy(), duck::ast::Property::Provider),
        Constant::Text("TeamCity".to_owned())
    );
    assert_eq!(
        e.constant(&Constant::Text("x".to_owned())),
        Constant::Text("x".to_owned())
    );
}
