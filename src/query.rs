//! The whole pipeline, text to value, and the laws that it obeys.
use vstd::prelude::*;

use crate::ast::{ConstantView, Expression, ExprView, Operator, Property};
use crate::evaluator::{
    compare, eval, negation, outcome, property_value, BuildEvaluator, EvalError,
};
use crate::lexer::{
    decimal_value, folded, lemma_decimal_nonneg, in_class, lex, lex_from, prepend, run_end, spells, symbol_token,
    tokenize, word_token, CharClass, LexError, LexErrorView, TokenView,
};
use crate::parser::{
    agrees, and_at, and_tail, literal_at, or_at, or_tail, parse, predicate_at, relation_at,
    SyntaxError, SyntaxErrorView,
};
use crate::record::Build;

verus! {

/// An error of any stage of the pipeline.
#[derive(Debug, Clone, PartialEq)]
pub enum QueryError {
    Lex(LexError),
    Parse(SyntaxError),
    Eval(EvalError),
}

/// The model of a [`QueryError`].
pub ghost enum QueryErrorView {
    Lex(LexErrorView),
    Parse(SyntaxErrorView),
    Eval(EvalError),
}

impl View for QueryError {
    type V = QueryErrorView;

    open spec fn view(&self) -> QueryErrorView {
        match self {
            QueryError::Lex(e) => QueryErrorView::Lex(e@),
            QueryError::Parse(e) => QueryErrorView::Parse(e@),
            QueryError::Eval(e) => QueryErrorView::Eval(*e),
        }
    }
}

/// The tree that a rule text parses to.
pub open spec fn parse_text(s: Seq<char>) -> Result<ExprView, QueryErrorView> {
    match lex(s) {
        Err(e) => Err(QueryErrorView::Lex(e)),
        Ok(t) => match or_at(t, 0) {
            Ok((e, _)) => Ok(e),
            Err(x) => Err(QueryErrorView::Parse(x)),
        },
    }
}

/// The value of a rule text on a build record.
pub open spec fn query_value(s: Seq<char>, ctx: Build) -> Result<ConstantView, QueryErrorView> {
    match parse_text(s) {
        Err(e) => Err(e),
        Ok(e) => match eval(e, ctx) {
            Ok(v) => Ok(v),
            Err(x) => Err(QueryErrorView::Eval(x)),
        },
    }
}

/// Lexes and parses a rule text.
pub fn parse_query(text: &str) -> (r: Result<Expression, QueryError>)
    ensures
        match r {
            Ok(e) => parse_text(text@) == Ok::<ExprView, QueryErrorView>(e@),
            Err(x) => parse_text(text@) == Err::<ExprView, QueryErrorView>(x@),
        },
{
    let mut stream = match tokenize(text) {
        Ok(s) => s,
        Err(e) => {
            return Err(QueryError::Lex(e));
        },
    };
    let r = parse(&mut stream);
    proof {
        assert(agrees(or_at(lex(text@)->Ok_0, 0), r, stream.position()));
    }
    match r {
        Ok(e) => Ok(e),
        Err(x) => Err(QueryError::Parse(x)),
    }
}

/// Lexes, parses and evaluates a rule text on a build record.
pub fn evaluate_query(text: &str, ctx: &Build) -> (r: Result<crate::ast::Constant, QueryError>)
    ensures
        match r {
            Ok(c) => query_value(text@, *ctx) == Ok::<ConstantView, QueryErrorView>(c@),
            Err(x) => query_value(text@, *ctx) == Err::<ConstantView, QueryErrorView>(x@),
        },
{
    let e = parse_query(text)?;
    let evaluator = BuildEvaluator {};
    let v = evaluator.evaluate(ctx, &e);
    proof {
        assert(outcome(v) == eval(e@, *ctx));
    }
    match v {
        Ok(c) => Ok(c),
        Err(x) => Err(QueryError::Eval(x)),
    }
}

/// Whether an expression reads a property.
pub open spec fn mentions(e: ExprView, p: Property) -> bool
    decreases e,
{
    match e {
        ExprView::Or(l, r) => mentions(*l, p) || mentions(*r, p),
        ExprView::And(l, r) => mentions(*l, p) || mentions(*r, p),
        ExprView::Not(o) => mentions(*o, p),
        ExprView::Relational(l, r, _) => mentions(*l, p) || mentions(*r, p),
        ExprView::Property(q) => q == p,
        ExprView::Constant(_) => false,
    }
}

/// An expression evaluated on two build records gives the same result on both
/// wherever they agree on the properties that it reads: evaluation depends on
/// the tree and on those fields alone.
pub proof fn law_evaluation_reads_only_its_properties(e: ExprView, c1: Build, c2: Build)
    requires
        forall|p: Property| mentions(e, p) ==> property_value(p, c1) == property_value(p, c2),
    ensures
        eval(e, c1) == eval(e, c2),
    decreases e,
{
    match e {
        ExprView::Or(l, r) => {
            law_evaluation_reads_only_its_properties(*l, c1, c2);
            law_evaluation_reads_only_its_properties(*r, c1, c2);
        },
        ExprView::And(l, r) => {
            law_evaluation_reads_only_its_properties(*l, c1, c2);
            law_evaluation_reads_only_its_properties(*r, c1, c2);
        },
        ExprView::Not(o) => {
            law_evaluation_reads_only_its_properties(*o, c1, c2);
        },
        ExprView::Relational(l, r, _) => {
            law_evaluation_reads_only_its_properties(*l, c1, c2);
            law_evaluation_reads_only_its_properties(*r, c1, c2);
        },
        _ => {},
    }
}

/// Negating a boolean expression twice gives back its value.
pub proof fn law_double_negation(e: ExprView, ctx: Build)
    requires
        eval(e, ctx) matches Ok(ConstantView::Boolean(_)),
    ensures
        eval(ExprView::Not(Box::new(ExprView::Not(Box::new(e)))), ctx) == eval(e, ctx),
{
    let inner = ExprView::Not(Box::new(e));
    assert(eval(inner, ctx) == negation(eval(e, ctx)->Ok_0));
    assert(eval(ExprView::Not(Box::new(inner)), ctx) == negation(eval(inner, ctx)->Ok_0));
}

/// `not` applied to an expression flips its boolean value, and fails on any other value.
pub proof fn law_not_negates(e: ExprView, ctx: Build)
    ensures
        eval(ExprView::Not(Box::new(e)), ctx) == match eval(e, ctx) {
            Ok(v) => negation(v),
            Err(x) => Err(x),
        },
{
}

/// `or` and `and` evaluate their right operand whatever the left one gave:
/// a right operand that fails, or is not a boolean, makes the whole fail.
pub proof fn law_no_short_circuit(l: ExprView, r: ExprView, ctx: Build)
    requires
        eval(l, ctx) is Ok,
    ensures
        eval(r, ctx) matches Err(x) ==> eval(
            ExprView::Or(Box::new(l), Box::new(r)),
            ctx,
        ) == Err::<ConstantView, EvalError>(x) && eval(
            ExprView::And(Box::new(l), Box::new(r)),
            ctx,
        ) == Err::<ConstantView, EvalError>(x),
        eval(r, ctx) matches Ok(v) && !(v is Boolean) ==> eval(
            ExprView::Or(Box::new(l), Box::new(r)),
            ctx,
        ) == Err::<ConstantView, EvalError>(EvalError::CannotEvaluateOr) && eval(
            ExprView::And(Box::new(l), Box::new(r)),
            ctx,
        ) == Err::<ConstantView, EvalError>(EvalError::CannotEvaluateAnd),
{
}

/// The ordering operators compare numbers only: on any other pair they fail.
pub proof fn law_ordering_is_numeric(op: Operator, a: ConstantView, b: ConstantView)
    requires
        op != Operator::EqualTo,
        op != Operator::NotEqualTo,
        !(a is Number && b is Number),
    ensures
        compare(op, a, b) == Err::<ConstantView, EvalError>(EvalError::CannotCompare(op)),
{
}

/// The run of letters from `i` to `j` ends there.
proof fn lemma_run_end_exact(s: Seq<char>, i: int, j: int, k: CharClass)
    requires
        0 <= i <= j <= s.len(),
        forall|m: int| i <= m < j ==> in_class(k, #[trigger] s[m]),
        j == s.len() || !in_class(k, s[j]),
    ensures
        run_end(s, i, k) == j,
    decreases j - i,
{
    if i < j {
        lemma_run_end_exact(s, i + 1, j, k);
    }
}

/// Keywords and status names are read in any case: two runs of letters that
/// differ only in the case of their letters lex alike where one of them is a
/// keyword or a status name.
pub proof fn law_keywords_ignore_case(w1: Seq<char>, w2: Seq<char>)
    requires
        w1.len() > 0,
        w1.len() == w2.len(),
        forall|m: int| 0 <= m < w1.len() ==> in_class(CharClass::Letter, #[trigger] w1[m]),
        forall|m: int| 0 <= m < w2.len() ==> in_class(CharClass::Letter, #[trigger] w2[m]),
        forall|m: int| 0 <= m < w1.len() ==> folded(#[trigger] w1[m]) == folded(w2[m]),
        !(word_token(w1) is Word),
    ensures
        lex(w1) == lex(w2),
        lex(w1) == Ok::<Seq<TokenView>, LexErrorView>(seq![word_token(w1)]),
{
    lemma_run_end_exact(w1, 0, w1.len() as int, CharClass::Letter);
    lemma_run_end_exact(w2, 0, w2.len() as int, CharClass::Letter);
    assert(w1.subrange(0, w1.len() as int) =~= w1);
    assert(w2.subrange(0, w2.len() as int) =~= w2);
    assert(lex_from(w1, w1.len() as int) == Ok::<Seq<TokenView>, LexErrorView>(seq![]));
    assert(lex_from(w2, w2.len() as int) == Ok::<Seq<TokenView>, LexErrorView>(seq![]));
    assert(seq![word_token(w1)] + seq![] =~= seq![word_token(w1)]);
    assert(seq![word_token(w2)] + seq![] =~= seq![word_token(w2)]);
    assert forall|k: Seq<char>| spells(w1, k) == spells(w2, k) by {
        if spells(w1, k) {
            assert forall|m: int| 0 <= m < w2.len() implies folded(#[trigger] w2[m]) == k[m] as u32 by {
                assert(folded(w1[m]) == k[m] as u32);
            }
        }
        if spells(w2, k) {
            assert forall|m: int| 0 <= m < w1.len() implies folded(#[trigger] w1[m]) == k[m] as u32 by {
                assert(folded(w2[m]) == k[m] as u32);
            }
        }
    }
}

/// How an operator is written.
pub open spec fn operator_text(op: Operator) -> Seq<char> {
    match op {
        Operator::EqualTo => "=="@,
        Operator::NotEqualTo => "!="@,
        Operator::GreaterThan => ">"@,
        Operator::GreaterThanOrEqualTo => ">="@,
        Operator::LessThan => "<"@,
        Operator::LessThanOrEqualTo => "<="@,
    }
}

/// The comparison of two integers that an operator stands for.
pub open spec fn holds(op: Operator, x: int, y: int) -> bool {
    match op {
        Operator::EqualTo => x == y,
        Operator::NotEqualTo => x != y,
        Operator::GreaterThan => x > y,
        Operator::GreaterThanOrEqualTo => x >= y,
        Operator::LessThan => x < y,
        Operator::LessThanOrEqualTo => x <= y,
    }
}

pub open spec fn is_digits(d: Seq<char>) -> bool {
    d.len() > 0 && forall|m: int| 0 <= m < d.len() ==> in_class(CharClass::Digit, #[trigger] d[m])
}

proof fn lemma_operator_text(op: Operator)
    ensures
        operator_text(op).len() > 0,
        forall|m: int|
            0 <= m < operator_text(op).len() ==> in_class(
                CharClass::Symbol,
                #[trigger] operator_text(op)[m],
            ),
        symbol_token(operator_text(op)) == Some(TokenView::Operator(op)),
{
    reveal_strlit("!");
    reveal_strlit("&&");
    reveal_strlit("||");
    reveal_strlit("==");
    reveal_strlit("!=");
    reveal_strlit(">");
    reveal_strlit(">=");
    reveal_strlit("<");
    reveal_strlit("<=");
    let o = operator_text(op);
    if o.len() == 1 {
        assert(o[0] != "!"@[0] ==> o != "!"@);
    }
    assert(o.len() == 1 ==> o != "&&"@ && o != "||"@ && o != "=="@ && o != "!="@ && o != ">="@
        && o != "<="@);
    if o.len() == 2 {
        assert(o[0] != "&&"@[0] ==> o != "&&"@);
        assert(o[0] != "||"@[0] ==> o != "||"@);
        assert(o[0] != "=="@[0] ==> o != "=="@);
        assert(o[0] != "!="@[0] ==> o != "!="@);
        assert(o[0] != ">="@[0] ==> o != ">="@);
    }
}

/// Integers written in decimal compare as integers: for runs of digits `a` and
/// `b` whose values fit in a signed 64-bit integer, the text `a op b` evaluates,
/// on any build record, to the boolean that compares their values.
pub proof fn law_numbers_compare_as_integers(a: Seq<char>, op: Operator, b: Seq<char>, ctx: Build)
    requires
        is_digits(a),
        is_digits(b),
        decimal_value(a) <= i64::MAX,
        decimal_value(b) <= i64::MAX,
    ensures
        query_value(a + " "@ + operator_text(op) + " "@ + b, ctx) == Ok::<
            ConstantView,
            QueryErrorView,
        >(ConstantView::Boolean(holds(op, decimal_value(a), decimal_value(b)))),
{
    reveal_strlit(" ");
    lemma_operator_text(op);
    let o = operator_text(op);
    let s = a + " "@ + o + " "@ + b;
    let la = a.len() as int;
    let p3 = la + 1 + o.len();
    let p4 = p3 + 1;
    let n = s.len() as int;
    assert(n == p4 + b.len());
    assert forall|m: int| 0 <= m < la implies #[trigger] s[m] == a[m] by {}
    assert(s[la] == ' ');
    assert forall|m: int| la + 1 <= m < p3 implies #[trigger] s[m] == o[m - la - 1] by {}
    assert(s[p3] == ' ');
    assert forall|m: int| p4 <= m < n implies #[trigger] s[m] == b[m - p4] by {}
    lemma_decimal_nonneg(a);
    lemma_decimal_nonneg(b);
    let va = decimal_value(a) as i64;
    let vb = decimal_value(b) as i64;

    lemma_run_end_exact(s, 0, la, CharClass::Digit);
    assert(s.subrange(0, la) =~= a);
    lemma_run_end_exact(s, la + 1, p3, CharClass::Symbol);
    assert(s.subrange(la + 1, p3) =~= o);
    lemma_run_end_exact(s, p4, n, CharClass::Digit);
    assert(s.subrange(p4, n) =~= b);

    assert(lex_from(s, n) == Ok::<Seq<TokenView>, LexErrorView>(seq![]));
    assert(lex_from(s, p4) == prepend(TokenView::Integer(vb), lex_from(s, n)));
    assert(lex_from(s, p3) == lex_from(s, p4));
    assert(lex_from(s, la + 1) == prepend(TokenView::Operator(op), lex_from(s, p3)));
    assert(lex_from(s, la) == lex_from(s, la + 1));
    assert(lex_from(s, 0) == prepend(TokenView::Integer(va), lex_from(s, la)));
    let t = seq![TokenView::Integer(va), TokenView::Operator(op), TokenView::Integer(vb)];
    assert(seq![TokenView::Integer(va)] + (seq![TokenView::Operator(op)] + (seq![
        TokenView::Integer(vb),
    ] + seq![])) =~= t);
    assert(lex(s) == Ok::<Seq<TokenView>, LexErrorView>(t));

    let left = ExprView::Constant(ConstantView::Number(va));
    let right = ExprView::Constant(ConstantView::Number(vb));
    let rel = ExprView::Relational(Box::new(left), Box::new(right), op);
    assert(literal_at(t, 0) == Ok::<(ExprView, int), SyntaxErrorView>((left, 0)));
    assert(literal_at(t, 2) == Ok::<(ExprView, int), SyntaxErrorView>((right, 2)));
    assert(relation_at(t, 0) == Ok::<(ExprView, int), SyntaxErrorView>((rel, 3)));
    assert(predicate_at(t, 0) == Ok::<(ExprView, int), SyntaxErrorView>((rel, 3)));
    assert(and_tail(t, 3, rel) == Ok::<(ExprView, int), SyntaxErrorView>((rel, 3)));
    assert(and_at(t, 0) == Ok::<(ExprView, int), SyntaxErrorView>((rel, 3)));
    assert(or_tail(t, 3, rel) == Ok::<(ExprView, int), SyntaxErrorView>((rel, 3)));
    assert(or_at(t, 0) == Ok::<(ExprView, int), SyntaxErrorView>((rel, 3)));
    assert(eval(left, ctx) == Ok::<ConstantView, EvalError>(ConstantView::Number(va)));
    assert(eval(right, ctx) == Ok::<ConstantView, EvalError>(ConstantView::Number(vb)));
    assert(eval(rel, ctx) == compare(op, ConstantView::Number(va), ConstantView::Number(vb)));
}

} // verus!
