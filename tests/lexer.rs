use duck::ast::Operator;
use duck::lexer::{tokenize, LexError, Token, TokenStream};
use duck::record::BuildStatus;

#[test]
fn should_recognize_word() {
    let tokens = tokenize("foo baR BAZ Qux").unwrap().get_tokens();

    assert_eq!(4, tokens.len());
    assert_eq!(tokens[0], Token::Word("foo".to_owned()));
    assert_eq!(tokens[1], Token::Word("baR".to_owned()));
    assert_eq!(tokens[2], Token::Word("BAZ".to_owned()));
    assert_eq!(tokens[3], Token::Word("Qux".to_owned()));
}

#[test]
fn should_recognize_string_literals() {
    let tokens = tokenize("'hello' 'world'").unwrap().get_tokens();

    assert_eq!(2, tokens.len());
    assert_eq!(tokens[0], Token::Literal("hello".to_owned()));
    assert_eq!(tokens[1], Token::Literal("world".to_owned()));
}

#[test]
fn should_recognize_integers() {
    let tokens = tokenize("3 99 89").unwrap().get_tokens();

    assert_eq!(3, tokens.len());
    assert_eq!(tokens[0], Token::Integer(3));
    assert_eq!(tokens[1], Token::Integer(99));
    assert_eq!(tokens[2], Token::Integer(89));
}

#[test]
fn should_recognize_keywords() {
    let tokens = tokenize("OR AND NOT TRUE FALSE ! && ||")
        .unwrap()
        .get_tokens();

    assert_eq!(8, tokens.len());
    assert_eq!(tokens[0], Token::Or);
    assert_eq!(tokens[1], Token::And);
    assert_eq!(tokens[2], Token::Not);
    assert_eq!(tokens[3], Token::True);
    assert_eq!(tokens[4], Token::False);
    assert_eq!(tokens[5], Token::Not);
    assert_eq!(tokens[6], Token::And);
    assert_eq!(tokens[7], Token::Or);
}

#[test]
fn should_recognize_scopes() {
    let tokens = tokenize("(( ) )()").unwrap().get_tokens();

    assert_eq!(6, tokens.len());
    assert_eq!(tokens[0], Token::LParen);
    assert_eq!(tokens[1], Token::LParen);
    assert_eq!(tokens[2], Token::RParen);
    assert_eq!(tokens[3], Token::RParen);
    assert_eq!(tokens[4], Token::LParen);
    assert_eq!(tokens[5], Token::RParen);
}

#[test]
fn should_recognize_statuses() {
    let tokens = tokenize("success failed canceled cancelled queued running skipped")
        .unwrap()
        .get_tokens();

    assert_eq!(7, tokens.len());
    assert_eq!(tokens[0], Token::Status(BuildStatus::Success));
    assert_eq!(tokens[1], Token::Status(BuildStatus::Failed));
    assert_eq!(tokens[2], Token::Status(BuildStatus::Canceled));
    assert_eq!(tokens[3], Token::Status(BuildStatus::Canceled));
    assert_eq!(tokens[4], Token::Status(BuildStatus::Queued));
    assert_eq!(tokens[5], Token::Status(BuildStatus::Running));
    assert_eq!(tokens[6], Token::Status(BuildStatus::Skipped));
}

#[test]
fn should_recognize_operators() {
    let tokens = tokenize("== != > >= < <=").unwrap().get_tokens();

    assert_eq!(6, tokens.len());
    assert_eq!(tokens[0], Token::Operator(Operator::EqualTo));
    assert_eq!(tokens[1], Token::Operator(Operator::NotEqualTo));
    assert_eq!(tokens[2], Token::Operator(Operator::GreaterThan));
    assert_eq!(tokens[3], Token::Operator(Operator::GreaterThanOrEqualTo));
    assert_eq!(tokens[4], Token::Operator(Operator::LessThan));
    assert_eq!(tokens[5], Token::Operator(Operator::LessThanOrEqualTo));
}

#[test]
fn should_tokenize_expression_correctly() {
    let tokens = tokenize("branch == 'master' and status != 'skipped'")
        .unwrap()
        .get_tokens();

    assert_eq!(7, tokens.len());
    assert_eq!(tokens[0], Token::Word("branch".to_owned()));
    assert_eq!(tokens[1], Token::Operator(Operator::EqualTo));
    assert_eq!(tokens[2], Token::Literal("master".to_owned()));
    assert_eq!(tokens[3], Token::And);
    assert_eq!(tokens[4], Token::Word("status".to_owned()));
    assert_eq!(tokens[5], Token::Operator(Operator::NotEqualTo));
    assert_eq!(tokens[6], Token::Literal("skipped".to_owned()));
}

#[test]
fn keywords_ignore_case_and_symbols_match_keywords() {
    for text in ["OR", "or", "Or", "oR", "||"] {
        assert_eq!(tokenize(text).unwrap().get_tokens(), vec![Token::Or]);
    }
    for text in ["AND", "and", "And", "&&"] {
        assert_eq!(tokenize(text).unwrap().get_tokens(), vec![Token::And]);
    }
    for text in ["NOT", "not", "Not", "!"] {
        assert_eq!(tokenize(text).unwrap().get_tokens(), vec![Token::Not]);
    }
    assert_eq!(
        tokenize("QUEUED Success").unwrap().get_tokens(),
        vec![
            Token::Status(BuildStatus::Queued),
            Token::Status(BuildStatus::Success)
        ]
    );
}

#[test]
fn words_keep_their_case_and_split_at_non_letters() {
    let tokens = tokenize("Branch==x1").unwrap().get_tokens();
    assert_eq!(
        tokens,
        vec![
            Token::Word("Branch".to_owned()),
            Token::Operator(Operator::EqualTo),
            Token::Word("x".to_owned()),
            Token::Integer(1)
        ]
    );
}

#[test]
fn literal_keeps_text_verbatim() {
    let tokens = tokenize("'a b&&OR(' 7").unwrap().get_tokens();
    assert_eq!(
        tokens,
        vec![Token::Literal("a b&&OR(".to_owned()), Token::Integer(7)]
    );
}

#[test]
fn empty_and_blank_texts_have_no_tokens() {
    assert!(tokenize("").unwrap().get_tokens().is_empty());
    assert!(tokenize(" \t\n ").unwrap().get_tokens().is_empty());
}

#[test]
fn largest_integer_is_read() {
    let tokens = tokenize("9223372036854775807 007").unwrap().get_tokens();
    assert_eq!(tokens, vec![Token::Integer(i64::MAX), Token::Integer(7)]);
}

#[test]
fn integer_past_the_largest_fails() {
    assert_eq!(
        tokenize("1 9223372036854775808").err(),
        Some(LexError::InvalidInteger("9223372036854775808".to_owned()))
    );
    assert_eq!(
        tokenize("99999999999999999999").err(),
        Some(LexError::InvalidInteger("99999999999999999999".to_owned()))
    );
}

#[test]
fn unexpected_character_fails() {
    assert_eq!(tokenize("branch # 1").err(), Some(LexError::UnexpectedToken('#')));
    assert_eq!(tokenize("-1").err(), Some(LexError::UnexpectedToken('-')));
}

#[test]
fn unterminated_string_fails() {
    assert_eq!(tokenize("branch == 'mas").err(), Some(LexError::UnterminatedString));
}

#[test]
fn unknown_operator_run_fails() {
    assert_eq!(
        tokenize("1 === 1").err(),
        Some(LexError::UnexpectedOperator("===".to_owned()))
    );
    assert_eq!(
        tokenize("a & b").err(),
        Some(LexError::UnexpectedOperator("&".to_owned()))
    );
}

#[test]
fn token_operator_accessors() {
    let op = Token::Operator(Operator::LessThan);
    assert!(op.is_operator());
    assert_eq!(op.get_operator(), Some(Operator::LessThan));
    assert!(!Token::And.is_operator());
    assert_eq!(Token::Word("x".to_owned()).get_operator(), None);
}

#[test]
fn stream_cursor_moves_forward_and_stops_at_end() {
    let mut stream = TokenStream::new(vec![Token::True, Token::False]);
    assert_eq!(stream.current(), Some(&Token::True));
    assert!(stream.move_next());
    assert_eq!(stream.current(), Some(&Token::False));
    assert!(stream.move_next());
    assert_eq!(stream.current(), None);
    assert!(!stream.move_next());
    assert_eq!(stream.current(), None);
    assert_eq!(stream.get_tokens(), vec![Token::True, Token::False]);
}
