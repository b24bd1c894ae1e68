//! The lexer: rule text to a stream of tokens.
use vstd::prelude::*;

use vstd::string::StrSliceExecFns;

use crate::ast::Operator;
use crate::record::BuildStatus;

verus! {

/// A lexical token.
#[derive(Debug, PartialEq, Clone)]
pub enum Token {
    Word(String),
    Literal(String),
    Integer(i64),
    Status(BuildStatus),
    Operator(Operator),
    Or,
    And,
    Not,
    True,
    False,
    LParen,
    RParen,
}

/// The model of a [`Token`].
pub ghost enum TokenView {
    Word(Seq<char>),
    Literal(Seq<char>),
    Integer(i64),
    Status(BuildStatus),
    Operator(Operator),
    Or,
    And,
    Not,
    True,
    False,
    LParen,
    RParen,
}

impl View for Token {
    type V = TokenView;

    open spec fn view(&self) -> TokenView {
        match self {
            Token::Word(w) => TokenView::Word(w@),
            Token::Literal(l) => TokenView::Literal(l@),
            Token::Integer(n) => TokenView::Integer(*n),
            Token::Status(s) => TokenView::Status(*s),
            Token::Operator(op) => TokenView::Operator(*op),
            Token::Or => TokenView::Or,
            Token::And => TokenView::And,
            Token::Not => TokenView::Not,
            Token::True => TokenView::True,
            Token::False => TokenView::False,
            Token::LParen => TokenView::LParen,
            Token::RParen => TokenView::RParen,
        }
    }
}

pub open spec fn views_of(tokens: Seq<Token>) -> Seq<TokenView> {
    tokens.map_values(|t: Token| t@)
}

impl Token {
    pub fn is_operator(&self) -> (r: bool)
        ensures
            r == (self is Operator),
    {
        match self {
            Token::Operator(_) => true,
            _ => false,
        }
    }

    pub fn get_operator(&self) -> (r: Option<Operator>)
        ensures
            r == (match self@ {
                TokenView::Operator(op) => Some(op),
                _ => None,
            }),
    {
        match self {
            Token::Operator(op) => Some(*op),
            _ => None,
        }
    }

    /// A copy of the token with the same model.
    pub fn duplicate(&self) -> (r: Token)
        ensures
            r@ == self@,
    {
        match self {
            Token::Word(w) => Token::Word(w.clone()),
            Token::Literal(l) => Token::Literal(l.clone()),
            Token::Integer(n) => Token::Integer(*n),
            Token::Status(s) => Token::Status(*s),
            Token::Operator(op) => Token::Operator(*op),
            Token::Or => Token::Or,
            Token::And => Token::And,
            Token::Not => Token::Not,
            Token::True => Token::True,
            Token::False => Token::False,
            Token::LParen => Token::LParen,
            Token::RParen => Token::RParen,
        }
    }
}

/// The token at a cursor position, if there is one.
pub open spec fn token_at(tokens: Seq<TokenView>, pos: int) -> Option<TokenView> {
    if 0 <= pos < tokens.len() {
        Some(tokens[pos])
    } else {
        None
    }
}

/// The cursor position after one step: it stops at the end of the tokens.
pub open spec fn step(tokens: Seq<TokenView>, pos: int) -> int {
    if pos < tokens.len() {
        pos + 1
    } else {
        pos
    }
}

/// A sequence of tokens with a cursor that only moves forward.
pub struct TokenStream {
    tokens: Vec<Token>,
    position: usize,
}

impl TokenStream {
    #[verifier::type_invariant]
    spec fn cursor_in_bounds(&self) -> bool {
        self.position <= self.tokens.len()
    }

    /// The tokens of the stream.
    pub closed spec fn tokens_view(&self) -> Seq<TokenView> {
        views_of(self.tokens@)
    }

    /// The cursor.
    pub closed spec fn position(&self) -> int {
        self.position as int
    }

    pub fn new(tokens: Vec<Token>) -> (r: TokenStream)
        ensures
            r.tokens_view() == views_of(tokens@),
            r.position() == 0,
    {
        TokenStream { tokens, position: 0 }
    }

    pub fn get_tokens(&self) -> (r: Vec<Token>)
        ensures
            views_of(r@) == self.tokens_view(),
    {
        let mut r: Vec<Token> = Vec::new();
        let mut i: usize = 0;
        while i < self.tokens.len()
            invariant
                i <= self.tokens@.len(),
                r@.len() == i,
                forall|j: int| 0 <= j < i ==> (#[trigger] r@[j])@ == self.tokens@[j]@,
            decreases self.tokens@.len() - i,
        {
            r.push(self.tokens[i].duplicate());
            i = i + 1;
        }
        assert(views_of(r@) =~= views_of(self.tokens@));
        r
    }

    pub fn current(&self) -> (r: Option<&Token>)
        ensures
            0 <= self.position() <= self.tokens_view().len(),
            r matches Some(t) ==> token_at(self.tokens_view(), self.position()) == Some(t@),
            r is None ==> token_at(self.tokens_view(), self.position()) is None,
    {
        proof {
            use_type_invariant(self);
        }
        if self.position >= self.tokens.len() {
            return None;
        }
        Some(&self.tokens[self.position])
    }

    pub fn move_next(&mut self) -> (r: bool)
        ensures
            final(self).tokens_view() == old(self).tokens_view(),
            final(self).position() == step(old(self).tokens_view(), old(self).position()),
            r == (old(self).position() < old(self).tokens_view().len()),
    {
        proof {
            use_type_invariant(&*self);
        }
        if self.position >= self.tokens.len() {
            return false;
        }
        self.position = self.position + 1;
        true
    }
}

/// An error of the lexer; each names what it stopped at.
#[derive(Debug, PartialEq, Clone)]
pub enum LexError {
    UnexpectedToken(char),
    UnterminatedString,
    InvalidInteger(String),
    UnexpectedOperator(String),
}

/// The model of a [`LexError`].
pub ghost enum LexErrorView {
    UnexpectedToken(char),
    UnterminatedString,
    InvalidInteger(Seq<char>),
    UnexpectedOperator(Seq<char>),
}

impl View for LexError {
    type V = LexErrorView;

    open spec fn view(&self) -> LexErrorView {
        match self {
            LexError::UnexpectedToken(c) => LexErrorView::UnexpectedToken(*c),
            LexError::UnterminatedString => LexErrorView::UnterminatedString,
            LexError::InvalidInteger(d) => LexErrorView::InvalidInteger(d@),
            LexError::UnexpectedOperator(o) => LexErrorView::UnexpectedOperator(o@),
        }
    }
}

/// The classes of characters that the lexer reads in runs.
#[derive(Clone, Copy, PartialEq, Eq, Structural)]
pub enum CharClass {
    Letter,
    Digit,
    Symbol,
    NotQuote,
}

pub open spec fn is_space(c: char) -> bool {
    c == ' ' || c == '\t' || c == '\n' || c == '\r'
}

pub open spec fn in_class(k: CharClass, c: char) -> bool {
    match k {
        CharClass::Letter => ('a' <= c && c <= 'z') || ('A' <= c && c <= 'Z'),
        CharClass::Digit => '0' <= c && c <= '9',
        CharClass::Symbol => c == '=' || c == '!' || c == '>' || c == '<' || c == '&' || c
            == '|',
        CharClass::NotQuote => c != '\'',
    }
}

/// The end of the run of characters of class `k` that starts at `i`.
pub open spec fn run_end(s: Seq<char>, i: int, k: CharClass) -> int
    decreases s.len() - i,
{
    if 0 <= i < s.len() && in_class(k, s[i]) {
        run_end(s, i + 1, k)
    } else {
        i
    }
}

/// A letter folded to lower case, as a code point.
pub open spec fn folded(c: char) -> u32 {
    if 'A' <= c && c <= 'Z' {
        (c as u32 + 32) as u32
    } else {
        c as u32
    }
}

/// `w` spells the lower-case word `k`, ignoring the case of its letters.
pub open spec fn spells(w: Seq<char>, k: Seq<char>) -> bool {
    w.len() == k.len() && forall|i: int| 0 <= i < w.len() ==> folded(#[trigger] w[i]) == k[i] as u32
}

/// The token for a run of letters: a keyword or status in any case, else a word.
pub open spec fn word_token(w: Seq<char>) -> TokenView {
    if spells(w, "or"@) {
        TokenView::Or
    } else if spells(w, "and"@) {
        TokenView::And
    } else if spells(w, "not"@) {
        TokenView::Not
    } else if spells(w, "true"@) {
        TokenView::True
    } else if spells(w, "false"@) {
        TokenView::False
    } else if spells(w, "success"@) {
        TokenView::Status(BuildStatus::Success)
    } else if spells(w, "canceled"@) || spells(w, "cancelled"@) {
        TokenView::Status(BuildStatus::Canceled)
    } else if spells(w, "failed"@) {
        TokenView::Status(BuildStatus::Failed)
    } else if spells(w, "running"@) {
        TokenView::Status(BuildStatus::Running)
    } else if spells(w, "skipped"@) {
        TokenView::Status(BuildStatus::Skipped)
    } else if spells(w, "queued"@) {
        TokenView::Status(BuildStatus::Queued)
    } else {
        TokenView::Word(w)
    }
}

/// The token for a run of operator symbols, if the run is one.
pub open spec fn symbol_token(o: Seq<char>) -> Option<TokenView> {
    if o == "!"@ {
        Some(TokenView::Not)
    } else if o == "&&"@ {
        Some(TokenView::And)
    } else if o == "||"@ {
        Some(TokenView::Or)
    } else if o == "=="@ {
        Some(TokenView::Operator(Operator::EqualTo))
    } else if o == "!="@ {
        Some(TokenView::Operator(Operator::NotEqualTo))
    } else if o == ">"@ {
        Some(TokenView::Operator(Operator::GreaterThan))
    } else if o == ">="@ {
        Some(TokenView::Operator(Operator::GreaterThanOrEqualTo))
    } else if o == "<"@ {
        Some(TokenView::Operator(Operator::LessThan))
    } else if o == "<="@ {
        Some(TokenView::Operator(Operator::LessThanOrEqualTo))
    } else {
        None
    }
}

/// The value of a run of decimal digits.
pub open spec fn decimal_value(d: Seq<char>) -> int
    decreases d.len(),
{
    if d.len() == 0 {
        0
    } else {
        10 * decimal_value(d.drop_last()) + (d.last() as int - '0' as int)
    }
}

pub open spec fn prepend(
    t: TokenView,
    rest: Result<Seq<TokenView>, LexErrorView>,
) -> Result<Seq<TokenView>, LexErrorView> {
    match rest {
        Ok(ts) => Ok(seq![t] + ts),
        Err(e) => Err(e),
    }
}

/// The tokens of `s` from index `i` on, or the first error met.
pub open spec fn lex_from(s: Seq<char>, i: int) -> Result<Seq<TokenView>, LexErrorView>
    decreases s.len() - i,
    via lex_from_decreases
{
    if i < 0 || i >= s.len() {
        Ok(seq![])
    } else {
        let c = s[i];
        if is_space(c) {
            lex_from(s, i + 1)
        } else if in_class(CharClass::Letter, c) {
            let j = run_end(s, i, CharClass::Letter);
            prepend(word_token(s.subrange(i, j)), lex_from(s, j))
        } else if in_class(CharClass::Digit, c) {
            let j = run_end(s, i, CharClass::Digit);
            let v = decimal_value(s.subrange(i, j));
            if v <= i64::MAX {
                prepend(TokenView::Integer(v as i64), lex_from(s, j))
            } else {
                Err(LexErrorView::InvalidInteger(s.subrange(i, j)))
            }
        } else if in_class(CharClass::Symbol, c) {
            let j = run_end(s, i, CharClass::Symbol);
            match symbol_token(s.subrange(i, j)) {
                Some(t) => prepend(t, lex_from(s, j)),
                None => Err(LexErrorView::UnexpectedOperator(s.subrange(i, j))),
            }
        } else if c == '\'' {
            let j = run_end(s, i + 1, CharClass::NotQuote);
            if j < s.len() {
                prepend(TokenView::Literal(s.subrange(i + 1, j)), lex_from(s, j + 1))
            } else {
                Err(LexErrorView::UnterminatedString)
            }
        } else if c == '(' {
            prepend(TokenView::LParen, lex_from(s, i + 1))
        } else if c == ')' {
            prepend(TokenView::RParen, lex_from(s, i + 1))
        } else {
            Err(LexErrorView::UnexpectedToken(c))
        }
    }
}

/// The tokens of a whole text.
pub open spec fn lex(s: Seq<char>) -> Result<Seq<TokenView>, LexErrorView> {
    lex_from(s, 0)
}

pub proof fn lemma_run_end(s: Seq<char>, i: int, k: CharClass)
    requires
        0 <= i <= s.len(),
    ensures
        i <= run_end(s, i, k) <= s.len(),
        forall|m: int| i <= m < run_end(s, i, k) ==> in_class(k, #[trigger] s[m]),
        run_end(s, i, k) < s.len() ==> !in_class(k, s[run_end(s, i, k)]),
    decreases s.len() - i,
{
    if i < s.len() && in_class(k, s[i]) {
        lemma_run_end(s, i + 1, k);
    }
}

#[via_fn]
proof fn lex_from_decreases(s: Seq<char>, i: int) {
    if 0 <= i < s.len() {
        lemma_run_end(s, i, CharClass::Letter);
        lemma_run_end(s, i, CharClass::Digit);
        lemma_run_end(s, i, CharClass::Symbol);
        lemma_run_end(s, i + 1, CharClass::NotQuote);
    }
}

pub open spec fn append_to(
    done: Seq<TokenView>,
    rest: Result<Seq<TokenView>, LexErrorView>,
) -> Result<Seq<TokenView>, LexErrorView> {
    match rest {
        Ok(ts) => Ok(done + ts),
        Err(e) => Err(e),
    }
}

proof fn lemma_append_prepend(
    done: Seq<TokenView>,
    t: TokenView,
    rest: Result<Seq<TokenView>, LexErrorView>,
)
    ensures
        append_to(done, prepend(t, rest)) == append_to(done.push(t), rest),
{
    if let Ok(ts) = rest {
        assert(done + (seq![t] + ts) =~= done.push(t) + ts);
    }
}

pub proof fn lemma_decimal_nonneg(d: Seq<char>)
    requires
        forall|m: int| 0 <= m < d.len() ==> in_class(CharClass::Digit, #[trigger] d[m]),
    ensures
        decimal_value(d) >= 0,
    decreases d.len(),
{
    if d.len() > 0 {
        lemma_decimal_nonneg(d.drop_last());
    }
}

/// A prefix of a run of digits is worth no more than the whole run.
proof fn lemma_decimal_prefix(d: Seq<char>, k: int)
    requires
        0 <= k <= d.len(),
        forall|m: int| 0 <= m < d.len() ==> in_class(CharClass::Digit, #[trigger] d[m]),
    ensures
        decimal_value(d.subrange(0, k)) <= decimal_value(d),
    decreases d.len(),
{
    if k == d.len() {
        assert(d.subrange(0, k) =~= d);
    } else {
        let p = d.drop_last();
        lemma_decimal_prefix(p, k);
        lemma_decimal_nonneg(p);
        assert(p.subrange(0, k) =~= d.subrange(0, k));
    }
}

fn class_has(k: CharClass, c: char) -> (r: bool)
    ensures
        r == in_class(k, c),
{
    match k {
        CharClass::Letter => ('a' <= c && c <= 'z') || ('A' <= c && c <= 'Z'),
        CharClass::Digit => '0' <= c && c <= '9',
        CharClass::Symbol => c == '=' || c == '!' || c == '>' || c == '<' || c == '&' || c
            == '|',
        CharClass::NotQuote => c != '\'',
    }
}

/// The end of the run of class `k` that starts at `i`.
fn scan(s: &Vec<char>, i: usize, k: CharClass) -> (j: usize)
    requires
        i <= s@.len(),
    ensures
        j == run_end(s@, i as int, k),
{
    let mut j: usize = i;
    while j < s.len() && class_has(k, s[j])
        invariant
            i <= j <= s@.len(),
            run_end(s@, i as int, k) == run_end(s@, j as int, k),
        decreases s@.len() - j,
    {
        j = j + 1;
    }
    j
}

/// Whether `s[i..j]` spells the lower-case word `k`, in any case.
fn spells_at(s: &Vec<char>, i: usize, j: usize, k: &str) -> (r: bool)
    requires
        i <= j <= s@.len(),
    ensures
        r == spells(s@.subrange(i as int, j as int), k@),
{
    let n = k.unicode_len();
    if j - i != n {
        return false;
    }
    let ghost w = s@.subrange(i as int, j as int);
    let mut m: usize = 0;
    while m < n
        invariant
            w == s@.subrange(i as int, j as int),
            n == k@.len(),
            j - i == n,
            i <= j <= s@.len(),
            m <= n,
            forall|t: int| 0 <= t < m ==> folded(#[trigger] w[t]) == k@[t] as u32,
        decreases n - m,
    {
        let c = s[i + m];
        let d = k.get_char(m);
        let f: u32 = if 'A' <= c && c <= 'Z' {
            c as u32 + 32
        } else {
            c as u32
        };
        if f != d as u32 {
            assert(folded(w[m as int]) != k@[m as int] as u32);
            return false;
        }
        m = m + 1;
    }
    true
}

/// Whether `s[i..j]` is exactly `k`.
fn equals_at(s: &Vec<char>, i: usize, j: usize, k: &str) -> (r: bool)
    requires
        i <= j <= s@.len(),
    ensures
        r == (s@.subrange(i as int, j as int) == k@),
{
    let n = k.unicode_len();
    if j - i != n {
        return false;
    }
    let ghost w = s@.subrange(i as int, j as int);
    let mut m: usize = 0;
    while m < n
        invariant
            w == s@.subrange(i as int, j as int),
            n == k@.len(),
            j - i == n,
            i <= j <= s@.len(),
            m <= n,
            forall|t: int| 0 <= t < m ==> #[trigger] w[t] == k@[t],
        decreases n - m,
    {
        if s[i + m] != k.get_char(m) {
            assert(w[m as int] != k@[m as int]);
            return false;
        }
        m = m + 1;
    }
    assert(w =~= k@);
    true
}

/// The characters of a text, one by one.
fn chars_of(text: &str) -> (r: Vec<char>)
    ensures
        r@ == text@,
{
    let n = text.unicode_len();
    let mut r: Vec<char> = Vec::new();
    let mut i: usize = 0;
    while i < n
        invariant
            n == text@.len(),
            i <= n,
            r@ == text@.subrange(0, i as int),
        decreases n - i,
    {
        r.push(text.get_char(i));
        i = i + 1;
        assert(r@ =~= text@.subrange(0, i as int));
    }
    assert(r@ =~= text@);
    r
}

/// Reads the run of letters at `i`: a keyword, a status or a word.
fn read_word(text: &str, s: &Vec<char>, i: usize) -> (r: (Token, usize))
    requires
        s@ == text@,
        i < s@.len(),
        in_class(CharClass::Letter, s@[i as int]),
    ensures
        i < r.1 <= s@.len(),
        r.1 == run_end(s@, i as int, CharClass::Letter),
        r.0@ == word_token(s@.subrange(i as int, r.1 as int)),
{
    let j = scan(s, i, CharClass::Letter);
    proof {
        lemma_run_end(s@, i + 1, CharClass::Letter);
    }
    let t = if spells_at(s, i, j, "or") {
        Token::Or
    } else if spells_at(s, i, j, "and") {
        Token::And
    } else if spells_at(s, i, j, "not") {
        Token::Not
    } else if spells_at(s, i, j, "true") {
        Token::True
    } else if spells_at(s, i, j, "false") {
        Token::False
    } else if spells_at(s, i, j, "success") {
        Token::Status(BuildStatus::Success)
    } else if spells_at(s, i, j, "canceled") || spells_at(s, i, j, "cancelled") {
        Token::Status(BuildStatus::Canceled)
    } else if spells_at(s, i, j, "failed") {
        Token::Status(BuildStatus::Failed)
    } else if spells_at(s, i, j, "running") {
        Token::Status(BuildStatus::Running)
    } else if spells_at(s, i, j, "skipped") {
        Token::Status(BuildStatus::Skipped)
    } else if spells_at(s, i, j, "queued") {
        Token::Status(BuildStatus::Queued)
    } else {
        Token::Word(text.substring_char(i, j).to_owned())
    };
    (t, j)
}

/// Reads the string literal whose opening quote is at `i`.
fn read_literal(text: &str, s: &Vec<char>, i: usize) -> (r: Result<(Token, usize), LexError>)
    requires
        s@ == text@,
        i < s@.len(),
    ensures
        ({
            let j = run_end(s@, i + 1, CharClass::NotQuote);
            match r {
                Ok((t, e)) => i < e <= s@.len() && j < s@.len() && e == j + 1 && t@ == TokenView::Literal(
                    s@.subrange(i + 1, j),
                ),
                Err(err) => j >= s@.len() && err@ == LexErrorView::UnterminatedString,
            }
        }),
{
    let n = s.len();
    let j = scan(s, i + 1, CharClass::NotQuote);
    proof {
        lemma_run_end(s@, i + 1, CharClass::NotQuote);
    }
    if j >= n {
        return Err(LexError::UnterminatedString);
    }
    Ok((Token::Literal(text.substring_char(i + 1, j).to_owned()), j + 1))
}

/// Reads the run of digits at `i` as a 64-bit integer.
fn read_integer(text: &str, s: &Vec<char>, i: usize) -> (r: Result<(i64, usize), LexError>)
    requires
        s@ == text@,
        i < s@.len(),
        in_class(CharClass::Digit, s@[i as int]),
    ensures
        ({
            let j = run_end(s@, i as int, CharClass::Digit);
            let v = decimal_value(s@.subrange(i as int, j));
            match r {
                Ok((n, e)) => i < e <= s@.len() && v <= i64::MAX && n == v && e == j,
                Err(err) => v > i64::MAX && err@ == LexErrorView::InvalidInteger(
                    s@.subrange(i as int, j),
                ),
            }
        }),
{
    let j = scan(s, i, CharClass::Digit);
    let ghost d = s@.subrange(i as int, j as int);
    proof {
        lemma_run_end(s@, i + 1, CharClass::Digit);
        assert forall|m: int| 0 <= m < d.len() implies in_class(
            CharClass::Digit,
            #[trigger] d[m],
        ) by {
            assert(d[m] == s@[i + m]);
        }
    }
    let mut n: i64 = 0;
    let mut m: usize = i;
    while m < j
        invariant
            s@ == text@,
            i <= m <= j <= s@.len(),
            j == run_end(s@, i as int, CharClass::Digit),
            d == s@.subrange(i as int, j as int),
            forall|t: int| 0 <= t < d.len() ==> in_class(CharClass::Digit, #[trigger] d[t]),
            0 <= n,
            n == decimal_value(s@.subrange(i as int, m as int)),
        decreases j - m,
    {
        let c = s[m];
        assert(c == d[m - i]);
        let digit: i64 = (c as u32 - '0' as u32) as i64;
        assert(s@.subrange(i as int, m + 1).drop_last() =~= s@.subrange(i as int, m as int));
        if n > 922337203685477580 || (n == 922337203685477580 && digit > 7) {
            proof {
                assert(d.subrange(0, m + 1 - i) =~= s@.subrange(i as int, m + 1));
                lemma_decimal_prefix(d, m + 1 - i);
            }
            return Err(LexError::InvalidInteger(text.substring_char(i, j).to_owned()));
        }
        n = n * 10 + digit;
        m = m + 1;
    }
    Ok((n, j))
}

/// Reads the run of operator symbols at `i`.
fn read_symbols(text: &str, s: &Vec<char>, i: usize) -> (r: Result<(Token, usize), LexError>)
    requires
        s@ == text@,
        i < s@.len(),
        in_class(CharClass::Symbol, s@[i as int]),
    ensures
        ({
            let j = run_end(s@, i as int, CharClass::Symbol);
            let o = s@.subrange(i as int, j);
            match r {
                Ok((t, e)) => i < e <= s@.len() && symbol_token(o) == Some(t@) && e == j,
                Err(err) => symbol_token(o) is None && err@ == LexErrorView::UnexpectedOperator(o),
            }
        }),
{
    let j = scan(s, i, CharClass::Symbol);
    proof {
        lemma_run_end(s@, i + 1, CharClass::Symbol);
    }
    let t = if equals_at(s, i, j, "!") {
        Token::Not
    } else if equals_at(s, i, j, "&&") {
        Token::And
    } else if equals_at(s, i, j, "||") {
        Token::Or
    } else if equals_at(s, i, j, "==") {
        Token::Operator(Operator::EqualTo)
    } else if equals_at(s, i, j, "!=") {
        Token::Operator(Operator::NotEqualTo)
    } else if equals_at(s, i, j, ">") {
        Token::Operator(Operator::GreaterThan)
    } else if equals_at(s, i, j, ">=") {
        Token::Operator(Operator::GreaterThanOrEqualTo)
    } else if equals_at(s, i, j, "<") {
        Token::Operator(Operator::LessThan)
    } else if equals_at(s, i, j, "<=") {
        Token::Operator(Operator::LessThanOrEqualTo)
    } else {
        return Err(LexError::UnexpectedOperator(text.substring_char(i, j).to_owned()));
    };
    Ok((t, j))
}

/// Splits rule text into tokens, left to right.
pub fn tokenize(text: &str) -> (r: Result<TokenStream, LexError>)
    ensures
        match r {
            Ok(ts) => lex(text@) == Ok::<Seq<TokenView>, LexErrorView>(ts.tokens_view()) && ts.position()
                == 0,
            Err(e) => lex(text@) == Err::<Seq<TokenView>, LexErrorView>(e@),
        },
{
    let s = chars_of(text);
    let mut result: Vec<Token> = Vec::new();
    let mut i: usize = 0;
    while i < s.len()
        invariant
            s@ == text@,
            i <= s@.len(),
            lex(s@) == append_to(views_of(result@), lex_from(s@, i as int)),
        decreases s@.len() - i,
    {
        let ghost done = views_of(result@);
        let c = s[i];
        if c == ' ' || c == '\t' || c == '\n' || c == '\r' {
            i = i + 1;
        } else if class_has(CharClass::Letter, c) {
            let (t, j) = read_word(text, &s, i);
            proof {
                lemma_append_prepend(done, t@, lex_from(s@, j as int));
            }
            result.push(t);
            assert(views_of(result@) =~= done.push(t@));
            i = j;
        } else if class_has(CharClass::Digit, c) {
            let (n, j) = read_integer(text, &s, i)?;
            proof {
                lemma_append_prepend(done, TokenView::Integer(n), lex_from(s@, j as int));
            }
            result.push(Token::Integer(n));
            assert(views_of(result@) =~= done.push(TokenView::Integer(n)));
            i = j;
        } else if class_has(CharClass::Symbol, c) {
            let (t, j) = read_symbols(text, &s, i)?;
            proof {
                lemma_append_prepend(done, t@, lex_from(s@, j as int));
            }
            result.push(t);
            assert(views_of(result@) =~= done.push(t@));
            i = j;
        } else if c == '\'' {
            let (t, j) = read_literal(text, &s, i)?;
            proof {
                lemma_append_prepend(done, t@, lex_from(s@, j as int));
            }
            result.push(t);
            assert(views_of(result@) =~= done.push(t@));
            i = j;
        } else if c == '(' || c == ')' {
            let t = if c == '(' {
                Token::LParen
            } else {
                Token::RParen
            };
            proof {
                lemma_append_prepend(done, t@, lex_from(s@, i + 1));
            }
            result.push(t);
            assert(views_of(result@) =~= done.push(t@));
            i = i + 1;
        } else {
            return Err(LexError::UnexpectedToken(c));
        }
    }
    assert(views_of(result@) + seq![] =~= views_of(result@));
    Ok(TokenStream::new(result))
}

} // verus!
