use vstd::prelude::*;

verus! {

/// Represents a single segment of the input string
#[derive(Debug, PartialEq)]
pub enum Token {
    /// The separator character used in a roll
    RollSeparator(String),
    /// The character used to open a layer of recursion
    OpenParenthesis(String),
    /// The character used to close a layer of recursion
    CloseParenthesis(String),
    /// A numerical constant
    Number(String),
    /// An addition or subtraction operator
    AddOperator(String),
    /// A multiplication or division operator
    MultOperator(String),
    /// An undefined token, brought along for later processing
    Undefined(String),
}

/// The mathematical model of a token: the same tag over the captured
/// character sequence.
pub enum TokenView {
    RollSeparator(Seq<char>),
    OpenParenthesis(Seq<char>),
    CloseParenthesis(Seq<char>),
    Number(Seq<char>),
    AddOperator(Seq<char>),
    MultOperator(Seq<char>),
    Undefined(Seq<char>),
}

impl View for Token {
    type V = TokenView;

    open spec fn view(&self) -> TokenView {
        match self {
            Token::RollSeparator(s) => TokenView::RollSeparator(s@),
            Token::OpenParenthesis(s) => TokenView::OpenParenthesis(s@),
            Token::CloseParenthesis(s) => TokenView::CloseParenthesis(s@),
            Token::Number(s) => TokenView::Number(s@),
            Token::AddOperator(s) => TokenView::AddOperator(s@),
            Token::MultOperator(s) => TokenView::MultOperator(s@),
            Token::Undefined(s) => TokenView::Undefined(s@),
        }
    }
}

impl DeepView for Token {
    type V = TokenView;

    open spec fn deep_view(&self) -> TokenView {
        self.view()
    }
}

/// The substring that a token captured from the input.
pub open spec fn token_text(t: TokenView) -> Seq<char> {
    match t {
        TokenView::RollSeparator(s) => s,
        TokenView::OpenParenthesis(s) => s,
        TokenView::CloseParenthesis(s) => s,
        TokenView::Number(s) => s,
        TokenView::AddOperator(s) => s,
        TokenView::MultOperator(s) => s,
        TokenView::Undefined(s) => s,
    }
}

/// The characters with the Unicode `White_Space` property, which the
/// tokenizer skips.
pub open spec fn is_space(c: char) -> bool {
    c == ' ' || c == '\t' || c == '\n' || c == '\u{0B}' || c == '\u{0C}' || c == '\r'
        || c == '\u{85}' || c == '\u{A0}' || c == '\u{1680}'
        || ('\u{2000}' <= c && c <= '\u{200A}')
        || c == '\u{2028}' || c == '\u{2029}' || c == '\u{202F}' || c == '\u{205F}'
        || c == '\u{3000}'
}

/// The characters that may make up a Number token.
pub open spec fn is_number_char(c: char) -> bool {
    ('0' <= c && c <= '9') || c == '%'
}

/// How many leading characters of `s` belong to a run of Number characters.
pub open spec fn number_run_len(s: Seq<char>) -> nat
    decreases s.len(),
{
    if s.len() > 0 && is_number_char(s[0]) {
        1 + number_run_len(s.skip(1))
    } else {
        0
    }
}

/// A run stops within the sequence: its length never exceeds the sequence's,
/// its characters are all Number characters, and the character after it,
/// if there is one, is not.
pub proof fn lemma_number_run_len(s: Seq<char>)
    ensures
        number_run_len(s) <= s.len(),
        forall|i: int| 0 <= i < number_run_len(s) ==> is_number_char(#[trigger] s[i]),
        number_run_len(s) < s.len() ==> !is_number_char(s[number_run_len(s) as int]),
    decreases s.len(),
{
    if s.len() > 0 && is_number_char(s[0]) {
        lemma_number_run_len(s.skip(1));
        assert forall|i: int| 0 <= i < number_run_len(s) implies is_number_char(
            #[trigger] s[i],
        ) by {
            if i > 0 {
                assert(s.skip(1)[i - 1] == s[i]);
            }
        }
        if number_run_len(s) < s.len() {
            assert(s.skip(1)[number_run_len(s) as int - 1] == s[number_run_len(s) as int]);
        }
    }
}

/// The token sequence that the input denotes: whitespace is skipped, the
/// single characters `d ( ) + - * /` become one token each, a maximal run
/// of digits and `%` becomes one Number token, and anything else becomes
/// an Undefined token of that one character.
pub open spec fn spec_tokenize(s: Seq<char>) -> Seq<TokenView>
    decreases s.len(),
    via spec_tokenize_decreases
{
    if s.len() == 0 {
        Seq::empty()
    } else if is_space(s[0]) {
        spec_tokenize(s.skip(1))
    } else if s[0] == 'd' {
        seq![TokenView::RollSeparator(seq!['d'])] + spec_tokenize(s.skip(1))
    } else if s[0] == '(' {
        seq![TokenView::OpenParenthesis(seq!['('])] + spec_tokenize(s.skip(1))
    } else if s[0] == ')' {
        seq![TokenView::CloseParenthesis(seq![')'])] + spec_tokenize(s.skip(1))
    } else if is_number_char(s[0]) {
        seq![TokenView::Number(s.take(number_run_len(s) as int))]
            + spec_tokenize(s.skip(number_run_len(s) as int))
    } else if s[0] == '+' || s[0] == '-' {
        seq![TokenView::AddOperator(seq![s[0]])] + spec_tokenize(s.skip(1))
    } else if s[0] == '*' || s[0] == '/' {
        seq![TokenView::MultOperator(seq![s[0]])] + spec_tokenize(s.skip(1))
    } else {
        seq![TokenView::Undefined(seq![s[0]])] + spec_tokenize(s.skip(1))
    }
}

#[via_fn]
proof fn spec_tokenize_decreases(s: Seq<char>) {
    lemma_number_run_len(s);
}

/// The concatenation of the captured substrings of a token sequence, in
/// order.
pub open spec fn token_texts(ts: Seq<TokenView>) -> Seq<char>
    decreases ts.len(),
{
    if ts.len() == 0 {
        Seq::empty()
    } else {
        token_text(ts[0]) + token_texts(ts.skip(1))
    }
}

/// The input with its whitespace characters removed.
pub open spec fn without_spaces(s: Seq<char>) -> Seq<char>
    decreases s.len(),
{
    if s.len() == 0 {
        Seq::empty()
    } else if is_space(s[0]) {
        without_spaces(s.skip(1))
    } else {
        seq![s[0]] + without_spaces(s.skip(1))
    }
}

proof fn lemma_token_texts_cons(t: TokenView, ts: Seq<TokenView>)
    ensures
        token_texts(seq![t] + ts) == token_text(t) + token_texts(ts),
{
    assert((seq![t] + ts)[0] == t);
    assert((seq![t] + ts).skip(1) =~= ts);
}

proof fn lemma_without_spaces_prefix(s: Seq<char>, k: int)
    requires
        0 <= k <= s.len(),
        forall|i: int| 0 <= i < k ==> !is_space(#[trigger] s[i]),
    ensures
        without_spaces(s) == s.take(k) + without_spaces(s.skip(k)),
    decreases k,
{
    if k == 0 {
        assert(s.take(0) =~= Seq::<char>::empty());
        assert(s.skip(0) =~= s);
        assert(Seq::<char>::empty() + without_spaces(s) =~= without_spaces(s));
    } else {
        assert forall|i: int| 0 <= i < k - 1 implies !is_space(#[trigger] s.skip(1)[i]) by {
            assert(s.skip(1)[i] == s[i + 1]);
        }
        lemma_without_spaces_prefix(s.skip(1), k - 1);
        assert(s.skip(1).skip(k - 1) =~= s.skip(k));
        assert(seq![s[0]] + (s.skip(1).take(k - 1) + without_spaces(s.skip(k))) =~= s.take(k)
            + without_spaces(s.skip(k)));
    }
}

/// Law: concatenating each token's captured substring, in order, reproduces
/// the original input with its whitespace removed.
pub proof fn lemma_tokenize_text(s: Seq<char>)
    ensures
        token_texts(spec_tokenize(s)) == without_spaces(s),
    decreases s.len(),
{
    if s.len() == 0 {
    } else if is_space(s[0]) {
        lemma_tokenize_text(s.skip(1));
    } else if is_number_char(s[0]) {
        lemma_number_run_len(s);
        let k = number_run_len(s) as int;
        lemma_tokenize_text(s.skip(k));
        lemma_token_texts_cons(TokenView::Number(s.take(k)), spec_tokenize(s.skip(k)));
        lemma_without_spaces_prefix(s, k);
    } else {
        let tv = spec_tokenize(s)[0];
        lemma_tokenize_text(s.skip(1));
        lemma_token_texts_cons(tv, spec_tokenize(s.skip(1)));
        lemma_without_spaces_prefix(s, 1);
        assert(token_text(tv) =~= s.take(1));
    }
}

/// Relies on std's String::push: appends the given character to the end of
/// the string.
#[verifier::external_body]
fn push_char(s: &mut String, c: char)
    ensures
        final(s)@ == old(s)@.push(c),
{
    s.push(c);
}

/// A fresh string holding exactly one character.
pub(crate) fn char_string(c: char) -> (r: String)
    ensures
        r@ == seq![c],
{
    let mut s = String::new();
    push_char(&mut s, c);
    proof {
        assert(s@ =~= seq![c]);
    }
    s
}

/// Whether the tokenizer skips this character.
fn exec_is_space(c: char) -> (r: bool)
    ensures
        r == is_space(c),
{
    c == ' ' || c == '\t' || c == '\n' || c == '\u{0B}' || c == '\u{0C}' || c == '\r'
        || c == '\u{85}' || c == '\u{A0}' || c == '\u{1680}'
        || ('\u{2000}' <= c && c <= '\u{200A}')
        || c == '\u{2028}' || c == '\u{2029}' || c == '\u{202F}' || c == '\u{205F}'
        || c == '\u{3000}'
}

/// Whether this character may continue a Number token.
fn exec_is_number_char(c: char) -> (r: bool)
    ensures
        r == is_number_char(c),
{
    ('0' <= c && c <= '9') || c == '%'
}

/// Parses the next numerical constant into a string: captures the maximal
/// run of digits and `%` characters beginning at `start` and returns it
/// together with the position just after it.
pub fn parse_number(s: &str, start: usize) -> (r: (String, usize))
    requires
        start <= s@.len(),
    ensures
        r.1 == start + number_run_len(s@.skip(start as int)),
        r.0@ == s@.subrange(start as int, r.1 as int),
{
    let n = s.unicode_len();
    let mut acc = String::new();
    let mut j: usize = start;
    while j < n && exec_is_number_char(s.get_char(j))
        invariant
            start <= j <= n,
            n == s@.len(),
            acc@ == s@.subrange(start as int, j as int),
            forall|i: int| start <= i < j ==> is_number_char(#[trigger] s@[i]),
        decreases n - j,
    {
        push_char(&mut acc, s.get_char(j));
        j += 1;
        proof {
            assert(acc@ =~= s@.subrange(start as int, j as int));
        }
    }
    proof {
        let t = s@.skip(start as int);
        lemma_number_run_len(t);
        let r = number_run_len(t) as int;
        let k = j - start;
        assert(t.len() == s@.len() - start);
        assert(forall|i: int| 0 <= i < t.len() ==> t[i] == s@[start + i]);
        if r < k {
            assert(is_number_char(s@[start + r]));
            assert(!is_number_char(t[r]));
        }
        if r > k {
            assert(is_number_char(t[k]));
            assert(j < n && !is_number_char(s@[start + k]));
        }
        assert(r == k);
        assert(acc@ =~= s@.subrange(start as int, start + number_run_len(t)));
    }
    (acc, j)
}

/// Take an input string and turn it into a list of tokens
pub fn tokenize(input: String) -> (r: Vec<Token>)
    ensures
        r.deep_view() == spec_tokenize(input@),
{
    let s = input.as_str();
    let n = s.unicode_len();
    // The tokens that will be returned from the function
    let mut tokens: Vec<Token> = Vec::new();
    let mut i: usize = 0;
    proof {
        assert(tokens.deep_view() =~= Seq::<TokenView>::empty());
        assert(input@.skip(0) =~= input@);
        assert(Seq::<TokenView>::empty() + spec_tokenize(input@) =~= spec_tokenize(input@));
    }
    while i < n
        invariant
            i <= n,
            n == s@.len(),
            s@ == input@,
            spec_tokenize(input@) == tokens.deep_view() + spec_tokenize(input@.skip(i as int)),
        decreases n - i,
    {
        let ghost i0 = i as int;
        let ghost prev = tokens.deep_view();
        let ghost rest = input@.skip(i as int);
        proof {
            assert(rest[0] == input@[i as int]);
        }
        let c = s.get_char(i);
        // Ignore whitespace
        if exec_is_space(c) {
            i += 1;
            proof {
                assert(rest.skip(1) =~= input@.skip(i as int));
            }
        } else {
            // What kind of character is it?
            if c == 'd' {
                tokens.push(Token::RollSeparator(char_string(c)));
                i += 1;
            } else if c == '(' {
                tokens.push(Token::OpenParenthesis(char_string(c)));
                i += 1;
            } else if c == ')' {
                tokens.push(Token::CloseParenthesis(char_string(c)));
                i += 1;
            } else if exec_is_number_char(c) {
                // If it is a numerical constant, hand off to the parsing function
                let run = parse_number(s, i);
                tokens.push(Token::Number(run.0));
                proof {
                    lemma_number_run_len(rest);
                    assert(s@.subrange(i as int, i + number_run_len(rest)) =~= rest.take(
                        number_run_len(rest) as int,
                    ));
                    assert(input@.skip(i + number_run_len(rest)) =~= rest.skip(
                        number_run_len(rest) as int,
                    ));
                }
                i = run.1;
            } else if c == '+' || c == '-' {
                tokens.push(Token::AddOperator(char_string(c)));
                i += 1;
            } else if c == '*' || c == '/' {
                tokens.push(Token::MultOperator(char_string(c)));
                i += 1;
            } else {
                // If it matched no pattern, bring it for processing
                tokens.push(Token::Undefined(char_string(c)));
                i += 1;
            }
            proof {
                let tv = tokens[tokens.len() - 1]@;
                assert(tokens.deep_view() =~= prev.push(tv));
                assert(rest.skip(1) =~= input@.skip(i0 + 1));
                assert(prev.push(tv) + spec_tokenize(input@.skip(i as int)) =~= prev + (seq![tv]
                    + spec_tokenize(input@.skip(i as int))));
            }
        }
    }
    proof {
        assert(input@.skip(n as int) =~= Seq::<char>::empty());
        assert(tokens.deep_view() + Seq::<TokenView>::empty() =~= tokens.deep_view());
    }
    tokens
}

} // verus!
