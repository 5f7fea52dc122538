use roll::tokenize::{tokenize, Token};

#[test]
fn splits_expression_into_tokens() {
    assert_eq!(
        tokenize("2d6+3".to_string()),
        vec![
            Token::Number("2".to_string()),
            Token::RollSeparator("d".to_string()),
            Token::Number("6".to_string()),
            Token::AddOperator("+".to_string()),
            Token::Number("3".to_string()),
        ]
    );
}

#[test]
fn skips_whitespace_and_keeps_text() {
    let tokens = tokenize(" 1\t* (2 / 34) \n".to_string());
    assert_eq!(
        tokens,
        vec![
            Token::Number("1".to_string()),
            Token::MultOperator("*".to_string()),
            Token::OpenParenthesis("(".to_string()),
            Token::Number("2".to_string()),
            Token::MultOperator("/".to_string()),
            Token::Number("34".to_string()),
            Token::CloseParenthesis(")".to_string()),
        ]
    );
    // Concatenating the captured substrings reproduces the input with its
    // whitespace removed.
    let mut joined = String::new();
    for token in &tokens {
        let text = match token {
            Token::RollSeparator(s) => s,
            Token::OpenParenthesis(s) => s,
            Token::CloseParenthesis(s) => s,
            Token::Number(s) => s,
            Token::AddOperator(s) => s,
            Token::MultOperator(s) => s,
            Token::Undefined(s) => s,
        };
        joined.push_str(text);
    }
    assert_eq!(joined, "1*(2/34)");
}

#[test]
fn greedy_number_run_takes_digits_and_percents() {
    assert_eq!(
        tokenize("12%3d4".to_string()),
        vec![
            Token::Number("12%3".to_string()),
            Token::RollSeparator("d".to_string()),
            Token::Number("4".to_string()),
        ]
    );
}

#[test]
fn unknown_characters_become_undefined() {
    assert_eq!(
        tokenize("1a".to_string()),
        vec![
            Token::Number("1".to_string()),
            Token::Undefined("a".to_string()),
        ]
    );
}

#[test]
fn tokenizing_twice_gives_identical_sequences() {
    let first = tokenize("(1d4)d%+12".to_string());
    let second = tokenize("(1d4)d%+12".to_string());
    assert_eq!(first, second);
}
