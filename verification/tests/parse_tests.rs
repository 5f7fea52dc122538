use roll::parse::{parse, Thunk, Token};
use roll::parse::{
    AddLayer, AddOperator, MultLayer, MultOperator, Number, Roll, RollOperator, Start,
    SubExpression,
};

fn number(text: &str) -> Thunk<Number> {
    Thunk::new(Number::StringRepresentation(text.to_string()))
}

fn sub_expression(text: &str) -> Thunk<SubExpression> {
    Thunk::new(SubExpression::Base(number(text)))
}

fn roll_base(text: &str) -> Thunk<Roll> {
    Thunk::new(Roll::Base(sub_expression(text)))
}

fn mult_base(text: &str) -> Thunk<MultLayer> {
    Thunk::new(MultLayer::Base(roll_base(text)))
}

fn add_base(text: &str) -> Thunk<AddLayer> {
    Thunk::new(AddLayer::Base(mult_base(text)))
}

fn start(layer: Thunk<AddLayer>) -> Thunk<Start> {
    Thunk::new(Start::Base(layer))
}

#[test]
fn single_number() {
    assert_eq!(
        Ok(start(add_base("1"))),
        parse(vec![Token::Number("1".to_string())])
    )
}

#[test]
fn multi_roll() {
    let one_d_two = Thunk::new(Roll::Recurse(
        roll_base("1"),
        RollOperator::D,
        sub_expression("2"),
    ));
    let chained = Thunk::new(Roll::Recurse(
        one_d_two,
        RollOperator::D,
        sub_expression("3"),
    ));
    let expected = start(Thunk::new(AddLayer::Base(Thunk::new(MultLayer::Base(
        chained,
    )))));
    assert_eq!(
        Ok(expected),
        parse(vec![
            Token::Number("1".to_string()),
            Token::RollSeparator("d".to_string()),
            Token::Number("2".to_string()),
            Token::RollSeparator("d".to_string()),
            Token::Number("3".to_string()),
        ])
    )
}

#[test]
fn multi_mult() {
    let one_times_two = Thunk::new(MultLayer::Recurse(
        mult_base("1"),
        MultOperator::Multiply,
        roll_base("2"),
    ));
    let then_divided = Thunk::new(MultLayer::Recurse(
        one_times_two,
        MultOperator::Divide,
        roll_base("3"),
    ));
    let expected = start(Thunk::new(AddLayer::Base(then_divided)));
    assert_eq!(
        Ok(expected),
        parse(vec![
            Token::Number("1".to_string()),
            Token::MultOperator("*".to_string()),
            Token::Number("2".to_string()),
            Token::MultOperator("/".to_string()),
            Token::Number("3".to_string()),
        ])
    )
}

#[test]
fn add_and_multiply() {
    let one_times_two = Thunk::new(MultLayer::Recurse(
        mult_base("1"),
        MultOperator::Multiply,
        roll_base("2"),
    ));
    let product = Thunk::new(AddLayer::Base(one_times_two));
    let expected = start(Thunk::new(AddLayer::Recurse(
        product,
        AddOperator::Add,
        mult_base("3"),
    )));
    assert_eq!(
        Ok(expected),
        parse(vec![
            Token::Number("1".to_string()),
            Token::MultOperator("*".to_string()),
            Token::Number("2".to_string()),
            Token::AddOperator("+".to_string()),
            Token::Number("3".to_string()),
        ])
    )
}

#[test]
fn unmatched_parenthesis_cites_expectation() {
    let result = parse(roll::tokenize("(1+2".to_string()));
    assert_eq!(
        result,
        Err("Parse Error: Expected \")\", found end of stream".to_string())
    );
}

#[test]
fn trailing_token_is_rejected() {
    let result = parse(roll::tokenize("1 2".to_string()));
    assert_eq!(
        result,
        Err("Parse Error: Expected end of stream, found Number(\"2\")".to_string())
    );
}

#[test]
fn undefined_token_is_rejected() {
    let result = parse(roll::tokenize("1@2".to_string()));
    assert_eq!(
        result,
        Err("Parse Error: Expected end of stream, found Undefined(\"@\")".to_string())
    );
}

#[test]
fn empty_input_is_rejected() {
    let result = parse(roll::tokenize("".to_string()));
    assert_eq!(
        result,
        Err("Parse Error: Expected nested start or \"(\", found end of stream".to_string())
    );
}

#[test]
fn stray_operator_is_rejected() {
    let result = parse(roll::tokenize("*3".to_string()));
    assert_eq!(
        result,
        Err("Parse Error: Expected nested start or \"(\", found: Some(MultOperator(\"*\"))".to_string())
    );
}

#[test]
fn bad_add_operator_payload_is_rejected() {
    let tokens = vec![
        Token::Number("1".to_string()),
        Token::AddOperator("?".to_string()),
        Token::Number("2".to_string()),
    ];
    assert_eq!(
        parse(tokens),
        Err("Parse Error: Expected \"+\" or \"-\", found ?".to_string())
    );
}
