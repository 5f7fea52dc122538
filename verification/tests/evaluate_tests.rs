use num_bigint::BigInt;
use roll::evaluate::Thunk;
use roll::parse::Number;
use roll::{evaluate, parse, tokenize};

fn eval_text(input: &str) -> Result<BigInt, String> {
    evaluate(parse(tokenize(input.to_string())).expect("input should parse"))
}

#[test]
fn single_literal_evaluates_to_itself() {
    assert_eq!(eval_text("1"), Ok(BigInt::from(1)));
}

#[test]
fn multiplication_binds_tighter_than_addition() {
    assert_eq!(eval_text("1*2+3"), Ok(BigInt::from(5)));
    assert_eq!(eval_text("1+2*3"), Ok(BigInt::from(7)));
}

#[test]
fn subtraction_is_left_associative() {
    assert_eq!(eval_text("10-2-3"), Ok(BigInt::from(5)));
}

#[test]
fn parentheses_override_precedence() {
    assert_eq!(eval_text("(1+2)*3"), Ok(BigInt::from(9)));
}

#[test]
fn percentile_scales_by_one_hundred() {
    // A trailing % multiplies the accumulated value by one hundred.
    assert_eq!(eval_text("5%"), Ok(BigInt::from(500)));
    // A % alone seeds the value to one, then scales it: percentile dice.
    assert_eq!(eval_text("%"), Ok(BigInt::from(100)));
    // A leading % both seeds to one and scales at its own position.
    assert_eq!(eval_text("%5"), Ok(BigInt::from(1005)));
    // Leading zeroes are plain base-ten digits.
    assert_eq!(eval_text("007"), Ok(BigInt::from(7)));
}

#[test]
fn division_truncates_towards_zero() {
    assert_eq!(eval_text("7/2"), Ok(BigInt::from(3)));
    assert_eq!(eval_text("(0-7)/2"), Ok(BigInt::from(-3)));
}

#[test]
fn division_by_zero_is_an_error() {
    assert_eq!(
        eval_text("1/0"),
        Err("Evaluation Error: Division by zero".to_string())
    );
}

#[test]
fn roll_sum_stays_within_bounds() {
    for _ in 0..25 {
        let value = eval_text("3d6").expect("roll should succeed");
        assert!(value >= BigInt::from(3));
        assert!(value <= BigInt::from(18));
    }
}

#[test]
fn roll_of_zero_dice_is_zero() {
    assert_eq!(eval_text("0d6"), Ok(BigInt::from(0)));
    assert_eq!(eval_text("0d0"), Ok(BigInt::from(0)));
}

#[test]
fn negative_dice_count_is_an_error() {
    assert_eq!(
        eval_text("(0-1)d6"),
        Err("Evaluation Error: Left side of a roll was less than 0, found -1".to_string())
    );
}

#[test]
fn roll_with_no_faces_is_an_error() {
    assert_eq!(
        eval_text("1d0"),
        Err("Evaluation Error: Right side of a roll was less than 1, found 0".to_string())
    );
}

#[test]
fn empty_number_is_an_error() {
    let literal = Thunk::new(Number::StringRepresentation("".to_string()));
    assert_eq!(
        literal.consume(),
        Err("Evaluation Error: Found empty number".to_string())
    );
}

#[test]
fn unexpected_character_in_number_is_an_error() {
    let literal = Thunk::new(Number::StringRepresentation("1a".to_string()));
    assert_eq!(
        literal.consume(),
        Err("Evaluation Error: Expected '0'-'9' or '%', found a".to_string())
    );
}

#[test]
fn rolled_dice_feed_enclosing_arithmetic() {
    for _ in 0..10 {
        let value = eval_text("2d4*10+1").expect("roll should succeed");
        assert!(value >= BigInt::from(21));
        assert!(value <= BigInt::from(81));
        assert_eq!((value - BigInt::from(1)) % BigInt::from(10), BigInt::from(0));
    }
}
