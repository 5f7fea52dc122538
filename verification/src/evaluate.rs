use num_bigint::BigInt;
use num_bigint::RandBigInt;
use vstd::prelude::*;
use vstd::string::{StrSliceExecFns, StringExecFns};

use crate::parse::{
    AddLayer, AddOperator, MultLayer, MultOperator, Number, Roll, RollOperator, Start,
    SubExpression,
};
use crate::tokenize::is_number_char;

verus! {

#[verifier::external_type_specification]
#[verifier::external_body]
pub struct ExBigInt(BigInt);

#[verifier::external_type_specification]
#[verifier::external_body]
pub struct ExThreadRng(rand::rngs::ThreadRng);

/// The integer value that an arbitrary-precision number holds.
pub uninterp spec fn big_value(b: BigInt) -> int;

/// Truncating division: the quotient is rounded towards zero, which is how
/// the arbitrary-precision division rounds.
pub open spec fn tdiv(a: int, b: int) -> int {
    if (a < 0) == (b < 0) {
        vstd::math::abs(a) as int / vstd::math::abs(b) as int
    } else {
        -(vstd::math::abs(a) as int / vstd::math::abs(b) as int)
    }
}

/// Relies on num_bigint's `From<u32>`: the result holds the given value.
#[verifier::external_body]
fn big_from_u32(n: u32) -> (r: BigInt)
    ensures
        big_value(r) == n as int,
{
    BigInt::from(n)
}

/// Relies on num_bigint's `Add`: the result holds the sum of the two values.
#[verifier::external_body]
fn big_add(a: &BigInt, b: &BigInt) -> (r: BigInt)
    ensures
        big_value(r) == big_value(*a) + big_value(*b),
{
    a + b
}

/// Relies on num_bigint's `Sub`: the result holds the difference of the two
/// values.
#[verifier::external_body]
fn big_sub(a: &BigInt, b: &BigInt) -> (r: BigInt)
    ensures
        big_value(r) == big_value(*a) - big_value(*b),
{
    a - b
}

/// Relies on num_bigint's `Mul`: the result holds the product of the two
/// values.
#[verifier::external_body]
fn big_mul(a: &BigInt, b: &BigInt) -> (r: BigInt)
    ensures
        big_value(r) == big_value(*a) * big_value(*b),
{
    a * b
}

/// Relies on num_bigint's `Div`: truncating integer division, which panics
/// when the divisor is zero, so a zero divisor is ruled out here.
#[verifier::external_body]
fn big_div(a: &BigInt, b: &BigInt) -> (r: BigInt)
    requires
        big_value(*b) != 0,
    ensures
        big_value(r) == tdiv(big_value(*a), big_value(*b)),
{
    a / b
}

/// Relies on num_bigint's `PartialOrd`: arbitrary-precision numbers are
/// ordered by their values.
#[verifier::external_body]
fn big_lt(a: &BigInt, b: &BigInt) -> (r: bool)
    ensures
        r == (big_value(*a) < big_value(*b)),
{
    a < b
}

/// Relies on num_bigint's `PartialEq`: arbitrary-precision numbers are equal
/// exactly when their values are.
#[verifier::external_body]
fn big_eq(a: &BigInt, b: &BigInt) -> (r: bool)
    ensures
        r == (big_value(*a) == big_value(*b)),
{
    a == b
}

/// Relies on num_bigint's `Display`: renders the value in decimal, used only
/// for the text of error messages.
#[verifier::external_body]
fn big_to_string(a: &BigInt) -> String {
    format!("{}", a)
}

/// Relies on rand's `thread_rng`: a generator for the dice rolls.
#[verifier::external_body]
fn fresh_rng() -> rand::rngs::ThreadRng {
    rand::thread_rng()
}

/// Relies on num_bigint's `RandBigInt::gen_bigint_range`: a value at least
/// `low` and below `high`, which panics unless `low` is below `high`, so an
/// empty range is ruled out here. Nothing more is assumed of the draw.
#[verifier::external_body]
fn big_random_range(rng: &mut rand::rngs::ThreadRng, low: &BigInt, high: &BigInt) -> (r: BigInt)
    requires
        big_value(*low) < big_value(*high),
    ensures
        big_value(*low) <= big_value(r) < big_value(*high),
{
    rng.gen_bigint_range(low, high)
}

/// A trait that represents something that can be evaluated
/// into a BigInt at some point in time
pub trait Delayable: Sized {
    /// Whether `v` is a value that evaluation can produce, under some
    /// outcome of the dice rolls.
    spec fn can_eval_to(&self, v: int) -> bool;

    /// Whether evaluation can fail, under some outcome of the dice rolls.
    spec fn can_fail(&self) -> bool;

    fn evaluate(self) -> (r: Result<BigInt, String>)
        ensures
            match r {
                Ok(b) => self.can_eval_to(big_value(b)),
                Err(_) => self.can_fail(),
            },
    ;
}

/// Some computation that is stored and evaluated at a
/// later point
#[derive(Debug, PartialEq)]
pub struct Thunk<T: Delayable> {
    /// The thing that can be evaluated at a later point
    pub delayed: Box<T>,
}

impl<T: Delayable> Thunk<T> {
    /// Create a new Thunk from an item of a known size
    pub fn new(delayed: T) -> (r: Self)
        ensures
            *r.delayed == delayed,
    {
        Self { delayed: Box::new(delayed) }
    }

    /// Consume the Thunk and return the result
    pub fn consume(self) -> (r: Result<BigInt, String>)
        ensures
            match r {
                Ok(b) => self.delayed.can_eval_to(big_value(b)),
                Err(_) => self.delayed.can_fail(),
            },
    {
        (*self.delayed).evaluate()
    }
}

/// One decoding step of a Number literal: a digit appends itself in base
/// ten, a `%` multiplies the value so far by one hundred.
pub open spec fn number_step(acc: int, c: char) -> int {
    if c == '%' {
        acc * 100
    } else {
        acc * 10 + (c as u32 - 48)
    }
}

/// The left-to-right fold of the decoding steps over a character sequence.
pub open spec fn number_fold(acc: int, s: Seq<char>) -> int
    decreases s.len(),
{
    if s.len() == 0 {
        acc
    } else {
        number_fold(number_step(acc, s[0]), s.skip(1))
    }
}

/// The value a Number literal denotes: the fold over all of its characters,
/// seeded with one when the literal leads with `%` and zero otherwise.
pub open spec fn number_value(s: Seq<char>) -> int
    recommends
        s.len() > 0,
{
    number_fold(if s.len() > 0 && s[0] == '%' { 1int } else { 0int }, s)
}

/// A Number literal decodes successfully exactly when it is non-empty and
/// made of digits and `%` characters only.
pub open spec fn number_text_valid(s: Seq<char>) -> bool {
    s.len() > 0 && forall|i: int| 0 <= i < s.len() ==> is_number_char(#[trigger] s[i])
}

/// What an addition-level operator does to the values of its operands.
pub open spec fn apply_add_op(op: AddOperator, a: int, b: int) -> int {
    match op {
        AddOperator::Add => a + b,
        AddOperator::Subtract => a - b,
    }
}

/// What a multiplication-level operator can return: a product, or a
/// truncating quotient whose divisor cannot be zero.
pub open spec fn mult_op_result(op: MultOperator, a: int, b: int, v: int) -> bool {
    match op {
        MultOperator::Multiply => v == a * b,
        MultOperator::Divide => b != 0 && v == tdiv(a, b),
    }
}

/// The sums a roll of `n` dice with `f` faces can produce: exactly zero for
/// no dice, and anything in the closed range [n, n * f] otherwise.
pub open spec fn roll_outcome(n: int, f: int, v: int) -> bool {
    (n == 0 && v == 0) || (n > 0 && f >= 1 && n <= v && v <= n * f)
}

pub open spec fn start_can_eval_to(s: Start, v: int) -> bool
    decreases s,
{
    match s {
        Start::Base(t) => add_can_eval_to(*t.delayed, v),
    }
}

pub open spec fn start_can_fail(s: Start) -> bool
    decreases s,
{
    match s {
        Start::Base(t) => add_can_fail(*t.delayed),
    }
}

pub open spec fn add_can_eval_to(a: AddLayer, v: int) -> bool
    decreases a,
{
    match a {
        AddLayer::Base(t) => mult_can_eval_to(*t.delayed, v),
        AddLayer::Recurse(l, op, r) => exists|lv: int, rv: int|
            add_can_eval_to(*l.delayed, lv) && mult_can_eval_to(*r.delayed, rv) && v
                == apply_add_op(op, lv, rv),
    }
}

pub open spec fn add_can_fail(a: AddLayer) -> bool
    decreases a,
{
    match a {
        AddLayer::Base(t) => mult_can_fail(*t.delayed),
        AddLayer::Recurse(l, op, r) => add_can_fail(*l.delayed) || ((exists|lv: int|
            add_can_eval_to(*l.delayed, lv)) && mult_can_fail(*r.delayed)),
    }
}

pub open spec fn mult_can_eval_to(m: MultLayer, v: int) -> bool
    decreases m,
{
    match m {
        MultLayer::Base(t) => roll_can_eval_to(*t.delayed, v),
        MultLayer::Recurse(l, op, r) => exists|lv: int, rv: int|
            mult_can_eval_to(*l.delayed, lv) && roll_can_eval_to(*r.delayed, rv)
                && mult_op_result(op, lv, rv, v),
    }
}

pub open spec fn mult_can_fail(m: MultLayer) -> bool
    decreases m,
{
    match m {
        MultLayer::Base(t) => roll_can_fail(*t.delayed),
        MultLayer::Recurse(l, op, r) => mult_can_fail(*l.delayed) || ((exists|lv: int|
            mult_can_eval_to(*l.delayed, lv)) && (roll_can_fail(*r.delayed) || (op
            matches MultOperator::Divide && roll_can_eval_to(*r.delayed, 0)))),
    }
}

pub open spec fn roll_can_eval_to(x: Roll, v: int) -> bool
    decreases x,
{
    match x {
        Roll::Base(t) => sub_can_eval_to(*t.delayed, v),
        Roll::Recurse(l, op, r) => exists|lv: int, rv: int|
            roll_can_eval_to(*l.delayed, lv) && sub_can_eval_to(*r.delayed, rv) && lv >= 0
                && roll_outcome(lv, rv, v),
    }
}

pub open spec fn roll_can_fail(x: Roll) -> bool
    decreases x,
{
    match x {
        Roll::Base(t) => sub_can_fail(*t.delayed),
        Roll::Recurse(l, op, r) => roll_can_fail(*l.delayed) || ((exists|lv: int|
            roll_can_eval_to(*l.delayed, lv)) && sub_can_fail(*r.delayed)) || (exists|
            lv: int,
            rv: int,
        |
            roll_can_eval_to(*l.delayed, lv) && sub_can_eval_to(*r.delayed, rv) && (lv < 0 || (lv
                > 0 && rv < 1))),
    }
}

pub open spec fn sub_can_eval_to(e: SubExpression, v: int) -> bool
    decreases e,
{
    match e {
        SubExpression::Base(t) => number_can_eval_to(*t.delayed, v),
        SubExpression::Recurse(t) => start_can_eval_to(*t.delayed, v),
    }
}

pub open spec fn sub_can_fail(e: SubExpression) -> bool
    decreases e,
{
    match e {
        SubExpression::Base(t) => number_can_fail(*t.delayed),
        SubExpression::Recurse(t) => start_can_fail(*t.delayed),
    }
}

pub open spec fn number_can_eval_to(n: Number, v: int) -> bool {
    match n {
        Number::StringRepresentation(s) => number_text_valid(s@) && v == number_value(s@),
    }
}

pub open spec fn number_can_fail(n: Number) -> bool {
    match n {
        Number::StringRepresentation(s) => !number_text_valid(s@),
    }
}

/// Roll `count` dice with `faces` faces each and sum the draws. A count of
/// zero is exactly zero with no draws; a positive count with at least one
/// face is a sum within the closed range [count, count * faces]. A negative
/// count, or a positive count of dice with faces below one (which the
/// random draw cannot take), is an evaluation error.
pub fn roll_dice(count: BigInt, faces: BigInt) -> (r: Result<BigInt, String>)
    ensures
        match r {
            Ok(b) => big_value(count) >= 0 && roll_outcome(
                big_value(count),
                big_value(faces),
                big_value(b),
            ),
            Err(_) => big_value(count) < 0 || (big_value(count) > 0 && big_value(faces) < 1),
        },
{
    let zero = big_from_u32(0);
    if big_lt(&count, &zero) {
        let msg = String::from_str("Evaluation Error: Left side of a roll was less than 0, found ");
        return Err(msg.concat(big_to_string(&count).as_str()));
    }
    let one = big_from_u32(1);
    if big_lt(&count, &one) {
        return Ok(zero);
    }
    if big_lt(&faces, &one) {
        let msg = String::from_str(
            "Evaluation Error: Right side of a roll was less than 1, found ",
        );
        return Err(msg.concat(big_to_string(&faces).as_str()));
    }
    let mut rng = fresh_rng();
    let mut sum = big_from_u32(0);
    let mut dice_left = count;
    let upper_bound_exclusive = big_add(&faces, &one);
    let ghost n = big_value(dice_left);
    let ghost f = big_value(faces);
    while big_lt(&zero, &dice_left)
        invariant
            big_value(zero) == 0,
            big_value(one) == 1,
            big_value(upper_bound_exclusive) == f + 1,
            f >= 1,
            0 <= big_value(dice_left) <= n,
            n - big_value(dice_left) <= big_value(sum),
            big_value(sum) <= (n - big_value(dice_left)) * f,
        decreases big_value(dice_left),
    {
        let ghost done = n - big_value(dice_left);
        let draw = big_random_range(&mut rng, &one, &upper_bound_exclusive);
        sum = big_add(&sum, &draw);
        dice_left = big_sub(&dice_left, &one);
        proof {
            assert((done + 1) * f == done * f + f) by (nonlinear_arith);
        }
    }
    Ok(sum)
}

fn eval_start(s: Start) -> (r: Result<BigInt, String>)
    ensures
        match r {
            Ok(b) => start_can_eval_to(s, big_value(b)),
            Err(_) => start_can_fail(s),
        },
    decreases s,
{
    match s {
        Start::Base(base_thunk) => eval_add(*base_thunk.delayed),
    }
}

fn eval_add(a: AddLayer) -> (r: Result<BigInt, String>)
    ensures
        match r {
            Ok(b) => add_can_eval_to(a, big_value(b)),
            Err(_) => add_can_fail(a),
        },
    decreases a,
{
    match a {
        AddLayer::Base(base_thunk) => eval_mult(*base_thunk.delayed),
        AddLayer::Recurse(left_thunk, op, right_thunk) => {
            let ghost lnode = *left_thunk.delayed;
            let ghost rnode = *right_thunk.delayed;
            let left = match eval_add(*left_thunk.delayed) {
                Ok(v) => v,
                Err(e) => {
                    return Err(e);
                },
            };
            let right = match eval_mult(*right_thunk.delayed) {
                Ok(v) => v,
                Err(e) => {
                    proof {
                        assert(add_can_eval_to(lnode, big_value(left)));
                    }
                    return Err(e);
                },
            };
            let v = match op {
                AddOperator::Add => big_add(&left, &right),
                AddOperator::Subtract => big_sub(&left, &right),
            };
            proof {
                assert(add_can_eval_to(lnode, big_value(left)));
                assert(mult_can_eval_to(rnode, big_value(right)));
                assert(big_value(v) == apply_add_op(op, big_value(left), big_value(right)));
                assert(add_can_eval_to(a, big_value(v)));
            }
            Ok(v)
        },
    }
}

fn eval_mult(m: MultLayer) -> (r: Result<BigInt, String>)
    ensures
        match r {
            Ok(b) => mult_can_eval_to(m, big_value(b)),
            Err(_) => mult_can_fail(m),
        },
    decreases m,
{
    match m {
        MultLayer::Base(base_thunk) => eval_roll(*base_thunk.delayed),
        MultLayer::Recurse(left_thunk, op, right_thunk) => {
            let ghost lnode = *left_thunk.delayed;
            let ghost rnode = *right_thunk.delayed;
            let left = match eval_mult(*left_thunk.delayed) {
                Ok(v) => v,
                Err(e) => {
                    return Err(e);
                },
            };
            let right = match eval_roll(*right_thunk.delayed) {
                Ok(v) => v,
                Err(e) => {
                    proof {
                        assert(mult_can_eval_to(lnode, big_value(left)));
                    }
                    return Err(e);
                },
            };
            let v = match op {
                MultOperator::Multiply => big_mul(&left, &right),
                MultOperator::Divide => {
                    // The arbitrary-precision division cannot take a zero
                    // divisor, so a zero divisor is an evaluation error.
                    let zero = big_from_u32(0);
                    if big_eq(&right, &zero) {
                        proof {
                            assert(mult_can_eval_to(lnode, big_value(left)));
                            assert(roll_can_eval_to(rnode, 0));
                        }
                        return Err(String::from_str("Evaluation Error: Division by zero"));
                    }
                    big_div(&left, &right)
                },
            };
            proof {
                assert(mult_can_eval_to(lnode, big_value(left)));
                assert(roll_can_eval_to(rnode, big_value(right)));
                assert(mult_op_result(op, big_value(left), big_value(right), big_value(v)));
                assert(mult_can_eval_to(m, big_value(v)));
            }
            Ok(v)
        },
    }
}

fn eval_roll(x: Roll) -> (r: Result<BigInt, String>)
    ensures
        match r {
            Ok(b) => roll_can_eval_to(x, big_value(b)),
            Err(_) => roll_can_fail(x),
        },
    decreases x,
{
    match x {
        Roll::Base(base_thunk) => eval_sub(*base_thunk.delayed),
        Roll::Recurse(left_thunk, op, right_thunk) => {
            let ghost lnode = *left_thunk.delayed;
            let ghost rnode = *right_thunk.delayed;
            let left = match eval_roll(*left_thunk.delayed) {
                Ok(v) => v,
                Err(e) => {
                    return Err(e);
                },
            };
            let right = match eval_sub(*right_thunk.delayed) {
                Ok(v) => v,
                Err(e) => {
                    proof {
                        assert(roll_can_eval_to(lnode, big_value(left)));
                    }
                    return Err(e);
                },
            };
            match op {
                RollOperator::D => {
                    let ghost lv = big_value(left);
                    let ghost rv = big_value(right);
                    let out = roll_dice(left, right);
                    proof {
                        assert(roll_can_eval_to(lnode, lv));
                        assert(sub_can_eval_to(rnode, rv));
                    }
                    out
                },
            }
        },
    }
}

fn eval_sub(e: SubExpression) -> (r: Result<BigInt, String>)
    ensures
        match r {
            Ok(b) => sub_can_eval_to(e, big_value(b)),
            Err(_) => sub_can_fail(e),
        },
    decreases e,
{
    match e {
        SubExpression::Base(number_thunk) => eval_number(*number_thunk.delayed),
        SubExpression::Recurse(start_thunk) => eval_start(*start_thunk.delayed),
    }
}

fn eval_number(n: Number) -> (r: Result<BigInt, String>)
    ensures
        match r {
            Ok(b) => number_can_eval_to(n, big_value(b)),
            Err(_) => number_can_fail(n),
        },
{
    let string_rep = match n {
        Number::StringRepresentation(s) => s,
    };
    let st = string_rep.as_str();
    let len = st.unicode_len();
    if len == 0 {
        return Err(String::from_str("Evaluation Error: Found empty number"));
    }
    let first = st.get_char(0);
    let mut value = if first == '%' {
        big_from_u32(1)
    } else {
        big_from_u32(0)
    };
    let ghost seed: int = if first == '%' {
        1int
    } else {
        0int
    };
    let mut i: usize = 0;
    proof {
        assert(string_rep@.skip(0) =~= string_rep@);
    }
    while i < len
        invariant
            n == Number::StringRepresentation(string_rep),
            i <= len,
            len == string_rep@.len(),
            st@ == string_rep@,
            seed == if string_rep@[0] == '%' {
                1int
            } else {
                0int
            },
            forall|k: int| 0 <= k < i ==> is_number_char(#[trigger] string_rep@[k]),
            number_fold(seed, string_rep@) == number_fold(
                big_value(value),
                string_rep@.skip(i as int),
            ),
        decreases len - i,
    {
        let c = st.get_char(i);
        let ghost t = string_rep@.skip(i as int);
        proof {
            assert(t[0] == string_rep@[i as int]);
            assert(t.skip(1) =~= string_rep@.skip(i as int + 1));
        }
        if c == '%' {
            let hundred = big_from_u32(100);
            value = big_mul(&value, &hundred);
        } else if '0' <= c && c <= '9' {
            let ten = big_from_u32(10);
            let scaled = big_mul(&value, &ten);
            let digit = big_from_u32(c as u32 - 48);
            value = big_add(&scaled, &digit);
        } else {
            proof {
                assert(!is_number_char(string_rep@[i as int]));
                assert(!number_text_valid(string_rep@));
                assert(number_can_fail(n));
            }
            let msg = String::from_str("Evaluation Error: Expected '0'-'9' or '%', found ");
            return Err(msg.concat(crate::tokenize::char_string(c).as_str()));
        }
        i += 1;
    }
    proof {
        assert(string_rep@.skip(len as int) =~= Seq::<char>::empty());
    }
    Ok(value)
}

impl Delayable for Start {
    open spec fn can_eval_to(&self, v: int) -> bool {
        start_can_eval_to(*self, v)
    }

    open spec fn can_fail(&self) -> bool {
        start_can_fail(*self)
    }

    fn evaluate(self) -> (r: Result<BigInt, String>) {
        eval_start(self)
    }
}

impl Delayable for AddLayer {
    open spec fn can_eval_to(&self, v: int) -> bool {
        add_can_eval_to(*self, v)
    }

    open spec fn can_fail(&self) -> bool {
        add_can_fail(*self)
    }

    fn evaluate(self) -> (r: Result<BigInt, String>) {
        eval_add(self)
    }
}

impl Delayable for MultLayer {
    open spec fn can_eval_to(&self, v: int) -> bool {
        mult_can_eval_to(*self, v)
    }

    open spec fn can_fail(&self) -> bool {
        mult_can_fail(*self)
    }

    fn evaluate(self) -> (r: Result<BigInt, String>) {
        eval_mult(self)
    }
}

impl Delayable for Roll {
    open spec fn can_eval_to(&self, v: int) -> bool {
        roll_can_eval_to(*self, v)
    }

    open spec fn can_fail(&self) -> bool {
        roll_can_fail(*self)
    }

    fn evaluate(self) -> (r: Result<BigInt, String>) {
        eval_roll(self)
    }
}

impl Delayable for SubExpression {
    open spec fn can_eval_to(&self, v: int) -> bool {
        sub_can_eval_to(*self, v)
    }

    open spec fn can_fail(&self) -> bool {
        sub_can_fail(*self)
    }

    fn evaluate(self) -> (r: Result<BigInt, String>) {
        eval_sub(self)
    }
}

impl Delayable for Number {
    open spec fn can_eval_to(&self, v: int) -> bool {
        number_can_eval_to(*self, v)
    }

    open spec fn can_fail(&self) -> bool {
        number_can_fail(*self)
    }

    fn evaluate(self) -> (r: Result<BigInt, String>) {
        eval_number(self)
    }
}

/// Evaluate a parsed expression tree to an arbitrary-precision integer, or
/// to the first evaluation error met in a depth-first, left-before-right
/// walk. The tree is consumed: evaluation happens exactly once.
pub fn evaluate(tree: Thunk<Start>) -> (r: Result<BigInt, String>)
    ensures
        match r {
            Ok(b) => start_can_eval_to(*tree.delayed, big_value(b)),
            Err(_) => start_can_fail(*tree.delayed),
        },
{
    tree.consume()
}

} // verus!
