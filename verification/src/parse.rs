use vstd::prelude::*;
use vstd::string::{StrSliceExecFns, StringExecFns};

pub use crate::tokenize::Token;
pub use crate::evaluate::Thunk;
use crate::tokenize::TokenView;
use crate::evaluate::Delayable;

verus! {

/// The starting point of the grammar, encompasses the entire input
#[derive(Debug, PartialEq)]
pub enum Start {
    /// Start = AddLayer ;
    Base(Thunk<AddLayer>),
}

/// Represents the layer that adding and subtracting are applied at
#[derive(Debug, PartialEq)]
pub enum AddLayer {
    /// AddLayer = MultLayer ;
    Base(Thunk<MultLayer>),
    /// AddLayer = AddLayer,  AddOperator, MultLayer ;
    Recurse(Thunk<Self>, AddOperator, Thunk<MultLayer>),
}

/// Represents the layer that multiplying and dividing are applied at
#[derive(Debug, PartialEq)]
pub enum MultLayer {
    /// MultLayer = Roll ;
    Base(Thunk<Roll>),
    /// MultLayer = [ MultLayer, MultOperator ], Roll ;
    Recurse(Thunk<Self>, MultOperator, Thunk<Roll>),
}

/// Represents rolling a die, and the parts of a roll
#[derive(Debug, PartialEq)]
pub enum Roll {
    /// Roll = SubExpression ;
    Base(Thunk<SubExpression>),
    /// Roll = Roll, "d", SubExpression ;
    Recurse(Thunk<Self>, RollOperator, Thunk<SubExpression>),
}

/// Represents a sub-expression
#[derive(Debug, PartialEq)]
pub enum SubExpression {
    /// SubExpression = Number ;
    Base(Thunk<Number>),
    /// SubExpression = "(", Start, ")" ;
    Recurse(Thunk<Start>),
}

/// Represents a number
#[derive(Debug, PartialEq)]
pub enum Number {
    /// Number = { "0" | "1" | "2" | "3" | "4" | "5" | "6" | "7" | "8" | "9" | "%" }+ ;
    StringRepresentation(String),
}

/// Represents an operator that has addition-level precedence
#[derive(Debug, PartialEq)]
pub enum AddOperator {
    /// AddOperator = "+" ;
    Add,
    /// AddOperator = "-" ;
    Subtract,
}

/// Represents an operator that has multiplication-level precedence
#[derive(Debug, PartialEq)]
pub enum MultOperator {
    /// MultOperator = "*";
    Multiply,
    /// MultOperator = "/" ;
    Divide,
}

/// This is included for symmetry with AddOperator and MultOperator
#[derive(Debug, PartialEq)]
pub enum RollOperator {
    /// RollOperator = "d" ;
    D,
}

/// The mathematical model of a parse tree, one mirror per grammar level,
/// with each Number's captured text as a character sequence.
pub enum StartView {
    Base(Box<AddLayerView>),
}

pub enum AddLayerView {
    Base(Box<MultLayerView>),
    Recurse(Box<AddLayerView>, AddOperator, Box<MultLayerView>),
}

pub enum MultLayerView {
    Base(Box<RollView>),
    Recurse(Box<MultLayerView>, MultOperator, Box<RollView>),
}

pub enum RollView {
    Base(Box<SubExpressionView>),
    Recurse(Box<RollView>, RollOperator, Box<SubExpressionView>),
}

pub enum SubExpressionView {
    Base(Box<NumberView>),
    Recurse(Box<StartView>),
}

pub enum NumberView {
    StringRepresentation(Seq<char>),
}

pub open spec fn start_view(s: Start) -> StartView
    decreases s,
{
    match s {
        Start::Base(t) => StartView::Base(Box::new(add_layer_view(*t.delayed))),
    }
}

pub open spec fn add_layer_view(a: AddLayer) -> AddLayerView
    decreases a,
{
    match a {
        AddLayer::Base(t) => AddLayerView::Base(Box::new(mult_layer_view(*t.delayed))),
        AddLayer::Recurse(l, op, r) => AddLayerView::Recurse(
            Box::new(add_layer_view(*l.delayed)),
            op,
            Box::new(mult_layer_view(*r.delayed)),
        ),
    }
}

pub open spec fn mult_layer_view(m: MultLayer) -> MultLayerView
    decreases m,
{
    match m {
        MultLayer::Base(t) => MultLayerView::Base(Box::new(roll_view(*t.delayed))),
        MultLayer::Recurse(l, op, r) => MultLayerView::Recurse(
            Box::new(mult_layer_view(*l.delayed)),
            op,
            Box::new(roll_view(*r.delayed)),
        ),
    }
}

pub open spec fn roll_view(x: Roll) -> RollView
    decreases x,
{
    match x {
        Roll::Base(t) => RollView::Base(Box::new(sub_expression_view(*t.delayed))),
        Roll::Recurse(l, op, r) => RollView::Recurse(
            Box::new(roll_view(*l.delayed)),
            op,
            Box::new(sub_expression_view(*r.delayed)),
        ),
    }
}

pub open spec fn sub_expression_view(e: SubExpression) -> SubExpressionView
    decreases e,
{
    match e {
        SubExpression::Base(t) => SubExpressionView::Base(Box::new(number_view(*t.delayed))),
        SubExpression::Recurse(t) => SubExpressionView::Recurse(
            Box::new(start_view(*t.delayed)),
        ),
    }
}

pub open spec fn number_view(n: Number) -> NumberView {
    match n {
        Number::StringRepresentation(s) => NumberView::StringRepresentation(s@),
    }
}

/// The addition-level operator a token's text denotes, if any.
pub open spec fn add_op_of(s: Seq<char>) -> Option<AddOperator> {
    if s == seq!['+'] {
        Some(AddOperator::Add)
    } else if s == seq!['-'] {
        Some(AddOperator::Subtract)
    } else {
        None
    }
}

/// The multiplication-level operator a token's text denotes, if any.
pub open spec fn mult_op_of(s: Seq<char>) -> Option<MultOperator> {
    if s == seq!['*'] {
        Some(MultOperator::Multiply)
    } else if s == seq!['/'] {
        Some(MultOperator::Divide)
    } else {
        None
    }
}

/// The roll operator a token's text denotes, if any.
pub open spec fn roll_op_of(s: Seq<char>) -> Option<RollOperator> {
    if s == seq!['d'] {
        Some(RollOperator::D)
    } else {
        None
    }
}

/// The recursive descent over a token sequence, one spec function per
/// production, each returning the parsed tree and the position just after
/// it, or nothing where the grammar rejects. The `..._more` functions fold
/// the left-associative operator chains, accumulating the tree so far.
pub open spec fn spec_parse_start(t: Seq<TokenView>, i: int) -> Option<(StartView, int)>
    decreases t.len() - i, 9int,
{
    match spec_parse_add(t, i) {
        Some((a, j)) => Some((StartView::Base(Box::new(a)), j)),
        None => None,
    }
}

pub open spec fn spec_parse_add(t: Seq<TokenView>, i: int) -> Option<(AddLayerView, int)>
    decreases t.len() - i, 8int,
{
    match spec_parse_mult(t, i) {
        Some((m, j)) => if j <= i || j > t.len() {
            None
        } else {
            spec_parse_add_more(t, j, AddLayerView::Base(Box::new(m)))
        },
        None => None,
    }
}

pub open spec fn spec_parse_add_more(t: Seq<TokenView>, i: int, acc: AddLayerView) -> Option<
    (AddLayerView, int),
>
    decreases t.len() - i, 7int,
{
    if i < 0 || i >= t.len() {
        Some((acc, i))
    } else {
        match t[i] {
            TokenView::AddOperator(s) => match add_op_of(s) {
                Some(op) => match spec_parse_mult(t, i + 1) {
                    Some((m, j)) => if j <= i + 1 || j > t.len() {
                        None
                    } else {
                        spec_parse_add_more(
                            t,
                            j,
                            AddLayerView::Recurse(Box::new(acc), op, Box::new(m)),
                        )
                    },
                    None => None,
                },
                None => None,
            },
            _ => Some((acc, i)),
        }
    }
}

pub open spec fn spec_parse_mult(t: Seq<TokenView>, i: int) -> Option<(MultLayerView, int)>
    decreases t.len() - i, 6int,
{
    match spec_parse_roll(t, i) {
        Some((x, j)) => if j <= i || j > t.len() {
            None
        } else {
            spec_parse_mult_more(t, j, MultLayerView::Base(Box::new(x)))
        },
        None => None,
    }
}

pub open spec fn spec_parse_mult_more(t: Seq<TokenView>, i: int, acc: MultLayerView) -> Option<
    (MultLayerView, int),
>
    decreases t.len() - i, 5int,
{
    if i < 0 || i >= t.len() {
        Some((acc, i))
    } else {
        match t[i] {
            TokenView::MultOperator(s) => match mult_op_of(s) {
                Some(op) => match spec_parse_roll(t, i + 1) {
                    Some((x, j)) => if j <= i + 1 || j > t.len() {
                        None
                    } else {
                        spec_parse_mult_more(
                            t,
                            j,
                            MultLayerView::Recurse(Box::new(acc), op, Box::new(x)),
                        )
                    },
                    None => None,
                },
                None => None,
            },
            _ => Some((acc, i)),
        }
    }
}

pub open spec fn spec_parse_roll(t: Seq<TokenView>, i: int) -> Option<(RollView, int)>
    decreases t.len() - i, 4int,
{
    match spec_parse_sub(t, i) {
        Some((e, j)) => if j <= i || j > t.len() {
            None
        } else {
            spec_parse_roll_more(t, j, RollView::Base(Box::new(e)))
        },
        None => None,
    }
}

pub open spec fn spec_parse_roll_more(t: Seq<TokenView>, i: int, acc: RollView) -> Option<
    (RollView, int),
>
    decreases t.len() - i, 3int,
{
    if i < 0 || i >= t.len() {
        Some((acc, i))
    } else {
        match t[i] {
            TokenView::RollSeparator(s) => match roll_op_of(s) {
                Some(op) => match spec_parse_sub(t, i + 1) {
                    Some((e, j)) => if j <= i + 1 || j > t.len() {
                        None
                    } else {
                        spec_parse_roll_more(
                            t,
                            j,
                            RollView::Recurse(Box::new(acc), op, Box::new(e)),
                        )
                    },
                    None => None,
                },
                None => None,
            },
            _ => Some((acc, i)),
        }
    }
}

pub open spec fn spec_parse_sub(t: Seq<TokenView>, i: int) -> Option<(SubExpressionView, int)>
    decreases t.len() - i, 2int,
{
    if i < 0 || i >= t.len() {
        None
    } else {
        match t[i] {
            TokenView::OpenParenthesis(_) => match spec_parse_start(t, i + 1) {
                Some((st, j)) => if 0 <= j < t.len() && (t[j] matches TokenView::CloseParenthesis(
                    _,
                )) {
                    Some((SubExpressionView::Recurse(Box::new(st)), j + 1))
                } else {
                    None
                },
                None => None,
            },
            TokenView::Number(s) => Some(
                (
                    SubExpressionView::Base(Box::new(NumberView::StringRepresentation(s))),
                    i + 1,
                ),
            ),
            _ => None,
        }
    }
}

/// The tree that a token sequence parses to: the whole sequence must be one
/// expression of the grammar, with nothing trailing it.
pub open spec fn spec_parse(t: Seq<TokenView>) -> Option<StartView> {
    match spec_parse_start(t, 0) {
        Some((st, j)) => if j == t.len() {
            Some(st)
        } else {
            None
        },
        None => None,
    }
}

fn is_add_operator_token(t: &Token) -> (r: bool)
    ensures
        r == (t@ matches TokenView::AddOperator(_)),
{
    match t {
        Token::AddOperator(_) => true,
        _ => false,
    }
}

fn is_mult_operator_token(t: &Token) -> (r: bool)
    ensures
        r == (t@ matches TokenView::MultOperator(_)),
{
    match t {
        Token::MultOperator(_) => true,
        _ => false,
    }
}

fn is_roll_separator_token(t: &Token) -> (r: bool)
    ensures
        r == (t@ matches TokenView::RollSeparator(_)),
{
    match t {
        Token::RollSeparator(_) => true,
        _ => false,
    }
}

/// The token's tag name around its captured text, as the text of error
/// messages shows it.
fn token_describe(t: &Token) -> String {
    match t {
        Token::RollSeparator(s) => quoted_payload("RollSeparator", s),
        Token::OpenParenthesis(s) => quoted_payload("OpenParenthesis", s),
        Token::CloseParenthesis(s) => quoted_payload("CloseParenthesis", s),
        Token::Number(s) => quoted_payload("Number", s),
        Token::AddOperator(s) => quoted_payload("AddOperator", s),
        Token::MultOperator(s) => quoted_payload("MultOperator", s),
        Token::Undefined(s) => quoted_payload("Undefined", s),
    }
}

fn quoted_payload(name: &str, payload: &String) -> String {
    let msg = String::from_str(name);
    let msg = msg.concat("(\"");
    let msg = msg.concat(payload.as_str());
    msg.concat("\")")
}

/// Parse a tokenized input into an expression tree
pub fn parse(tokenized: Vec<Token>) -> (r: Result<Thunk<Start>, String>)
    ensures
        match r {
            Ok(th) => spec_parse(tokenized.deep_view()) == Some(start_view(*th.delayed)),
            Err(_) => spec_parse(tokenized.deep_view()) is None,
        },
{
    // Parse a Start (this is the root of the grammar)
    let (start, after) = Start::parse(&tokenized, 0);
    match start {
        Ok(th) => {
            // If there are remaining tokens, report an error
            if after < tokenized.len() {
                let msg = String::from_str("Parse Error: Expected end of stream, found ");
                Err(msg.concat(token_describe(&tokenized[after]).as_str()))
            } else {
                Ok(th)
            }
        },
        Err(error) => Err(error),
    }
}

impl Start {
    fn parse(tokens: &Vec<Token>, pos: usize) -> (r: (Result<Thunk<Start>, String>, usize))
        requires
            pos <= tokens@.len(),
        ensures
            match r.0 {
                Ok(th) => spec_parse_start(tokens.deep_view(), pos as int) == Some(
                    (start_view(*th.delayed), r.1 as int),
                ) && pos < r.1 <= tokens@.len(),
                Err(_) => spec_parse_start(tokens.deep_view(), pos as int) is None,
            },
        decreases tokens@.len() - pos, 9int,
    {
        let (base, after) = AddLayer::parse(tokens, pos);
        match base {
            Ok(th) => (Ok(Thunk::new(Start::Base(th))), after),
            Err(error) => (Err(error), after),
        }
    }
}

impl AddLayer {
    fn parse(tokens: &Vec<Token>, pos: usize) -> (r: (Result<Thunk<AddLayer>, String>, usize))
        requires
            pos <= tokens@.len(),
        ensures
            match r.0 {
                Ok(th) => spec_parse_add(tokens.deep_view(), pos as int) == Some(
                    (add_layer_view(*th.delayed), r.1 as int),
                ) && pos < r.1 <= tokens@.len(),
                Err(_) => spec_parse_add(tokens.deep_view(), pos as int) is None,
            },
        decreases tokens@.len() - pos, 8int,
    {
        let ghost dv = tokens.deep_view();
        let (base, start_after) = MultLayer::parse(tokens, pos);
        let base = match base {
            Ok(th) => th,
            Err(error) => {
                return (Err(error), start_after);
            },
        };
        let mut left = Thunk::new(AddLayer::Base(base));
        let mut cur = start_after;
        while cur < tokens.len() && is_add_operator_token(&tokens[cur])
            invariant
                dv == tokens.deep_view(),
                pos < cur <= tokens@.len(),
                spec_parse_add(dv, pos as int) == spec_parse_add_more(
                    dv,
                    cur as int,
                    add_layer_view(*left.delayed),
                ),
            decreases tokens@.len() - cur,
        {
            let (op, op_after) = AddOperator::parse(tokens, cur);
            let op = match op {
                Ok(op) => op,
                Err(error) => {
                    return (Err(error), op_after);
                },
            };
            let (right, right_after) = MultLayer::parse(tokens, op_after);
            let right = match right {
                Ok(th) => th,
                Err(error) => {
                    return (Err(error), right_after);
                },
            };
            left = Thunk::new(AddLayer::Recurse(left, op, right));
            cur = right_after;
        }
        (Ok(left), cur)
    }
}

impl MultLayer {
    fn parse(tokens: &Vec<Token>, pos: usize) -> (r: (Result<Thunk<MultLayer>, String>, usize))
        requires
            pos <= tokens@.len(),
        ensures
            match r.0 {
                Ok(th) => spec_parse_mult(tokens.deep_view(), pos as int) == Some(
                    (mult_layer_view(*th.delayed), r.1 as int),
                ) && pos < r.1 <= tokens@.len(),
                Err(_) => spec_parse_mult(tokens.deep_view(), pos as int) is None,
            },
        decreases tokens@.len() - pos, 6int,
    {
        let ghost dv = tokens.deep_view();
        let (base, start_after) = Roll::parse(tokens, pos);
        let base = match base {
            Ok(th) => th,
            Err(error) => {
                return (Err(error), start_after);
            },
        };
        let mut left = Thunk::new(MultLayer::Base(base));
        let mut cur = start_after;
        while cur < tokens.len() && is_mult_operator_token(&tokens[cur])
            invariant
                dv == tokens.deep_view(),
                pos < cur <= tokens@.len(),
                spec_parse_mult(dv, pos as int) == spec_parse_mult_more(
                    dv,
                    cur as int,
                    mult_layer_view(*left.delayed),
                ),
            decreases tokens@.len() - cur,
        {
            let (op, op_after) = MultOperator::parse(tokens, cur);
            let op = match op {
                Ok(op) => op,
                Err(error) => {
                    return (Err(error), op_after);
                },
            };
            let (right, right_after) = Roll::parse(tokens, op_after);
            let right = match right {
                Ok(th) => th,
                Err(error) => {
                    return (Err(error), right_after);
                },
            };
            left = Thunk::new(MultLayer::Recurse(left, op, right));
            cur = right_after;
        }
        (Ok(left), cur)
    }
}

impl Roll {
    fn parse(tokens: &Vec<Token>, pos: usize) -> (r: (Result<Thunk<Roll>, String>, usize))
        requires
            pos <= tokens@.len(),
        ensures
            match r.0 {
                Ok(th) => spec_parse_roll(tokens.deep_view(), pos as int) == Some(
                    (roll_view(*th.delayed), r.1 as int),
                ) && pos < r.1 <= tokens@.len(),
                Err(_) => spec_parse_roll(tokens.deep_view(), pos as int) is None,
            },
        decreases tokens@.len() - pos, 4int,
    {
        let ghost dv = tokens.deep_view();
        let (base, start_after) = SubExpression::parse(tokens, pos);
        let base = match base {
            Ok(th) => th,
            Err(error) => {
                return (Err(error), start_after);
            },
        };
        let mut left = Thunk::new(Roll::Base(base));
        let mut cur = start_after;
        while cur < tokens.len() && is_roll_separator_token(&tokens[cur])
            invariant
                dv == tokens.deep_view(),
                pos < cur <= tokens@.len(),
                spec_parse_roll(dv, pos as int) == spec_parse_roll_more(
                    dv,
                    cur as int,
                    roll_view(*left.delayed),
                ),
            decreases tokens@.len() - cur,
        {
            let (op, op_after) = RollOperator::parse(tokens, cur);
            let op = match op {
                Ok(op) => op,
                Err(error) => {
                    return (Err(error), op_after);
                },
            };
            let (right, right_after) = SubExpression::parse(tokens, op_after);
            let right = match right {
                Ok(th) => th,
                Err(error) => {
                    return (Err(error), right_after);
                },
            };
            left = Thunk::new(Roll::Recurse(left, op, right));
            cur = right_after;
        }
        (Ok(left), cur)
    }
}

impl SubExpression {
    fn parse(tokens: &Vec<Token>, pos: usize) -> (r: (Result<
        Thunk<SubExpression>,
        String,
    >, usize))
        requires
            pos <= tokens@.len(),
        ensures
            match r.0 {
                Ok(th) => spec_parse_sub(tokens.deep_view(), pos as int) == Some(
                    (sub_expression_view(*th.delayed), r.1 as int),
                ) && pos < r.1 <= tokens@.len(),
                Err(_) => spec_parse_sub(tokens.deep_view(), pos as int) is None,
            },
        decreases tokens@.len() - pos, 2int,
    {
        if pos >= tokens.len() {
            return (
                Err(
                    String::from_str(
                        "Parse Error: Expected nested start or \"(\", found end of stream",
                    ),
                ),
                pos,
            );
        }
        match &tokens[pos] {
            Token::OpenParenthesis(_) => {
                let (nested, after) = Start::parse(tokens, pos + 1);
                let nested = match nested {
                    Ok(th) => th,
                    Err(error) => {
                        return (Err(error), after);
                    },
                };
                if after < tokens.len() {
                    match &tokens[after] {
                        Token::CloseParenthesis(_) => (
                            Ok(Thunk::new(SubExpression::Recurse(nested))),
                            after + 1,
                        ),
                        token => {
                            let msg = String::from_str("Parse Error: Expected \")\", found ");
                            (Err(msg.concat(token_describe(token).as_str())), after)
                        },
                    }
                } else {
                    (
                        Err(
                            String::from_str("Parse Error: Expected \")\", found end of stream"),
                        ),
                        after,
                    )
                }
            },
            Token::Number(_) => {
                let (number, after) = Number::parse(tokens, pos);
                match number {
                    Ok(th) => (Ok(Thunk::new(SubExpression::Base(th))), after),
                    Err(error) => {
                        // The peeked token is a Number, so Number::parse
                        // cannot fail here.
                        proof {
                            assert(false);
                        }
                        (Err(error), after)
                    },
                }
            },
            token => {
                let msg = String::from_str(
                    "Parse Error: Expected nested start or \"(\", found: Some(",
                );
                let msg = msg.concat(token_describe(token).as_str());
                (Err(msg.concat(")")), pos + 1)
            },
        }
    }
}

impl Number {
    fn parse(tokens: &Vec<Token>, pos: usize) -> (r: (Result<Thunk<Number>, String>, usize))
        requires
            pos <= tokens@.len(),
        ensures
            match r.0 {
                Ok(th) => {
                    &&& pos < tokens@.len()
                    &&& r.1 == pos + 1
                    &&& tokens.deep_view()[pos as int] matches TokenView::Number(s)
                        && number_view(*th.delayed) == NumberView::StringRepresentation(s)
                },
                Err(_) => !(pos < tokens@.len() && tokens.deep_view()[pos as int] matches
                    TokenView::Number(_)),
            },
    {
        if pos >= tokens.len() {
            return (
                Err(String::from_str("Parse Error: Expected Number, found end of stream")),
                pos,
            );
        }
        match &tokens[pos] {
            Token::Number(number) => (
                Ok(Thunk::new(Number::StringRepresentation(number.clone()))),
                pos + 1,
            ),
            token => {
                let msg = String::from_str("Parse Error: Expected Number, found ");
                (Err(msg.concat(token_describe(token).as_str())), pos + 1)
            },
        }
    }
}

impl AddOperator {
    pub fn parse(tokens: &Vec<Token>, pos: usize) -> (r: (Result<AddOperator, String>, usize))
        requires
            pos <= tokens@.len(),
        ensures
            match r.0 {
                Ok(op) => {
                    &&& pos < tokens@.len()
                    &&& r.1 == pos + 1
                    &&& tokens.deep_view()[pos as int] matches TokenView::AddOperator(s)
                        && add_op_of(s) == Some(op)
                },
                Err(_) => !(pos < tokens@.len() && (tokens.deep_view()[pos as int] matches
                    TokenView::AddOperator(s) && add_op_of(s) is Some)),
            },
    {
        if pos >= tokens.len() {
            return (
                Err(String::from_str("Parse Error: Expected AddOperator, found end of stream")),
                pos,
            );
        }
        match &tokens[pos] {
            Token::AddOperator(op) => {
                if op.unicode_len() == 1 {
                    let c = op.as_str().get_char(0);
                    if c == '+' {
                        proof {
                            assert(op@ =~= seq!['+']);
                        }
                        return (Ok(AddOperator::Add), pos + 1);
                    }
                    if c == '-' {
                        proof {
                            assert(op@ =~= seq!['-']);
                        }
                        return (Ok(AddOperator::Subtract), pos + 1);
                    }
                }
                let msg = String::from_str("Parse Error: Expected \"+\" or \"-\", found ");
                (Err(msg.concat(op.as_str())), pos + 1)
            },
            token => {
                let msg = String::from_str("Parse Error: Expected AddOperator, found ");
                (Err(msg.concat(token_describe(token).as_str())), pos + 1)
            },
        }
    }
}

impl MultOperator {
    pub fn parse(tokens: &Vec<Token>, pos: usize) -> (r: (Result<MultOperator, String>, usize))
        requires
            pos <= tokens@.len(),
        ensures
            match r.0 {
                Ok(op) => {
                    &&& pos < tokens@.len()
                    &&& r.1 == pos + 1
                    &&& tokens.deep_view()[pos as int] matches TokenView::MultOperator(s)
                        && mult_op_of(s) == Some(op)
                },
                Err(_) => !(pos < tokens@.len() && (tokens.deep_view()[pos as int] matches
                    TokenView::MultOperator(s) && mult_op_of(s) is Some)),
            },
    {
        if pos >= tokens.len() {
            return (
                Err(String::from_str("Parse Error: Expected MultOperator, found end of stream")),
                pos,
            );
        }
        match &tokens[pos] {
            Token::MultOperator(op) => {
                if op.unicode_len() == 1 {
                    let c = op.as_str().get_char(0);
                    if c == '*' {
                        proof {
                            assert(op@ =~= seq!['*']);
                        }
                        return (Ok(MultOperator::Multiply), pos + 1);
                    }
                    if c == '/' {
                        proof {
                            assert(op@ =~= seq!['/']);
                        }
                        return (Ok(MultOperator::Divide), pos + 1);
                    }
                }
                let msg = String::from_str("Parse Error: Expected \"*\" or \"/\", found ");
                (Err(msg.concat(op.as_str())), pos + 1)
            },
            token => {
                let msg = String::from_str("Parse Error: Expected MultOperator, found ");
                (Err(msg.concat(token_describe(token).as_str())), pos + 1)
            },
        }
    }
}

impl RollOperator {
    pub fn parse(tokens: &Vec<Token>, pos: usize) -> (r: (Result<RollOperator, String>, usize))
        requires
            pos <= tokens@.len(),
        ensures
            match r.0 {
                Ok(op) => {
                    &&& pos < tokens@.len()
                    &&& r.1 == pos + 1
                    &&& tokens.deep_view()[pos as int] matches TokenView::RollSeparator(s)
                        && roll_op_of(s) == Some(op)
                },
                Err(_) => !(pos < tokens@.len() && (tokens.deep_view()[pos as int] matches
                    TokenView::RollSeparator(s) && roll_op_of(s) is Some)),
            },
    {
        if pos >= tokens.len() {
            return (
                Err(String::from_str("Parse Error: Expected RollOperator, found end of stream")),
                pos,
            );
        }
        match &tokens[pos] {
            Token::RollSeparator(op) => {
                if op.unicode_len() == 1 {
                    let c = op.as_str().get_char(0);
                    if c == 'd' {
                        proof {
                            assert(op@ =~= seq!['d']);
                        }
                        return (Ok(RollOperator::D), pos + 1);
                    }
                }
                let msg = String::from_str("Parse Error: Expected \"d\", found ");
                (Err(msg.concat(op.as_str())), pos + 1)
            },
            token => {
                let msg = String::from_str("Parse Error: Expected RollOperator, found ");
                (Err(msg.concat(token_describe(token).as_str())), pos + 1)
            },
        }
    }
}

} // verus!
