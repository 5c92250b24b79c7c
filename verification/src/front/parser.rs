//! The parser: precedence climbing over the tokens of a program.
use crate::error::{ExprError, ExprErrorKind};
use crate::front::ast::{
    Ast, AssignExpr, BinaryExpr, BinaryOperator, Expr, Identifier, UnaryExpr, UnaryOperator,
    VnameExpr,
};
use crate::front::printer::{erased_all, lemma_parsed_program_is_printable, printable};
use crate::front::source_file::Location;
use crate::front::token::{Token, TokenKind};
use crate::text::{int_literal, parse_i32};
use vstd::prelude::*;
use vstd::string::*;

verus! {

/// The binding power below that of every operator.
pub const MIN_BINDING_POWER: i32 = -1;

/// The binding power of the tightest operators.
pub const MAX_BINDING_POWER: i32 = 120;

/// How tightly a token binds what stands to its left when it is read as an
/// infix operator. A token that is none has the lowest power.
pub open spec fn binding_power(kind: TokenKind) -> i32 {
    match kind {
        TokenKind::Assign
        | TokenKind::PlusAssign
        | TokenKind::MinusAssign
        | TokenKind::StarAssign
        | TokenKind::SlashAssign
        | TokenKind::ModAssign
        | TokenKind::LeftShiftAssign
        | TokenKind::RightShiftAssign
        | TokenKind::BitwiseAndAssign
        | TokenKind::BitwiseOrAssign
        | TokenKind::BitwiseXorAssign => 10,
        TokenKind::LogicalOr => 20,
        TokenKind::LogicalAnd => 30,
        TokenKind::BitwiseOr => 40,
        TokenKind::BitwiseXor => 50,
        TokenKind::Equal | TokenKind::NotEqual => 70,
        TokenKind::LessThan
        | TokenKind::LessThanOrEqual
        | TokenKind::GreaterThan
        | TokenKind::GreaterThanOrEqual => 80,
        TokenKind::LeftShift | TokenKind::RightShift => 90,
        TokenKind::Plus | TokenKind::Minus => 100,
        TokenKind::Star | TokenKind::Slash | TokenKind::Mod => 110,
        TokenKind::LogicalNot | TokenKind::BitwiseNot => 120,
        _ => MIN_BINDING_POWER,
    }
}

/// Whether an operator groups to the right. The assignments and the two
/// negations do, and so does `*`.
pub open spec fn right_associative(kind: TokenKind) -> bool {
    match kind {
        TokenKind::LogicalNot
        | TokenKind::BitwiseNot
        | TokenKind::Star
        | TokenKind::Assign
        | TokenKind::PlusAssign
        | TokenKind::MinusAssign
        | TokenKind::StarAssign
        | TokenKind::SlashAssign
        | TokenKind::ModAssign
        | TokenKind::LeftShiftAssign
        | TokenKind::RightShiftAssign
        | TokenKind::BitwiseAndAssign
        | TokenKind::BitwiseOrAssign
        | TokenKind::BitwiseXorAssign => true,
        _ => false,
    }
}

/// The binary operator that an infix token stands for.
pub open spec fn infix_operator(kind: TokenKind) -> Option<BinaryOperator> {
    match kind {
        TokenKind::Assign => Some(BinaryOperator::Assign),
        TokenKind::BitwiseAnd => Some(BinaryOperator::BitwiseAnd),
        TokenKind::BitwiseAndAssign => Some(BinaryOperator::BitwiseAndAssign),
        TokenKind::BitwiseOr => Some(BinaryOperator::BitwiseOr),
        TokenKind::BitwiseOrAssign => Some(BinaryOperator::BitwiseOrAssign),
        TokenKind::BitwiseXor => Some(BinaryOperator::BitwiseXor),
        TokenKind::BitwiseXorAssign => Some(BinaryOperator::BitwiseXorAssign),
        TokenKind::Equal => Some(BinaryOperator::Equal),
        TokenKind::GreaterThan => Some(BinaryOperator::GreaterThan),
        TokenKind::GreaterThanOrEqual => Some(BinaryOperator::GreaterThanOrEqual),
        TokenKind::LeftShift => Some(BinaryOperator::LeftShift),
        TokenKind::LeftShiftAssign => Some(BinaryOperator::LeftShiftAssign),
        TokenKind::LessThan => Some(BinaryOperator::LessThan),
        TokenKind::LessThanOrEqual => Some(BinaryOperator::LessThanOrEqual),
        TokenKind::LogicalAnd => Some(BinaryOperator::LogicalAnd),
        TokenKind::LogicalOr => Some(BinaryOperator::LogicalOr),
        TokenKind::Minus => Some(BinaryOperator::Sub),
        TokenKind::MinusAssign => Some(BinaryOperator::SubAssign),
        TokenKind::Mod => Some(BinaryOperator::Mod),
        TokenKind::ModAssign => Some(BinaryOperator::ModAssign),
        TokenKind::NotEqual => Some(BinaryOperator::NotEqual),
        TokenKind::Plus => Some(BinaryOperator::Add),
        TokenKind::PlusAssign => Some(BinaryOperator::AddAssign),
        TokenKind::RightShift => Some(BinaryOperator::RightShift),
        TokenKind::RightShiftAssign => Some(BinaryOperator::RightShiftAssign),
        TokenKind::Slash => Some(BinaryOperator::Div),
        TokenKind::SlashAssign => Some(BinaryOperator::DivAssign),
        TokenKind::Star => Some(BinaryOperator::Mul),
        TokenKind::StarAssign => Some(BinaryOperator::MulAssign),
        _ => None,
    }
}

/// Whether an operator assigns to its left operand.
pub open spec fn assigns(op: BinaryOperator) -> bool {
    match op {
        BinaryOperator::Assign
        | BinaryOperator::AddAssign
        | BinaryOperator::SubAssign
        | BinaryOperator::MulAssign
        | BinaryOperator::DivAssign
        | BinaryOperator::ModAssign
        | BinaryOperator::LeftShiftAssign
        | BinaryOperator::RightShiftAssign
        | BinaryOperator::BitwiseAndAssign
        | BinaryOperator::BitwiseOrAssign
        | BinaryOperator::BitwiseXorAssign
        | BinaryOperator::LogicalAndAssign
        | BinaryOperator::LogicalOrAssign => true,
        _ => false,
    }
}

/// The node that an infix token makes of the expressions on its two sides:
/// an assignment for an assigning operator, else a binary expression.
/// `None` for a token that stands for no binary operator.
pub open spec fn infix_node(lhs: Expr, kind: TokenKind, rhs: Expr) -> Option<Expr> {
    match infix_operator(kind) {
        Some(op) => Some(
            if assigns(op) {
                Expr::AssignExpr(
                    AssignExpr { vname: Box::new(lhs), op, expr: Box::new(rhs), typ: None },
                )
            } else {
                Expr::BinaryExpr(
                    BinaryExpr { lhs: Box::new(lhs), op, rhs: Box::new(rhs), typ: None },
                )
            },
        ),
        None => None,
    }
}

/// Why parsing stopped.
pub enum ParseFault {
    /// The tokens ran out before an `Eof`.
    UnexpectedEnd,
    /// No expression begins with the token.
    UnexpectedToken { kind: TokenKind, loc: Location },
    /// The token binds as an infix operator but stands for none.
    NotInfix { kind: TokenKind, loc: Location },
    /// The token is not of the kind that has to stand here.
    Expected { expected: TokenKind, found: TokenKind, loc: Location },
    /// The text of an integer token writes no 32-bit integer.
    InvalidInteger { spelling: Seq<char>, loc: Location },
    /// The text of a boolean token is neither `true` nor `false`.
    InvalidBool { spelling: Seq<char>, loc: Location },
    /// The parenthesis opened at `loc` is not closed.
    MissingRightParen { loc: Location },
}

impl ParseFault {
    pub open spec fn message(self) -> Seq<char> {
        match self {
            ParseFault::UnexpectedEnd => "unexpected end of the tokens"@,
            ParseFault::UnexpectedToken { kind, loc } => "unexpected token "@ + kind.name(),
            ParseFault::NotInfix { kind, loc } => "not an infix operator: token "@ + kind.name(),
            ParseFault::Expected { expected, found, loc } => "expected token "@ + expected.name()
                + ", but found token "@ + found.name(),
            ParseFault::InvalidInteger { spelling, loc } => "invalid integer literal "@ + spelling,
            ParseFault::InvalidBool { spelling, loc } => "invalid boolean literal "@ + spelling,
            ParseFault::MissingRightParen { loc } =>
                "Missing right parenthesis while parsing expression"@,
        }
    }

    /// The place that the fault is reported at, where it has one.
    pub open spec fn location(self) -> Option<Location> {
        match self {
            ParseFault::UnexpectedEnd => None,
            ParseFault::UnexpectedToken { kind, loc } => Some(loc),
            ParseFault::NotInfix { kind, loc } => Some(loc),
            ParseFault::Expected { expected, found, loc } => Some(loc),
            ParseFault::InvalidInteger { spelling, loc } => Some(loc),
            ParseFault::InvalidBool { spelling, loc } => Some(loc),
            ParseFault::MissingRightParen { loc } => Some(loc),
        }
    }

    /// Whether `err` is the error that reports this fault.
    pub open spec fn reported_by(self, err: ExprError) -> bool {
        &&& err.kind == ExprErrorKind::ParserError
        &&& err.message@ == self.message()
        &&& err.loc == self.location()
    }
}

fn unexpected_end() -> (err: ExprError)
    ensures
        ParseFault::UnexpectedEnd.reported_by(err),
{
    ExprError::new(ExprErrorKind::ParserError, String::from_str("unexpected end of the tokens"))
}

/// The error with a message of two parts, at the place `loc`.
fn fault_at(prefix: &str, detail: &str, loc: &Location) -> (err: ExprError)
    ensures
        err.kind == ExprErrorKind::ParserError,
        err.message@ == prefix@ + detail@,
        err.loc == Some(*loc),
{
    let mut message = String::from_str(prefix);
    message.append(detail);
    ExprError::located(ExprErrorKind::ParserError, message, loc.clone())
}

/// An expression and the index of the token behind it.
pub type Parsed = Result<(Expr, int), ParseFault>;

/// The operator that a prefix token stands for, and the binding power that
/// an operator behind its operand must exceed to be part of the operand.
pub open spec fn prefix_operator(kind: TokenKind) -> Option<(UnaryOperator, i32)> {
    match kind {
        TokenKind::Plus => Some((UnaryOperator::UnaryPlus, MAX_BINDING_POWER)),
        TokenKind::Minus => Some((UnaryOperator::UnaryMinus, MIN_BINDING_POWER)),
        TokenKind::LogicalNot => Some((UnaryOperator::LogicalNot, 119i32)),
        TokenKind::BitwiseNot => Some((UnaryOperator::BitwiseNot, 119i32)),
        _ => None,
    }
}

/// The expression that begins with the token at `pos`: a literal, a
/// variable, a parenthesized expression, a prefix operator with its operand,
/// or a `print` with what it prints.
pub open spec fn parse_prefix(tokens: Seq<Token>, pos: int) -> Parsed
    decreases tokens.len() - pos, 1int,
{
    if pos < 0 || pos >= tokens.len() {
        Err(ParseFault::UnexpectedEnd)
    } else {
        let token = tokens[pos];
        if token.kind == TokenKind::LeftParen {
            match parse_expression(tokens, pos + 1, MIN_BINDING_POWER) {
                Err(fault) => Err(fault),
                Ok((expr, end)) => if end < 0 || end >= tokens.len() {
                    Err(ParseFault::UnexpectedEnd)
                } else if tokens[end].kind != TokenKind::RightParen {
                    Err(ParseFault::MissingRightParen { loc: token.loc })
                } else {
                    Ok((expr, end + 1))
                },
            }
        } else if prefix_operator(token.kind) is Some {
            let (op, threshold) = prefix_operator(token.kind)->0;
            match parse_expression(tokens, pos + 1, threshold) {
                Err(fault) => Err(fault),
                Ok((elem, end)) => Ok(
                    (Expr::UnaryExpr(UnaryExpr { op, elem: Box::new(elem), typ: None }), end),
                ),
            }
        } else if token.kind == TokenKind::Print {
            match parse_expression(tokens, pos + 1, MIN_BINDING_POWER) {
                Err(fault) => Err(fault),
                Ok((expr, end)) => Ok((Expr::PrintExpr(Box::new(expr)), end)),
            }
        } else if token.kind == TokenKind::Integer {
            match int_literal(token.spelling@) {
                Some(value) => Ok((Expr::IntegerExpr(value), pos + 1)),
                None => Err(
                    ParseFault::InvalidInteger { spelling: token.spelling@, loc: token.loc },
                ),
            }
        } else if token.kind == TokenKind::True || token.kind == TokenKind::False {
            if token.spelling@ == "true"@ {
                Ok((Expr::BoolExpr(true), pos + 1))
            } else if token.spelling@ == "false"@ {
                Ok((Expr::BoolExpr(false), pos + 1))
            } else {
                Err(ParseFault::InvalidBool { spelling: token.spelling@, loc: token.loc })
            }
        } else if token.kind == TokenKind::Identifier {
            Ok(
                (
                    Expr::VnameExpr(
                        VnameExpr {
                            id: Identifier { spelling: token.spelling, typ: None },
                            typ: None,
                        },
                    ),
                    pos + 1,
                ),
            )
        } else {
            Err(ParseFault::UnexpectedToken { kind: token.kind, loc: token.loc })
        }
    }
}

/// The expression that `left` grows into by the infix operators from `pos`
/// on that bind more tightly than `rbp`. The right operand of an operator
/// takes the operators that bind more tightly than the operator itself, and
/// those that bind as tightly too where the operator groups to the right.
pub open spec fn parse_infix(tokens: Seq<Token>, pos: int, rbp: i32, left: Expr) -> Parsed
    decreases tokens.len() - pos, 0int,
{
    if pos < 0 || pos >= tokens.len() {
        Err(ParseFault::UnexpectedEnd)
    } else {
        let token = tokens[pos];
        let power = binding_power(token.kind);
        if rbp < power {
            let threshold = if right_associative(token.kind) {
                power - 1
            } else {
                power as int
            };
            match parse_expression(tokens, pos + 1, threshold as i32) {
                Err(fault) => Err(fault),
                Ok((right, end)) => match infix_node(left, token.kind, right) {
                    None => Err(ParseFault::NotInfix { kind: token.kind, loc: token.loc }),
                    Some(node) => if pos < end <= tokens.len() {
                        parse_infix(tokens, end, rbp, node)
                    } else {
                        Err(ParseFault::UnexpectedEnd)
                    },
                },
            }
        } else {
            Ok((left, pos))
        }
    }
}

/// The expression that begins at `pos` and takes in every infix operator
/// that binds more tightly than `rbp`. (An expression always ends behind where
/// it begins and within the tokens, see `lemma_parse_advances`: the tests of
/// that, here and in `parse_infix` and `parse_all`, only bound the recursion.)
pub open spec fn parse_expression(tokens: Seq<Token>, pos: int, rbp: i32) -> Parsed
    decreases tokens.len() - pos, 2int,
{
    match parse_prefix(tokens, pos) {
        Err(fault) => Err(fault),
        Ok((left, end)) => if pos <= end <= tokens.len() {
            parse_infix(tokens, end, rbp, left)
        } else {
            Err(ParseFault::UnexpectedEnd)
        },
    }
}

/// The expressions from `pos` up to the first `Eof` between them, and the
/// index of that `Eof`.
pub open spec fn parse_all(tokens: Seq<Token>, pos: int) -> Result<(Seq<Expr>, int), ParseFault>
    decreases tokens.len() - pos,
{
    if pos < 0 || pos >= tokens.len() {
        Err(ParseFault::UnexpectedEnd)
    } else if tokens[pos].kind == TokenKind::Eof {
        Ok((Seq::empty(), pos))
    } else {
        match parse_expression(tokens, pos, MIN_BINDING_POWER) {
            Err(fault) => Err(fault),
            Ok((expr, end)) => if pos < end <= tokens.len() {
                match parse_all(tokens, end) {
                    Err(fault) => Err(fault),
                    Ok((rest, eof)) => Ok((seq![expr] + rest, eof)),
                }
            } else {
                Err(ParseFault::UnexpectedEnd)
            },
        }
    }
}

/// An expression takes at least one token and ends within the tokens.
pub proof fn lemma_parse_advances(tokens: Seq<Token>, pos: int, rbp: i32)
    ensures
        parse_prefix(tokens, pos) matches Ok((_, end)) ==> pos < end <= tokens.len(),
        parse_expression(tokens, pos, rbp) matches Ok((_, end)) ==> pos < end <= tokens.len(),
    decreases tokens.len() - pos, 2int,
{
    if 0 <= pos < tokens.len() {
        let token = tokens[pos];
        lemma_parse_advances(tokens, pos + 1, MIN_BINDING_POWER);
        if prefix_operator(token.kind) is Some {
            let (op, threshold) = prefix_operator(token.kind)->0;
            lemma_parse_advances(tokens, pos + 1, threshold);
        }
        match parse_prefix(tokens, pos) {
            Ok((left, end)) => {
                lemma_infix_advances(tokens, end, rbp, left);
            },
            Err(_) => {},
        }
    }
}

/// An expression that grows by infix operators ends no earlier than it did.
pub proof fn lemma_infix_advances(tokens: Seq<Token>, pos: int, rbp: i32, left: Expr)
    ensures
        parse_infix(tokens, pos, rbp, left) matches Ok((_, end)) ==> pos <= end <= tokens.len(),
    decreases tokens.len() - pos, 0int,
{
    if 0 <= pos < tokens.len() {
        let token = tokens[pos];
        let power = binding_power(token.kind);
        if rbp < power {
            let threshold = if right_associative(token.kind) {
                power - 1
            } else {
                power as int
            };
            match parse_expression(tokens, pos + 1, threshold as i32) {
                Ok((right, end)) => {
                    match infix_node(left, token.kind, right) {
                        Some(node) => {
                            if pos < end <= tokens.len() {
                                lemma_infix_advances(tokens, end, rbp, node);
                            }
                        },
                        None => {},
                    }
                },
                Err(_) => {},
            }
        }
    }
}

/// Whether an operator assigns to its left operand.
pub fn is_assignment(op: BinaryOperator) -> (assigning: bool)
    ensures
        assigning == assigns(op),
{
    match op {
        BinaryOperator::Assign
        | BinaryOperator::AddAssign
        | BinaryOperator::SubAssign
        | BinaryOperator::MulAssign
        | BinaryOperator::DivAssign
        | BinaryOperator::ModAssign
        | BinaryOperator::LeftShiftAssign
        | BinaryOperator::RightShiftAssign
        | BinaryOperator::BitwiseAndAssign
        | BinaryOperator::BitwiseOrAssign
        | BinaryOperator::BitwiseXorAssign
        | BinaryOperator::LogicalAndAssign
        | BinaryOperator::LogicalOrAssign => true,
        _ => false,
    }
}

/// The parser's state: the tokens and the index of the next one.
pub struct Parser {
    pub tokens: Vec<Token>,
    pub curr_idx: usize,
}

impl Parser {
    pub fn new(tokens: Vec<Token>) -> (parser: Self)
        ensures
            parser.tokens == tokens,
            parser.curr_idx == 0,
    {
        Parser { tokens, curr_idx: 0 }
    }

    fn curr_token(&self) -> (res: Result<&Token, ExprError>)
        ensures
            res is Ok <==> self.curr_idx < self.tokens.len(),
            res matches Ok(token) ==> *token == self.tokens@[self.curr_idx as int],
            res matches Err(err) ==> ParseFault::UnexpectedEnd.reported_by(err),
    {
        if self.curr_idx < self.tokens.len() {
            Ok(&self.tokens[self.curr_idx])
        } else {
            Err(unexpected_end())
        }
    }

    /// Steps over the current token if it is of the kind `expected_kind`.
    pub fn advance_if(&mut self, expected_kind: TokenKind) -> (res: Result<(), ExprError>)
        ensures
            final(self).tokens == old(self).tokens,
            match res {
                Ok(()) => {
                    &&& old(self).curr_idx < old(self).tokens.len()
                    &&& old(self).tokens@[old(self).curr_idx as int].kind == expected_kind
                    &&& final(self).curr_idx == old(self).curr_idx + 1
                },
                Err(err) => {
                    &&& final(self).curr_idx == old(self).curr_idx
                    &&& if old(self).curr_idx < old(self).tokens.len() {
                        let token = old(self).tokens@[old(self).curr_idx as int];
                        &&& token.kind != expected_kind
                        &&& (ParseFault::Expected {
                            expected: expected_kind,
                            found: token.kind,
                            loc: token.loc,
                        }).reported_by(err)
                    } else {
                        ParseFault::UnexpectedEnd.reported_by(err)
                    }
                },
            },
    {
        let token = self.curr_token()?;
        if token.kind != expected_kind {
            let mut message = String::from_str("expected token ");
            message.append(expected_kind.as_str());
            message.append(", but found token ");
            message.append(token.kind.as_str());
            Err(ExprError::located(ExprErrorKind::ParserError, message, token.loc.clone()))
        } else {
            self.curr_idx += 1;
            Ok(())
        }
    }

    fn advance(&mut self)
        requires
            old(self).curr_idx < old(self).tokens.len(),
        ensures
            *final(self) == (Parser { curr_idx: (old(self).curr_idx + 1) as usize, ..*old(self) }),
    {
        self.curr_idx += 1;
    }

    fn lbp(kind: TokenKind) -> (power: i32)
        ensures
            power == binding_power(kind),
    {
        match kind {
            TokenKind::Assign
            | TokenKind::PlusAssign
            | TokenKind::MinusAssign
            | TokenKind::StarAssign
            | TokenKind::SlashAssign
            | TokenKind::ModAssign
            | TokenKind::LeftShiftAssign
            | TokenKind::RightShiftAssign
            | TokenKind::BitwiseAndAssign
            | TokenKind::BitwiseOrAssign
            | TokenKind::BitwiseXorAssign => 10,
            TokenKind::LogicalOr => 20,
            TokenKind::LogicalAnd => 30,
            TokenKind::BitwiseOr => 40,
            TokenKind::BitwiseXor => 50,
            TokenKind::Equal | TokenKind::NotEqual => 70,
            TokenKind::LessThan
            | TokenKind::LessThanOrEqual
            | TokenKind::GreaterThan
            | TokenKind::GreaterThanOrEqual => 80,
            TokenKind::LeftShift | TokenKind::RightShift => 90,
            TokenKind::Plus | TokenKind::Minus => 100,
            TokenKind::Star | TokenKind::Slash | TokenKind::Mod => 110,
            TokenKind::LogicalNot | TokenKind::BitwiseNot => 120,
            _ => MIN_BINDING_POWER,
        }
    }

    /// Check if the given operator is right-associative or not.
    fn is_right_associative(kind: TokenKind) -> (right: bool)
        ensures
            right == right_associative(kind),
    {
        match kind {
            TokenKind::LogicalNot
            | TokenKind::BitwiseNot
            | TokenKind::Star
            | TokenKind::Assign
            | TokenKind::PlusAssign
            | TokenKind::MinusAssign
            | TokenKind::StarAssign
            | TokenKind::SlashAssign
            | TokenKind::ModAssign
            | TokenKind::LeftShiftAssign
            | TokenKind::RightShiftAssign
            | TokenKind::BitwiseAndAssign
            | TokenKind::BitwiseOrAssign
            | TokenKind::BitwiseXorAssign => true,
            _ => false,
        }
    }

    fn binary_operator(kind: TokenKind) -> (op: Option<BinaryOperator>)
        ensures
            op == infix_operator(kind),
    {
        match kind {
            TokenKind::Assign => Some(BinaryOperator::Assign),
            TokenKind::BitwiseAnd => Some(BinaryOperator::BitwiseAnd),
            TokenKind::BitwiseAndAssign => Some(BinaryOperator::BitwiseAndAssign),
            TokenKind::BitwiseOr => Some(BinaryOperator::BitwiseOr),
            TokenKind::BitwiseOrAssign => Some(BinaryOperator::BitwiseOrAssign),
            TokenKind::BitwiseXor => Some(BinaryOperator::BitwiseXor),
            TokenKind::BitwiseXorAssign => Some(BinaryOperator::BitwiseXorAssign),
            TokenKind::Equal => Some(BinaryOperator::Equal),
            TokenKind::GreaterThan => Some(BinaryOperator::GreaterThan),
            TokenKind::GreaterThanOrEqual => Some(BinaryOperator::GreaterThanOrEqual),
            TokenKind::LeftShift => Some(BinaryOperator::LeftShift),
            TokenKind::LeftShiftAssign => Some(BinaryOperator::LeftShiftAssign),
            TokenKind::LessThan => Some(BinaryOperator::LessThan),
            TokenKind::LessThanOrEqual => Some(BinaryOperator::LessThanOrEqual),
            TokenKind::LogicalAnd => Some(BinaryOperator::LogicalAnd),
            TokenKind::LogicalOr => Some(BinaryOperator::LogicalOr),
            TokenKind::Minus => Some(BinaryOperator::Sub),
            TokenKind::MinusAssign => Some(BinaryOperator::SubAssign),
            TokenKind::Mod => Some(BinaryOperator::Mod),
            TokenKind::ModAssign => Some(BinaryOperator::ModAssign),
            TokenKind::NotEqual => Some(BinaryOperator::NotEqual),
            TokenKind::Plus => Some(BinaryOperator::Add),
            TokenKind::PlusAssign => Some(BinaryOperator::AddAssign),
            TokenKind::RightShift => Some(BinaryOperator::RightShift),
            TokenKind::RightShiftAssign => Some(BinaryOperator::RightShiftAssign),
            TokenKind::Slash => Some(BinaryOperator::Div),
            TokenKind::SlashAssign => Some(BinaryOperator::DivAssign),
            TokenKind::Star => Some(BinaryOperator::Mul),
            TokenKind::StarAssign => Some(BinaryOperator::MulAssign),
            _ => None,
        }
    }

    /// The left denotation: the node that an infix token makes of its two
    /// operands.
    fn led(&mut self, lhs: Expr, kind: TokenKind, rhs: Expr) -> (node: Option<Expr>)
        ensures
            *final(self) == *old(self),
            node == infix_node(lhs, kind, rhs),
    {
        match Self::binary_operator(kind) {
            Some(op) => {
                if is_assignment(op) {
                    Some(Expr::AssignExpr(AssignExpr::new(Box::new(lhs), op, Box::new(rhs))))
                } else {
                    Some(Expr::BinaryExpr(BinaryExpr::new(Box::new(lhs), op, Box::new(rhs))))
                }
            },
            None => None,
        }
    }

    fn prefix(kind: TokenKind) -> (found: Option<(UnaryOperator, i32)>)
        ensures
            found == prefix_operator(kind),
    {
        match kind {
            TokenKind::Plus => Some((UnaryOperator::UnaryPlus, MAX_BINDING_POWER)),
            TokenKind::Minus => Some((UnaryOperator::UnaryMinus, MIN_BINDING_POWER)),
            TokenKind::LogicalNot => Some((UnaryOperator::LogicalNot, 119)),
            TokenKind::BitwiseNot => Some((UnaryOperator::BitwiseNot, 119)),
            _ => None,
        }
    }

    /// The null denotation: the expression that begins with `token`, which
    /// was just stepped over.
    fn nud(&mut self, token: Token) -> (res: Result<Expr, ExprError>)
        requires
            1 <= old(self).curr_idx <= old(self).tokens.len(),
            token == old(self).tokens@[old(self).curr_idx - 1],
        ensures
            final(self).tokens == old(self).tokens,
            match parse_prefix(old(self).tokens@, old(self).curr_idx - 1) {
                Ok((expr, end)) => res == Ok::<Expr, ExprError>(expr) && final(self).curr_idx
                    == end,
                Err(fault) => res matches Err(err) && fault.reported_by(err),
            },
        decreases old(self).tokens.len() - old(self).curr_idx, 3int,
    {
        proof {
            lemma_parse_advances(self.tokens@, self.curr_idx as int, MIN_BINDING_POWER);
        }
        if token.kind == TokenKind::LeftParen {
            let expr = self.parse_expression(MIN_BINDING_POWER)?;
            if self.curr_token()?.kind != TokenKind::RightParen {
                return Err(
                    ExprError::located(
                        ExprErrorKind::ParserError,
                        String::from_str("Missing right parenthesis while parsing expression"),
                        token.loc.clone(),
                    ),
                );
            }
            self.advance();
            Ok(expr)
        } else if let Some((op, threshold)) = Self::prefix(token.kind) {
            let elem = self.parse_expression(threshold)?;
            Ok(Expr::UnaryExpr(UnaryExpr::new(op, Box::new(elem))))
        } else if token.kind == TokenKind::Print {
            let expr = self.parse_expression(MIN_BINDING_POWER)?;
            Ok(Expr::PrintExpr(Box::new(expr)))
        } else if token.kind == TokenKind::Integer {
            match parse_i32(token.spelling.as_str()) {
                Some(value) => Ok(Expr::IntegerExpr(value)),
                None => Err(
                    fault_at("invalid integer literal ", token.spelling.as_str(), &token.loc),
                ),
            }
        } else if token.kind == TokenKind::True || token.kind == TokenKind::False {
            if token.spelling == String::from_str("true") {
                Ok(Expr::BoolExpr(true))
            } else if token.spelling == String::from_str("false") {
                Ok(Expr::BoolExpr(false))
            } else {
                Err(fault_at("invalid boolean literal ", token.spelling.as_str(), &token.loc))
            }
        } else if token.kind == TokenKind::Identifier {
            Ok(Expr::VnameExpr(VnameExpr::new(Identifier::new(token.spelling))))
        } else {
            Err(fault_at("unexpected token ", token.kind.as_str(), &token.loc))
        }
    }

    /// Parses the expression that begins at the current token and takes in
    /// every infix operator that binds more tightly than `rbp`.
    fn parse_expression(&mut self, rbp: i32) -> (res: Result<Expr, ExprError>)
        ensures
            final(self).tokens == old(self).tokens,
            match parse_expression(old(self).tokens@, old(self).curr_idx as int, rbp) {
                Ok((expr, end)) => res == Ok::<Expr, ExprError>(expr) && final(self).curr_idx
                    == end,
                Err(fault) => res matches Err(err) && fault.reported_by(err),
            },
        decreases old(self).tokens.len() - old(self).curr_idx, 2int,
    {
        let ghost tokens = self.tokens@;
        let ghost start = self.curr_idx as int;
        let token = self.curr_token()?.clone();
        self.advance();
        let mut left = self.nud(token)?;
        proof {
            lemma_parse_advances(tokens, start, rbp);
        }
        loop
            invariant
                self.tokens == old(self).tokens,
                tokens == self.tokens@,
                start == old(self).curr_idx,
                start < self.curr_idx <= self.tokens.len(),
                parse_expression(tokens, start, rbp) == parse_infix(
                    tokens,
                    self.curr_idx as int,
                    rbp,
                    left,
                ),
            ensures
                parse_expression(tokens, start, rbp) == Ok::<(Expr, int), ParseFault>(
                    (left, self.curr_idx as int),
                ),
            decreases self.tokens.len() - self.curr_idx,
        {
            let token = self.curr_token()?.clone();
            let power = Self::lbp(token.kind);
            if !(rbp < power) {
                break ;
            }
            self.advance();
            let threshold = if Self::is_right_associative(token.kind) {
                power - 1
            } else {
                power
            };
            proof {
                lemma_parse_advances(tokens, self.curr_idx as int, threshold);
            }
            let right = self.parse_expression(threshold)?;
            left = match self.led(left, token.kind, right) {
                Some(node) => node,
                None => {
                    return Err(
                        fault_at(
                            "not an infix operator: token ",
                            token.kind.as_str(),
                            &token.loc,
                        ),
                    );
                },
            };
        }
        Ok(left)
    }

    /// Parses the program: the expressions up to the first `Eof` between them.
    /// The program holds no type yet, and the printer can write all of it.
    ///
    /// Ast ::= Expr* Eof
    pub fn parse(&mut self) -> (res: Result<Ast, ExprError>)
        ensures
            final(self).tokens == old(self).tokens,
            match parse_all(old(self).tokens@, old(self).curr_idx as int) {
                Ok((exprs, eof)) => {
                    &&& res matches Ok(ast)
                    &&& ast.exprs@ == exprs
                    &&& final(self).curr_idx == eof
                },
                Err(fault) => res matches Err(err) && fault.reported_by(err),
            },
            res matches Ok(ast) ==> {
                &&& erased_all(ast.exprs@) == ast.exprs@
                &&& forall|k: int| 0 <= k < ast.exprs@.len() ==> printable(#[trigger] ast.exprs@[k])
            },
    {
        let ghost tokens = self.tokens@;
        let ghost start = self.curr_idx as int;
        proof {
            lemma_parsed_program_is_printable(tokens, start);
        }
        let mut exprs: Vec<Expr> = Vec::new();
        loop
            invariant
                self.tokens == old(self).tokens,
                tokens == self.tokens@,
                start == old(self).curr_idx,
                match parse_all(tokens, self.curr_idx as int) {
                    Ok((rest, eof)) => parse_all(tokens, start) == Ok::<
                        (Seq<Expr>, int),
                        ParseFault,
                    >((exprs@ + rest, eof)),
                    Err(fault) => parse_all(tokens, start) == Err::<(Seq<Expr>, int), ParseFault>(
                        fault,
                    ),
                },
            ensures
                parse_all(tokens, start) == Ok::<(Seq<Expr>, int), ParseFault>(
                    (exprs@, self.curr_idx as int),
                ),
            decreases self.tokens.len() - self.curr_idx,
        {
            if self.curr_token()?.kind == TokenKind::Eof {
                assert(exprs@ + Seq::<Expr>::empty() =~= exprs@);
                break ;
            }
            proof {
                lemma_parse_advances(tokens, self.curr_idx as int, MIN_BINDING_POWER);
            }
            let ghost before = exprs@;
            let expr = self.parse_expression(MIN_BINDING_POWER)?;
            exprs.push(expr);
            proof {
                match parse_all(tokens, self.curr_idx as int) {
                    Ok((rest, _)) => {
                        assert(before + (seq![expr] + rest) =~= exprs@ + rest);
                    },
                    Err(_) => {},
                }
            }
        }
        Ok(Ast::new(exprs))
    }
}

} // verus!
