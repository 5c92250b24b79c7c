//! Tokens: what the scanner hands to the parser.
use crate::front::source_file::Location;
use vstd::prelude::*;
use vstd::string::*;

verus! {

#[derive(Debug, Copy, Clone, PartialEq, Eq, Structural)]
pub enum TokenKind {
    Assign,
    BitwiseAnd,
    BitwiseAndAssign,
    BitwiseNot,
    BitwiseOr,
    BitwiseOrAssign,
    BitwiseXor,
    BitwiseXorAssign,
    Eof,
    Equal,
    False,
    GreaterThan,
    GreaterThanOrEqual,
    Identifier,
    Integer,
    LeftParen,
    LeftShift,
    LeftShiftAssign,
    LessThan,
    LessThanOrEqual,
    LogicalAnd,
    LogicalNot,
    LogicalOr,
    Minus,
    MinusAssign,
    Mod,
    ModAssign,
    NotEqual,
    Plus,
    PlusAssign,
    Print,
    RightParen,
    RightShift,
    RightShiftAssign,
    Slash,
    SlashAssign,
    Star,
    StarAssign,
    True,
}

impl TokenKind {
    /// The name of the kind as diagnostics show it.
    pub open spec fn name(self) -> Seq<char> {
        match self {
            TokenKind::Assign => "Assign"@,
            TokenKind::BitwiseAnd => "BitwiseAnd"@,
            TokenKind::BitwiseAndAssign => "BitwiseAndAssign"@,
            TokenKind::BitwiseNot => "BitwiseNot"@,
            TokenKind::BitwiseOr => "BitwiseOr"@,
            TokenKind::BitwiseOrAssign => "BitwiseOrAssign"@,
            TokenKind::BitwiseXor => "BitwiseXor"@,
            TokenKind::BitwiseXorAssign => "BitwiseXorAssign"@,
            TokenKind::Eof => "Eof"@,
            TokenKind::Equal => "Equal"@,
            TokenKind::False => "False"@,
            TokenKind::GreaterThan => "GreaterThan"@,
            TokenKind::GreaterThanOrEqual => "GreaterThanOrEqual"@,
            TokenKind::Identifier => "Identifier"@,
            TokenKind::Integer => "Integer"@,
            TokenKind::LeftParen => "LeftParen"@,
            TokenKind::LeftShift => "LeftShift"@,
            TokenKind::LeftShiftAssign => "LeftShiftAssign"@,
            TokenKind::LessThan => "LessThan"@,
            TokenKind::LessThanOrEqual => "LessThanOrEqual"@,
            TokenKind::LogicalAnd => "LogicalAnd"@,
            TokenKind::LogicalNot => "LogicalNot"@,
            TokenKind::LogicalOr => "LogicalOr"@,
            TokenKind::Minus => "Minus"@,
            TokenKind::MinusAssign => "MinusAssign"@,
            TokenKind::Mod => "Mod"@,
            TokenKind::ModAssign => "ModAssign"@,
            TokenKind::NotEqual => "NotEqual"@,
            TokenKind::Plus => "Plus"@,
            TokenKind::PlusAssign => "PlusAssign"@,
            TokenKind::Print => "Print"@,
            TokenKind::RightParen => "RightParen"@,
            TokenKind::RightShift => "RightShift"@,
            TokenKind::RightShiftAssign => "RightShiftAssign"@,
            TokenKind::Slash => "Slash"@,
            TokenKind::SlashAssign => "SlashAssign"@,
            TokenKind::Star => "Star"@,
            TokenKind::StarAssign => "StarAssign"@,
            TokenKind::True => "True"@,
        }
    }

    pub fn as_str(&self) -> (s: &'static str)
        ensures
            s@ == self.name(),
    {
        match self {
            TokenKind::Assign => "Assign",
            TokenKind::BitwiseAnd => "BitwiseAnd",
            TokenKind::BitwiseAndAssign => "BitwiseAndAssign",
            TokenKind::BitwiseNot => "BitwiseNot",
            TokenKind::BitwiseOr => "BitwiseOr",
            TokenKind::BitwiseOrAssign => "BitwiseOrAssign",
            TokenKind::BitwiseXor => "BitwiseXor",
            TokenKind::BitwiseXorAssign => "BitwiseXorAssign",
            TokenKind::Eof => "Eof",
            TokenKind::Equal => "Equal",
            TokenKind::False => "False",
            TokenKind::GreaterThan => "GreaterThan",
            TokenKind::GreaterThanOrEqual => "GreaterThanOrEqual",
            TokenKind::Identifier => "Identifier",
            TokenKind::Integer => "Integer",
            TokenKind::LeftParen => "LeftParen",
            TokenKind::LeftShift => "LeftShift",
            TokenKind::LeftShiftAssign => "LeftShiftAssign",
            TokenKind::LessThan => "LessThan",
            TokenKind::LessThanOrEqual => "LessThanOrEqual",
            TokenKind::LogicalAnd => "LogicalAnd",
            TokenKind::LogicalNot => "LogicalNot",
            TokenKind::LogicalOr => "LogicalOr",
            TokenKind::Minus => "Minus",
            TokenKind::MinusAssign => "MinusAssign",
            TokenKind::Mod => "Mod",
            TokenKind::ModAssign => "ModAssign",
            TokenKind::NotEqual => "NotEqual",
            TokenKind::Plus => "Plus",
            TokenKind::PlusAssign => "PlusAssign",
            TokenKind::Print => "Print",
            TokenKind::RightParen => "RightParen",
            TokenKind::RightShift => "RightShift",
            TokenKind::RightShiftAssign => "RightShiftAssign",
            TokenKind::Slash => "Slash",
            TokenKind::SlashAssign => "SlashAssign",
            TokenKind::Star => "Star",
            TokenKind::StarAssign => "StarAssign",
            TokenKind::True => "True",
        }
    }
}

/// The kind of a token spelled `spelling` that was scanned as `kind`: the
/// words `print`, `true` and `false` are keywords whatever they were scanned as.
pub open spec fn keyword_or(spelling: Seq<char>, kind: TokenKind) -> TokenKind {
    if spelling == "print"@ {
        TokenKind::Print
    } else if spelling == "true"@ {
        TokenKind::True
    } else if spelling == "false"@ {
        TokenKind::False
    } else {
        kind
    }
}

#[derive(Debug, PartialEq)]
pub struct Token {
    pub kind: TokenKind,
    pub spelling: String,
    pub loc: Location,
}

impl Token {
    pub fn new(kind: TokenKind, spelling: String, loc: Location) -> (token: Self)
        ensures
            token.kind == keyword_or(spelling@, kind),
            token.spelling == spelling,
            token.loc == loc,
    {
        let kind = if spelling == String::from_str("print") {
            TokenKind::Print
        } else if spelling == String::from_str("true") {
            TokenKind::True
        } else if spelling == String::from_str("false") {
            TokenKind::False
        } else {
            kind
        };
        Token { kind, spelling, loc }
    }
}

impl Clone for Token {
    fn clone(&self) -> (token: Self)
        ensures
            token == *self,
    {
        Token { kind: self.kind, spelling: self.spelling.clone(), loc: self.loc.clone() }
    }
}

} // verus!
