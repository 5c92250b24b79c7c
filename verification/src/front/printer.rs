//! The printer: writes a tree as tokens that the parser reads back.
use crate::front::ast::{
    Ast, AssignExpr, BinaryExpr, BinaryOperator, Expr, Identifier, UnaryExpr, UnaryOperator,
    VnameExpr,
};
use crate::front::parser::{
    assigns, binding_power, infix_node, infix_operator, is_assignment, lemma_parse_advances,
    parse_all, parse_expression, parse_infix, parse_prefix, prefix_operator, right_associative,
    ParseFault, MIN_BINDING_POWER,
};
use crate::front::source_file::Location;
use crate::front::token::{Token, TokenKind};
use crate::text::{lemma_numeral_reads_back, push_signed_decimal, signed_decimal};
use vstd::prelude::*;
use vstd::string::*;

verus! {

/// The expression without the types that a check may have written into it:
/// the expression as the parser makes it.
pub open spec fn erased(expr: Expr) -> Expr
    decreases expr,
{
    match expr {
        Expr::IntegerExpr(_) => expr,
        Expr::BoolExpr(_) => expr,
        Expr::VnameExpr(vname) => Expr::VnameExpr(
            VnameExpr { id: Identifier { spelling: vname.id.spelling, typ: None }, typ: None },
        ),
        Expr::PrintExpr(inner) => Expr::PrintExpr(Box::new(erased(*inner))),
        Expr::UnaryExpr(unary) => Expr::UnaryExpr(
            UnaryExpr { op: unary.op, elem: Box::new(erased(*unary.elem)), typ: None },
        ),
        Expr::BinaryExpr(binary) => Expr::BinaryExpr(
            BinaryExpr {
                lhs: Box::new(erased(*binary.lhs)),
                op: binary.op,
                rhs: Box::new(erased(*binary.rhs)),
                typ: None,
            },
        ),
        Expr::AssignExpr(assign) => Expr::AssignExpr(
            AssignExpr {
                vname: Box::new(erased(*assign.vname)),
                op: assign.op,
                expr: Box::new(erased(*assign.expr)),
                typ: None,
            },
        ),
    }
}

/// The expressions of a program, each without its types.
pub open spec fn erased_all(exprs: Seq<Expr>) -> Seq<Expr> {
    Seq::new(exprs.len(), |k: int| erased(exprs[k]))
}

/// The token that stands for a unary operator.
pub open spec fn prefix_token(op: UnaryOperator) -> TokenKind {
    match op {
        UnaryOperator::UnaryPlus => TokenKind::Plus,
        UnaryOperator::UnaryMinus => TokenKind::Minus,
        UnaryOperator::LogicalNot => TokenKind::LogicalNot,
        UnaryOperator::BitwiseNot => TokenKind::BitwiseNot,
    }
}

/// The token that the parser reads as the binary operator `op`. `&`, `&&=`
/// and `||=` have none.
pub open spec fn infix_token(op: BinaryOperator) -> Option<TokenKind> {
    match op {
        BinaryOperator::Add => Some(TokenKind::Plus),
        BinaryOperator::AddAssign => Some(TokenKind::PlusAssign),
        BinaryOperator::Assign => Some(TokenKind::Assign),
        BinaryOperator::BitwiseAndAssign => Some(TokenKind::BitwiseAndAssign),
        BinaryOperator::BitwiseOr => Some(TokenKind::BitwiseOr),
        BinaryOperator::BitwiseOrAssign => Some(TokenKind::BitwiseOrAssign),
        BinaryOperator::BitwiseXor => Some(TokenKind::BitwiseXor),
        BinaryOperator::BitwiseXorAssign => Some(TokenKind::BitwiseXorAssign),
        BinaryOperator::Div => Some(TokenKind::Slash),
        BinaryOperator::DivAssign => Some(TokenKind::SlashAssign),
        BinaryOperator::Equal => Some(TokenKind::Equal),
        BinaryOperator::GreaterThan => Some(TokenKind::GreaterThan),
        BinaryOperator::GreaterThanOrEqual => Some(TokenKind::GreaterThanOrEqual),
        BinaryOperator::LeftShift => Some(TokenKind::LeftShift),
        BinaryOperator::LeftShiftAssign => Some(TokenKind::LeftShiftAssign),
        BinaryOperator::LessThan => Some(TokenKind::LessThan),
        BinaryOperator::LessThanOrEqual => Some(TokenKind::LessThanOrEqual),
        BinaryOperator::LogicalAnd => Some(TokenKind::LogicalAnd),
        BinaryOperator::LogicalOr => Some(TokenKind::LogicalOr),
        BinaryOperator::Mod => Some(TokenKind::Mod),
        BinaryOperator::ModAssign => Some(TokenKind::ModAssign),
        BinaryOperator::Mul => Some(TokenKind::Star),
        BinaryOperator::MulAssign => Some(TokenKind::StarAssign),
        BinaryOperator::NotEqual => Some(TokenKind::NotEqual),
        BinaryOperator::RightShift => Some(TokenKind::RightShift),
        BinaryOperator::RightShiftAssign => Some(TokenKind::RightShiftAssign),
        BinaryOperator::Sub => Some(TokenKind::Minus),
        BinaryOperator::SubAssign => Some(TokenKind::MinusAssign),
        _ => None,
    }
}

/// The text of a token that is always spelled the same.
pub open spec fn symbol(kind: TokenKind) -> Seq<char> {
    match kind {
        TokenKind::Assign => "="@,
        TokenKind::BitwiseAndAssign => "&="@,
        TokenKind::BitwiseNot => "~"@,
        TokenKind::BitwiseOr => "|"@,
        TokenKind::BitwiseOrAssign => "|="@,
        TokenKind::BitwiseXor => "^"@,
        TokenKind::BitwiseXorAssign => "^="@,
        TokenKind::Eof => ""@,
        TokenKind::Equal => "=="@,
        TokenKind::GreaterThan => ">"@,
        TokenKind::GreaterThanOrEqual => ">="@,
        TokenKind::LeftParen => "("@,
        TokenKind::LeftShift => "<<"@,
        TokenKind::LeftShiftAssign => "<<="@,
        TokenKind::LessThan => "<"@,
        TokenKind::LessThanOrEqual => "<="@,
        TokenKind::LogicalAnd => "&&"@,
        TokenKind::LogicalNot => "!"@,
        TokenKind::LogicalOr => "||"@,
        TokenKind::Minus => "-"@,
        TokenKind::MinusAssign => "-="@,
        TokenKind::Mod => "%"@,
        TokenKind::ModAssign => "%="@,
        TokenKind::NotEqual => "!="@,
        TokenKind::Plus => "+"@,
        TokenKind::PlusAssign => "+="@,
        TokenKind::Print => "print"@,
        TokenKind::RightParen => ")"@,
        TokenKind::RightShift => ">>"@,
        TokenKind::RightShiftAssign => ">>="@,
        TokenKind::Slash => "/"@,
        TokenKind::SlashAssign => "/="@,
        TokenKind::Star => "*"@,
        TokenKind::StarAssign => "*="@,
        _ => ""@,
    }
}

/// Whether the parser can make the expression: every binary expression has
/// an operator that does not assign, every assignment one that does, and
/// each operator has a token.
pub open spec fn printable(expr: Expr) -> bool
    decreases expr,
{
    match expr {
        Expr::IntegerExpr(_) => true,
        Expr::BoolExpr(_) => true,
        Expr::VnameExpr(_) => true,
        Expr::PrintExpr(inner) => printable(*inner),
        Expr::UnaryExpr(unary) => printable(*unary.elem),
        Expr::BinaryExpr(binary) => {
            &&& infix_token(binary.op) is Some
            &&& !assigns(binary.op)
            &&& printable(*binary.lhs)
            &&& printable(*binary.rhs)
        },
        Expr::AssignExpr(assign) => {
            &&& infix_token(assign.op) is Some
            &&& assigns(assign.op)
            &&& printable(*assign.vname)
            &&& printable(*assign.expr)
        },
    }
}

/// The number of tokens that an expression is written with.
pub open spec fn printed_len(expr: Expr) -> nat
    decreases expr,
{
    match expr {
        Expr::IntegerExpr(_) => 1,
        Expr::BoolExpr(_) => 1,
        Expr::VnameExpr(_) => 1,
        Expr::PrintExpr(inner) => 3 + printed_len(*inner),
        Expr::UnaryExpr(unary) => 3 + printed_len(*unary.elem),
        Expr::BinaryExpr(binary) => 3 + printed_len(*binary.lhs) + printed_len(*binary.rhs),
        Expr::AssignExpr(assign) => 3 + printed_len(*assign.vname) + printed_len(*assign.expr),
    }
}

/// Whether `token` is of the kind `kind`, spelled `spelling`, at no place.
pub open spec fn written(token: Token, kind: TokenKind, spelling: Seq<char>) -> bool {
    &&& token.kind == kind
    &&& token.spelling@ == spelling
    &&& token.loc.source_file@ == Seq::<char>::empty()
    &&& token.loc.line == 0
    &&& token.loc.col == 0
}

/// Whether `token` is the symbol of the kind `kind`.
pub open spec fn symbol_at(tokens: Seq<Token>, pos: int, kind: TokenKind) -> bool {
    written(tokens[pos], kind, symbol(kind))
}

/// Whether the tokens from `pos` on write the expression: a literal or a
/// variable as one token, an integer as its decimal numeral; every other
/// expression within parentheses, its operator before its operand or
/// between its two operands, each operand written in the same way.
pub open spec fn printed_at(tokens: Seq<Token>, pos: int, expr: Expr) -> bool
    decreases expr,
{
    match expr {
        Expr::IntegerExpr(i) => written(
            tokens[pos],
            TokenKind::Integer,
            signed_decimal(i as int),
        ),
        Expr::BoolExpr(b) => if b {
            written(tokens[pos], TokenKind::True, "true"@)
        } else {
            written(tokens[pos], TokenKind::False, "false"@)
        },
        Expr::VnameExpr(vname) => {
            &&& written(tokens[pos], TokenKind::Identifier, vname.id.spelling@)
            &&& tokens[pos].spelling == vname.id.spelling
        },
        Expr::PrintExpr(inner) => {
            &&& symbol_at(tokens, pos, TokenKind::LeftParen)
            &&& symbol_at(tokens, pos + 1, TokenKind::Print)
            &&& printed_at(tokens, pos + 2, *inner)
            &&& symbol_at(tokens, pos + 2 + printed_len(*inner), TokenKind::RightParen)
        },
        Expr::UnaryExpr(unary) => {
            &&& symbol_at(tokens, pos, TokenKind::LeftParen)
            &&& symbol_at(tokens, pos + 1, prefix_token(unary.op))
            &&& printed_at(tokens, pos + 2, *unary.elem)
            &&& symbol_at(tokens, pos + 2 + printed_len(*unary.elem), TokenKind::RightParen)
        },
        Expr::BinaryExpr(binary) => {
            let op_at = pos + 1 + printed_len(*binary.lhs);
            &&& symbol_at(tokens, pos, TokenKind::LeftParen)
            &&& printed_at(tokens, pos + 1, *binary.lhs)
            &&& infix_token(binary.op) matches Some(kind) && symbol_at(tokens, op_at, kind)
            &&& printed_at(tokens, op_at + 1, *binary.rhs)
            &&& symbol_at(tokens, op_at + 1 + printed_len(*binary.rhs), TokenKind::RightParen)
        },
        Expr::AssignExpr(assign) => {
            let op_at = pos + 1 + printed_len(*assign.vname);
            &&& symbol_at(tokens, pos, TokenKind::LeftParen)
            &&& printed_at(tokens, pos + 1, *assign.vname)
            &&& infix_token(assign.op) matches Some(kind) && symbol_at(tokens, op_at, kind)
            &&& printed_at(tokens, op_at + 1, *assign.expr)
            &&& symbol_at(tokens, op_at + 1 + printed_len(*assign.expr), TokenKind::RightParen)
        },
    }
}

/// The index at which the expression `k` of a program is written: behind
/// the expressions before it.
pub open spec fn start_of(exprs: Seq<Expr>, k: int) -> int
    decreases k,
{
    if k <= 0 {
        0
    } else {
        start_of(exprs, k - 1) + printed_len(exprs[k - 1])
    }
}

/// Whether the tokens write the program: its expressions in a row and an
/// `Eof` behind them.
pub open spec fn printed_program(tokens: Seq<Token>, exprs: Seq<Expr>) -> bool {
    &&& tokens.len() == start_of(exprs, exprs.len() as int) + 1
    &&& symbol_at(tokens, start_of(exprs, exprs.len() as int), TokenKind::Eof)
    &&& forall|k: int|
        0 <= k < exprs.len() ==> printed_at(tokens, #[trigger] start_of(exprs, k), exprs[k])
}


/// The token of a binary operator is read as that operator, and binds more
/// tightly than the lowest power.
pub proof fn lemma_infix_token(op: BinaryOperator)
    ensures
        infix_token(op) matches Some(kind) ==> {
            &&& infix_operator(kind) == Some(op)
            &&& binding_power(kind) >= 10
        },
{
}

/// The token of a unary operator is read as that operator.
pub proof fn lemma_prefix_token(op: UnaryOperator)
    ensures
        prefix_operator(prefix_token(op)) matches Some((found, _)) && found == op,
        prefix_token(op) != TokenKind::LeftParen,
{
}

/// What an expression is written with begins with a token that is no infix
/// operator and no `Eof`.
pub proof fn lemma_first_token(tokens: Seq<Token>, pos: int, expr: Expr)
    requires
        printed_at(tokens, pos, expr),
    ensures
        binding_power(tokens[pos].kind) == MIN_BINDING_POWER,
        tokens[pos].kind != TokenKind::Eof,
{
}

/// An expression is written with at least one token.
pub proof fn lemma_printed_len_positive(expr: Expr)
    ensures
        printed_len(expr) >= 1,
{
}

/// An infix loop stops at a closing parenthesis.
proof fn lemma_stops_at_paren(tokens: Seq<Token>, pos: int, rbp: i32, left: Expr)
    requires
        0 <= pos < tokens.len(),
        tokens[pos].kind == TokenKind::RightParen,
        rbp >= MIN_BINDING_POWER,
    ensures
        parse_infix(tokens, pos, rbp, left) == Ok::<(Expr, int), ParseFault>((left, pos)),
{
}

/// The tokens that write an expression are parsed, as an operand before a
/// closing parenthesis, into the expression without its types.
pub proof fn lemma_parse_operand(tokens: Seq<Token>, pos: int, rbp: i32, expr: Expr)
    requires
        printable(expr),
        0 <= pos,
        pos + printed_len(expr) < tokens.len(),
        printed_at(tokens, pos, expr),
        tokens[pos + printed_len(expr)].kind == TokenKind::RightParen,
        rbp >= MIN_BINDING_POWER,
    ensures
        parse_expression(tokens, pos, rbp) == Ok::<(Expr, int), ParseFault>(
            (erased(expr), pos + printed_len(expr)),
        ),
    decreases expr, 1int,
{
    lemma_parse_printed(tokens, pos, expr);
    lemma_stops_at_paren(tokens, pos + printed_len(expr), rbp, erased(expr));
}

/// The tokens that write an expression are parsed into the expression
/// without its types, and into nothing more.
pub proof fn lemma_parse_printed(tokens: Seq<Token>, pos: int, expr: Expr)
    requires
        printable(expr),
        0 <= pos,
        pos + printed_len(expr) <= tokens.len(),
        printed_at(tokens, pos, expr),
    ensures
        parse_prefix(tokens, pos) == Ok::<(Expr, int), ParseFault>(
            (erased(expr), pos + printed_len(expr)),
        ),
    decreases expr, 0int,
{
    let end = pos + printed_len(expr);
    match expr {
        Expr::IntegerExpr(i) => {
            lemma_numeral_reads_back(i);
        },
        Expr::BoolExpr(b) => {
            reveal_strlit("true");
            reveal_strlit("false");
            assert("true"@.len() == 4 && "false"@.len() == 5);
        },
        Expr::VnameExpr(vname) => {},
        Expr::PrintExpr(inner) => {
            lemma_parse_operand(tokens, pos + 2, MIN_BINDING_POWER, *inner);
            let node = Expr::PrintExpr(Box::new(erased(*inner)));
            assert(parse_prefix(tokens, pos + 1) == Ok::<(Expr, int), ParseFault>(
                (node, end - 1),
            ));
            lemma_stops_at_paren(tokens, end - 1, MIN_BINDING_POWER, node);
            assert(parse_expression(tokens, pos + 1, MIN_BINDING_POWER) == Ok::<
                (Expr, int),
                ParseFault,
            >((node, end - 1)));
        },
        Expr::UnaryExpr(unary) => {
            lemma_prefix_token(unary.op);
            let (op, threshold) = prefix_operator(prefix_token(unary.op))->0;
            lemma_parse_operand(tokens, pos + 2, threshold, *unary.elem);
            let node = Expr::UnaryExpr(
                UnaryExpr { op: unary.op, elem: Box::new(erased(*unary.elem)), typ: None },
            );
            assert(parse_prefix(tokens, pos + 1) == Ok::<(Expr, int), ParseFault>(
                (node, end - 1),
            ));
            lemma_stops_at_paren(tokens, end - 1, MIN_BINDING_POWER, node);
            assert(parse_expression(tokens, pos + 1, MIN_BINDING_POWER) == Ok::<
                (Expr, int),
                ParseFault,
            >((node, end - 1)));
        },
        Expr::BinaryExpr(binary) => {
            let kind = infix_token(binary.op)->0;
            let op_at = pos + 1 + printed_len(*binary.lhs);
            lemma_infix_token(binary.op);
            lemma_parse_printed(tokens, pos + 1, *binary.lhs);
            let power = binding_power(kind);
            let threshold = if right_associative(kind) {
                power - 1
            } else {
                power as int
            };
            lemma_parse_operand(tokens, op_at + 1, threshold as i32, *binary.rhs);
            let node = infix_node(erased(*binary.lhs), kind, erased(*binary.rhs))->0;
            lemma_stops_at_paren(tokens, end - 1, MIN_BINDING_POWER, node);
            assert(parse_infix(tokens, op_at, MIN_BINDING_POWER, erased(*binary.lhs)) == Ok::<
                (Expr, int),
                ParseFault,
            >((node, end - 1)));
            assert(parse_expression(tokens, pos + 1, MIN_BINDING_POWER) == Ok::<
                (Expr, int),
                ParseFault,
            >((node, end - 1)));
        },
        Expr::AssignExpr(assign) => {
            let kind = infix_token(assign.op)->0;
            let op_at = pos + 1 + printed_len(*assign.vname);
            lemma_infix_token(assign.op);
            lemma_parse_printed(tokens, pos + 1, *assign.vname);
            let power = binding_power(kind);
            let threshold = if right_associative(kind) {
                power - 1
            } else {
                power as int
            };
            lemma_parse_operand(tokens, op_at + 1, threshold as i32, *assign.expr);
            let node = infix_node(erased(*assign.vname), kind, erased(*assign.expr))->0;
            lemma_stops_at_paren(tokens, end - 1, MIN_BINDING_POWER, node);
            assert(parse_infix(tokens, op_at, MIN_BINDING_POWER, erased(*assign.vname)) == Ok::<
                (Expr, int),
                ParseFault,
            >((node, end - 1)));
            assert(parse_expression(tokens, pos + 1, MIN_BINDING_POWER) == Ok::<
                (Expr, int),
                ParseFault,
            >((node, end - 1)));
        },
    }
}


/// The expressions of a program are written one behind the other.
pub proof fn lemma_start_of_grows(exprs: Seq<Expr>, j: int, k: int)
    requires
        0 <= j <= k,
    ensures
        0 <= start_of(exprs, j) <= start_of(exprs, k),
    decreases k,
{
    if j < k {
        lemma_start_of_grows(exprs, j, k - 1);
    } else if k > 0 {
        lemma_start_of_grows(exprs, j - 1, k - 1);
    }
}

/// The tokens that write a program are parsed, from the expression `k` on,
/// into the expressions without their types, up to the `Eof`.
pub proof fn lemma_parse_program_from(tokens: Seq<Token>, exprs: Seq<Expr>, k: int)
    requires
        printed_program(tokens, exprs),
        forall|j: int| 0 <= j < exprs.len() ==> printable(#[trigger] exprs[j]),
        0 <= k <= exprs.len(),
    ensures
        parse_all(tokens, start_of(exprs, k)) == Ok::<(Seq<Expr>, int), ParseFault>(
            (erased_all(exprs).skip(k), tokens.len() - 1),
        ),
    decreases exprs.len() - k,
{
    let n = exprs.len() as int;
    let pos = start_of(exprs, k);
    lemma_start_of_grows(exprs, k, n);
    if k == n {
        assert(erased_all(exprs).skip(k) =~= Seq::<Expr>::empty());
    } else {
        let next = start_of(exprs, k + 1);
        lemma_start_of_grows(exprs, k + 1, n);
        assert(printed_at(tokens, start_of(exprs, k), exprs[k]));
        lemma_first_token(tokens, pos, exprs[k]);
        lemma_printed_len_positive(exprs[k]);
        lemma_parse_printed(tokens, pos, exprs[k]);
        if k + 1 < n {
            assert(printed_at(tokens, start_of(exprs, k + 1), exprs[k + 1]));
            lemma_first_token(tokens, next, exprs[k + 1]);
        }
        assert(parse_infix(tokens, next, MIN_BINDING_POWER, erased(exprs[k])) == Ok::<
            (Expr, int),
            ParseFault,
        >((erased(exprs[k]), next)));
        assert(parse_expression(tokens, pos, MIN_BINDING_POWER) == Ok::<(Expr, int), ParseFault>(
            (erased(exprs[k]), next),
        ));
        lemma_parse_program_from(tokens, exprs, k + 1);
        assert(seq![erased(exprs[k])] + erased_all(exprs).skip(k + 1) =~= erased_all(exprs).skip(
            k,
        ));
    }
}

/// Parsing what writes a program gives the program back, without its types.
pub proof fn lemma_parse_program(tokens: Seq<Token>, exprs: Seq<Expr>)
    requires
        printed_program(tokens, exprs),
        forall|j: int| 0 <= j < exprs.len() ==> printable(#[trigger] exprs[j]),
    ensures
        parse_all(tokens, 0) == Ok::<(Seq<Expr>, int), ParseFault>(
            (erased_all(exprs), tokens.len() - 1),
        ),
{
    lemma_parse_program_from(tokens, exprs, 0);
    assert(erased_all(exprs).skip(0) =~= erased_all(exprs));
}

/// Whether an expression is written depends on the tokens it is written
/// with alone.
proof fn lemma_printed_frame(a: Seq<Token>, b: Seq<Token>, pos: int, expr: Expr)
    requires
        printed_at(a, pos, expr),
        forall|j: int| pos <= j < pos + printed_len(expr) ==> a[j] == b[j],
    ensures
        printed_at(b, pos, expr),
    decreases expr,
{
    match expr {
        Expr::IntegerExpr(_) => {},
        Expr::BoolExpr(_) => {},
        Expr::VnameExpr(_) => {},
        Expr::PrintExpr(inner) => {
            lemma_printed_frame(a, b, pos + 2, *inner);
        },
        Expr::UnaryExpr(unary) => {
            lemma_printed_frame(a, b, pos + 2, *unary.elem);
        },
        Expr::BinaryExpr(binary) => {
            lemma_printed_frame(a, b, pos + 1, *binary.lhs);
            lemma_printed_frame(a, b, pos + 2 + printed_len(*binary.lhs), *binary.rhs);
        },
        Expr::AssignExpr(assign) => {
            lemma_printed_frame(a, b, pos + 1, *assign.vname);
            lemma_printed_frame(a, b, pos + 2 + printed_len(*assign.vname), *assign.expr);
        },
    }
}

fn prefix_kind(op: UnaryOperator) -> (kind: TokenKind)
    ensures
        kind == prefix_token(op),
{
    match op {
        UnaryOperator::UnaryPlus => TokenKind::Plus,
        UnaryOperator::UnaryMinus => TokenKind::Minus,
        UnaryOperator::LogicalNot => TokenKind::LogicalNot,
        UnaryOperator::BitwiseNot => TokenKind::BitwiseNot,
    }
}

fn infix_kind(op: BinaryOperator) -> (kind: Option<TokenKind>)
    ensures
        kind == infix_token(op),
{
    match op {
        BinaryOperator::Add => Some(TokenKind::Plus),
        BinaryOperator::AddAssign => Some(TokenKind::PlusAssign),
        BinaryOperator::Assign => Some(TokenKind::Assign),
        BinaryOperator::BitwiseAndAssign => Some(TokenKind::BitwiseAndAssign),
        BinaryOperator::BitwiseOr => Some(TokenKind::BitwiseOr),
        BinaryOperator::BitwiseOrAssign => Some(TokenKind::BitwiseOrAssign),
        BinaryOperator::BitwiseXor => Some(TokenKind::BitwiseXor),
        BinaryOperator::BitwiseXorAssign => Some(TokenKind::BitwiseXorAssign),
        BinaryOperator::Div => Some(TokenKind::Slash),
        BinaryOperator::DivAssign => Some(TokenKind::SlashAssign),
        BinaryOperator::Equal => Some(TokenKind::Equal),
        BinaryOperator::GreaterThan => Some(TokenKind::GreaterThan),
        BinaryOperator::GreaterThanOrEqual => Some(TokenKind::GreaterThanOrEqual),
        BinaryOperator::LeftShift => Some(TokenKind::LeftShift),
        BinaryOperator::LeftShiftAssign => Some(TokenKind::LeftShiftAssign),
        BinaryOperator::LessThan => Some(TokenKind::LessThan),
        BinaryOperator::LessThanOrEqual => Some(TokenKind::LessThanOrEqual),
        BinaryOperator::LogicalAnd => Some(TokenKind::LogicalAnd),
        BinaryOperator::LogicalOr => Some(TokenKind::LogicalOr),
        BinaryOperator::Mod => Some(TokenKind::Mod),
        BinaryOperator::ModAssign => Some(TokenKind::ModAssign),
        BinaryOperator::Mul => Some(TokenKind::Star),
        BinaryOperator::MulAssign => Some(TokenKind::StarAssign),
        BinaryOperator::NotEqual => Some(TokenKind::NotEqual),
        BinaryOperator::RightShift => Some(TokenKind::RightShift),
        BinaryOperator::RightShiftAssign => Some(TokenKind::RightShiftAssign),
        BinaryOperator::Sub => Some(TokenKind::Minus),
        BinaryOperator::SubAssign => Some(TokenKind::MinusAssign),
        _ => None,
    }
}

fn symbol_of(kind: TokenKind) -> (text: &'static str)
    ensures
        text@ == symbol(kind),
{
    match kind {
        TokenKind::Assign => "=",
        TokenKind::BitwiseAndAssign => "&=",
        TokenKind::BitwiseNot => "~",
        TokenKind::BitwiseOr => "|",
        TokenKind::BitwiseOrAssign => "|=",
        TokenKind::BitwiseXor => "^",
        TokenKind::BitwiseXorAssign => "^=",
        TokenKind::Eof => "",
        TokenKind::Equal => "==",
        TokenKind::GreaterThan => ">",
        TokenKind::GreaterThanOrEqual => ">=",
        TokenKind::LeftParen => "(",
        TokenKind::LeftShift => "<<",
        TokenKind::LeftShiftAssign => "<<=",
        TokenKind::LessThan => "<",
        TokenKind::LessThanOrEqual => "<=",
        TokenKind::LogicalAnd => "&&",
        TokenKind::LogicalNot => "!",
        TokenKind::LogicalOr => "||",
        TokenKind::Minus => "-",
        TokenKind::MinusAssign => "-=",
        TokenKind::Mod => "%",
        TokenKind::ModAssign => "%=",
        TokenKind::NotEqual => "!=",
        TokenKind::Plus => "+",
        TokenKind::PlusAssign => "+=",
        TokenKind::Print => "print",
        TokenKind::RightParen => ")",
        TokenKind::RightShift => ">>",
        TokenKind::RightShiftAssign => ">>=",
        TokenKind::Slash => "/",
        TokenKind::SlashAssign => "/=",
        TokenKind::Star => "*",
        TokenKind::StarAssign => "*=",
        _ => "",
    }
}

/// Adds a token of the kind `kind`, spelled `spelling`, at no place.
fn write(out: &mut Vec<Token>, kind: TokenKind, spelling: String)
    ensures
        final(out)@ == old(out)@.push(final(out)@.last()),
        final(out)@.len() == old(out)@.len() + 1,
        written(final(out)@.last(), kind, spelling@),
        final(out)@.last().spelling == spelling,
{
    out.push(Token { kind, spelling, loc: Location::default() });
}

/// Adds the symbol of the kind `kind`.
fn write_symbol(out: &mut Vec<Token>, kind: TokenKind)
    ensures
        final(out)@ == old(out)@.push(final(out)@.last()),
        final(out)@.len() == old(out)@.len() + 1,
        symbol_at(final(out)@, old(out)@.len() as int, kind),
{
    write(out, kind, String::from_str(symbol_of(kind)));
}

/// Whether the parser can make the expression, so that it can be written.
pub fn is_printable(expr: &Expr) -> (can: bool)
    ensures
        can == printable(*expr),
    decreases *expr,
{
    match expr {
        Expr::IntegerExpr(_) => true,
        Expr::BoolExpr(_) => true,
        Expr::VnameExpr(_) => true,
        Expr::PrintExpr(inner) => is_printable(inner),
        Expr::UnaryExpr(unary) => is_printable(&unary.elem),
        Expr::BinaryExpr(binary) => infix_kind(binary.op).is_some() && !is_assignment(binary.op)
            && is_printable(&binary.lhs) && is_printable(&binary.rhs),
        Expr::AssignExpr(assign) => infix_kind(assign.op).is_some() && is_assignment(assign.op)
            && is_printable(&assign.vname) && is_printable(&assign.expr),
    }
}

/// Writes an expression behind the tokens that `out` holds.
fn print_expr(expr: &Expr, out: &mut Vec<Token>)
    requires
        printable(*expr),
    ensures
        final(out)@.len() == old(out)@.len() + printed_len(*expr),
        forall|j: int| 0 <= j < old(out)@.len() ==> final(out)@[j] == old(out)@[j],
        printed_at(final(out)@, old(out)@.len() as int, *expr),
    decreases *expr,
{
    let ghost start = out@.len() as int;
    match expr {
        Expr::IntegerExpr(i) => {
            let mut numeral = String::new();
            push_signed_decimal(&mut numeral, *i);
            assert(numeral@ =~= signed_decimal(*i as int));
            write(out, TokenKind::Integer, numeral);
        },
        Expr::BoolExpr(b) => {
            if *b {
                write(out, TokenKind::True, String::from_str("true"));
            } else {
                write(out, TokenKind::False, String::from_str("false"));
            }
        },
        Expr::VnameExpr(vname) => {
            write(out, TokenKind::Identifier, vname.id.spelling.clone());
        },
        Expr::PrintExpr(inner) => {
            write_symbol(out, TokenKind::LeftParen);
            write_symbol(out, TokenKind::Print);
            print_expr(inner, out);
            let ghost body = out@;
            write_symbol(out, TokenKind::RightParen);
            proof {
                lemma_printed_frame(body, out@, start + 2, **inner);
            }
        },
        Expr::UnaryExpr(unary) => {
            write_symbol(out, TokenKind::LeftParen);
            write_symbol(out, prefix_kind(unary.op));
            print_expr(&unary.elem, out);
            let ghost body = out@;
            write_symbol(out, TokenKind::RightParen);
            proof {
                lemma_printed_frame(body, out@, start + 2, *unary.elem);
            }
        },
        Expr::BinaryExpr(binary) => {
            print_binary(binary, out);
        },
        Expr::AssignExpr(assign) => {
            print_assign(assign, out);
        },
    }
}

/// Writes a binary expression: the operator between its operands, within
/// parentheses.
fn print_binary(binary: &BinaryExpr, out: &mut Vec<Token>)
    requires
        printable(*binary.lhs),
        printable(*binary.rhs),
        infix_token(binary.op) is Some,
    ensures
        final(out)@.len() == old(out)@.len() + 3 + printed_len(*binary.lhs) + printed_len(
            *binary.rhs,
        ),
        forall|j: int| 0 <= j < old(out)@.len() ==> final(out)@[j] == old(out)@[j],
        ({
            let pos = old(out)@.len() as int;
            let op_at = pos + 1 + printed_len(*binary.lhs);
            &&& symbol_at(final(out)@, pos, TokenKind::LeftParen)
            &&& printed_at(final(out)@, pos + 1, *binary.lhs)
            &&& symbol_at(final(out)@, op_at, infix_token(binary.op)->0)
            &&& printed_at(final(out)@, op_at + 1, *binary.rhs)
            &&& symbol_at(
                final(out)@,
                op_at + 1 + printed_len(*binary.rhs),
                TokenKind::RightParen,
            )
        }),
    decreases *binary,
{
    let ghost start = out@.len() as int;
    write_symbol(out, TokenKind::LeftParen);
    print_expr(&binary.lhs, out);
    let ghost left = out@;
    match infix_kind(binary.op) {
        Some(kind) => write_symbol(out, kind),
        None => {},
    }
    print_expr(&binary.rhs, out);
    let ghost both = out@;
    write_symbol(out, TokenKind::RightParen);
    proof {
        lemma_printed_frame(left, out@, start + 1, *binary.lhs);
        lemma_printed_frame(both, out@, start + 2 + printed_len(*binary.lhs), *binary.rhs);
    }
}

/// Writes an assignment: the operator between target and right-hand side,
/// within parentheses.
fn print_assign(assign: &AssignExpr, out: &mut Vec<Token>)
    requires
        printable(*assign.vname),
        printable(*assign.expr),
        infix_token(assign.op) is Some,
    ensures
        final(out)@.len() == old(out)@.len() + 3 + printed_len(*assign.vname) + printed_len(
            *assign.expr,
        ),
        forall|j: int| 0 <= j < old(out)@.len() ==> final(out)@[j] == old(out)@[j],
        ({
            let pos = old(out)@.len() as int;
            let op_at = pos + 1 + printed_len(*assign.vname);
            &&& symbol_at(final(out)@, pos, TokenKind::LeftParen)
            &&& printed_at(final(out)@, pos + 1, *assign.vname)
            &&& symbol_at(final(out)@, op_at, infix_token(assign.op)->0)
            &&& printed_at(final(out)@, op_at + 1, *assign.expr)
            &&& symbol_at(
                final(out)@,
                op_at + 1 + printed_len(*assign.expr),
                TokenKind::RightParen,
            )
        }),
    decreases *assign,
{
    let ghost start = out@.len() as int;
    write_symbol(out, TokenKind::LeftParen);
    print_expr(&assign.vname, out);
    let ghost left = out@;
    match infix_kind(assign.op) {
        Some(kind) => write_symbol(out, kind),
        None => {},
    }
    print_expr(&assign.expr, out);
    let ghost both = out@;
    write_symbol(out, TokenKind::RightParen);
    proof {
        lemma_printed_frame(left, out@, start + 1, *assign.vname);
        lemma_printed_frame(both, out@, start + 2 + printed_len(*assign.vname), *assign.expr);
    }
}

/// Writes a program as tokens, with an `Eof` behind them, where the parser
/// can make every expression of it; the parser reads the tokens back as the
/// program without its types.
pub fn print_tokens(ast: &Ast) -> (res: Option<Vec<Token>>)
    ensures
        res is Some <==> forall|k: int|
            0 <= k < ast.exprs@.len() ==> printable(#[trigger] ast.exprs@[k]),
        res matches Some(tokens) ==> {
            &&& printed_program(tokens@, ast.exprs@)
            &&& parse_all(tokens@, 0) == Ok::<(Seq<Expr>, int), ParseFault>(
                (erased_all(ast.exprs@), tokens@.len() - 1),
            )
        },
{
    let n = ast.exprs.len();
    let mut out: Vec<Token> = Vec::new();
    let mut i: usize = 0;
    while i < n
        invariant
            i <= n == ast.exprs@.len(),
            out@.len() == start_of(ast.exprs@, i as int),
            forall|k: int| 0 <= k < i ==> printable(#[trigger] ast.exprs@[k]),
            forall|k: int|
                0 <= k < i ==> printed_at(out@, #[trigger] start_of(ast.exprs@, k), ast.exprs@[k]),
        decreases n - i,
    {
        if !is_printable(&ast.exprs[i]) {
            return None;
        }
        let ghost before = out@;
        print_expr(&ast.exprs[i], &mut out);
        proof {
            assert forall|k: int| 0 <= k < i + 1 implies printed_at(
                out@,
                #[trigger] start_of(ast.exprs@, k),
                ast.exprs@[k],
            ) by {
                if k < i {
                    lemma_start_of_grows(ast.exprs@, k + 1, i as int);
                    lemma_start_of_grows(ast.exprs@, k, k + 1);
                    assert(start_of(ast.exprs@, k + 1) == start_of(ast.exprs@, k) + printed_len(
                        ast.exprs@[k],
                    ));
                    lemma_printed_frame(before, out@, start_of(ast.exprs@, k), ast.exprs@[k]);
                }
            }
        }
        i += 1;
    }
    let ghost body = out@;
    write_symbol(&mut out, TokenKind::Eof);
    proof {
        let tokens = out@;
        let exprs = ast.exprs@;
        assert forall|k: int| 0 <= k < n implies printed_at(
            tokens,
            #[trigger] start_of(exprs, k),
            exprs[k],
        ) by {
            lemma_start_of_grows(exprs, k + 1, n as int);
            lemma_start_of_grows(exprs, k, k + 1);
            assert(start_of(exprs, k + 1) == start_of(exprs, k) + printed_len(exprs[k]));
            lemma_printed_frame(body, tokens, start_of(exprs, k), exprs[k]);
        }
        lemma_parse_program(tokens, exprs);
    }
    Some(out)
}


/// What the parser makes of an expression can be written, and holds no type.
pub proof fn lemma_parsed_is_printable(tokens: Seq<Token>, pos: int, rbp: i32)
    requires
        rbp >= MIN_BINDING_POWER,
    ensures
        parse_prefix(tokens, pos) matches Ok((expr, _)) ==> printable(expr) && erased(expr)
            == expr,
        parse_expression(tokens, pos, rbp) matches Ok((expr, _)) ==> printable(expr) && erased(
            expr,
        ) == expr,
    decreases tokens.len() - pos, 2int,
{
    if 0 <= pos < tokens.len() {
        let token = tokens[pos];
        lemma_parsed_is_printable(tokens, pos + 1, MIN_BINDING_POWER);
        if prefix_operator(token.kind) is Some {
            let (op, threshold) = prefix_operator(token.kind)->0;
            lemma_parsed_is_printable(tokens, pos + 1, threshold);
        }
        match parse_prefix(tokens, pos) {
            Ok((left, end)) => {
                lemma_parse_advances(tokens, pos, rbp);
                lemma_infix_is_printable(tokens, end, rbp, left);
            },
            Err(_) => {},
        }
    }
}

/// What the parser makes of an expression and the infix operators behind it
/// can be written, and holds no type.
pub proof fn lemma_infix_is_printable(tokens: Seq<Token>, pos: int, rbp: i32, left: Expr)
    requires
        rbp >= MIN_BINDING_POWER,
        printable(left),
        erased(left) == left,
    ensures
        parse_infix(tokens, pos, rbp, left) matches Ok((expr, _)) ==> printable(expr) && erased(
            expr,
        ) == expr,
    decreases tokens.len() - pos, 0int,
{
    if 0 <= pos < tokens.len() {
        let token = tokens[pos];
        let power = binding_power(token.kind);
        if rbp < power {
            let threshold = if right_associative(token.kind) {
                power - 1
            } else {
                power as int
            };
            lemma_parsed_is_printable(tokens, pos + 1, threshold as i32);
            match parse_expression(tokens, pos + 1, threshold as i32) {
                Ok((right, end)) => {
                    match infix_node(left, token.kind, right) {
                        Some(node) => {
                            if pos < end <= tokens.len() {
                                lemma_infix_is_printable(tokens, end, rbp, node);
                            }
                        },
                        None => {},
                    }
                },
                Err(_) => {},
            }
        }
    }
}

/// Every expression of a parsed program can be written, and holds no type.
pub proof fn lemma_parsed_program_is_printable(tokens: Seq<Token>, pos: int)
    ensures
        parse_all(tokens, pos) matches Ok((exprs, _)) ==> {
            &&& forall|k: int| 0 <= k < exprs.len() ==> printable(#[trigger] exprs[k])
            &&& erased_all(exprs) == exprs
        },
    decreases tokens.len() - pos,
{
    match parse_all(tokens, pos) {
        Ok((exprs, _)) => {
            if tokens[pos].kind != TokenKind::Eof {
                lemma_parsed_is_printable(tokens, pos, MIN_BINDING_POWER);
                let (expr, end) = parse_expression(tokens, pos, MIN_BINDING_POWER)->Ok_0;
                lemma_parsed_program_is_printable(tokens, end);
                let (rest, _) = parse_all(tokens, end)->Ok_0;
                assert(exprs == seq![expr] + rest);
                assert forall|k: int| 0 <= k < exprs.len() implies printable(
                    #[trigger] exprs[k],
                ) by {
                    if k > 0 {
                        assert(exprs[k] == rest[k - 1]);
                    }
                }
                assert(erased_all(exprs) =~= exprs) by {
                    assert forall|k: int| 0 <= k < exprs.len() implies erased_all(exprs)[k]
                        == exprs[k] by {
                        if k > 0 {
                            assert(exprs[k] == rest[k - 1]);
                            assert(erased_all(rest)[k - 1] == rest[k - 1]);
                        }
                    }
                }
            } else {
                assert(erased_all(exprs) =~= exprs);
            }
        },
        Err(_) => {},
    }
}

/// A parsed program is read back from what writes it: parsing the tokens
/// that write it gives the very program.
pub proof fn lemma_parsed_program_reads_back(
    tokens: Seq<Token>,
    pos: int,
    exprs: Seq<Expr>,
    printed: Seq<Token>,
)
    requires
        parse_all(tokens, pos) matches Ok((parsed, _)) && parsed == exprs,
        printed_program(printed, exprs),
    ensures
        parse_all(printed, 0) == Ok::<(Seq<Expr>, int), ParseFault>((exprs, printed.len() - 1)),
{
    lemma_parsed_program_is_printable(tokens, pos);
    lemma_parse_program(printed, exprs);
}

} // verus!
