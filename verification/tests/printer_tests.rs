use expr_lang::backend::interpreter::Interpreter;
use expr_lang::front::ast::{
    Ast, AssignExpr, BinaryExpr, BinaryOperator, Expr, Identifier, UnaryExpr, UnaryOperator,
    VnameExpr,
};
use expr_lang::front::parser::{is_assignment, Parser};
use expr_lang::front::printer::{is_printable, print_tokens};
use expr_lang::front::scanner::Scanner;
use expr_lang::front::source_file::{Location, SourceFile};
use expr_lang::front::token::TokenKind;
use expr_lang::middle::checker::Checker;

fn scan_and_parse(text: &str) -> Ast {
    let mut scanner = Scanner::new(SourceFile::new("test.expr", text).chars);
    scanner.scan_all().unwrap();
    Parser::new(scanner.tokens).parse().unwrap()
}

fn spellings(ast: &Ast) -> Vec<String> {
    print_tokens(ast).unwrap().iter().map(|t| t.spelling.clone()).collect()
}

fn var(name: &str) -> Expr {
    Expr::VnameExpr(VnameExpr::new(Identifier::new(name.to_string())))
}

fn bin(lhs: Expr, op: BinaryOperator, rhs: Expr) -> Expr {
    Expr::BinaryExpr(BinaryExpr::new(Box::new(lhs), op, Box::new(rhs)))
}

const PROGRAMS: [&str; 10] = [
    "",
    "1",
    "x = 5 x += 3 x",
    "print 1 + 2 * 3 - 4 / 5 % 6",
    "a = true b = !a || a && !!a",
    "e = 1 == 2 e != (3 == 3) print ~7 == 0 - 8",
    "w = 6 w &= 3 w |= 8 print w",
    "n = -5 + 3 m = +n * 2 * 3 print (n << 2) >> 1 ^ 7 | 1",
    "q = 1 q <<= 2 q >>= 1 q ^= 3 q -= 1 q *= 2 q /= 3 q %= 2",
    "1 < 2 3 <= 4 5 > 6 7 >= 8 9 != 10",
];

#[test]
fn written_tokens_are_read_back_as_the_program() {
    for program in PROGRAMS {
        let ast = scan_and_parse(program);
        let tokens = print_tokens(&ast).unwrap();
        assert_eq!(tokens.last().unwrap().kind, TokenKind::Eof);
        let again = Parser::new(tokens).parse().unwrap();
        assert_eq!(again, ast, "{}", program);
    }
}

#[test]
fn what_is_read_back_has_no_types_and_evaluates_alike() {
    for program in PROGRAMS {
        let bare = scan_and_parse(program);
        let mut checked = scan_and_parse(program);
        Checker::new().check(&mut checked).unwrap();
        let mut again = Parser::new(print_tokens(&checked).unwrap()).parse().unwrap();
        assert_eq!(again, bare, "{}", program);
        let mut first = Interpreter::new();
        let mut second = Interpreter::new();
        let value = first.interpret(&mut checked).unwrap();
        assert_eq!(second.interpret(&mut again).unwrap(), value, "{}", program);
        assert_eq!(second.output, first.output);
        for name in ["x", "a", "b", "n", "m", "q", "e", "w"] {
            assert_eq!(second.runtime.get_binding(name), first.runtime.get_binding(name));
        }
    }
}

#[test]
fn every_compound_expression_is_written_within_parentheses() {
    assert_eq!(spellings(&scan_and_parse("1+2*3")), vec!["(", "1", "+", "(", "2", "*", "3", ")", ")", ""]);
    assert_eq!(spellings(&scan_and_parse("x = -y")), vec!["(", "x", "=", "(", "-", "y", ")", ")", ""]);
    assert_eq!(spellings(&scan_and_parse("print !true")), vec!["(", "print", "(", "!", "true", ")", ")", ""]);
    assert_eq!(spellings(&scan_and_parse("7 false z")), vec!["7", "false", "z", ""]);
    assert_eq!(spellings(&Ast::new(Vec::new())), vec![""]);
    let kinds: Vec<TokenKind> =
        print_tokens(&scan_and_parse("a >>= ~b")).unwrap().iter().map(|t| t.kind).collect();
    assert_eq!(
        kinds,
        vec![
            TokenKind::LeftParen,
            TokenKind::Identifier,
            TokenKind::RightShiftAssign,
            TokenKind::LeftParen,
            TokenKind::BitwiseNot,
            TokenKind::Identifier,
            TokenKind::RightParen,
            TokenKind::RightParen,
            TokenKind::Eof,
        ]
    );
    assert!(print_tokens(&scan_and_parse("1 + 2"))
        .unwrap()
        .iter()
        .all(|t| t.loc == Location::default()));
}

#[test]
fn negative_literals_are_written_as_one_token() {
    for i in [-1, -42, i32::MIN, i32::MAX, 0] {
        let ast = Ast::new(vec![bin(Expr::IntegerExpr(i), BinaryOperator::Sub, Expr::IntegerExpr(i))]);
        let tokens = print_tokens(&ast).unwrap();
        assert_eq!(tokens[1].kind, TokenKind::Integer);
        assert_eq!(tokens[1].spelling, i.to_string());
        assert_eq!(Parser::new(tokens).parse().unwrap(), ast);
    }
}

#[test]
fn names_are_written_as_they_are() {
    let ast = Ast::new(vec![var("true"), var("print"), var(""), var("a b")]);
    let tokens = print_tokens(&ast).unwrap();
    assert!(tokens[..4].iter().all(|t| t.kind == TokenKind::Identifier));
    assert_eq!(Parser::new(tokens).parse().unwrap(), ast);
}

#[test]
fn every_operator_with_a_token_is_read_back() {
    let binary = [
        BinaryOperator::Add,
        BinaryOperator::Sub,
        BinaryOperator::Mul,
        BinaryOperator::Div,
        BinaryOperator::Mod,
        BinaryOperator::BitwiseOr,
        BinaryOperator::BitwiseXor,
        BinaryOperator::LeftShift,
        BinaryOperator::RightShift,
        BinaryOperator::Equal,
        BinaryOperator::NotEqual,
        BinaryOperator::LessThan,
        BinaryOperator::LessThanOrEqual,
        BinaryOperator::GreaterThan,
        BinaryOperator::GreaterThanOrEqual,
        BinaryOperator::LogicalAnd,
        BinaryOperator::LogicalOr,
    ];
    let assigning = [
        BinaryOperator::Assign,
        BinaryOperator::AddAssign,
        BinaryOperator::SubAssign,
        BinaryOperator::MulAssign,
        BinaryOperator::DivAssign,
        BinaryOperator::ModAssign,
        BinaryOperator::LeftShiftAssign,
        BinaryOperator::RightShiftAssign,
        BinaryOperator::BitwiseAndAssign,
        BinaryOperator::BitwiseOrAssign,
        BinaryOperator::BitwiseXorAssign,
    ];
    let unary = [
        UnaryOperator::UnaryPlus,
        UnaryOperator::UnaryMinus,
        UnaryOperator::LogicalNot,
        UnaryOperator::BitwiseNot,
    ];
    let mut exprs = Vec::new();
    for op in binary {
        assert!(!is_assignment(op));
        exprs.push(bin(bin(var("a"), op, var("b")), op, bin(var("c"), op, var("d"))));
    }
    for op in assigning {
        assert!(is_assignment(op));
        exprs.push(Expr::AssignExpr(AssignExpr::new(
            Box::new(Expr::AssignExpr(AssignExpr::new(Box::new(var("a")), op, Box::new(var("b"))))),
            op,
            Box::new(Expr::IntegerExpr(1)),
        )));
    }
    for op in unary {
        exprs.push(Expr::UnaryExpr(UnaryExpr::new(
            op,
            Box::new(bin(
                Expr::UnaryExpr(UnaryExpr::new(op, Box::new(var("a")))),
                BinaryOperator::Mul,
                Expr::PrintExpr(Box::new(Expr::PrintExpr(Box::new(var("b"))))),
            )),
        )));
    }
    let ast = Ast::new(exprs);
    assert!(ast.exprs.iter().all(is_printable));
    assert_eq!(Parser::new(print_tokens(&ast).unwrap()).parse().unwrap(), ast);
}

#[test]
fn what_the_parser_cannot_make_is_not_written() {
    let one = || Expr::IntegerExpr(1);
    let unwritten = [
        bin(one(), BinaryOperator::BitwiseAnd, one()),
        bin(one(), BinaryOperator::Assign, one()),
        bin(one(), BinaryOperator::AddAssign, one()),
        bin(one(), BinaryOperator::LogicalAndAssign, one()),
        Expr::AssignExpr(AssignExpr::new(Box::new(var("x")), BinaryOperator::Add, Box::new(one()))),
        Expr::AssignExpr(AssignExpr::new(
            Box::new(var("x")),
            BinaryOperator::LogicalOrAssign,
            Box::new(one()),
        )),
        Expr::AssignExpr(AssignExpr::new(
            Box::new(var("x")),
            BinaryOperator::LogicalAndAssign,
            Box::new(one()),
        )),
        Expr::PrintExpr(Box::new(bin(one(), BinaryOperator::BitwiseAnd, one()))),
        Expr::UnaryExpr(UnaryExpr::new(
            UnaryOperator::UnaryMinus,
            Box::new(bin(var("x"), BinaryOperator::SubAssign, one())),
        )),
        bin(one(), BinaryOperator::Add, bin(one(), BinaryOperator::BitwiseAnd, one())),
    ];
    for expr in unwritten {
        assert!(!is_printable(&expr), "{:?}", expr);
        assert!(print_tokens(&Ast::new(vec![one(), expr])).is_none());
    }
    assert!(is_printable(&one()));
}
