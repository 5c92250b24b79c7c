use expr_lang::error::ExprErrorKind;
use expr_lang::front::ast::{
    Ast, AssignExpr, BinaryExpr, BinaryOperator, Expr, Identifier, UnaryExpr, UnaryOperator,
    VnameExpr,
};
use expr_lang::front::parser::Parser;
use expr_lang::front::scanner::Scanner;
use expr_lang::front::source_file::{Location, SourceFile};
use expr_lang::front::token::{Token, TokenKind};

const PROGRAMS: [&str; 6] = [
    "x = 5\nprint x\n",
    "print 1 + 2 * 3\n",
    "// a comment line\ny = (1 + 2) * 3\ny += 4 // trailing\nprint y\n",
    "a = 10 - 3 - 2\nb = a << 2\nb >>= 1\nprint b % 3\n",
    "t = true\nprint !t\nprint -5\n",
    "",
];

fn tokens(text: &str) -> Vec<Token> {
    let mut scanner = Scanner::new(SourceFile::new("test.expr", text).chars);
    scanner.scan_all().unwrap();
    scanner.tokens
}

fn parse(text: &str) -> Vec<Expr> {
    Parser::new(tokens(text)).parse().unwrap().exprs
}

fn parse_one(text: &str) -> Expr {
    let mut exprs = parse(text);
    assert_eq!(exprs.len(), 1);
    exprs.remove(0)
}

fn lit(i: i32) -> Expr {
    Expr::IntegerExpr(i)
}

fn var(name: &str) -> Expr {
    Expr::VnameExpr(VnameExpr::new(Identifier::new(name.to_string())))
}

fn bin(lhs: Expr, op: BinaryOperator, rhs: Expr) -> Expr {
    Expr::BinaryExpr(BinaryExpr::new(Box::new(lhs), op, Box::new(rhs)))
}

fn assign(lhs: Expr, op: BinaryOperator, rhs: Expr) -> Expr {
    Expr::AssignExpr(AssignExpr::new(Box::new(lhs), op, Box::new(rhs)))
}

fn un(op: UnaryOperator, elem: Expr) -> Expr {
    Expr::UnaryExpr(UnaryExpr::new(op, Box::new(elem)))
}

#[test]
fn all_parser_tests() {
    for program in PROGRAMS {
        let ast = Parser::new(tokens(program)).parse().unwrap();
        println!("{:#?}", ast);
    }
}

#[test]
fn constructors_leave_the_type_open() {
    let id = Identifier::new("x".to_string());
    assert_eq!(id.spelling, "x");
    assert_eq!(id.typ, None);
    let vname = VnameExpr::new(id.clone());
    assert_eq!(vname.id, id);
    assert_eq!(vname.typ, None);
    assert_eq!(vname.clone(), vname);
    let a = AssignExpr::new(Box::new(var("x")), BinaryOperator::AddAssign, Box::new(lit(1)));
    assert_eq!(*a.vname, var("x"));
    assert_eq!(a.op, BinaryOperator::AddAssign);
    assert_eq!(*a.expr, lit(1));
    assert_eq!(a.typ, None);
    let b = BinaryExpr::new(Box::new(lit(1)), BinaryOperator::Sub, Box::new(lit(2)));
    assert_eq!((*b.lhs == lit(1), b.op, *b.rhs == lit(2), b.typ), (true, BinaryOperator::Sub, true, None));
    let u = UnaryExpr::new(UnaryOperator::UnaryMinus, Box::new(lit(3)));
    assert_eq!((u.op, *u.elem == lit(3), u.typ), (UnaryOperator::UnaryMinus, true, None));
    let ast = Ast::new(vec![lit(1), lit(2)]);
    assert_eq!(ast.exprs, vec![lit(1), lit(2)]);
}

#[test]
fn multiplication_binds_tighter_than_addition() {
    assert_eq!(
        parse_one("1+2*3"),
        bin(lit(1), BinaryOperator::Add, bin(lit(2), BinaryOperator::Mul, lit(3)))
    );
    assert_eq!(
        parse_one("2*3+4*5"),
        bin(
            bin(lit(2), BinaryOperator::Mul, lit(3)),
            BinaryOperator::Add,
            bin(lit(4), BinaryOperator::Mul, lit(5))
        )
    );
}

#[test]
fn parentheses_group() {
    assert_eq!(
        parse_one("(1+2)*3"),
        bin(bin(lit(1), BinaryOperator::Add, lit(2)), BinaryOperator::Mul, lit(3))
    );
    assert_eq!(parse_one("((7))"), lit(7));
}

#[test]
fn subtraction_groups_to_the_left() {
    assert_eq!(
        parse_one("10-3-2"),
        bin(bin(lit(10), BinaryOperator::Sub, lit(3)), BinaryOperator::Sub, lit(2))
    );
    assert_eq!(
        parse_one("8/4/2"),
        bin(bin(lit(8), BinaryOperator::Div, lit(4)), BinaryOperator::Div, lit(2))
    );
}

#[test]
fn multiplication_groups_to_the_right() {
    assert_eq!(
        parse_one("2*3*4"),
        bin(lit(2), BinaryOperator::Mul, bin(lit(3), BinaryOperator::Mul, lit(4)))
    );
    assert_eq!(
        parse_one("8/2*3"),
        bin(bin(lit(8), BinaryOperator::Div, lit(2)), BinaryOperator::Mul, lit(3))
    );
    assert_eq!(
        parse_one("2*8/4"),
        bin(lit(2), BinaryOperator::Mul, bin(lit(8), BinaryOperator::Div, lit(4)))
    );
}

#[test]
fn binding_powers_rise_from_or_to_multiplication() {
    assert_eq!(
        parse_one("a || b && c | d ^ e != f < g << h + i * j"),
        bin(
            var("a"),
            BinaryOperator::LogicalOr,
            bin(
                var("b"),
                BinaryOperator::LogicalAnd,
                bin(
                    var("c"),
                    BinaryOperator::BitwiseOr,
                    bin(
                        var("d"),
                        BinaryOperator::BitwiseXor,
                        bin(
                            var("e"),
                            BinaryOperator::NotEqual,
                            bin(
                                var("f"),
                                BinaryOperator::LessThan,
                                bin(
                                    var("g"),
                                    BinaryOperator::LeftShift,
                                    bin(
                                        var("h"),
                                        BinaryOperator::Add,
                                        bin(var("i"), BinaryOperator::Mul, var("j"))
                                    )
                                )
                            )
                        )
                    )
                )
            )
        )
    );
}

#[test]
fn assignments_make_assignment_nodes_and_group_to_the_right() {
    assert_eq!(parse_one("x=5"), assign(var("x"), BinaryOperator::Assign, lit(5)));
    assert_eq!(
        parse_one("x = y = 1 + 2"),
        assign(
            var("x"),
            BinaryOperator::Assign,
            assign(var("y"), BinaryOperator::Assign, bin(lit(1), BinaryOperator::Add, lit(2)))
        )
    );
    let forms = [
        ("+=", BinaryOperator::AddAssign),
        ("-=", BinaryOperator::SubAssign),
        ("*=", BinaryOperator::MulAssign),
        ("/=", BinaryOperator::DivAssign),
        ("%=", BinaryOperator::ModAssign),
        ("<<=", BinaryOperator::LeftShiftAssign),
        (">>=", BinaryOperator::RightShiftAssign),
        ("^=", BinaryOperator::BitwiseXorAssign),
        ("&=", BinaryOperator::BitwiseAndAssign),
        ("|=", BinaryOperator::BitwiseOrAssign),
    ];
    for (text, op) in forms {
        assert_eq!(parse_one(&format!("x {} 3", text)), assign(var("x"), op, lit(3)));
    }
    assert_eq!(
        parse_one("x <<= y >>= 1"),
        assign(
            var("x"),
            BinaryOperator::LeftShiftAssign,
            assign(var("y"), BinaryOperator::RightShiftAssign, lit(1))
        )
    );
}

#[test]
fn equality_is_parsed_from_two_equal_signs() {
    assert_eq!(parse_one("a == b"), bin(var("a"), BinaryOperator::Equal, var("b")));
    assert_eq!(
        parse_one("x = 1 + 2 == 3 && a != b"),
        assign(
            var("x"),
            BinaryOperator::Assign,
            bin(
                bin(
                    bin(lit(1), BinaryOperator::Add, lit(2)),
                    BinaryOperator::Equal,
                    lit(3)
                ),
                BinaryOperator::LogicalAnd,
                bin(var("a"), BinaryOperator::NotEqual, var("b"))
            )
        )
    );
    assert_eq!(
        parse_one("1 == 2 == 3"),
        bin(bin(lit(1), BinaryOperator::Equal, lit(2)), BinaryOperator::Equal, lit(3))
    );
}

#[test]
fn assignment_tokens_made_by_hand_parse_as_the_scanned_ones() {
    let loc = Location::default();
    let toks = vec![
        Token::new(TokenKind::Identifier, "x".to_string(), loc.clone()),
        Token::new(TokenKind::BitwiseAndAssign, "&=".to_string(), loc.clone()),
        Token::new(TokenKind::Integer, "6".to_string(), loc.clone()),
        Token::new(TokenKind::BitwiseOrAssign, "|=".to_string(), loc.clone()),
        Token::new(TokenKind::Integer, "1".to_string(), loc.clone()),
        Token::new(TokenKind::Eof, String::new(), loc.clone()),
    ];
    let ast = Parser::new(toks).parse().unwrap();
    assert_eq!(
        ast.exprs,
        vec![assign(
            var("x"),
            BinaryOperator::BitwiseAndAssign,
            assign(lit(6), BinaryOperator::BitwiseOrAssign, lit(1))
        )]
    );
}

#[test]
fn the_parser_takes_any_left_operand_of_an_assignment() {
    assert_eq!(
        parse_one("1 + 2 = 3"),
        assign(bin(lit(1), BinaryOperator::Add, lit(2)), BinaryOperator::Assign, lit(3))
    );
}

#[test]
fn prefix_operators() {
    assert_eq!(parse_one("-5"), un(UnaryOperator::UnaryMinus, lit(5)));
    assert_eq!(parse_one("!true"), un(UnaryOperator::LogicalNot, Expr::BoolExpr(true)));
    assert_eq!(parse_one("~0"), un(UnaryOperator::BitwiseNot, lit(0)));
    assert_eq!(
        parse_one("+1 * 2"),
        bin(un(UnaryOperator::UnaryPlus, lit(1)), BinaryOperator::Mul, lit(2))
    );
    assert_eq!(
        parse_one("-1 * 2"),
        un(UnaryOperator::UnaryMinus, bin(lit(1), BinaryOperator::Mul, lit(2)))
    );
    assert_eq!(
        parse_one("!a && b"),
        bin(un(UnaryOperator::LogicalNot, var("a")), BinaryOperator::LogicalAnd, var("b"))
    );
    assert_eq!(
        parse_one("- - 3"),
        un(UnaryOperator::UnaryMinus, un(UnaryOperator::UnaryMinus, lit(3)))
    );
}

#[test]
fn print_takes_the_whole_expression_behind_it() {
    assert_eq!(
        parse_one("print 1 + 2"),
        Expr::PrintExpr(Box::new(bin(lit(1), BinaryOperator::Add, lit(2))))
    );
    assert_eq!(
        parse("print x print false"),
        vec![
            Expr::PrintExpr(Box::new(var("x"))),
            Expr::PrintExpr(Box::new(Expr::BoolExpr(false)))
        ]
    );
}

#[test]
fn a_program_is_a_row_of_expressions() {
    assert_eq!(
        parse("x=5 x+=3"),
        vec![
            assign(var("x"), BinaryOperator::Assign, lit(5)),
            assign(var("x"), BinaryOperator::AddAssign, lit(3))
        ]
    );
    assert_eq!(parse(""), Vec::<Expr>::new());
    assert_eq!(parse("1 2 3"), vec![lit(1), lit(2), lit(3)]);
}

#[test]
fn parse_stops_at_the_first_eof_and_goes_on_from_the_current_token() {
    let loc = Location::default();
    let toks = vec![
        Token::new(TokenKind::Integer, "1".to_string(), loc.clone()),
        Token::new(TokenKind::Integer, "2".to_string(), loc.clone()),
        Token::new(TokenKind::Eof, String::new(), loc.clone()),
        Token::new(TokenKind::Integer, "3".to_string(), loc.clone()),
    ];
    let mut parser = Parser::new(toks);
    assert_eq!(parser.curr_idx, 0);
    parser.advance_if(TokenKind::Integer).unwrap();
    assert_eq!(parser.curr_idx, 1);
    assert_eq!(parser.parse().unwrap().exprs, vec![lit(2)]);
}

#[test]
fn integer_literals() {
    assert_eq!(parse_one("2147483647"), lit(2147483647));
    assert_eq!(parse_one("007"), lit(7));
    let err = Parser::new(tokens("2147483648")).parse().unwrap_err();
    assert_eq!(err.kind, ExprErrorKind::ParserError);
    assert_eq!(err.message, "invalid integer literal 2147483648");
    let loc = Location::default();
    let signed = |text: &str| {
        Parser::new(vec![
            Token::new(TokenKind::Integer, text.to_string(), loc.clone()),
            Token::new(TokenKind::Eof, String::new(), loc.clone()),
        ])
        .parse()
    };
    assert_eq!(signed("-2147483648").unwrap().exprs, vec![lit(-2147483648)]);
    assert_eq!(signed("+15").unwrap().exprs, vec![lit(15)]);
    assert_eq!(signed("-0").unwrap().exprs, vec![lit(0)]);
    assert!(signed("-2147483649").is_err());
    assert!(signed("").is_err());
    assert!(signed("-").is_err());
    assert!(signed("1a").is_err());
    assert!(signed("99999999999999999999999").is_err());
}

#[test]
fn boolean_tokens_are_read_by_their_text() {
    assert_eq!(parse("true false"), vec![Expr::BoolExpr(true), Expr::BoolExpr(false)]);
    let loc = Location::default();
    let toks = vec![
        Token { kind: TokenKind::True, spelling: "false".to_string(), loc: loc.clone() },
        Token { kind: TokenKind::False, spelling: "yes".to_string(), loc: loc.clone() },
        Token::new(TokenKind::Eof, String::new(), loc.clone()),
    ];
    let mut parser = Parser::new(toks);
    let err = parser.parse().unwrap_err();
    assert_eq!(err.kind, ExprErrorKind::ParserError);
    assert_eq!(err.message, "invalid boolean literal yes");
}

#[test]
fn ampersand_is_no_infix_operator() {
    let err = Parser::new(tokens("1 & 2")).parse().unwrap_err();
    assert_eq!(err.kind, ExprErrorKind::ParserError);
    assert_eq!(err.message, "unexpected token BitwiseAnd");
    assert_eq!(err.loc, Some(Location::new("test.expr".to_string(), 1, 3)));
}

#[test]
fn negations_bind_as_infix_operators_but_are_none() {
    let err = Parser::new(tokens("a ! b")).parse().unwrap_err();
    assert_eq!(err.kind, ExprErrorKind::ParserError);
    assert_eq!(err.message, "not an infix operator: token LogicalNot");
    assert_eq!(err.loc, Some(Location::new("test.expr".to_string(), 1, 3)));
    let err = Parser::new(tokens("x=5 ~0")).parse().unwrap_err();
    assert_eq!(err.message, "not an infix operator: token BitwiseNot");
}

#[test]
fn unmatched_parenthesis_names_the_opening_one() {
    let err = Parser::new(tokens("1 + (2 * 3 4")).parse().unwrap_err();
    assert_eq!(err.kind, ExprErrorKind::ParserError);
    assert_eq!(err.message, "Missing right parenthesis while parsing expression");
    assert_eq!(err.loc, Some(Location::new("test.expr".to_string(), 1, 5)));
    let err = Parser::new(tokens("(1")).parse().unwrap_err();
    assert_eq!(err.message, "Missing right parenthesis while parsing expression");
}

#[test]
fn unexpected_tokens() {
    let err = Parser::new(tokens("1 + )")).parse().unwrap_err();
    assert_eq!(err.message, "unexpected token RightParen");
    let err = Parser::new(tokens("1 +")).parse().unwrap_err();
    assert_eq!(err.message, "unexpected token Eof");
    let err = Parser::new(tokens("* 2")).parse().unwrap_err();
    assert_eq!(err.message, "unexpected token Star");
    assert_eq!(err.kind, ExprErrorKind::ParserError);
}

#[test]
fn tokens_without_eof_run_out() {
    let loc = Location::default();
    let toks = vec![Token::new(TokenKind::Integer, "1".to_string(), loc.clone())];
    let err = Parser::new(toks).parse().unwrap_err();
    assert_eq!(err.kind, ExprErrorKind::ParserError);
    assert_eq!(err.message, "unexpected end of the tokens");
    assert_eq!(err.loc, None);
    assert_eq!(Parser::new(Vec::new()).parse().unwrap_err().message, "unexpected end of the tokens");
}

#[test]
fn advance_if_steps_over_the_expected_kind_only() {
    let mut parser = Parser::new(tokens("( 1"));
    assert!(parser.advance_if(TokenKind::LeftParen).is_ok());
    assert_eq!(parser.curr_idx, 1);
    let err = parser.advance_if(TokenKind::RightParen).unwrap_err();
    assert_eq!(parser.curr_idx, 1);
    assert_eq!(err.kind, ExprErrorKind::ParserError);
    assert_eq!(err.message, "expected token RightParen, but found token Integer");
    assert_eq!(err.loc, Some(Location::new("test.expr".to_string(), 1, 3)));
    let mut empty = Parser::new(Vec::new());
    assert_eq!(
        empty.advance_if(TokenKind::Eof).unwrap_err().message,
        "unexpected end of the tokens"
    );
}
