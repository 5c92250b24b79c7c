use expr_lang::error::ExprErrorKind;
use expr_lang::front::ast::{
    Ast, AssignExpr, BinaryExpr, BinaryOperator, BinaryOperatorDecl, ConstDecl, Decl, Expr,
    Identifier, OperatorDecl, Type, UnaryExpr, UnaryOperator, UnaryOperatorDecl, VnameExpr,
};
use expr_lang::front::parser::Parser;
use expr_lang::front::scanner::Scanner;
use expr_lang::front::source_file::SourceFile;
use expr_lang::middle::checker::Checker;
use expr_lang::middle::id_table::IdentificationTable;
use expr_lang::middle::stdenv::load_stdenv;
use expr_lang::middle::visitor::VisitorMut;

const PROGRAMS: [&str; 6] = [
    "x = 5\nprint x\n",
    "print 1 + 2 * 3\n",
    "// a comment line\ny = (1 + 2) * 3\ny += 4 // trailing\nprint y\n",
    "a = 10 - 3 - 2\nb = a << 2\nb >>= 1\nprint b % 3\n",
    "t = true\nprint !t\nprint -5\n",
    "",
];

fn parse(text: &str) -> Ast {
    let mut scanner = Scanner::new(SourceFile::new("test.expr", text).chars);
    scanner.scan_all().unwrap();
    Parser::new(scanner.tokens).parse().unwrap()
}

fn check(text: &str) -> Result<Ast, String> {
    let mut ast = parse(text);
    match Checker::new().check(&mut ast) {
        Ok(()) => Ok(ast),
        Err(err) => {
            assert_eq!(err.kind, ExprErrorKind::CheckerError);
            assert_eq!(err.loc, None);
            Err(err.message)
        }
    }
}

fn type_of(expr: &Expr) -> Option<Type> {
    match expr {
        Expr::AssignExpr(a) => a.typ,
        Expr::BinaryExpr(b) => b.typ,
        Expr::UnaryExpr(u) => u.typ,
        Expr::VnameExpr(v) => v.typ,
        _ => None,
    }
}

fn var(name: &str) -> Expr {
    Expr::VnameExpr(VnameExpr::new(Identifier::new(name.to_string())))
}

fn typed_var(name: &str, typ: Type) -> Expr {
    Expr::VnameExpr(VnameExpr {
        id: Identifier { spelling: name.to_string(), typ: Some(typ) },
        typ: Some(typ),
    })
}

#[test]
fn all_checker_tests() {
    for program in PROGRAMS {
        let mut ast = parse(program);
        let mut checker = Checker::new();
        checker.check(&mut ast).unwrap();
        println!("{:#?}", ast);
    }
}

#[test]
fn operator_declarations_hold_their_types() {
    let u = UnaryOperatorDecl::new(Type::BoolType, Type::IntType);
    assert_eq!((u.elem_typ, u.ret_typ), (Type::BoolType, Type::IntType));
    let b = BinaryOperatorDecl::new(Type::IntType, Type::BoolType, Type::AnyType);
    assert_eq!((b.lhs_typ, b.rhs_typ, b.ret_typ), (Type::IntType, Type::BoolType, Type::AnyType));
}

#[test]
fn identification_table_finds_the_innermost_declaration() {
    let mut table = IdentificationTable::new();
    assert_eq!(table.level(), 0);
    assert_eq!(table.get_attr("x"), None);
    let int_x = Decl::IdDecl(Identifier { spelling: "x".to_string(), typ: Some(Type::IntType) });
    let bool_x = Decl::IdDecl(Identifier { spelling: "x".to_string(), typ: Some(Type::BoolType) });
    let one = Decl::ConstDecl(ConstDecl::IntegerLiteral(1));
    table.save_attr("x", int_x.clone());
    table.save_attr("y", one.clone());
    assert_eq!(table.get_attr("x"), Some(&int_x));
    table.open_scope();
    assert_eq!(table.level(), 1);
    assert_eq!(table.get_attr("x"), Some(&int_x));
    table.save_attr("x", bool_x.clone());
    assert_eq!(table.get_attr("x"), Some(&bool_x));
    assert_eq!(table.get_attr("y"), Some(&one));
    table.open_scope();
    assert_eq!(table.level(), 2);
    assert_eq!(table.get_attr("x"), Some(&bool_x));
    table.close_scope();
    table.close_scope();
    assert_eq!(table.level(), 0);
    assert_eq!(table.get_attr("x"), Some(&int_x));
    assert_eq!(table.get_attr("y"), Some(&one));
}

#[test]
fn saving_a_name_again_in_one_level_replaces_it() {
    let mut table = IdentificationTable::new();
    let one = Decl::ConstDecl(ConstDecl::IntegerLiteral(1));
    let two = Decl::ConstDecl(ConstDecl::IntegerLiteral(2));
    let yes = Decl::ConstDecl(ConstDecl::BoolLiteral(true));
    table.save_attr("a", one.clone());
    table.save_attr("b", yes.clone());
    table.save_attr("a", two.clone());
    assert_eq!(table.get_attr("a"), Some(&two));
    assert_eq!(table.get_attr("b"), Some(&yes));
    table.open_scope();
    table.save_attr("a", one.clone());
    table.save_attr("a", yes.clone());
    assert_eq!(table.get_attr("a"), Some(&yes));
    table.close_scope();
    assert_eq!(table.get_attr("a"), Some(&two));
}

#[test]
fn standard_environment_declares_constants_and_operators() {
    let mut table = IdentificationTable::new();
    load_stdenv(&mut table);
    let unary = |elem, ret| {
        Decl::OperatorDecl(OperatorDecl::UnaryOperatorDecl(UnaryOperatorDecl::new(elem, ret)))
    };
    let binary = |t| {
        Decl::OperatorDecl(OperatorDecl::BinaryOperatorDecl(BinaryOperatorDecl::new(t, t, t)))
    };
    assert_eq!(table.get_attr("true"), Some(&Decl::ConstDecl(ConstDecl::BoolLiteral(true))));
    assert_eq!(table.get_attr("false"), Some(&Decl::ConstDecl(ConstDecl::BoolLiteral(false))));
    for name in ["unary_plus", "unary_minus", "bitwise_not"] {
        assert_eq!(table.get_attr(name), Some(&unary(Type::IntType, Type::IntType)));
    }
    assert_eq!(table.get_attr("logical_not"), Some(&unary(Type::BoolType, Type::BoolType)));
    assert_eq!(table.get_attr("assign"), Some(&binary(Type::AnyType)));
    for name in ["equal", "not_equal"] {
        assert_eq!(
            table.get_attr(name),
            Some(&Decl::OperatorDecl(OperatorDecl::BinaryOperatorDecl(BinaryOperatorDecl::new(
                Type::AnyType,
                Type::AnyType,
                Type::BoolType
            ))))
        );
    }
    for name in ["logical_and", "logical_and_assign", "logical_or", "logical_or_assign"] {
        assert_eq!(table.get_attr(name), Some(&binary(Type::BoolType)));
    }
    for name in [
        "add",
        "add_assign",
        "bitwise_and",
        "bitwise_and_assign",
        "bitwise_or",
        "bitwise_or_assign",
        "bitwise_xor",
        "bitwise_xor_assign",
        "div",
        "div_assign",
        "greater_than",
        "greater_than_or_equal",
        "left_shift",
        "left_shift_assign",
        "less_than",
        "less_than_or_equal",
        "mod",
        "mod_assign",
        "mul",
        "mul_assign",
        "right_shift",
        "right_shift_assign",
        "sub",
        "sub_assign",
    ] {
        assert_eq!(table.get_attr(name), Some(&binary(Type::IntType)), "{}", name);
    }
    assert_eq!(table.get_attr("x"), None);
    assert_eq!(table.level(), 0);
}

#[test]
fn loading_keeps_what_else_is_declared() {
    let mut table = IdentificationTable::new();
    let x = Decl::IdDecl(Identifier { spelling: "x".to_string(), typ: Some(Type::IntType) });
    table.save_attr("x", x.clone());
    table.save_attr("add", x.clone());
    load_stdenv(&mut table);
    assert_eq!(table.get_attr("x"), Some(&x));
    assert_ne!(table.get_attr("add"), Some(&x));
}

#[test]
fn literals_have_their_own_type() {
    let mut checker = Checker::new();
    assert_eq!(checker.visit_expr(&mut Expr::IntegerExpr(3)).unwrap(), Some(Type::IntType));
    assert_eq!(checker.visit_expr(&mut Expr::BoolExpr(true)).unwrap(), Some(Type::BoolType));
    assert_eq!(checker.visit_integer_expr(&mut 3).unwrap(), Some(Type::IntType));
    assert_eq!(checker.visit_bool_expr(&mut false).unwrap(), Some(Type::BoolType));
}

#[test]
fn arithmetic_is_typed_and_decorated() {
    let ast = check("1 + 2 * 3").unwrap();
    assert_eq!(type_of(&ast.exprs[0]), Some(Type::IntType));
    match &ast.exprs[0] {
        Expr::BinaryExpr(b) => assert_eq!(type_of(&b.rhs), Some(Type::IntType)),
        other => panic!("{:?}", other),
    }
    let ast = check("true && false || true").unwrap();
    assert_eq!(type_of(&ast.exprs[0]), Some(Type::BoolType));
    let ast = check("1 < 2").unwrap();
    assert_eq!(type_of(&ast.exprs[0]), Some(Type::IntType));
}

#[test]
fn first_assignment_gives_the_variable_its_type() {
    let ast = check("x=5 x+=3 x").unwrap();
    assert_eq!(
        ast.exprs[0],
        Expr::AssignExpr(AssignExpr {
            vname: Box::new(typed_var("x", Type::IntType)),
            op: BinaryOperator::Assign,
            expr: Box::new(Expr::IntegerExpr(5)),
            typ: Some(Type::IntType),
        })
    );
    assert_eq!(type_of(&ast.exprs[1]), Some(Type::IntType));
    assert_eq!(ast.exprs[2], typed_var("x", Type::IntType));
}

#[test]
fn checker_records_the_variable_in_its_table() {
    let mut ast = parse("flag = true");
    let mut checker = Checker::new();
    assert_eq!(checker.id_table.get_attr("flag"), None);
    checker.check(&mut ast).unwrap();
    assert_eq!(
        checker.id_table.get_attr("flag"),
        Some(&Decl::IdDecl(Identifier {
            spelling: "flag".to_string(),
            typ: Some(Type::BoolType)
        }))
    );
    let mut again = parse("flag = 1");
    let err = checker.check(&mut again).unwrap_err();
    assert_eq!(
        err.message,
        "id \"flag\" has inferred type Some(BoolType), but rhs has type Some(IntType)"
    );
}

#[test]
fn type_of_a_variable_is_sticky() {
    assert_eq!(
        check("x=5 x=true").unwrap_err(),
        "id \"x\" has inferred type Some(IntType), but rhs has type Some(BoolType)"
    );
    assert_eq!(
        check("b=true b=1").unwrap_err(),
        "id \"b\" has inferred type Some(BoolType), but rhs has type Some(IntType)"
    );
    assert!(check("x=5 x=6 x=x+1").is_ok());
}

#[test]
fn sticky_across_scope_levels() {
    let mut checker = Checker::new();
    checker.check(&mut parse("x=5")).unwrap();
    checker.id_table.open_scope();
    assert!(checker.check(&mut parse("x=true")).is_err());
    assert!(checker.check(&mut parse("x=7 y=true")).is_ok());
    checker.id_table.close_scope();
    assert_eq!(checker.check(&mut parse("y")).unwrap_err().message, "unknown identifier y");
    assert!(checker.check(&mut parse("y=3")).is_ok());
}

#[test]
fn unknown_identifier_fails_checking() {
    assert_eq!(check("x").unwrap_err(), "unknown identifier x");
    assert_eq!(check("print y").unwrap_err(), "unknown identifier y");
    assert_eq!(check("1 + z").unwrap_err(), "unknown identifier z");
    assert_eq!(check("-w").unwrap_err(), "unknown identifier w");
    assert_eq!(check("a = b").unwrap_err(), "unknown identifier b");
}

#[test]
fn compound_assignment_needs_the_variable() {
    assert_eq!(check("x += 3").unwrap_err(), "unknown identifier x");
    assert_eq!(check("x >>= 3").unwrap_err(), "unknown identifier x");
    assert!(check("x = 1 x >>= 3").is_ok());
}

#[test]
fn compound_assignment_only_compares_the_two_types() {
    assert!(check("b = true b += false").is_ok());
    assert_eq!(
        check("b = true b += 1").unwrap_err(),
        "id \"b\" has inferred type Some(BoolType), but rhs has type Some(IntType)"
    );
}

#[test]
fn right_hand_side_is_checked_before_the_target() {
    let ast = check("x = (x = 5) + 1").unwrap();
    assert_eq!(type_of(&ast.exprs[0]), Some(Type::IntType));
    assert_eq!(
        check("x = (x = 5) < 1 x = true").unwrap_err(),
        "id \"x\" has inferred type Some(IntType), but rhs has type Some(BoolType)"
    );
}

#[test]
fn assignment_target_must_be_a_variable() {
    assert_eq!(
        check("1 + 2 = 3").unwrap_err(),
        "the lhs of an assignment expression must be a vname"
    );
    assert_eq!(check("(1) = zz").unwrap_err(), "unknown identifier zz");
}

#[test]
fn unary_operand_must_have_the_declared_type() {
    assert_eq!(
        check("-true").unwrap_err(),
        "unary expression elem type (BoolType) does not match the expected elem type (IntType) for operator"
    );
    assert_eq!(
        check("!1").unwrap_err(),
        "unary expression elem type (IntType) does not match the expected elem type (BoolType) for operator"
    );
    assert_eq!(
        check("~true").unwrap_err(),
        "unary expression elem type (BoolType) does not match the expected elem type (IntType) for operator"
    );
    assert_eq!(type_of(&check("~0").unwrap().exprs[0]), Some(Type::IntType));
    assert_eq!(type_of(&check("!true").unwrap().exprs[0]), Some(Type::BoolType));
    assert_eq!(type_of(&check("+4").unwrap().exprs[0]), Some(Type::IntType));
    let mut checker = Checker::new();
    let mut complement = UnaryExpr::new(UnaryOperator::BitwiseNot, Box::new(Expr::IntegerExpr(0)));
    assert_eq!(checker.visit_unary_expr(&mut complement).unwrap(), Some(Type::IntType));
    assert_eq!(complement.typ, Some(Type::IntType));
}

#[test]
fn binary_operands_are_held_to_the_declaration_left_first() {
    assert_eq!(
        check("true + false").unwrap_err(),
        "for bin expr, lhs type of lhs expr (BoolType) does not match the spec's lhs type (IntType)"
    );
    assert_eq!(
        check("1 + true").unwrap_err(),
        "for bin expr, lhs type of rhs expr (BoolType) does not match the spec's rhs type (IntType)"
    );
    assert_eq!(
        check("1 && true").unwrap_err(),
        "for bin expr, lhs type of lhs expr (IntType) does not match the spec's lhs type (BoolType)"
    );
}

fn equal(lhs: Expr, rhs: Expr) -> Ast {
    Ast::new(vec![Expr::BinaryExpr(BinaryExpr::new(
        Box::new(lhs),
        BinaryOperator::Equal,
        Box::new(rhs),
    ))])
}

#[test]
fn equality_takes_two_operands_of_one_type() {
    let mut both_int = equal(Expr::IntegerExpr(1), Expr::IntegerExpr(2));
    Checker::new().check(&mut both_int).unwrap();
    assert_eq!(type_of(&both_int.exprs[0]), Some(Type::BoolType));
    let mut both_bool = equal(Expr::BoolExpr(true), Expr::BoolExpr(false));
    Checker::new().check(&mut both_bool).unwrap();
    assert_eq!(type_of(&both_bool.exprs[0]), Some(Type::BoolType));
    let mut node = BinaryExpr::new(
        Box::new(Expr::BoolExpr(true)),
        BinaryOperator::Equal,
        Box::new(Expr::BoolExpr(false)),
    );
    assert_eq!(Checker::new().visit_binary_expr(&mut node).unwrap(), Some(Type::BoolType));
    assert_eq!(node.typ, Some(Type::BoolType));
    assert_eq!(type_of(&check("1 == 2").unwrap().exprs[0]), Some(Type::BoolType));
    assert_eq!(type_of(&check("1 != 2").unwrap().exprs[0]), Some(Type::BoolType));
    assert_eq!(type_of(&check("b = 1 == 2 b = !b && true == b").unwrap().exprs[1]), Some(Type::BoolType));
    assert_eq!(
        check("1 == true").unwrap_err(),
        "for bin expr, lhs type of lhs expr (IntType) does not match the rhs expr type (BoolType)"
    );
    let mut mixed = equal(Expr::IntegerExpr(1), Expr::BoolExpr(false));
    assert_eq!(
        Checker::new().check(&mut mixed).unwrap_err().message,
        "for bin expr, lhs type of lhs expr (IntType) does not match the rhs expr type (BoolType)"
    );
    assert!(check("1 != 2").is_ok());
    assert!(check("1 != true").is_err());
}

#[test]
fn checking_stops_at_the_first_fault() {
    let mut ast = parse("x = 1 y z = 2");
    let mut checker = Checker::new();
    assert_eq!(checker.check(&mut ast).unwrap_err().message, "unknown identifier y");
    assert_eq!(type_of(&ast.exprs[0]), Some(Type::IntType));
    assert_eq!(ast.exprs[1], var("y"));
    assert_eq!(type_of(&ast.exprs[2]), None);
    assert!(checker.id_table.get_attr("x").is_some());
    assert!(checker.id_table.get_attr("z").is_none());
}

#[test]
fn the_wildcard_is_attached_to_no_node() {
    let mut plain = Ast::new(vec![Expr::BinaryExpr(BinaryExpr::new(
        Box::new(Expr::BoolExpr(true)),
        BinaryOperator::Assign,
        Box::new(Expr::BoolExpr(false)),
    ))]);
    Checker::new().check(&mut plain).unwrap();
    assert_eq!(type_of(&plain.exprs[0]), Some(Type::BoolType));
    let mut ints = Ast::new(vec![Expr::BinaryExpr(BinaryExpr::new(
        Box::new(Expr::IntegerExpr(1)),
        BinaryOperator::Assign,
        Box::new(Expr::IntegerExpr(2)),
    ))]);
    Checker::new().check(&mut ints).unwrap();
    assert_eq!(type_of(&ints.exprs[0]), Some(Type::IntType));
}

#[test]
fn the_name_of_an_operator_or_a_constant_is_no_variable() {
    for name in ["add", "sub", "mul", "div", "mod", "equal", "assign"] {
        let mut ast = parse(&format!("{} = 5", name));
        let mut checker = Checker::new();
        let before = checker.id_table.get_attr(name).cloned();
        assert!(before.is_some());
        let err = checker.check(&mut ast).unwrap_err();
        assert_eq!(err.kind, ExprErrorKind::CheckerError);
        assert_eq!(err.message, format!("id \"{}\" is not a variable", name));
        assert_eq!(checker.id_table.get_attr(name).cloned(), before);
        assert!(checker.check(&mut parse("1 + 2 - 3 * 4 / 5 % 6 x = 1 == 2")).is_ok());
    }
    assert_eq!(check("add += 5").unwrap_err(), "id \"add\" is not a variable");
    assert_eq!(check("add").unwrap_err(), "unknown identifier add");
    let mut checker = Checker::new();
    checker.id_table.open_scope();
    assert_eq!(
        checker.check(&mut parse("mul = 1")).unwrap_err().message,
        "id \"mul\" is not a variable"
    );
    let mut named_true = Ast::new(vec![Expr::AssignExpr(AssignExpr::new(
        Box::new(var("true")),
        BinaryOperator::Assign,
        Box::new(Expr::IntegerExpr(1)),
    ))]);
    assert_eq!(
        Checker::new().check(&mut named_true).unwrap_err().message,
        "id \"true\" is not a variable"
    );
}

#[test]
fn a_table_changed_by_hand_may_lack_an_operator() {
    let mut checker = Checker::new();
    checker.id_table.save_attr("add", Decl::ConstDecl(ConstDecl::BoolLiteral(true)));
    assert_eq!(
        checker.check(&mut parse("1 + 2")).unwrap_err().message,
        "expected a binary operator in binary expression"
    );
    let mut ast = Ast::new(vec![Expr::UnaryExpr(UnaryExpr::new(
        UnaryOperator::UnaryMinus,
        Box::new(Expr::IntegerExpr(1)),
    ))]);
    let mut checker = Checker::new();
    checker.id_table.save_attr("unary_minus", Decl::ConstDecl(ConstDecl::BoolLiteral(true)));
    assert_eq!(
        checker.check(&mut ast).unwrap_err().message,
        "expected a unary operator in unary expression"
    );
    let mut without_assign = Checker::new();
    without_assign.id_table.save_attr("assign", Decl::ConstDecl(ConstDecl::BoolLiteral(true)));
    assert_eq!(
        without_assign.check(&mut parse("x = 1")).unwrap_err().message,
        "expected a binary operator in binary expression"
    );
}

#[test]
fn visiting_the_tree_gives_no_type_for_the_program() {
    let mut ast = parse("1 true");
    let mut checker = Checker::new();
    assert_eq!(checker.visit_ast(&mut ast).unwrap(), None);
    let mut id = Identifier::new("q".to_string());
    assert!(checker.visit_identifier(&mut id).is_err());
    checker.check(&mut parse("q = 1")).unwrap();
    assert_eq!(checker.visit_identifier(&mut id).unwrap(), Some(Type::IntType));
    assert_eq!(id.typ, Some(Type::IntType));
    let mut vname = VnameExpr::new(Identifier::new("q".to_string()));
    assert_eq!(checker.visit_vname_expr(&mut vname).unwrap(), Some(Type::IntType));
    assert_eq!(vname.typ, Some(Type::IntType));
    let mut print = Expr::BoolExpr(true);
    assert_eq!(checker.visit_print_expr(&mut print).unwrap(), Some(Type::BoolType));
}
