use expr_lang::backend::interpreter::Interpreter;
use expr_lang::backend::runtime::ExprValue;
use expr_lang::error::{ExprError, ExprErrorKind};
use expr_lang::front::ast::{
    Ast, AssignExpr, BinaryExpr, BinaryOperator, Expr, Identifier, UnaryExpr, UnaryOperator,
    VnameExpr,
};
use expr_lang::front::parser::Parser;
use expr_lang::front::scanner::Scanner;
use expr_lang::front::source_file::SourceFile;
use expr_lang::middle::checker::Checker;
use expr_lang::middle::visitor::VisitorMut;

fn parse(text: &str) -> Ast {
    let mut scanner = Scanner::new(SourceFile::new("test.expr", text).chars);
    scanner.scan_all().unwrap();
    Parser::new(scanner.tokens).parse().unwrap()
}

/// Scans, parses, checks and interprets: the value and what was printed.
fn run(text: &str) -> Result<(ExprValue, Vec<ExprValue>), ExprError> {
    let mut ast = parse(text);
    Checker::new().check(&mut ast)?;
    let mut interpreter = Interpreter::new();
    let value = interpreter.interpret(&mut ast)?;
    Ok((value, interpreter.output))
}

fn value(text: &str) -> ExprValue {
    run(text).unwrap().0
}

/// Interprets without checking.
fn unchecked(text: &str) -> Result<ExprValue, ExprError> {
    Interpreter::new().interpret(&mut parse(text))
}

fn binary(a: i32, op: BinaryOperator, b: i32) -> Result<ExprValue, ExprError> {
    let mut ast = Ast::new(vec![Expr::BinaryExpr(BinaryExpr::new(
        Box::new(Expr::IntegerExpr(a)),
        op,
        Box::new(Expr::IntegerExpr(b)),
    ))]);
    Checker::new().check(&mut ast).unwrap();
    Interpreter::new().interpret(&mut ast)
}

fn fault(res: Result<ExprValue, ExprError>) -> String {
    let err = res.unwrap_err();
    assert_eq!(err.kind, ExprErrorKind::InterpreterError);
    assert_eq!(err.loc, None);
    err.message
}

#[test]
fn precedence() {
    assert_eq!(value("1+2*3"), ExprValue::Int(7));
    assert_eq!(value("(1+2)*3"), ExprValue::Int(9));
    assert_eq!(value("2*3+4*5"), ExprValue::Int(26));
}

#[test]
fn chained_subtraction_is_left_associative() {
    assert_eq!(value("10-3-2"), ExprValue::Int(5));
    assert_eq!(value("100/10/5"), ExprValue::Int(2));
    assert_eq!(value("2*3*4"), ExprValue::Int(24));
    assert_eq!(value("2*9/4"), ExprValue::Int(4));
}

#[test]
fn assignment_returns_its_value_and_updates_the_environment() {
    let mut ast = parse("x=5 x+=3");
    Checker::new().check(&mut ast).unwrap();
    let mut interpreter = Interpreter::new();
    assert_eq!(interpreter.interpret(&mut ast).unwrap(), ExprValue::Int(8));
    assert_eq!(interpreter.runtime.get_binding("x"), ExprValue::Int(8));
    assert_eq!(interpreter.interpret(&mut parse("x")).unwrap(), ExprValue::Int(8));
    assert_eq!(value("x=5 x+=3 x"), ExprValue::Int(8));
    assert_eq!(value("x=5"), ExprValue::Int(5));
    assert_eq!(value("y = x = 4 y + x"), ExprValue::Int(8));
}

#[test]
fn unary_semantics() {
    assert_eq!(value("-5"), ExprValue::Int(-5));
    assert_eq!(value("!true"), ExprValue::Bool(false));
    assert_eq!(value("~0"), ExprValue::Int(-1));
    assert_eq!(value("~5"), ExprValue::Int(-6));
    assert_eq!(value("x = 12 y = ~x + 1"), ExprValue::Int(-12));
    assert_eq!(unchecked("~true").unwrap(), ExprValue::Bool(false));
    assert_eq!(value("+7"), ExprValue::Int(7));
    assert_eq!(unchecked("!5").unwrap(), ExprValue::Int(-6));
    assert_eq!(unchecked("-true").unwrap(), ExprValue::NoValue);
    assert_eq!(unchecked("+true").unwrap(), ExprValue::Bool(true));
    assert_eq!(value("-5 + 3"), ExprValue::Int(-8));
}

#[test]
fn arithmetic_matches_the_machine() {
    let cases = [
        (7, BinaryOperator::Add, 5, 12),
        (7, BinaryOperator::Sub, 9, -2),
        (-7, BinaryOperator::Mul, 6, -42),
        (7, BinaryOperator::Div, 2, 3),
        (-7, BinaryOperator::Div, 2, -3),
        (7, BinaryOperator::Div, -2, -3),
        (-7, BinaryOperator::Div, -2, 3),
        (7, BinaryOperator::Mod, 3, 1),
        (-7, BinaryOperator::Mod, 3, -1),
        (7, BinaryOperator::Mod, -3, 1),
        (-7, BinaryOperator::Mod, -3, -1),
        (12, BinaryOperator::BitwiseAnd, 10, 8),
        (12, BinaryOperator::BitwiseOr, 10, 14),
        (12, BinaryOperator::BitwiseXor, 10, 6),
        (-1, BinaryOperator::BitwiseAnd, 255, 255),
        (3, BinaryOperator::LeftShift, 4, 48),
        (1, BinaryOperator::LeftShift, 31, i32::MIN),
        (-1, BinaryOperator::LeftShift, 1, -2),
        (1073741824, BinaryOperator::LeftShift, 2, 0),
        (-16, BinaryOperator::RightShift, 2, -4),
        (48, BinaryOperator::RightShift, 4, 3),
        (5, BinaryOperator::RightShift, 0, 5),
        (i32::MAX, BinaryOperator::Add, 0, i32::MAX),
        (i32::MIN, BinaryOperator::Sub, 0, i32::MIN),
        (i32::MIN, BinaryOperator::Div, 1, i32::MIN),
    ];
    for (a, op, b, expected) in cases {
        assert_eq!(binary(a, op, b).unwrap(), ExprValue::Int(expected), "{} {:?} {}", a, op, b);
    }
    assert_eq!(value("7 % 3 + 2 ^ 7 | 8"), ExprValue::Int(12));
    assert_eq!(value("1 << 4 >> 2"), ExprValue::Int(4));
}

#[test]
fn what_the_machine_cannot_compute_is_an_interpreter_error() {
    assert_eq!(fault(binary(i32::MAX, BinaryOperator::Add, 1)), "integer overflow");
    assert_eq!(fault(binary(i32::MIN, BinaryOperator::Sub, 1)), "integer overflow");
    assert_eq!(fault(binary(65536, BinaryOperator::Mul, 32768)), "integer overflow");
    assert_eq!(fault(binary(i32::MIN, BinaryOperator::Div, -1)), "integer overflow");
    assert_eq!(fault(binary(i32::MIN, BinaryOperator::Mod, -1)), "integer overflow");
    assert_eq!(fault(binary(1, BinaryOperator::Div, 0)), "division by zero");
    assert_eq!(fault(binary(1, BinaryOperator::Mod, 0)), "division by zero");
    assert_eq!(fault(binary(1, BinaryOperator::LeftShift, 32)), "shift amount out of range");
    assert_eq!(fault(binary(1, BinaryOperator::LeftShift, -1)), "shift amount out of range");
    assert_eq!(fault(binary(1, BinaryOperator::RightShift, 32)), "shift amount out of range");
    assert_eq!(fault(binary(1, BinaryOperator::RightShift, -1)), "shift amount out of range");
    assert_eq!(fault(run("x = 2147483647 x + 1").map(|r| r.0)), "integer overflow");
    let err = run("x = 1 / 0").unwrap_err();
    assert_eq!(err.kind, ExprErrorKind::InterpreterError);
}

#[test]
fn not_equal_gives_what_equal_gives() {
    assert_eq!(binary(1, BinaryOperator::NotEqual, 1).unwrap(), ExprValue::Bool(true));
    assert_eq!(binary(1, BinaryOperator::NotEqual, 2).unwrap(), ExprValue::Bool(false));
    assert_eq!(binary(1, BinaryOperator::Equal, 1).unwrap(), ExprValue::Bool(true));
    assert_eq!(binary(1, BinaryOperator::Equal, 2).unwrap(), ExprValue::Bool(false));
    assert_eq!(value("3 != 3"), ExprValue::Bool(true));
    assert_eq!(value("true != false"), ExprValue::Bool(false));
    assert_eq!(value("3 == 3"), ExprValue::Bool(true));
    assert_eq!(value("3 == 4"), ExprValue::Bool(false));
    assert_eq!(value("true == false"), ExprValue::Bool(false));
    assert_eq!(value("x = 2 y = x * 3 == 6 y && 1 + 1 == x"), ExprValue::Bool(true));
}

#[test]
fn left_shift_assign_adds() {
    assert_eq!(value("x = 3 x <<= 2"), ExprValue::Int(5));
    assert_eq!(value("x = 3 x <<= 40"), ExprValue::Int(43));
    assert_eq!(value("x = 3 x <<= 2 x"), ExprValue::Int(5));
    assert_eq!(value("x = 3 x << 2"), ExprValue::Int(12));
}

#[test]
fn compound_assignments() {
    assert_eq!(value("x = 20 x -= 3"), ExprValue::Int(17));
    assert_eq!(value("x = 20 x *= 3"), ExprValue::Int(60));
    assert_eq!(value("x = 20 x /= 3"), ExprValue::Int(6));
    assert_eq!(value("x = 20 x %= 3"), ExprValue::Int(2));
    assert_eq!(value("x = 20 x ^= 5"), ExprValue::Int(17));
    assert_eq!(value("x = 12 x &= 10"), ExprValue::Int(8));
    assert_eq!(value("x = 12 x |= 3 x"), ExprValue::Int(15));
    assert_eq!(value("x = 20 x >>= 2"), ExprValue::Int(5));
    assert_eq!(value("x = 20 x >>= 2 x"), ExprValue::Int(5));
    assert_eq!(value("b = true b += false"), ExprValue::NoValue);
    assert_eq!(value("b = true b += false b"), ExprValue::NoValue);
    assert_eq!(fault(run("x = 1 x /= 0").map(|r| r.0)), "division by zero");
    assert_eq!(value("x = 1 x /= 0 + 1 x"), ExprValue::Int(1));
}

fn assign_with(op: BinaryOperator, target: Expr, rhs: Expr) -> Ast {
    Ast::new(vec![
        Expr::AssignExpr(AssignExpr::new(
            Box::new(var("x")),
            BinaryOperator::Assign,
            Box::new(Expr::IntegerExpr(12)),
        )),
        Expr::AssignExpr(AssignExpr::new(Box::new(target), op, Box::new(rhs))),
    ])
}

fn var(name: &str) -> Expr {
    Expr::VnameExpr(VnameExpr::new(Identifier::new(name.to_string())))
}

#[test]
fn assignment_operators_without_a_token() {
    let mut interpreter = Interpreter::new();
    let mut and = assign_with(BinaryOperator::BitwiseAndAssign, var("x"), Expr::IntegerExpr(10));
    assert_eq!(interpreter.interpret(&mut and).unwrap(), ExprValue::Int(8));
    assert_eq!(interpreter.runtime.get_binding("x"), ExprValue::Int(8));
    let mut or = assign_with(BinaryOperator::BitwiseOrAssign, var("x"), Expr::IntegerExpr(3));
    assert_eq!(Interpreter::new().interpret(&mut or).unwrap(), ExprValue::Int(15));
}

#[test]
fn operators_that_an_assignment_cannot_have() {
    for op in [
        BinaryOperator::LogicalAndAssign,
        BinaryOperator::LogicalOrAssign,
        BinaryOperator::Add,
        BinaryOperator::Equal,
    ] {
        let mut ast = assign_with(op, var("x"), Expr::IntegerExpr(1));
        let mut interpreter = Interpreter::new();
        assert_eq!(fault(interpreter.interpret(&mut ast)), "unsupported operator");
        assert_eq!(interpreter.runtime.get_binding("x"), ExprValue::Int(12));
    }
}

#[test]
fn operators_that_a_binary_expression_cannot_have() {
    for op in [
        BinaryOperator::Assign,
        BinaryOperator::AddAssign,
        BinaryOperator::LeftShiftAssign,
        BinaryOperator::LogicalOrAssign,
    ] {
        let mut ast = Ast::new(vec![Expr::BinaryExpr(BinaryExpr::new(
            Box::new(Expr::IntegerExpr(1)),
            op,
            Box::new(Expr::IntegerExpr(2)),
        ))]);
        assert_eq!(fault(Interpreter::new().interpret(&mut ast)), "unsupported operator");
    }
}

#[test]
fn assignment_to_what_is_no_variable_binds_nothing() {
    let mut ast = assign_with(
        BinaryOperator::AddAssign,
        Expr::IntegerExpr(4),
        Expr::IntegerExpr(1),
    );
    let mut interpreter = Interpreter::new();
    assert_eq!(interpreter.interpret(&mut ast).unwrap(), ExprValue::Int(5));
    assert_eq!(interpreter.runtime.get_binding("x"), ExprValue::Int(12));
}

#[test]
fn target_is_read_before_the_right_hand_side() {
    assert_eq!(value("x = 5 x += (x = 10)"), ExprValue::Int(15));
    assert_eq!(value("x = 5 x += (x = 10) x"), ExprValue::Int(15));
}

#[test]
fn comparisons() {
    assert_eq!(value("1 < 2"), ExprValue::Bool(true));
    assert_eq!(value("2 < 2"), ExprValue::Bool(false));
    assert_eq!(value("2 <= 2"), ExprValue::Bool(true));
    assert_eq!(value("3 <= 2"), ExprValue::Bool(false));
    assert_eq!(value("3 > 2"), ExprValue::Bool(true));
    assert_eq!(value("2 > 2"), ExprValue::Bool(false));
    assert_eq!(value("2 >= 2"), ExprValue::Bool(true));
    assert_eq!(value("1 >= 2"), ExprValue::Bool(false));
    assert_eq!(value("0 - 5 < 3"), ExprValue::Bool(true));
    assert_eq!(unchecked("false < true").unwrap(), ExprValue::Bool(true));
    assert_eq!(unchecked("true < 0").unwrap(), ExprValue::Bool(true));
    assert_eq!(unchecked("0 < true").unwrap(), ExprValue::Bool(false));
    assert_eq!(unchecked("nothing < false").unwrap(), ExprValue::Bool(true));
    assert_eq!(unchecked("nothing <= nothing").unwrap(), ExprValue::Bool(true));
    assert_eq!(unchecked("nothing >= 1").unwrap(), ExprValue::Bool(false));
}

#[test]
fn logical_operators_take_booleans() {
    assert_eq!(value("true && false"), ExprValue::Bool(false));
    assert_eq!(value("true && true"), ExprValue::Bool(true));
    assert_eq!(value("false || true"), ExprValue::Bool(true));
    assert_eq!(value("true || false"), ExprValue::Bool(true));
    assert_eq!(value("false || false"), ExprValue::Bool(false));
    assert_eq!(unchecked("1 && true").unwrap(), ExprValue::NoValue);
    assert_eq!(unchecked("true || 1").unwrap(), ExprValue::NoValue);
}

#[test]
fn both_operands_are_always_evaluated() {
    let (result, output) = run("false && print true").unwrap();
    assert_eq!(result, ExprValue::NoValue);
    assert_eq!(output, vec![ExprValue::Bool(true)]);
    let (result, output) = run("true || print false").unwrap();
    assert_eq!(result, ExprValue::NoValue);
    assert_eq!(output, vec![ExprValue::Bool(false)]);
    assert_eq!(value("(x = true) || (y = false) y"), ExprValue::Bool(false));
    assert_eq!(value("(x = false) && (y = true) y"), ExprValue::Bool(true));
}

#[test]
fn print_yields_no_value_and_adds_to_the_output() {
    let (value, output) = run("x = 2 print x print x * 3 + 1 print true x").unwrap();
    assert_eq!(value, ExprValue::Int(2));
    assert_eq!(output, vec![ExprValue::Int(2), ExprValue::Int(7), ExprValue::Bool(true)]);
    let (value, output) = run("print 5").unwrap();
    assert_eq!(value, ExprValue::NoValue);
    assert_eq!(output, vec![ExprValue::Int(5)]);
    let mut nested = Ast::new(vec![Expr::PrintExpr(Box::new(Expr::PrintExpr(Box::new(
        Expr::IntegerExpr(1),
    ))))]);
    let mut interpreter = Interpreter::new();
    assert_eq!(interpreter.interpret(&mut nested).unwrap(), ExprValue::NoValue);
    assert_eq!(interpreter.output, vec![ExprValue::Int(1), ExprValue::NoValue]);
}

#[test]
fn output_is_kept_up_to_a_fault_and_over_runs() {
    let mut interpreter = Interpreter::new();
    let mut ast = parse("print 1 print 2 / 0 print 3");
    assert_eq!(fault(interpreter.interpret(&mut ast)), "division by zero");
    assert_eq!(interpreter.output, vec![ExprValue::Int(1)]);
    interpreter.interpret(&mut parse("print 4")).unwrap();
    assert_eq!(interpreter.output, vec![ExprValue::Int(1), ExprValue::Int(4)]);
    let mut ordered = parse("(print 1) < (print 2)");
    let mut fresh = Interpreter::new();
    fresh.interpret(&mut ordered).unwrap();
    assert_eq!(fresh.output, vec![ExprValue::Int(1), ExprValue::Int(2)]);
}

#[test]
fn an_unbound_name_has_no_value() {
    assert_eq!(unchecked("x").unwrap(), ExprValue::NoValue);
    assert_eq!(unchecked("x + 1").unwrap(), ExprValue::NoValue);
    assert_eq!(unchecked("x += 1").unwrap(), ExprValue::NoValue);
    assert!(run("x").is_err());
    assert_eq!(run("x").unwrap_err().kind, ExprErrorKind::CheckerError);
}

#[test]
fn an_empty_program_has_no_value() {
    let (value, output) = run("").unwrap();
    assert_eq!(value, ExprValue::NoValue);
    assert!(output.is_empty());
}

#[test]
fn interpreting_leaves_the_tree_as_it_was() {
    let mut ast = parse("x = 1 print x + 2");
    Checker::new().check(&mut ast).unwrap();
    let mut same = parse("x = 1 print x + 2");
    Checker::new().check(&mut same).unwrap();
    Interpreter::new().interpret(&mut ast).unwrap();
    assert_eq!(ast, same);
}

#[test]
fn visiting_single_nodes() {
    let mut interpreter = Interpreter::new();
    assert_eq!(interpreter.visit_integer_expr(&mut 4).unwrap(), ExprValue::Int(4));
    assert_eq!(interpreter.visit_bool_expr(&mut true).unwrap(), ExprValue::Bool(true));
    interpreter.runtime.save_binding("v", ExprValue::Int(9));
    let mut id = Identifier::new("v".to_string());
    assert_eq!(interpreter.visit_identifier(&mut id).unwrap(), ExprValue::Int(9));
    let mut vname = VnameExpr::new(Identifier::new("v".to_string()));
    assert_eq!(interpreter.visit_vname_expr(&mut vname).unwrap(), ExprValue::Int(9));
    let mut unary = UnaryExpr::new(UnaryOperator::UnaryMinus, Box::new(var("v")));
    assert_eq!(interpreter.visit_unary_expr(&mut unary).unwrap(), ExprValue::Int(-9));
    let mut printed = var("v");
    assert_eq!(interpreter.visit_print_expr(&mut printed).unwrap(), ExprValue::NoValue);
    assert_eq!(interpreter.output, vec![ExprValue::Int(9)]);
    let mut whole = Ast::new(vec![var("v"), Expr::BoolExpr(false)]);
    assert_eq!(interpreter.visit_ast(&mut whole).unwrap(), ExprValue::Bool(false));
}

#[test]
fn assignment_writes_at_the_innermost_level() {
    let mut interpreter = Interpreter::new();
    interpreter.interpret(&mut parse("x = 1")).unwrap();
    interpreter.runtime.open_level();
    assert_eq!(interpreter.interpret(&mut parse("x += 4")).unwrap(), ExprValue::Int(5));
    assert_eq!(interpreter.runtime.get_binding("x"), ExprValue::Int(5));
    interpreter.runtime.close_level();
    assert_eq!(interpreter.runtime.get_binding("x"), ExprValue::Int(1));
}
