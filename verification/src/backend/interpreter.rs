//! The interpreter: one walk over the checked tree that evaluates every
//! expression in the runtime environment.
use crate::backend::runtime::{
    int_value, quotient, remainder, reports, value_of, EvalFault, ExprValue, Outcome, Runtime,
};
use crate::error::ExprError;
use crate::front::ast::{
    Ast, AssignExpr, BinaryExpr, BinaryOperator, Decl, Expr, Identifier, Type, UnaryExpr,
    UnaryOperator, VnameExpr,
};
use crate::front::parser::parse_all;
use crate::front::printer::{erased, erased_all, lemma_parse_program, printable, printed_program};
use crate::front::token::Token;
use crate::middle::checker::{check_binary, check_expr, check_unary, CheckFault};
use crate::middle::stdenv::{binary_decl, lemma_loaded_lookup, loaded, unary_decl};
use crate::middle::visitor::VisitorMut;
use crate::scope::{bind, lemma_lookup_bind, lookup, Scopes};
use vstd::prelude::*;

verus! {

/// What a unary operator makes of a value: `+` the value itself, `-` its
/// negative, and both `~` and `!` its complement.
pub open spec fn apply_unary(op: UnaryOperator, value: ExprValue) -> Outcome {
    match op {
        UnaryOperator::UnaryPlus => Ok(value),
        UnaryOperator::UnaryMinus => value.negated(),
        UnaryOperator::BitwiseNot | UnaryOperator::LogicalNot => Ok(value.complement()),
    }
}

/// The conjunction, or with `or` the disjunction, of two booleans. Of other
/// values, no value.
pub open spec fn connect(or: bool, lhs: ExprValue, rhs: ExprValue) -> ExprValue {
    match (lhs, rhs) {
        (ExprValue::Bool(a), ExprValue::Bool(b)) => ExprValue::Bool(
            if or {
                a || b
            } else {
                a && b
            },
        ),
        _ => ExprValue::NoValue,
    }
}

/// What a binary operator makes of two values. `!=` gives what `==` gives.
/// An operator that assigns is none of a binary expression.
pub open spec fn apply_binary(op: BinaryOperator, lhs: ExprValue, rhs: ExprValue) -> Outcome {
    match op {
        BinaryOperator::Add => lhs.plus(rhs),
        BinaryOperator::Sub => lhs.minus(rhs),
        BinaryOperator::Mul => lhs.times(rhs),
        BinaryOperator::Div => lhs.divided_by(rhs),
        BinaryOperator::Mod => lhs.modulo(rhs),
        BinaryOperator::BitwiseAnd => lhs.bit_and(rhs),
        BinaryOperator::BitwiseOr => lhs.bit_or(rhs),
        BinaryOperator::BitwiseXor => lhs.bit_xor(rhs),
        BinaryOperator::LeftShift => lhs.shifted_left(rhs),
        BinaryOperator::RightShift => lhs.shifted_right(rhs),
        BinaryOperator::Equal | BinaryOperator::NotEqual => Ok(ExprValue::Bool(lhs.same(rhs))),
        BinaryOperator::LessThan => Ok(ExprValue::Bool(lhs.less(rhs))),
        BinaryOperator::LessThanOrEqual => Ok(ExprValue::Bool(lhs.less(rhs) || lhs.same(rhs))),
        BinaryOperator::GreaterThan => Ok(ExprValue::Bool(rhs.less(lhs))),
        BinaryOperator::GreaterThanOrEqual => Ok(ExprValue::Bool(rhs.less(lhs) || lhs.same(rhs))),
        BinaryOperator::LogicalAnd => Ok(connect(false, lhs, rhs)),
        BinaryOperator::LogicalOr => Ok(connect(true, lhs, rhs)),
        _ => Err(EvalFault::Unsupported),
    }
}

/// The value that an assignment gives its variable, from the value `old`
/// that the variable has and the value `rhs` of the right-hand side. `<<=`
/// adds. The operators `&&=` and `||=` and those that do not assign are none
/// of an assignment.
pub open spec fn apply_assign(op: BinaryOperator, old_value: ExprValue, rhs: ExprValue) -> Outcome {
    match op {
        BinaryOperator::Assign => Ok(rhs),
        BinaryOperator::AddAssign | BinaryOperator::LeftShiftAssign => old_value.plus(rhs),
        BinaryOperator::SubAssign => old_value.minus(rhs),
        BinaryOperator::MulAssign => old_value.times(rhs),
        BinaryOperator::DivAssign => old_value.divided_by(rhs),
        BinaryOperator::ModAssign => old_value.modulo(rhs),
        BinaryOperator::BitwiseAndAssign => old_value.bit_and(rhs),
        BinaryOperator::BitwiseOrAssign => old_value.bit_or(rhs),
        BinaryOperator::BitwiseXorAssign => old_value.bit_xor(rhs),
        BinaryOperator::RightShiftAssign => old_value.shifted_right(rhs),
        _ => Err(EvalFault::Unsupported),
    }
}

/// The outcome of an evaluation: the environment as it left it, the values
/// it printed, in order, and its value or the fault that stopped it.
pub struct Evaluated {
    pub scopes: Scopes<ExprValue>,
    pub output: Seq<ExprValue>,
    pub result: Outcome,
}

/// A unary expression: the operand is evaluated, then the operator applied.
pub open spec fn eval_unary(scopes: Scopes<ExprValue>, unary: UnaryExpr) -> Evaluated
    decreases unary, 0int,
{
    let elem = eval_expr(scopes, *unary.elem);
    match elem.result {
        Err(_) => elem,
        Ok(value) => Evaluated { result: apply_unary(unary.op, value), ..elem },
    }
}

/// A binary expression: both operands are evaluated, the left one first,
/// then the operator applied.
pub open spec fn eval_binary(scopes: Scopes<ExprValue>, binary: BinaryExpr) -> Evaluated
    decreases binary, 0int,
{
    let lhs = eval_expr(scopes, *binary.lhs);
    match lhs.result {
        Err(_) => lhs,
        Ok(lhs_value) => {
            let rhs = eval_expr(lhs.scopes, *binary.rhs);
            let output = lhs.output + rhs.output;
            match rhs.result {
                Err(_) => Evaluated { output, ..rhs },
                Ok(rhs_value) => Evaluated {
                    scopes: rhs.scopes,
                    output,
                    result: apply_binary(binary.op, lhs_value, rhs_value),
                },
            }
        },
    }
}

/// An assignment: the target is evaluated for the value it has, then the
/// right-hand side. The new value is bound to the target's name in the
/// innermost level, where the target is a variable, and is the value of the
/// assignment.
pub open spec fn eval_assign(scopes: Scopes<ExprValue>, assign: AssignExpr) -> Evaluated
    decreases assign, 0int,
{
    let target = eval_expr(scopes, *assign.vname);
    match target.result {
        Err(_) => target,
        Ok(old_value) => {
            let rhs = eval_expr(target.scopes, *assign.expr);
            let output = target.output + rhs.output;
            match rhs.result {
                Err(_) => Evaluated { output, ..rhs },
                Ok(rhs_value) => match apply_assign(assign.op, old_value, rhs_value) {
                    Err(fault) => Evaluated { scopes: rhs.scopes, output, result: Err(fault) },
                    Ok(value) => Evaluated {
                        scopes: match *assign.vname {
                            Expr::VnameExpr(vname) => bind(rhs.scopes, vname.id.spelling@, value),
                            _ => rhs.scopes,
                        },
                        output,
                        result: Ok(value),
                    },
                },
            }
        },
    }
}

/// The value of an expression, by the kind of its node. A literal is its own
/// value; a variable has the value it is bound to, or none; a `print` adds
/// the value of what it prints to the output and has no value.
pub open spec fn eval_expr(scopes: Scopes<ExprValue>, expr: Expr) -> Evaluated
    decreases expr, 1int,
{
    match expr {
        Expr::IntegerExpr(i) => Evaluated {
            scopes,
            output: Seq::empty(),
            result: Ok(ExprValue::Int(i)),
        },
        Expr::BoolExpr(b) => Evaluated {
            scopes,
            output: Seq::empty(),
            result: Ok(ExprValue::Bool(b)),
        },
        Expr::VnameExpr(vname) => Evaluated {
            scopes,
            output: Seq::empty(),
            result: Ok(value_of(scopes, vname.id.spelling@)),
        },
        Expr::PrintExpr(inner) => {
            let printed = eval_expr(scopes, *inner);
            match printed.result {
                Err(_) => printed,
                Ok(value) => Evaluated {
                    scopes: printed.scopes,
                    output: printed.output.push(value),
                    result: Ok(ExprValue::NoValue),
                },
            }
        },
        Expr::UnaryExpr(unary) => eval_unary(scopes, unary),
        Expr::BinaryExpr(binary) => eval_binary(scopes, binary),
        Expr::AssignExpr(assign) => eval_assign(scopes, assign),
    }
}

/// The expressions of a program are evaluated in order, each in the
/// environment that the ones before it left, up to the first fault. The
/// value of the program is that of its last expression, and no value where
/// it has none.
pub open spec fn eval_exprs(scopes: Scopes<ExprValue>, exprs: Seq<Expr>) -> Evaluated
    decreases exprs.len(),
{
    if exprs.len() == 0 {
        Evaluated { scopes, output: Seq::empty(), result: Ok(ExprValue::NoValue) }
    } else {
        let before = eval_exprs(scopes, exprs.drop_last());
        match before.result {
            Err(_) => before,
            Ok(_) => {
                let last = eval_expr(before.scopes, exprs.last());
                Evaluated { output: before.output + last.output, ..last }
            },
        }
    }
}

/// A fault stays: nothing behind it is evaluated.
pub proof fn lemma_eval_stops(scopes: Scopes<ExprValue>, exprs: Seq<Expr>, n: int)
    requires
        0 <= n <= exprs.len(),
        eval_exprs(scopes, exprs.take(n)).result is Err,
    ensures
        eval_exprs(scopes, exprs) == eval_exprs(scopes, exprs.take(n)),
    decreases exprs.len() - n,
{
    if n == exprs.len() {
        assert(exprs.take(n) =~= exprs);
    } else {
        assert(exprs.take(n + 1).drop_last() =~= exprs.take(n));
        lemma_eval_stops(scopes, exprs, n + 1);
    }
}

/// The binary expression of the integer literals `a` and `b` under `op`.
pub open spec fn integer_binary(a: i32, op: BinaryOperator, b: i32) -> Expr {
    Expr::BinaryExpr(
        BinaryExpr {
            lhs: Box::new(Expr::IntegerExpr(a)),
            op,
            rhs: Box::new(Expr::IntegerExpr(b)),
            typ: None,
        },
    )
}

/// What each of the ten arithmetic operators gives on two integers, as the
/// machine computes it on 32-bit integers: the sum, difference and product
/// where they fit; the quotient rounded toward zero and its remainder, for a
/// divisor that is not zero; the three bitwise operations; the shifts by 0 to
/// 31 bits.
pub open spec fn machine_arithmetic(a: i32, op: BinaryOperator, b: i32) -> Outcome {
    match op {
        BinaryOperator::Add => int_value(a + b),
        BinaryOperator::Sub => int_value(a - b),
        BinaryOperator::Mul => int_value(a * b),
        BinaryOperator::Div => if b == 0 {
            Err(EvalFault::DivisionByZero)
        } else {
            int_value(quotient(a as int, b as int))
        },
        BinaryOperator::Mod => if b == 0 {
            Err(EvalFault::DivisionByZero)
        } else if a == i32::MIN && b == -1 {
            Err(EvalFault::Overflow)
        } else {
            int_value(remainder(a as int, b as int))
        },
        BinaryOperator::BitwiseAnd => Ok(ExprValue::Int(a & b)),
        BinaryOperator::BitwiseOr => Ok(ExprValue::Int(a | b)),
        BinaryOperator::BitwiseXor => Ok(ExprValue::Int(a ^ b)),
        BinaryOperator::LeftShift => if 0 <= b < 32 {
            Ok(ExprValue::Int(a << b))
        } else {
            Err(EvalFault::ShiftOutOfRange)
        },
        BinaryOperator::RightShift => if 0 <= b < 32 {
            Ok(ExprValue::Int(a >> b))
        } else {
            Err(EvalFault::ShiftOutOfRange)
        },
        _ => Err(EvalFault::Unsupported),
    }
}

/// Whether an operator is one of the ten arithmetic ones.
pub open spec fn is_arithmetic(op: BinaryOperator) -> bool {
    op is Add || op is Sub || op is Mul || op is Div || op is Mod || op is BitwiseAnd
        || op is BitwiseOr || op is BitwiseXor || op is LeftShift || op is RightShift
}

/// An arithmetic operator between two integer literals is well typed in the
/// standard environment, as an integer, and evaluates in every environment
/// to what the machine computes of the two integers. It binds and prints
/// nothing.
pub proof fn lemma_integer_arithmetic(
    scopes: Scopes<ExprValue>,
    a: i32,
    op: BinaryOperator,
    b: i32,
)
    requires
        is_arithmetic(op),
    ensures
        check_expr(loaded(seq![Map::<Seq<char>, Decl>::empty()]), integer_binary(a, op, b)).result
            == Ok::<Type, CheckFault>(Type::IntType),
        eval_expr(scopes, integer_binary(a, op, b)) == (Evaluated {
            scopes,
            output: Seq::empty(),
            result: machine_arithmetic(a, op, b),
        }),
{
    let binary = BinaryExpr {
        lhs: Box::new(Expr::IntegerExpr(a)),
        op,
        rhs: Box::new(Expr::IntegerExpr(b)),
        typ: None,
    };
    let table = loaded(seq![Map::<Seq<char>, Decl>::empty()]);
    lemma_loaded_lookup(seq![Map::<Seq<char>, Decl>::empty()]);
    assert(lookup(table, op.name()) == Some(binary_decl(op)));
    assert(check_binary(table, binary).result == Ok::<Type, CheckFault>(Type::IntType));
    assert(Seq::<ExprValue>::empty() + Seq::<ExprValue>::empty() =~= Seq::<ExprValue>::empty());
    assert(eval_binary(scopes, binary) == (Evaluated {
        scopes,
        output: Seq::empty(),
        result: machine_arithmetic(a, op, b),
    }));
}

/// The unary expression of `op` on the expression `elem`.
pub open spec fn unary_of(op: UnaryOperator, elem: Expr) -> Expr {
    Expr::UnaryExpr(UnaryExpr { op, elem: Box::new(elem), typ: None })
}

/// The table of a checker as `new` makes it.
pub open spec fn fresh_table() -> Scopes<Decl> {
    loaded(seq![Map::<Seq<char>, Decl>::empty()])
}

/// The unary operators on literals: `-` gives the negative of an integer
/// where it is a 32-bit integer, `+` the integer itself; `!` and `~` give the
/// other boolean of a boolean and flip every bit of an integer, so that the
/// complement of 0 is -1. On an integer `-`, `+` and `~` are well typed in the
/// standard environment, as an integer, and `!` on a boolean, as a boolean.
pub proof fn lemma_unary_on_literals(scopes: Scopes<ExprValue>, i: i32, b: bool)
    ensures
        eval_expr(scopes, unary_of(UnaryOperator::UnaryMinus, Expr::IntegerExpr(i))).result
            == int_value(-i),
        eval_expr(scopes, unary_of(UnaryOperator::UnaryPlus, Expr::IntegerExpr(i))).result
            == Ok::<ExprValue, EvalFault>(ExprValue::Int(i)),
        eval_expr(scopes, unary_of(UnaryOperator::LogicalNot, Expr::BoolExpr(b))).result
            == Ok::<ExprValue, EvalFault>(ExprValue::Bool(!b)),
        eval_expr(scopes, unary_of(UnaryOperator::BitwiseNot, Expr::BoolExpr(b))).result
            == Ok::<ExprValue, EvalFault>(ExprValue::Bool(!b)),
        eval_expr(scopes, unary_of(UnaryOperator::BitwiseNot, Expr::IntegerExpr(i))).result
            == Ok::<ExprValue, EvalFault>(ExprValue::Int(!i)),
        eval_expr(scopes, unary_of(UnaryOperator::LogicalNot, Expr::IntegerExpr(i))).result
            == Ok::<ExprValue, EvalFault>(ExprValue::Int(!i)),
        !0i32 == -1i32,
        check_expr(fresh_table(), unary_of(UnaryOperator::UnaryMinus, Expr::IntegerExpr(i))).result
            == Ok::<Type, CheckFault>(Type::IntType),
        check_expr(fresh_table(), unary_of(UnaryOperator::UnaryPlus, Expr::IntegerExpr(i))).result
            == Ok::<Type, CheckFault>(Type::IntType),
        check_expr(fresh_table(), unary_of(UnaryOperator::BitwiseNot, Expr::IntegerExpr(i))).result
            == Ok::<Type, CheckFault>(Type::IntType),
        check_expr(fresh_table(), unary_of(UnaryOperator::LogicalNot, Expr::BoolExpr(b))).result
            == Ok::<Type, CheckFault>(Type::BoolType),
{
    lemma_loaded_lookup(seq![Map::<Seq<char>, Decl>::empty()]);
    let int_operand = UnaryExpr {
        op: UnaryOperator::BitwiseNot,
        elem: Box::new(Expr::IntegerExpr(i)),
        typ: None,
    };
    assert(lookup(fresh_table(), UnaryOperator::BitwiseNot.name()) == Some(
        unary_decl(UnaryOperator::BitwiseNot),
    ));
    assert(lookup(fresh_table(), UnaryOperator::UnaryMinus.name()) == Some(
        unary_decl(UnaryOperator::UnaryMinus),
    ));
    assert(lookup(fresh_table(), UnaryOperator::UnaryPlus.name()) == Some(
        unary_decl(UnaryOperator::UnaryPlus),
    ));
    assert(lookup(fresh_table(), UnaryOperator::LogicalNot.name()) == Some(
        unary_decl(UnaryOperator::LogicalNot),
    ));
    assert(check_unary(fresh_table(), int_operand).result == Ok::<Type, CheckFault>(
        Type::IntType,
    ));
    assert(check_unary(
        fresh_table(),
        UnaryExpr { op: UnaryOperator::UnaryMinus, ..int_operand },
    ).result == Ok::<Type, CheckFault>(Type::IntType));
    assert(check_unary(
        fresh_table(),
        UnaryExpr { op: UnaryOperator::UnaryPlus, ..int_operand },
    ).result == Ok::<Type, CheckFault>(Type::IntType));
    assert(check_unary(
        fresh_table(),
        UnaryExpr {
            op: UnaryOperator::LogicalNot,
            elem: Box::new(Expr::BoolExpr(b)),
            typ: None,
        },
    ).result == Ok::<Type, CheckFault>(Type::BoolType));
    let minus = UnaryExpr {
        op: UnaryOperator::UnaryMinus,
        elem: Box::new(Expr::IntegerExpr(i)),
        typ: None,
    };
    assert(eval_unary(scopes, minus).result == int_value(-i));
    assert(eval_unary(scopes, UnaryExpr { op: UnaryOperator::UnaryPlus, ..minus }).result == Ok::<
        ExprValue,
        EvalFault,
    >(ExprValue::Int(i)));
    assert(eval_unary(scopes, UnaryExpr { op: UnaryOperator::BitwiseNot, ..minus }).result
        == Ok::<ExprValue, EvalFault>(ExprValue::Int(!i)));
    assert(eval_unary(scopes, UnaryExpr { op: UnaryOperator::LogicalNot, ..minus }).result
        == Ok::<ExprValue, EvalFault>(ExprValue::Int(!i)));
    let not = UnaryExpr {
        op: UnaryOperator::LogicalNot,
        elem: Box::new(Expr::BoolExpr(b)),
        typ: None,
    };
    assert(eval_unary(scopes, not).result == Ok::<ExprValue, EvalFault>(ExprValue::Bool(!b)));
    assert(eval_unary(scopes, UnaryExpr { op: UnaryOperator::BitwiseNot, ..not }).result == Ok::<
        ExprValue,
        EvalFault,
    >(ExprValue::Bool(!b)));
    assert(!0i32 == -1i32) by (bit_vector);
}

/// `!=` gives what `==` gives, and `<<=` what `+=` gives.
pub proof fn lemma_operators_that_stand_in(lhs: ExprValue, rhs: ExprValue)
    ensures
        apply_binary(BinaryOperator::NotEqual, lhs, rhs) == apply_binary(
            BinaryOperator::Equal,
            lhs,
            rhs,
        ),
        apply_assign(BinaryOperator::LeftShiftAssign, lhs, rhs) == apply_assign(
            BinaryOperator::AddAssign,
            lhs,
            rhs,
        ),
{
}

/// The value of an assignment to a variable is the value that the variable
/// has then: a reference to it yields that value.
pub proof fn lemma_assignment_binds(scopes: Scopes<ExprValue>, assign: AssignExpr)
    requires
        scopes.len() > 0,
        *assign.vname is VnameExpr,
        eval_assign(scopes, assign).result is Ok,
    ensures
        ({
            let after = eval_assign(scopes, assign);
            &&& value_of(after.scopes, (*assign.vname)->VnameExpr_0.id.spelling@)
                == after.result->Ok_0
            &&& eval_expr(after.scopes, *assign.vname).result == after.result
            &&& eval_expr(scopes, Expr::AssignExpr(assign)) == after
        }),
{
    reveal_with_fuel(eval_expr, 2);
    let name = (*assign.vname)->VnameExpr_0.id.spelling@;
    let rhs = eval_expr(scopes, *assign.expr);
    lemma_levels_stay(scopes, *assign.expr);
    lemma_lookup_bind(rhs.scopes, name, eval_assign(scopes, assign).result->Ok_0, name);
}

/// Evaluation opens and closes no level.
pub proof fn lemma_levels_stay(scopes: Scopes<ExprValue>, expr: Expr)
    requires
        scopes.len() > 0,
    ensures
        eval_expr(scopes, expr).scopes.len() == scopes.len(),
    decreases expr,
{
    match expr {
        Expr::IntegerExpr(_) => {},
        Expr::BoolExpr(_) => {},
        Expr::VnameExpr(_) => {},
        Expr::PrintExpr(inner) => {
            lemma_levels_stay(scopes, *inner);
        },
        Expr::UnaryExpr(unary) => {
            lemma_levels_stay(scopes, *unary.elem);
            assert(eval_unary(scopes, unary).scopes.len() == scopes.len());
        },
        Expr::BinaryExpr(binary) => {
            lemma_levels_stay(scopes, *binary.lhs);
            lemma_levels_stay(eval_expr(scopes, *binary.lhs).scopes, *binary.rhs);
            assert(eval_binary(scopes, binary).scopes.len() == scopes.len());
        },
        Expr::AssignExpr(assign) => {
            lemma_levels_stay(scopes, *assign.vname);
            lemma_levels_stay(eval_expr(scopes, *assign.vname).scopes, *assign.expr);
            assert(eval_assign(scopes, assign).scopes.len() == scopes.len());
        },
    }
}

/// Evaluation does not read the types that a check writes: an expression
/// evaluates as it does without them.
pub proof fn lemma_types_are_not_read(scopes: Scopes<ExprValue>, expr: Expr)
    ensures
        eval_expr(scopes, erased(expr)) == eval_expr(scopes, expr),
    decreases expr,
{
    match expr {
        Expr::IntegerExpr(_) => {},
        Expr::BoolExpr(_) => {},
        Expr::VnameExpr(_) => {},
        Expr::PrintExpr(inner) => {
            lemma_types_are_not_read(scopes, *inner);
        },
        Expr::UnaryExpr(unary) => {
            lemma_types_are_not_read(scopes, *unary.elem);
            let bare = UnaryExpr { op: unary.op, elem: Box::new(erased(*unary.elem)), typ: None };
            assert(eval_unary(scopes, bare) == eval_unary(scopes, unary));
        },
        Expr::BinaryExpr(binary) => {
            lemma_types_are_not_read(scopes, *binary.lhs);
            lemma_types_are_not_read(eval_expr(scopes, *binary.lhs).scopes, *binary.rhs);
            let bare = BinaryExpr {
                lhs: Box::new(erased(*binary.lhs)),
                op: binary.op,
                rhs: Box::new(erased(*binary.rhs)),
                typ: None,
            };
            assert(eval_binary(scopes, bare) == eval_binary(scopes, binary));
        },
        Expr::AssignExpr(assign) => {
            lemma_types_are_not_read(scopes, *assign.vname);
            lemma_types_are_not_read(eval_expr(scopes, *assign.vname).scopes, *assign.expr);
            let bare = AssignExpr {
                vname: Box::new(erased(*assign.vname)),
                op: assign.op,
                expr: Box::new(erased(*assign.expr)),
                typ: None,
            };
            assert(eval_assign(scopes, bare) == eval_assign(scopes, assign));
        },
    }
}

/// A program evaluates as it does without its types.
pub proof fn lemma_program_types_are_not_read(scopes: Scopes<ExprValue>, exprs: Seq<Expr>)
    ensures
        eval_exprs(scopes, erased_all(exprs)) == eval_exprs(scopes, exprs),
    decreases exprs.len(),
{
    if exprs.len() > 0 {
        lemma_program_types_are_not_read(scopes, exprs.drop_last());
        assert(erased_all(exprs).drop_last() =~= erased_all(exprs.drop_last()));
        lemma_types_are_not_read(eval_exprs(scopes, exprs.drop_last()).scopes, exprs.last());
    }
}

/// The program that is parsed from what writes a program evaluates as that
/// program does, in every environment.
pub proof fn lemma_reparsed_evaluates_alike(
    tokens: Seq<Token>,
    exprs: Seq<Expr>,
    scopes: Scopes<ExprValue>,
)
    requires
        printed_program(tokens, exprs),
        forall|k: int| 0 <= k < exprs.len() ==> printable(#[trigger] exprs[k]),
    ensures
        parse_all(tokens, 0) matches Ok((parsed, _)) && eval_exprs(scopes, parsed) == eval_exprs(
            scopes,
            exprs,
        ),
{
    lemma_parse_program(tokens, exprs);
    lemma_program_types_are_not_read(scopes, exprs);
}

/// The interpreter: the runtime environment, and the values printed so far.
pub struct Interpreter {
    pub runtime: Runtime,
    pub output: Vec<ExprValue>,
}

/// Whether the interpreter, from the state `before` to the state `after`,
/// did what the evaluation `evaluated` says, and `res` reports its outcome.
pub open spec fn carried_out(
    before: Interpreter,
    after: Interpreter,
    res: Result<ExprValue, ExprError>,
    evaluated: Evaluated,
) -> bool {
    &&& after.runtime@ == evaluated.scopes
    &&& after.output@ == before.output@ + evaluated.output
    &&& reports(res, evaluated.result)
}

impl Interpreter {
    /// An interpreter with nothing bound and nothing printed.
    pub fn new() -> (interpreter: Self)
        ensures
            interpreter.runtime@ == seq![Map::<Seq<char>, ExprValue>::empty()],
            interpreter.output@.len() == 0,
    {
        Interpreter { runtime: Runtime::new(), output: Vec::new() }
    }

    /// Evaluates a program. The values that it prints are added to `output`;
    /// its own value is returned.
    pub fn interpret(&mut self, ast: &mut Ast) -> (res: Result<ExprValue, ExprError>)
        ensures
            final(ast).exprs@ == old(ast).exprs@,
            carried_out(
                *old(self),
                *final(self),
                res,
                eval_exprs(old(self).runtime@, old(ast).exprs@),
            ),
    {
        self.visit_ast(ast)
    }
}

impl VisitorMut for Interpreter {
    type Result = Result<ExprValue, ExprError>;

    fn visit_assign_expr(&mut self, ass_expr: &mut AssignExpr) -> (res: Self::Result)
        ensures
            *final(ass_expr) == *old(ass_expr),
            carried_out(
                *old(self),
                *final(self),
                res,
                eval_assign(old(self).runtime@, *old(ass_expr)),
            ),
        decreases *old(ass_expr), 0int,
    {
        let var_name_val = self.visit_expr(&mut ass_expr.vname)?;
        let res = self.visit_expr(&mut ass_expr.expr);
        proof {
            let target = eval_expr(old(self).runtime@, *ass_expr.vname);
            let rhs = eval_expr(target.scopes, *ass_expr.expr);
            assert((old(self).output@ + target.output) + rhs.output =~= old(self).output@
                + (target.output + rhs.output));
        }
        let var_val = res?;
        let new_val = match ass_expr.op {
            BinaryOperator::Assign => var_val,
            BinaryOperator::AddAssign => var_name_val.add(var_val)?,
            BinaryOperator::SubAssign => var_name_val.sub(var_val)?,
            BinaryOperator::MulAssign => var_name_val.mul(var_val)?,
            BinaryOperator::DivAssign => var_name_val.div(var_val)?,
            BinaryOperator::ModAssign => var_name_val.rem(var_val)?,
            BinaryOperator::BitwiseAndAssign => var_name_val.bitand(var_val)?,
            BinaryOperator::BitwiseOrAssign => var_name_val.bitor(var_val)?,
            BinaryOperator::BitwiseXorAssign => var_name_val.bitxor(var_val)?,
            BinaryOperator::LeftShiftAssign => var_name_val.add(var_val)?,
            BinaryOperator::RightShiftAssign => var_name_val.shr(var_val)?,
            _ => {
                return Err(EvalFault::Unsupported.to_error());
            },
        };
        if let Expr::VnameExpr(vname_expr) = &*ass_expr.vname {
            self.runtime.save_binding(vname_expr.id.spelling.as_str(), new_val);
        }
        Ok(new_val)
    }

    fn visit_ast(&mut self, ast: &mut Ast) -> (res: Self::Result)
        ensures
            final(ast).exprs@ == old(ast).exprs@,
            carried_out(
                *old(self),
                *final(self),
                res,
                eval_exprs(old(self).runtime@, old(ast).exprs@),
            ),
    {
        let ghost scopes = self.runtime@;
        let ghost printed = self.output@;
        let n = ast.exprs.len();
        let mut resp = ExprValue::NoValue;
        let mut i: usize = 0;
        while i < n
            invariant
                i <= n == ast.exprs@.len(),
                ast.exprs@ == old(ast).exprs@,
                scopes == old(self).runtime@,
                printed == old(self).output@,
                carried_out(
                    *old(self),
                    *self,
                    Ok::<ExprValue, ExprError>(resp),
                    eval_exprs(scopes, ast.exprs@.take(i as int)),
                ),
            decreases n - i,
        {
            let ghost before = ast.exprs@;
            let ghost so_far = eval_exprs(scopes, before.take(i as int));
            let res = self.visit_expr(&mut ast.exprs[i]);
            proof {
                assert(ast.exprs@ =~= before);
                assert(before.take(i as int + 1).drop_last() =~= before.take(i as int));
                let step = eval_expr(so_far.scopes, before[i as int]);
                assert(printed + (so_far.output + step.output) =~= (printed + so_far.output)
                    + step.output);
            }
            match res {
                Ok(value) => {
                    resp = value;
                },
                Err(err) => {
                    proof {
                        lemma_eval_stops(scopes, before, i as int + 1);
                    }
                    return Err(err);
                },
            }
            i += 1;
        }
        proof {
            assert(ast.exprs@.take(n as int) =~= ast.exprs@);
        }
        Ok(resp)
    }

    fn visit_binary_expr(&mut self, bin_expr: &mut BinaryExpr) -> (res: Self::Result)
        ensures
            *final(bin_expr) == *old(bin_expr),
            carried_out(
                *old(self),
                *final(self),
                res,
                eval_binary(old(self).runtime@, *old(bin_expr)),
            ),
        decreases *old(bin_expr), 0int,
    {
        let lhs_val = self.visit_expr(&mut bin_expr.lhs)?;
        let res = self.visit_expr(&mut bin_expr.rhs);
        proof {
            let lhs = eval_expr(old(self).runtime@, *bin_expr.lhs);
            let rhs = eval_expr(lhs.scopes, *bin_expr.rhs);
            assert((old(self).output@ + lhs.output) + rhs.output =~= old(self).output@
                + (lhs.output + rhs.output));
        }
        let rhs_val = res?;
        match bin_expr.op {
            BinaryOperator::Add => lhs_val.add(rhs_val),
            BinaryOperator::BitwiseAnd => lhs_val.bitand(rhs_val),
            BinaryOperator::BitwiseOr => lhs_val.bitor(rhs_val),
            BinaryOperator::BitwiseXor => lhs_val.bitxor(rhs_val),
            BinaryOperator::Div => lhs_val.div(rhs_val),
            BinaryOperator::Equal => Ok(ExprValue::Bool(lhs_val == rhs_val)),
            BinaryOperator::GreaterThan => Ok(ExprValue::Bool(rhs_val.less_than(&lhs_val))),
            BinaryOperator::GreaterThanOrEqual => Ok(
                ExprValue::Bool(rhs_val.less_than(&lhs_val) || lhs_val == rhs_val),
            ),
            BinaryOperator::LeftShift => lhs_val.shl(rhs_val),
            BinaryOperator::LessThan => Ok(ExprValue::Bool(lhs_val.less_than(&rhs_val))),
            BinaryOperator::LessThanOrEqual => Ok(
                ExprValue::Bool(lhs_val.less_than(&rhs_val) || lhs_val == rhs_val),
            ),
            BinaryOperator::LogicalAnd => Ok(
                match (lhs_val, rhs_val) {
                    (ExprValue::Bool(lhs_val), ExprValue::Bool(rhs_val)) => ExprValue::Bool(
                        lhs_val && rhs_val,
                    ),
                    _ => ExprValue::NoValue,
                },
            ),
            BinaryOperator::LogicalOr => Ok(
                match (lhs_val, rhs_val) {
                    (ExprValue::Bool(lhs_val), ExprValue::Bool(rhs_val)) => ExprValue::Bool(
                        lhs_val || rhs_val,
                    ),
                    _ => ExprValue::NoValue,
                },
            ),
            BinaryOperator::Mod => lhs_val.rem(rhs_val),
            BinaryOperator::Mul => lhs_val.mul(rhs_val),
            BinaryOperator::NotEqual => Ok(ExprValue::Bool(lhs_val == rhs_val)),
            BinaryOperator::RightShift => lhs_val.shr(rhs_val),
            BinaryOperator::Sub => lhs_val.sub(rhs_val),
            _ => Err(EvalFault::Unsupported.to_error()),
        }
    }

    fn visit_bool_expr(&mut self, bool_val: &mut bool) -> (res: Self::Result)
        ensures
            *final(self) == *old(self),
            *final(bool_val) == *old(bool_val),
            res == Ok::<ExprValue, ExprError>(ExprValue::Bool(*old(bool_val))),
    {
        Ok(ExprValue::Bool(*bool_val))
    }

    fn visit_expr(&mut self, expr: &mut Expr) -> (res: Self::Result)
        ensures
            *final(expr) == *old(expr),
            carried_out(*old(self), *final(self), res, eval_expr(old(self).runtime@, *old(expr))),
        decreases *old(expr), 1int,
    {
        match expr {
            Expr::AssignExpr(ass_expr) => self.visit_assign_expr(ass_expr),
            Expr::BinaryExpr(bin_expr) => self.visit_binary_expr(bin_expr),
            Expr::BoolExpr(bool_expr) => self.visit_bool_expr(bool_expr),
            Expr::IntegerExpr(int_expr) => self.visit_integer_expr(int_expr),
            Expr::PrintExpr(print_expr) => self.visit_print_expr(print_expr),
            Expr::UnaryExpr(unary_expr) => self.visit_unary_expr(unary_expr),
            Expr::VnameExpr(vname_expr) => self.visit_vname_expr(vname_expr),
        }
    }

    fn visit_identifier(&mut self, id: &mut Identifier) -> (res: Self::Result)
        ensures
            *final(self) == *old(self),
            *final(id) == *old(id),
            res == Ok::<ExprValue, ExprError>(value_of(old(self).runtime@, old(id).spelling@)),
    {
        Ok(self.runtime.get_binding(id.spelling.as_str()))
    }

    fn visit_integer_expr(&mut self, int_val: &mut i32) -> (res: Self::Result)
        ensures
            *final(self) == *old(self),
            *final(int_val) == *old(int_val),
            res == Ok::<ExprValue, ExprError>(ExprValue::Int(*old(int_val))),
    {
        Ok(ExprValue::Int(*int_val))
    }

    fn visit_print_expr(&mut self, print_expr: &mut Expr) -> (res: Self::Result)
        ensures
            *final(print_expr) == *old(print_expr),
            carried_out(
                *old(self),
                *final(self),
                res,
                eval_expr(old(self).runtime@, Expr::PrintExpr(Box::new(*old(print_expr)))),
            ),
        decreases *old(print_expr), 2int,
    {
        let expr_val = self.visit_expr(print_expr)?;
        self.output.push(expr_val);
        Ok(ExprValue::NoValue)
    }

    fn visit_unary_expr(&mut self, unary_expr: &mut UnaryExpr) -> (res: Self::Result)
        ensures
            *final(unary_expr) == *old(unary_expr),
            carried_out(
                *old(self),
                *final(self),
                res,
                eval_unary(old(self).runtime@, *old(unary_expr)),
            ),
        decreases *old(unary_expr), 0int,
    {
        let expr_val = self.visit_expr(&mut unary_expr.elem)?;
        match unary_expr.op {
            UnaryOperator::UnaryPlus => Ok(expr_val),
            UnaryOperator::BitwiseNot => Ok(expr_val.not()),
            UnaryOperator::LogicalNot => Ok(expr_val.not()),
            UnaryOperator::UnaryMinus => expr_val.neg(),
        }
    }

    fn visit_vname_expr(&mut self, vname_expr: &mut VnameExpr) -> (res: Self::Result)
        ensures
            *final(self) == *old(self),
            *final(vname_expr) == *old(vname_expr),
            res == Ok::<ExprValue, ExprError>(
                value_of(old(self).runtime@, old(vname_expr).id.spelling@),
            ),
    {
        self.visit_identifier(&mut vname_expr.id)
    }
}

} // verus!
