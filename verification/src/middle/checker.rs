//! The type checker: one walk over the tree that decorates every node with
//! its type and stops at the first error.
use crate::error::{ExprError, ExprErrorKind};
use crate::front::ast::{
    Ast, AssignExpr, BinaryExpr, BinaryOperator, Decl, Expr, Identifier, OperatorDecl, Type,
    UnaryExpr, UnaryOperator, VnameExpr,
};
use crate::middle::id_table::IdentificationTable;
use crate::front::printer::{erased, erased_all};
use crate::middle::stdenv::{
    binary_decl, lemma_loaded_lookup, load_stdenv, loaded, unary_decl, with_stdenv,
};
use crate::middle::visitor::VisitorMut;
use crate::scope::{bind, lemma_lookup_bind, lookup, Scopes};
use vstd::prelude::*;
use vstd::string::*;

verus! {

/// Why checking stopped.
pub enum CheckFault {
    /// A variable is read, or assigned to by a compound operator, before any
    /// assignment gave it a type.
    UnknownIdentifier { name: Seq<char> },
    /// The name of a unary operator does not stand for a unary operator.
    NotUnaryOperator,
    /// The name of a binary operator does not stand for a binary operator.
    NotBinaryOperator,
    /// The operand of a unary operator has another type than the operator takes.
    UnaryMismatch { found: Type, expected: Type },
    /// The operands of an operator that takes any one type differ in type.
    OperandsDiffer { lhs: Type, rhs: Type },
    /// The left operand has another type than the operator takes.
    LeftMismatch { found: Type, expected: Type },
    /// The right operand has another type than the operator takes.
    RightMismatch { found: Type, expected: Type },
    /// A variable is assigned a value of another type than its own.
    Reassigned { name: Seq<char>, declared: Type, found: Type },
    /// The target of an assignment is no variable.
    TargetNotVariable,
    /// The target of an assignment is a name that stands for an operator or
    /// a constant.
    NotVariable { name: Seq<char> },
}

impl CheckFault {
    pub open spec fn message(self) -> Seq<char> {
        match self {
            CheckFault::UnknownIdentifier { name } => "unknown identifier "@ + name,
            CheckFault::NotUnaryOperator => "expected a unary operator in unary expression"@,
            CheckFault::NotBinaryOperator => "expected a binary operator in binary expression"@,
            CheckFault::UnaryMismatch { found, expected } => "unary expression elem type ("@
                + found.name() + ") does not match the expected elem type ("@ + expected.name()
                + ") for operator"@,
            CheckFault::OperandsDiffer { lhs, rhs } => "for bin expr, lhs type of lhs expr ("@
                + lhs.name() + ") does not match the rhs expr type ("@ + rhs.name() + ")"@,
            CheckFault::LeftMismatch { found, expected } => "for bin expr, lhs type of lhs expr ("@
                + found.name() + ") does not match the spec's lhs type ("@ + expected.name()
                + ")"@,
            CheckFault::RightMismatch { found, expected } => "for bin expr, lhs type of rhs expr ("@
                + found.name() + ") does not match the spec's rhs type ("@ + expected.name()
                + ")"@,
            CheckFault::Reassigned { name, declared, found } => "id \""@ + name
                + "\" has inferred type Some("@ + declared.name() + "), but rhs has type Some("@
                + found.name() + ")"@,
            CheckFault::TargetNotVariable => "the lhs of an assignment expression must be a vname"@,
            CheckFault::NotVariable { name } => "id \""@ + name + "\" is not a variable"@,
        }
    }

    /// Whether `err` is the error that reports this fault.
    pub open spec fn reported_by(self, err: ExprError) -> bool {
        &&& err.kind == ExprErrorKind::CheckerError
        &&& err.message@ == self.message()
        &&& err.loc is None
    }
}

fn checker_error(message: String) -> (err: ExprError)
    ensures
        err.kind == ExprErrorKind::CheckerError,
        err.message == message,
        err.loc is None,
{
    ExprError::new(ExprErrorKind::CheckerError, message)
}

/// The message made of five parts in a row.
fn join5(a: &str, b: &str, c: &str, d: &str, e: &str) -> (s: String)
    ensures
        s@ == a@ + b@ + c@ + d@ + e@,
{
    let mut s = String::from_str(a);
    s.append(b);
    s.append(c);
    s.append(d);
    s.append(e);
    s
}

fn resolve(ret: Type, operand: Type) -> (typ: Type)
    ensures
        typ == resolved(ret, operand),
{
    if ret == Type::AnyType {
        operand
    } else {
        ret
    }
}

fn not_unary_operator() -> (err: ExprError)
    ensures
        CheckFault::NotUnaryOperator.reported_by(err),
{
    checker_error(String::from_str("expected a unary operator in unary expression"))
}

fn not_binary_operator() -> (err: ExprError)
    ensures
        CheckFault::NotBinaryOperator.reported_by(err),
{
    checker_error(String::from_str("expected a binary operator in binary expression"))
}

fn target_not_variable() -> (err: ExprError)
    ensures
        CheckFault::TargetNotVariable.reported_by(err),
{
    checker_error(String::from_str("the lhs of an assignment expression must be a vname"))
}

fn not_variable(name: &str) -> (err: ExprError)
    ensures
        (CheckFault::NotVariable { name: name@ }).reported_by(err),
{
    let mut s = String::from_str("id \"");
    s.append(name);
    s.append("\" is not a variable");
    checker_error(s)
}

fn unknown_identifier(name: &str) -> (err: ExprError)
    ensures
        (CheckFault::UnknownIdentifier { name: name@ }).reported_by(err),
{
    let mut s = String::from_str("unknown identifier ");
    s.append(name);
    checker_error(s)
}

fn unary_mismatch(found: Type, expected: Type) -> (err: ExprError)
    ensures
        (CheckFault::UnaryMismatch { found, expected }).reported_by(err),
{
    checker_error(
        join5(
            "unary expression elem type (",
            found.as_str(),
            ") does not match the expected elem type (",
            expected.as_str(),
            ") for operator",
        ),
    )
}

fn operands_differ(lhs: Type, rhs: Type) -> (err: ExprError)
    ensures
        (CheckFault::OperandsDiffer { lhs, rhs }).reported_by(err),
{
    checker_error(
        join5(
            "for bin expr, lhs type of lhs expr (",
            lhs.as_str(),
            ") does not match the rhs expr type (",
            rhs.as_str(),
            ")",
        ),
    )
}

fn left_mismatch(found: Type, expected: Type) -> (err: ExprError)
    ensures
        (CheckFault::LeftMismatch { found, expected }).reported_by(err),
{
    checker_error(
        join5(
            "for bin expr, lhs type of lhs expr (",
            found.as_str(),
            ") does not match the spec's lhs type (",
            expected.as_str(),
            ")",
        ),
    )
}

fn right_mismatch(found: Type, expected: Type) -> (err: ExprError)
    ensures
        (CheckFault::RightMismatch { found, expected }).reported_by(err),
{
    checker_error(
        join5(
            "for bin expr, lhs type of rhs expr (",
            found.as_str(),
            ") does not match the spec's rhs type (",
            expected.as_str(),
            ")",
        ),
    )
}

fn reassigned(name: &str, declared: Type, found: Type) -> (err: ExprError)
    ensures
        (CheckFault::Reassigned { name: name@, declared, found }).reported_by(err),
{
    let mut s = String::from_str("id \"");
    s.append(name);
    s.append("\" has inferred type Some(");
    s.append(declared.as_str());
    s.append("), but rhs has type Some(");
    s.append(found.as_str());
    s.append(")");
    checker_error(s)
}

/// The type that an assignment gave to the variable `name`, if any did.
pub open spec fn declared_type(scopes: Scopes<Decl>, name: Seq<char>) -> Option<Type> {
    match lookup(scopes, name) {
        Some(Decl::IdDecl(id)) => id.typ,
        _ => None,
    }
}

/// Whether `name` stands for an operator or a constant: such a name is no
/// variable and cannot become one.
pub open spec fn reserved(scopes: Scopes<Decl>, name: Seq<char>) -> bool {
    lookup(scopes, name) matches Some(decl) && !(decl is IdDecl)
}

/// The type that an operator gives on an operand of the type `operand`: the
/// type `ret` that its declaration gives, and where that is the wildcard,
/// which stands for the type of the operands, the type `operand`.
pub open spec fn resolved(ret: Type, operand: Type) -> Type {
    if ret == Type::AnyType {
        operand
    } else {
        ret
    }
}

/// The outcome of checking one node: the table and the node as checking left
/// them, and the node's type or the fault that stopped the check.
pub struct Checked<N> {
    pub scopes: Scopes<Decl>,
    pub node: N,
    pub result: Result<Type, CheckFault>,
}

/// An identifier has the type that was declared for it, and is decorated
/// with it; one without a declared type is unknown.
pub open spec fn check_identifier(scopes: Scopes<Decl>, id: Identifier) -> Checked<Identifier> {
    match declared_type(scopes, id.spelling@) {
        Some(typ) => Checked {
            scopes,
            node: Identifier { spelling: id.spelling, typ: Some(typ) },
            result: Ok(typ),
        },
        None => Checked {
            scopes,
            node: id,
            result: Err(CheckFault::UnknownIdentifier { name: id.spelling@ }),
        },
    }
}

/// A variable reference has the type of its identifier.
pub open spec fn check_vname(scopes: Scopes<Decl>, vname: VnameExpr) -> Checked<VnameExpr> {
    let id = check_identifier(scopes, vname.id);
    match id.result {
        Ok(typ) => Checked {
            scopes,
            node: VnameExpr { id: id.node, typ: Some(typ) },
            result: Ok(typ),
        },
        Err(fault) => Checked { scopes, node: vname, result: Err(fault) },
    }
}

/// The operand is checked first. Its type must be the one that the
/// operator's declaration takes; the node has the type that it gives, never
/// the wildcard.
pub open spec fn check_unary(scopes: Scopes<Decl>, unary: UnaryExpr) -> Checked<UnaryExpr>
    decreases unary, 0int,
{
    let elem = check_expr(scopes, *unary.elem);
    let seen = UnaryExpr { elem: Box::new(elem.node), ..unary };
    match elem.result {
        Err(fault) => Checked { scopes: elem.scopes, node: seen, result: Err(fault) },
        Ok(elem_typ) => match lookup(elem.scopes, unary.op.name()) {
            Some(Decl::OperatorDecl(OperatorDecl::UnaryOperatorDecl(decl))) => if decl.elem_typ
                != elem_typ {
                Checked {
                    scopes: elem.scopes,
                    node: seen,
                    result: Err(
                        CheckFault::UnaryMismatch { found: elem_typ, expected: decl.elem_typ },
                    ),
                }
            } else {
                Checked {
                    scopes: elem.scopes,
                    node: UnaryExpr { typ: Some(resolved(decl.ret_typ, elem_typ)), ..seen },
                    result: Ok(resolved(decl.ret_typ, elem_typ)),
                }
            },
            _ => Checked {
                scopes: elem.scopes,
                node: seen,
                result: Err(CheckFault::NotUnaryOperator),
            },
        },
    }
}

/// What the declaration `decl` of a binary operator says of operands of the
/// types `lhs` and `rhs`: where it takes any type on both sides, the two must
/// be one type; else each must be the type it takes, the left one first.
pub open spec fn operands_fault(
    decl: crate::front::ast::BinaryOperatorDecl,
    lhs: Type,
    rhs: Type,
) -> Option<CheckFault> {
    if decl.lhs_typ == Type::AnyType && decl.rhs_typ == Type::AnyType {
        if lhs != rhs {
            Some(CheckFault::OperandsDiffer { lhs, rhs })
        } else {
            None
        }
    } else if lhs != decl.lhs_typ {
        Some(CheckFault::LeftMismatch { found: lhs, expected: decl.lhs_typ })
    } else if rhs != decl.rhs_typ {
        Some(CheckFault::RightMismatch { found: rhs, expected: decl.rhs_typ })
    } else {
        None
    }
}

/// The left operand is checked, then the right one, then both against the
/// operator's declaration; the node has the type that the declaration gives,
/// never the wildcard.
pub open spec fn check_binary(scopes: Scopes<Decl>, binary: BinaryExpr) -> Checked<BinaryExpr>
    decreases binary, 0int,
{
    let lhs = check_expr(scopes, *binary.lhs);
    let seen_lhs = BinaryExpr { lhs: Box::new(lhs.node), ..binary };
    match lhs.result {
        Err(fault) => Checked { scopes: lhs.scopes, node: seen_lhs, result: Err(fault) },
        Ok(lhs_typ) => {
            let rhs = check_expr(lhs.scopes, *binary.rhs);
            let seen = BinaryExpr { rhs: Box::new(rhs.node), ..seen_lhs };
            match rhs.result {
                Err(fault) => Checked { scopes: rhs.scopes, node: seen, result: Err(fault) },
                Ok(rhs_typ) => match lookup(rhs.scopes, binary.op.name()) {
                    Some(Decl::OperatorDecl(OperatorDecl::BinaryOperatorDecl(decl))) => {
                        match operands_fault(decl, lhs_typ, rhs_typ) {
                            Some(fault) => Checked {
                                scopes: rhs.scopes,
                                node: seen,
                                result: Err(fault),
                            },
                            None => Checked {
                                scopes: rhs.scopes,
                                node: BinaryExpr {
                                    typ: Some(resolved(decl.ret_typ, lhs_typ)),
                                    ..seen
                                },
                                result: Ok(resolved(decl.ret_typ, lhs_typ)),
                            },
                        }
                    },
                    _ => Checked {
                        scopes: rhs.scopes,
                        node: seen,
                        result: Err(CheckFault::NotBinaryOperator),
                    },
                },
            }
        },
    }
}

/// The right-hand side is checked first, and the operator must be declared
/// as a binary one. The target must be a variable, and its name none that
/// stands for an operator or a constant. A variable without a type takes the
/// type of the right-hand side and is declared with it in the innermost
/// level, but only by a plain assignment: a compound one needs the variable
/// to have a type already. A variable with a type must be assigned a value
/// of that type. The node has the type of the right-hand side.
pub open spec fn check_assign(scopes: Scopes<Decl>, assign: AssignExpr) -> Checked<AssignExpr>
    decreases assign, 0int,
{
    let rhs = check_expr(scopes, *assign.expr);
    let seen = AssignExpr { expr: Box::new(rhs.node), ..assign };
    let stopped = |fault: CheckFault|
        Checked { scopes: rhs.scopes, node: seen, result: Err(fault) };
    match rhs.result {
        Err(fault) => stopped(fault),
        Ok(rhs_typ) => match lookup(rhs.scopes, assign.op.name()) {
            Some(Decl::OperatorDecl(OperatorDecl::BinaryOperatorDecl(_))) => match *assign.vname {
                Expr::VnameExpr(vname) => {
                    let name = vname.id.spelling@;
                    let id = Identifier { spelling: vname.id.spelling, typ: Some(rhs_typ) };
                    let done = AssignExpr {
                        vname: Box::new(Expr::VnameExpr(VnameExpr { id, typ: Some(rhs_typ) })),
                        typ: Some(rhs_typ),
                        ..seen
                    };
                    match declared_type(rhs.scopes, name) {
                        None => if reserved(rhs.scopes, name) {
                            stopped(CheckFault::NotVariable { name })
                        } else if assign.op == BinaryOperator::Assign {
                            Checked {
                                scopes: bind(rhs.scopes, name, Decl::IdDecl(id)),
                                node: done,
                                result: Ok(rhs_typ),
                            }
                        } else {
                            stopped(CheckFault::UnknownIdentifier { name })
                        },
                        Some(declared) => if declared != rhs_typ {
                            stopped(CheckFault::Reassigned { name, declared, found: rhs_typ })
                        } else {
                            Checked { scopes: rhs.scopes, node: done, result: Ok(rhs_typ) }
                        },
                    }
                },
                _ => stopped(CheckFault::TargetNotVariable),
            },
            _ => stopped(CheckFault::NotBinaryOperator),
        },
    }
}

/// The type of an expression, by the kind of its node. A literal has its own
/// type and a `print` the type of what it prints.
pub open spec fn check_expr(scopes: Scopes<Decl>, expr: Expr) -> Checked<Expr>
    decreases expr, 1int,
{
    match expr {
        Expr::IntegerExpr(_) => Checked { scopes, node: expr, result: Ok(Type::IntType) },
        Expr::BoolExpr(_) => Checked { scopes, node: expr, result: Ok(Type::BoolType) },
        Expr::VnameExpr(vname) => {
            let c = check_vname(scopes, vname);
            Checked { scopes: c.scopes, node: Expr::VnameExpr(c.node), result: c.result }
        },
        Expr::PrintExpr(inner) => {
            let c = check_expr(scopes, *inner);
            Checked { scopes: c.scopes, node: Expr::PrintExpr(Box::new(c.node)), result: c.result }
        },
        Expr::UnaryExpr(unary) => {
            let c = check_unary(scopes, unary);
            Checked { scopes: c.scopes, node: Expr::UnaryExpr(c.node), result: c.result }
        },
        Expr::BinaryExpr(binary) => {
            let c = check_binary(scopes, binary);
            Checked { scopes: c.scopes, node: Expr::BinaryExpr(c.node), result: c.result }
        },
        Expr::AssignExpr(assign) => {
            let c = check_assign(scopes, assign);
            Checked { scopes: c.scopes, node: Expr::AssignExpr(c.node), result: c.result }
        },
    }
}

/// The outcome of checking a program: the table and the expressions as
/// checking left them, and the fault that stopped the check, if one did.
pub struct CheckedAst {
    pub scopes: Scopes<Decl>,
    pub exprs: Seq<Expr>,
    pub fault: Option<CheckFault>,
}

/// The expressions of a program are checked in order, each against the table
/// that the ones before it left; nothing behind the first fault is checked.
pub open spec fn check_exprs(scopes: Scopes<Decl>, exprs: Seq<Expr>) -> CheckedAst
    decreases exprs.len(),
{
    if exprs.len() == 0 {
        CheckedAst { scopes, exprs, fault: None }
    } else {
        let before = check_exprs(scopes, exprs.drop_last());
        if before.fault is Some {
            CheckedAst { exprs: before.exprs.push(exprs.last()), ..before }
        } else {
            let last = check_expr(before.scopes, exprs.last());
            CheckedAst {
                scopes: last.scopes,
                exprs: before.exprs.push(last.node),
                fault: match last.result {
                    Ok(_) => None,
                    Err(fault) => Some(fault),
                },
            }
        }
    }
}


/// A fault stays: the expressions behind it are left as they are.
pub proof fn lemma_check_stops(scopes: Scopes<Decl>, exprs: Seq<Expr>, n: int)
    requires
        0 <= n <= exprs.len(),
        check_exprs(scopes, exprs.take(n)).fault is Some,
    ensures
        check_exprs(scopes, exprs) == (CheckedAst {
            exprs: check_exprs(scopes, exprs.take(n)).exprs + exprs.skip(n),
            ..check_exprs(scopes, exprs.take(n))
        }),
    decreases exprs.len() - n,
{
    let stopped = check_exprs(scopes, exprs.take(n));
    if n == exprs.len() {
        assert(exprs.take(n) =~= exprs);
        assert(stopped.exprs + exprs.skip(n) =~= stopped.exprs);
    } else {
        assert(exprs.take(n + 1).drop_last() =~= exprs.take(n));
        lemma_check_stops(scopes, exprs, n + 1);
        assert(stopped.exprs.push(exprs[n]) + exprs.skip(n + 1) =~= stopped.exprs + exprs.skip(n));
    }
}

/// Checking opens and closes no level, and a variable keeps its type: what is
/// declared for a name that has a type is not changed by any check. Nor is
/// what is declared for a name that stands for an operator or a constant.
pub proof fn lemma_types_stay(scopes: Scopes<Decl>, expr: Expr, name: Seq<char>)
    requires
        scopes.len() > 0,
    ensures
        check_expr(scopes, expr).scopes.len() == scopes.len(),
        declared_type(scopes, name) is Some ==> declared_type(
            check_expr(scopes, expr).scopes,
            name,
        ) == declared_type(scopes, name),
        reserved(scopes, name) ==> lookup(check_expr(scopes, expr).scopes, name) == lookup(
            scopes,
            name,
        ),
    decreases expr,
{
    reveal_with_fuel(check_expr, 2);
    match expr {
        Expr::IntegerExpr(_) => {},
        Expr::BoolExpr(_) => {},
        Expr::VnameExpr(_) => {},
        Expr::PrintExpr(inner) => {
            lemma_types_stay(scopes, *inner, name);
        },
        Expr::UnaryExpr(unary) => {
            lemma_types_stay(scopes, *unary.elem, name);
        },
        Expr::BinaryExpr(binary) => {
            lemma_types_stay(scopes, *binary.lhs, name);
            lemma_types_stay(check_expr(scopes, *binary.lhs).scopes, *binary.rhs, name);
        },
        Expr::AssignExpr(assign) => {
            lemma_types_stay(scopes, *assign.expr, name);
            let rhs = check_expr(scopes, *assign.expr);
            match *assign.vname {
                Expr::VnameExpr(vname) => {
                    match rhs.result {
                        Ok(rhs_typ) => {
                            let id = Identifier { spelling: vname.id.spelling, typ: Some(rhs_typ) };
                            lemma_lookup_bind(
                                rhs.scopes,
                                vname.id.spelling@,
                                Decl::IdDecl(id),
                                name,
                            );
                        },
                        Err(_) => {},
                    }
                },
                _ => {},
            }
        },
    }
}

/// A variable keeps its type over a whole program, and the name of an
/// operator or a constant what it stands for.
pub proof fn lemma_types_stay_in_program(scopes: Scopes<Decl>, exprs: Seq<Expr>, name: Seq<char>)
    requires
        scopes.len() > 0,
    ensures
        check_exprs(scopes, exprs).scopes.len() == scopes.len(),
        declared_type(scopes, name) is Some ==> declared_type(
            check_exprs(scopes, exprs).scopes,
            name,
        ) == declared_type(scopes, name),
        reserved(scopes, name) ==> lookup(check_exprs(scopes, exprs).scopes, name) == lookup(
            scopes,
            name,
        ),
    decreases exprs.len(),
{
    if exprs.len() > 0 {
        lemma_types_stay_in_program(scopes, exprs.drop_last(), name);
        lemma_types_stay(check_exprs(scopes, exprs.drop_last()).scopes, exprs.last(), name);
    }
}

/// An assignment to a variable that has a type fails where the right-hand
/// side has another type.
pub proof fn lemma_reassignment_fails(scopes: Scopes<Decl>, assign: AssignExpr)
    requires
        scopes.len() > 0,
        *assign.vname is VnameExpr,
        declared_type(scopes, (*assign.vname)->VnameExpr_0.id.spelling@) is Some,
        check_expr(scopes, *assign.expr).result matches Ok(typ) && Some(typ) != declared_type(
            scopes,
            (*assign.vname)->VnameExpr_0.id.spelling@,
        ),
    ensures
        check_assign(scopes, assign).result is Err,
        check_expr(scopes, Expr::AssignExpr(assign)).result is Err,
{
    lemma_types_stay(scopes, *assign.expr, (*assign.vname)->VnameExpr_0.id.spelling@);
}

/// Whether every operator is found as the standard environment declares it.
pub open spec fn standard(scopes: Scopes<Decl>) -> bool {
    &&& forall|op: UnaryOperator| #[trigger] lookup(scopes, op.name()) == Some(unary_decl(op))
    &&& forall|op: BinaryOperator| #[trigger] lookup(scopes, op.name()) == Some(binary_decl(op))
}

/// A checker as `new` makes it finds every operator as the standard
/// environment declares it.
pub proof fn lemma_standard_at_start()
    ensures
        standard(loaded(seq![Map::<Seq<char>, Decl>::empty()])),
{
    lemma_loaded_lookup(seq![Map::<Seq<char>, Decl>::empty()]);
}

/// The declarations of the operators are fixed: no check of an expression
/// changes what the name of an operator stands for, whatever the expression
/// assigns to.
pub proof fn lemma_operators_stay(scopes: Scopes<Decl>, expr: Expr)
    requires
        scopes.len() > 0,
        standard(scopes),
    ensures
        standard(check_expr(scopes, expr).scopes),
{
    let after = check_expr(scopes, expr).scopes;
    assert forall|op: UnaryOperator| #[trigger]
        lookup(after, op.name()) == Some(unary_decl(op)) by {
        assert(lookup(scopes, op.name()) == Some(unary_decl(op)));
        lemma_types_stay(scopes, expr, op.name());
    }
    assert forall|op: BinaryOperator| #[trigger]
        lookup(after, op.name()) == Some(binary_decl(op)) by {
        assert(lookup(scopes, op.name()) == Some(binary_decl(op)));
        lemma_types_stay(scopes, expr, op.name());
    }
}

/// The declarations of the operators are fixed over a whole program: after a
/// checker as `new` makes it has checked any programs, it still finds every
/// operator as the standard environment declares it.
pub proof fn lemma_operators_stay_in_program(scopes: Scopes<Decl>, exprs: Seq<Expr>)
    requires
        scopes.len() > 0,
        standard(scopes),
    ensures
        standard(check_exprs(scopes, exprs).scopes),
{
    let after = check_exprs(scopes, exprs).scopes;
    assert forall|op: UnaryOperator| #[trigger]
        lookup(after, op.name()) == Some(unary_decl(op)) by {
        assert(lookup(scopes, op.name()) == Some(unary_decl(op)));
        lemma_types_stay_in_program(scopes, exprs, op.name());
    }
    assert forall|op: BinaryOperator| #[trigger]
        lookup(after, op.name()) == Some(binary_decl(op)) by {
        assert(lookup(scopes, op.name()) == Some(binary_decl(op)));
        lemma_types_stay_in_program(scopes, exprs, op.name());
    }
}

/// An assignment to the name of an operator fails, in a table that holds the
/// operators.
pub proof fn lemma_operator_is_no_target(
    scopes: Scopes<Decl>,
    assign: AssignExpr,
    op: BinaryOperator,
)
    requires
        scopes.len() > 0,
        standard(scopes),
        *assign.vname is VnameExpr,
        (*assign.vname)->VnameExpr_0.id.spelling@ == op.name(),
    ensures
        check_assign(scopes, assign).result is Err,
        check_assign(scopes, assign).scopes == check_expr(scopes, *assign.expr).scopes,
{
    lemma_operators_stay(scopes, *assign.expr);
    let rhs = check_expr(scopes, *assign.expr);
    assert(lookup(rhs.scopes, op.name()) == Some(binary_decl(op)));
    assert(lookup(rhs.scopes, assign.op.name()) == Some(binary_decl(assign.op)));
}

/// An equality that passes the check is typed as a boolean, whatever the one
/// type of its operands is.
pub proof fn lemma_equality_is_boolean(scopes: Scopes<Decl>, binary: BinaryExpr)
    requires
        scopes.len() > 0,
        standard(scopes),
        binary.op == BinaryOperator::Equal || binary.op == BinaryOperator::NotEqual,
    ensures
        check_binary(scopes, binary).result matches Ok(typ) ==> {
            &&& typ == Type::BoolType
            &&& check_binary(scopes, binary).node.typ == Some(Type::BoolType)
            &&& check_expr(scopes, *binary.lhs).result == check_expr(
                check_expr(scopes, *binary.lhs).scopes,
                *binary.rhs,
            ).result
        },
{
    let lhs = check_expr(scopes, *binary.lhs);
    lemma_operators_stay(scopes, *binary.lhs);
    lemma_types_stay(scopes, *binary.lhs, Seq::empty());
    lemma_operators_stay(lhs.scopes, *binary.rhs);
    let rhs = check_expr(lhs.scopes, *binary.rhs);
    assert(lookup(rhs.scopes, binary.op.name()) == Some(binary_decl(binary.op)));
}

/// Whether no variable has the wildcard for its type.
pub open spec fn concrete(scopes: Scopes<Decl>) -> bool {
    forall|name: Seq<char>| #[trigger] declared_type(scopes, name) != Some(Type::AnyType)
}

/// Whether every node of the expression that has a type holds one, and none
/// holds the wildcard: each is typed as an integer or as a boolean.
pub open spec fn decorated(expr: Expr) -> bool
    decreases expr,
{
    match expr {
        Expr::IntegerExpr(_) => true,
        Expr::BoolExpr(_) => true,
        Expr::VnameExpr(vname) => {
            &&& vname.typ matches Some(typ) && typ != Type::AnyType
            &&& vname.id.typ == vname.typ
        },
        Expr::PrintExpr(inner) => decorated(*inner),
        Expr::UnaryExpr(unary) => {
            &&& unary.typ matches Some(typ) && typ != Type::AnyType
            &&& decorated(*unary.elem)
        },
        Expr::BinaryExpr(binary) => {
            &&& binary.typ matches Some(typ) && typ != Type::AnyType
            &&& decorated(*binary.lhs)
            &&& decorated(*binary.rhs)
        },
        Expr::AssignExpr(assign) => {
            &&& assign.typ matches Some(typ) && typ != Type::AnyType
            &&& decorated(*assign.vname)
            &&& decorated(*assign.expr)
        },
    }
}

/// The wildcard is never attached to a node: an expression that passes the
/// check has a type that is not the wildcard, and so has every node of it
/// and every variable that it declares.
pub proof fn lemma_no_wildcard(scopes: Scopes<Decl>, expr: Expr)
    requires
        scopes.len() > 0,
        concrete(scopes),
    ensures
        concrete(check_expr(scopes, expr).scopes),
        check_expr(scopes, expr).result matches Ok(typ) ==> typ != Type::AnyType && decorated(
            check_expr(scopes, expr).node,
        ),
    decreases expr,
{
    match expr {
        Expr::IntegerExpr(_) => {},
        Expr::BoolExpr(_) => {},
        Expr::VnameExpr(vname) => {
            assert(declared_type(scopes, vname.id.spelling@) != Some(Type::AnyType));
        },
        Expr::PrintExpr(inner) => {
            lemma_no_wildcard(scopes, *inner);
        },
        Expr::UnaryExpr(unary) => {
            lemma_no_wildcard(scopes, *unary.elem);
            let checked = check_unary(scopes, unary);
            assert(checked.result matches Ok(typ) ==> typ != Type::AnyType && decorated(
                Expr::UnaryExpr(checked.node),
            ));
        },
        Expr::BinaryExpr(binary) => {
            lemma_no_wildcard(scopes, *binary.lhs);
            lemma_types_stay(scopes, *binary.lhs, Seq::empty());
            lemma_no_wildcard(check_expr(scopes, *binary.lhs).scopes, *binary.rhs);
            let checked = check_binary(scopes, binary);
            assert(checked.result matches Ok(typ) ==> typ != Type::AnyType && decorated(
                Expr::BinaryExpr(checked.node),
            ));
        },
        Expr::AssignExpr(assign) => {
            lemma_no_wildcard(scopes, *assign.expr);
            lemma_types_stay(scopes, *assign.expr, Seq::empty());
            let rhs = check_expr(scopes, *assign.expr);
            let after = check_assign(scopes, assign).scopes;
            match (*assign.vname, rhs.result) {
                (Expr::VnameExpr(vname), Ok(rhs_typ)) => {
                    let id = Identifier { spelling: vname.id.spelling, typ: Some(rhs_typ) };
                    assert forall|name: Seq<char>| #[trigger]
                        declared_type(after, name) != Some(Type::AnyType) by {
                        lemma_lookup_bind(rhs.scopes, vname.id.spelling@, Decl::IdDecl(id), name);
                        assert(declared_type(rhs.scopes, name) != Some(Type::AnyType));
                    }
                    let checked = check_assign(scopes, assign);
                    assert(checked.result is Ok ==> decorated(*checked.node.vname));
                    assert(checked.result matches Ok(typ) ==> typ != Type::AnyType && decorated(
                        Expr::AssignExpr(checked.node),
                    ));
                },
                _ => {},
            }
        },
    }
}

/// After a program has passed the check of a checker as `new` makes it,
/// every node of it is typed as an integer or as a boolean.
pub proof fn lemma_no_wildcard_in_program(scopes: Scopes<Decl>, exprs: Seq<Expr>)
    requires
        scopes.len() > 0,
        concrete(scopes),
    ensures
        concrete(check_exprs(scopes, exprs).scopes),
        check_exprs(scopes, exprs).fault is None ==> forall|k: int|
            0 <= k < exprs.len() ==> decorated(#[trigger] check_exprs(scopes, exprs).exprs[k]),
        check_exprs(scopes, exprs).exprs.len() == exprs.len(),
    decreases exprs.len(),
{
    if exprs.len() > 0 {
        let before = check_exprs(scopes, exprs.drop_last());
        lemma_no_wildcard_in_program(scopes, exprs.drop_last());
        lemma_types_stay_in_program(scopes, exprs.drop_last(), Seq::empty());
        lemma_no_wildcard(before.scopes, exprs.last());
    }
}

/// No variable has the wildcard for its type in a checker as `new` makes it.
pub proof fn lemma_concrete_at_start()
    ensures
        concrete(loaded(seq![Map::<Seq<char>, Decl>::empty()])),
{
    assert forall|name: Seq<char>| #[trigger]
        declared_type(loaded(seq![Map::<Seq<char>, Decl>::empty()]), name) != Some(
            Type::AnyType,
        ) by {
        lemma_no_variable_at_start(name);
    }
}

/// Checking writes types and nothing else: the shape of the expression, its
/// operators, literals and names are as before.
pub proof fn lemma_check_only_decorates(scopes: Scopes<Decl>, expr: Expr)
    ensures
        erased(check_expr(scopes, expr).node) == erased(expr),
    decreases expr,
{
    match expr {
        Expr::IntegerExpr(_) => {},
        Expr::BoolExpr(_) => {},
        Expr::VnameExpr(vname) => {
            assert(check_vname(scopes, vname).node.id.spelling == vname.id.spelling);
        },
        Expr::PrintExpr(inner) => {
            lemma_check_only_decorates(scopes, *inner);
        },
        Expr::UnaryExpr(unary) => {
            lemma_check_only_decorates(scopes, *unary.elem);
            let node = check_unary(scopes, unary).node;
            assert(node.op == unary.op && *node.elem == check_expr(scopes, *unary.elem).node);
        },
        Expr::BinaryExpr(binary) => {
            let lhs = check_expr(scopes, *binary.lhs);
            lemma_check_only_decorates(scopes, *binary.lhs);
            lemma_check_only_decorates(lhs.scopes, *binary.rhs);
            let node = check_binary(scopes, binary).node;
            assert(node.op == binary.op && *node.lhs == lhs.node);
            assert(*node.rhs == if lhs.result is Ok {
                check_expr(lhs.scopes, *binary.rhs).node
            } else {
                *binary.rhs
            });
        },
        Expr::AssignExpr(assign) => {
            lemma_check_only_decorates(scopes, *assign.expr);
            let node = check_assign(scopes, assign).node;
            assert(node.op == assign.op && *node.expr == check_expr(scopes, *assign.expr).node);
            assert(erased(*node.vname) == erased(*assign.vname));
        },
    }
}

/// Checking a program writes types and nothing else: the number of the
/// expressions and the shape of each are as before.
pub proof fn lemma_check_only_decorates_program(scopes: Scopes<Decl>, exprs: Seq<Expr>)
    ensures
        check_exprs(scopes, exprs).exprs.len() == exprs.len(),
        erased_all(check_exprs(scopes, exprs).exprs) == erased_all(exprs),
    decreases exprs.len(),
{
    let checked = check_exprs(scopes, exprs);
    if exprs.len() > 0 {
        let before = check_exprs(scopes, exprs.drop_last());
        lemma_check_only_decorates_program(scopes, exprs.drop_last());
        lemma_check_only_decorates(before.scopes, exprs.last());
        assert forall|k: int| 0 <= k < exprs.len() implies erased(checked.exprs[k]) == erased(
            exprs[k],
        ) by {
            if k < exprs.len() - 1 {
                assert(checked.exprs[k] == before.exprs[k]);
                assert(erased_all(before.exprs)[k] == erased_all(exprs.drop_last())[k]);
            }
        }
    }
    assert(erased_all(checked.exprs) =~= erased_all(exprs));
}

/// A variable that no assignment gave a type is unknown wherever it is read.
pub proof fn lemma_unknown_identifier_fails(scopes: Scopes<Decl>, vname: VnameExpr)
    requires
        declared_type(scopes, vname.id.spelling@) is None,
    ensures
        check_expr(scopes, Expr::VnameExpr(vname)) == (Checked {
            scopes,
            node: Expr::VnameExpr(vname),
            result: Err(CheckFault::UnknownIdentifier { name: vname.id.spelling@ }),
        }),
{
}

/// The standard environment declares no variable: in a checker as `new`
/// makes it, every identifier is unknown.
pub proof fn lemma_no_variable_at_start(name: Seq<char>)
    ensures
        declared_type(loaded(seq![Map::<Seq<char>, Decl>::empty()]), name) is None,
{
    let scopes = seq![Map::<Seq<char>, Decl>::empty()];
    lemma_loaded_lookup(scopes);
    if with_stdenv(Map::empty()).contains_key(name) {
        assert(loaded(scopes).last() == with_stdenv(Map::empty()));
        assert(lookup(loaded(scopes), name) == Some(with_stdenv(Map::empty())[name]));
        assert(!(with_stdenv(Map::empty())[name] is IdDecl));
    } else {
        assert(lookup(scopes, name) is None) by {
            reveal_with_fuel(lookup, 2);
        }
    }
}

/// The checker: the identification table that it checks against.
pub struct Checker {
    pub id_table: IdentificationTable,
}

impl Checker {
    /// A checker whose table holds the standard environment at level 0:
    /// every operator as it is declared, and no variable.
    pub fn new() -> (checker: Self)
        ensures
            checker.id_table@ == loaded(seq![Map::<Seq<char>, Decl>::empty()]),
            standard(checker.id_table@),
            concrete(checker.id_table@),
    {
        let mut id_table = IdentificationTable::new();
        load_stdenv(&mut id_table);
        proof {
            lemma_standard_at_start();
            lemma_concrete_at_start();
        }
        Checker { id_table }
    }

    /// Checks a program and decorates every node with its type, up to the
    /// first fault. Nothing but the types is written into the program. The
    /// operators stay declared as they are. Where no variable has the
    /// wildcard for its type before, none has it after, and a program that
    /// passes has every node typed as an integer or as a boolean.
    pub fn check(&mut self, ast: &mut Ast) -> (res: Result<(), ExprError>)
        ensures
            ({
                let checked = check_exprs(old(self).id_table@, old(ast).exprs@);
                &&& final(self).id_table@ == checked.scopes
                &&& final(ast).exprs@ == checked.exprs
                &&& match res {
                    Ok(()) => checked.fault is None,
                    Err(err) => checked.fault matches Some(fault) && fault.reported_by(err),
                }
            }),
            final(ast).exprs@.len() == old(ast).exprs@.len(),
            erased_all(final(ast).exprs@) == erased_all(old(ast).exprs@),
            standard(old(self).id_table@) ==> standard(final(self).id_table@),
            concrete(old(self).id_table@) ==> concrete(final(self).id_table@),
            concrete(old(self).id_table@) && res is Ok ==> forall|k: int|
                0 <= k < final(ast).exprs@.len() ==> decorated(#[trigger] final(ast).exprs@[k]),
    {
        proof {
            self.id_table.table.lemma_has_level_zero();
            lemma_check_only_decorates_program(self.id_table@, ast.exprs@);
            if standard(self.id_table@) {
                lemma_operators_stay_in_program(self.id_table@, ast.exprs@);
            }
            if concrete(self.id_table@) {
                lemma_no_wildcard_in_program(self.id_table@, ast.exprs@);
            }
        }
        match self.visit_ast(ast) {
            Ok(_) => Ok(()),
            Err(err) => Err(err),
        }
    }

    /// What the name of a unary operator stands for: its declaration, in a
    /// table that holds the operators.
    fn get_unary_op_spec(&self, op: &UnaryOperator) -> (found: Option<&Decl>)
        ensures
            match found {
                Some(decl) => lookup(self.id_table@, op.name()) == Some(*decl),
                None => lookup(self.id_table@, op.name()) is None,
            },
            standard(self.id_table@) ==> (found matches Some(decl) && *decl == unary_decl(*op)),
    {
        self.id_table.get_attr(op.as_str())
    }

    /// What the name of a binary operator stands for: its declaration, in a
    /// table that holds the operators.
    fn get_bin_op_spec(&self, op: &BinaryOperator) -> (found: Option<&Decl>)
        ensures
            match found {
                Some(decl) => lookup(self.id_table@, op.name()) == Some(*decl),
                None => lookup(self.id_table@, op.name()) is None,
            },
            standard(self.id_table@) ==> (found matches Some(decl) && *decl == binary_decl(
                *op,
            )),
    {
        self.id_table.get_attr(op.as_str())
    }

    /// The type that an assignment gave to the variable `name`, if any did.
    fn get_declared_type(&self, name: &str) -> (typ: Option<Type>)
        ensures
            typ == declared_type(self.id_table@, name@),
    {
        match self.id_table.get_attr(name) {
            Some(Decl::IdDecl(id)) => id.typ,
            _ => None,
        }
    }

    /// Whether `name` stands for an operator or a constant.
    fn is_reserved(&self, name: &str) -> (is: bool)
        ensures
            is == reserved(self.id_table@, name@),
    {
        match self.id_table.get_attr(name) {
            Some(Decl::IdDecl(_)) => false,
            Some(_) => true,
            None => false,
        }
    }
}

/// Whether `res` reports what the check of a node came to.
pub open spec fn reports(
    res: Result<Option<Type>, ExprError>,
    result: Result<Type, CheckFault>,
) -> bool {
    match res {
        Ok(typ) => result matches Ok(t) && typ == Some(t),
        Err(err) => result matches Err(fault) && fault.reported_by(err),
    }
}

impl VisitorMut for Checker {
    type Result = Result<Option<Type>, ExprError>;

    fn visit_assign_expr(&mut self, ass_expr: &mut AssignExpr) -> (res: Self::Result)
        ensures
            ({
                let checked = check_assign(old(self).id_table@, *old(ass_expr));
                &&& final(self).id_table@ == checked.scopes
                &&& *final(ass_expr) == checked.node
                &&& reports(res, checked.result)
            }),
        decreases *old(ass_expr), 0int,
    {
        let rhs_typ = self.visit_expr(&mut ass_expr.expr)?.unwrap();
        match self.get_bin_op_spec(&ass_expr.op) {
            Some(Decl::OperatorDecl(OperatorDecl::BinaryOperatorDecl(_))) => {},
            _ => {
                return Err(not_binary_operator());
            },
        }
        if !matches!(&*ass_expr.vname, Expr::VnameExpr(_)) {
            return Err(target_not_variable());
        }
        if let Expr::VnameExpr(vname) = &mut *ass_expr.vname {
            match self.get_declared_type(vname.id.spelling.as_str()) {
                None => {
                    if self.is_reserved(vname.id.spelling.as_str()) {
                        return Err(not_variable(vname.id.spelling.as_str()));
                    }
                    if ass_expr.op != BinaryOperator::Assign {
                        return Err(unknown_identifier(vname.id.spelling.as_str()));
                    }
                    vname.typ = Some(rhs_typ);
                    vname.id.typ = Some(rhs_typ);
                    self.id_table.save_attr(
                        vname.id.spelling.as_str(),
                        Decl::IdDecl(vname.id.clone()),
                    );
                },
                Some(declared) => {
                    if declared != rhs_typ {
                        return Err(reassigned(vname.id.spelling.as_str(), declared, rhs_typ));
                    }
                    vname.typ = Some(rhs_typ);
                    vname.id.typ = Some(rhs_typ);
                },
            }
        }
        ass_expr.typ = Some(rhs_typ);
        Ok(Some(rhs_typ))
    }

    fn visit_ast(&mut self, ast: &mut Ast) -> (res: Self::Result)
        ensures
            ({
                let checked = check_exprs(old(self).id_table@, old(ast).exprs@);
                &&& final(self).id_table@ == checked.scopes
                &&& final(ast).exprs@ == checked.exprs
                &&& match res {
                    Ok(typ) => typ is None && checked.fault is None,
                    Err(err) => checked.fault matches Some(fault) && fault.reported_by(err),
                }
            }),
    {
        let ghost scopes = self.id_table@;
        let ghost exprs = ast.exprs@;
        let n = ast.exprs.len();
        let mut i: usize = 0;
        while i < n
            invariant
                i <= n == exprs.len(),
                ast.exprs@.len() == n,
                check_exprs(scopes, exprs.take(i as int)) == (CheckedAst {
                    scopes: self.id_table@,
                    exprs: ast.exprs@.take(i as int),
                    fault: None,
                }),
                forall|k: int| i <= k < n ==> ast.exprs@[k] == exprs[k],
                scopes == old(self).id_table@,
                exprs == old(ast).exprs@,
            decreases n - i,
        {
            let ghost before = ast.exprs@;
            let res = self.visit_expr(&mut ast.exprs[i]);
            proof {
                assert(exprs.take(i as int + 1).drop_last() =~= exprs.take(i as int));
                assert(ast.exprs@.take(i as int + 1) =~= before.take(i as int).push(
                    ast.exprs@[i as int],
                ));
            }
            match res {
                Ok(_) => {},
                Err(err) => {
                    proof {
                        lemma_check_stops(scopes, exprs, i as int + 1);
                        assert(ast.exprs@ =~= ast.exprs@.take(i as int + 1) + exprs.skip(
                            i as int + 1,
                        ));
                    }
                    return Err(err);
                },
            }
            i += 1;
        }
        proof {
            assert(exprs.take(n as int) =~= exprs);
            assert(ast.exprs@.take(n as int) =~= ast.exprs@);
        }
        Ok(None)
    }

    fn visit_binary_expr(&mut self, bin_expr: &mut BinaryExpr) -> (res: Self::Result)
        ensures
            ({
                let checked = check_binary(old(self).id_table@, *old(bin_expr));
                &&& final(self).id_table@ == checked.scopes
                &&& *final(bin_expr) == checked.node
                &&& reports(res, checked.result)
            }),
        decreases *old(bin_expr), 0int,
    {
        let lhs_typ = self.visit_expr(&mut bin_expr.lhs)?.unwrap();
        let rhs_typ = self.visit_expr(&mut bin_expr.rhs)?.unwrap();
        let op_decl = match self.get_bin_op_spec(&bin_expr.op) {
            Some(Decl::OperatorDecl(OperatorDecl::BinaryOperatorDecl(op_decl))) => *op_decl,
            _ => {
                return Err(not_binary_operator());
            },
        };
        if op_decl.lhs_typ == Type::AnyType && op_decl.rhs_typ == Type::AnyType {
            if lhs_typ != rhs_typ {
                return Err(operands_differ(lhs_typ, rhs_typ));
            }
        } else if lhs_typ != op_decl.lhs_typ {
            return Err(left_mismatch(lhs_typ, op_decl.lhs_typ));
        } else if rhs_typ != op_decl.rhs_typ {
            return Err(right_mismatch(rhs_typ, op_decl.rhs_typ));
        }
        bin_expr.typ = Some(resolve(op_decl.ret_typ, lhs_typ));
        Ok(bin_expr.typ)
    }

    fn visit_bool_expr(&mut self, _bool_expr: &mut bool) -> (res: Self::Result)
        ensures
            *final(self) == *old(self),
            *final(_bool_expr) == *old(_bool_expr),
            res == Ok::<Option<Type>, ExprError>(Some(Type::BoolType)),
    {
        Ok(Some(Type::BoolType))
    }

    fn visit_expr(&mut self, expr: &mut Expr) -> (res: Self::Result)
        ensures
            ({
                let checked = check_expr(old(self).id_table@, *old(expr));
                &&& final(self).id_table@ == checked.scopes
                &&& *final(expr) == checked.node
                &&& reports(res, checked.result)
            }),
        decreases *old(expr), 1int,
    {
        match expr {
            Expr::PrintExpr(print_expr) => self.visit_print_expr(print_expr),
            Expr::VnameExpr(vname_expr) => self.visit_vname_expr(vname_expr),
            Expr::IntegerExpr(int_expr) => self.visit_integer_expr(int_expr),
            Expr::BoolExpr(bool_expr) => self.visit_bool_expr(bool_expr),
            Expr::UnaryExpr(un_expr) => self.visit_unary_expr(un_expr),
            Expr::AssignExpr(ass_expr) => self.visit_assign_expr(ass_expr),
            Expr::BinaryExpr(bin_expr) => self.visit_binary_expr(bin_expr),
        }
    }

    fn visit_identifier(&mut self, id: &mut Identifier) -> (res: Self::Result)
        ensures
            ({
                let checked = check_identifier(old(self).id_table@, *old(id));
                &&& final(self).id_table@ == checked.scopes
                &&& *final(id) == checked.node
                &&& reports(res, checked.result)
            }),
    {
        match self.get_declared_type(id.spelling.as_str()) {
            Some(typ) => {
                id.typ = Some(typ);
                Ok(id.typ)
            },
            None => Err(unknown_identifier(id.spelling.as_str())),
        }
    }

    fn visit_integer_expr(&mut self, _int_expr: &mut i32) -> (res: Self::Result)
        ensures
            *final(self) == *old(self),
            *final(_int_expr) == *old(_int_expr),
            res == Ok::<Option<Type>, ExprError>(Some(Type::IntType)),
    {
        Ok(Some(Type::IntType))
    }

    fn visit_print_expr(&mut self, print_expr: &mut Expr) -> (res: Self::Result)
        ensures
            ({
                let checked = check_expr(old(self).id_table@, *old(print_expr));
                &&& final(self).id_table@ == checked.scopes
                &&& *final(print_expr) == checked.node
                &&& reports(res, checked.result)
            }),
        decreases *old(print_expr), 2int,
    {
        self.visit_expr(print_expr)
    }

    fn visit_unary_expr(&mut self, un_expr: &mut UnaryExpr) -> (res: Self::Result)
        ensures
            ({
                let checked = check_unary(old(self).id_table@, *old(un_expr));
                &&& final(self).id_table@ == checked.scopes
                &&& *final(un_expr) == checked.node
                &&& reports(res, checked.result)
            }),
        decreases *old(un_expr), 0int,
    {
        let elem_typ = self.visit_expr(&mut un_expr.elem)?.unwrap();
        let op_decl = match self.get_unary_op_spec(&un_expr.op) {
            Some(Decl::OperatorDecl(OperatorDecl::UnaryOperatorDecl(op_decl))) => *op_decl,
            _ => {
                return Err(not_unary_operator());
            },
        };
        if op_decl.elem_typ != elem_typ {
            return Err(unary_mismatch(elem_typ, op_decl.elem_typ));
        }
        un_expr.typ = Some(resolve(op_decl.ret_typ, elem_typ));
        Ok(un_expr.typ)
    }

    fn visit_vname_expr(&mut self, vname_expr: &mut VnameExpr) -> (res: Self::Result)
        ensures
            ({
                let checked = check_vname(old(self).id_table@, *old(vname_expr));
                &&& final(self).id_table@ == checked.scopes
                &&& *final(vname_expr) == checked.node
                &&& reports(res, checked.result)
            }),
    {
        let typ = self.visit_identifier(&mut vname_expr.id)?;
        vname_expr.typ = typ;
        Ok(typ)
    }
}

} // verus!
