//! The syntax tree, the types that the checker infers, and the declarations
//! that the identification table holds.
use vstd::prelude::*;
use vstd::string::*;

verus! {

/// A program: its top-level expressions in order.
#[derive(Debug, PartialEq)]
pub struct Ast {
    pub exprs: Vec<Expr>,
}

impl Ast {
    pub fn new(exprs: Vec<Expr>) -> (ast: Self)
        ensures
            ast.exprs == exprs,
    {
        Ast { exprs }
    }
}

#[derive(Debug, PartialEq)]
pub enum Expr {
    AssignExpr(AssignExpr),
    BinaryExpr(BinaryExpr),
    BoolExpr(bool),
    IntegerExpr(i32),
    PrintExpr(Box<Expr>),
    UnaryExpr(UnaryExpr),
    VnameExpr(VnameExpr),
}

/// A reference to a variable, with the type the checker found for it.
#[derive(Debug, PartialEq)]
pub struct VnameExpr {
    pub id: Identifier,
    pub typ: Option<Type>,
}

impl VnameExpr {
    pub fn new(id: Identifier) -> (vname: Self)
        ensures
            vname.id == id,
            vname.typ is None,
    {
        VnameExpr { id, typ: None }
    }
}

impl Clone for VnameExpr {
    fn clone(&self) -> (vname: Self)
        ensures
            vname == *self,
    {
        VnameExpr { id: self.id.clone(), typ: self.typ }
    }
}

/// An assignment, plain or compound, to the variable that `vname` refers to.
#[derive(Debug, PartialEq)]
pub struct AssignExpr {
    pub vname: Box<Expr>,
    pub op: BinaryOperator,
    pub expr: Box<Expr>,
    pub typ: Option<Type>,
}

impl AssignExpr {
    pub fn new(vname: Box<Expr>, op: BinaryOperator, expr: Box<Expr>) -> (assign: Self)
        ensures
            assign.vname == vname,
            assign.op == op,
            assign.expr == expr,
            assign.typ is None,
    {
        AssignExpr { vname, op, expr, typ: None }
    }
}

#[derive(Debug, PartialEq)]
pub struct UnaryExpr {
    pub op: UnaryOperator,
    pub elem: Box<Expr>,
    pub typ: Option<Type>,
}

impl UnaryExpr {
    pub fn new(op: UnaryOperator, elem: Box<Expr>) -> (unary: Self)
        ensures
            unary.op == op,
            unary.elem == elem,
            unary.typ is None,
    {
        UnaryExpr { op, elem, typ: None }
    }
}

#[derive(Debug, PartialEq)]
pub struct BinaryExpr {
    pub lhs: Box<Expr>,
    pub op: BinaryOperator,
    pub rhs: Box<Expr>,
    pub typ: Option<Type>,
}

impl BinaryExpr {
    pub fn new(lhs: Box<Expr>, op: BinaryOperator, rhs: Box<Expr>) -> (binary: Self)
        ensures
            binary.lhs == lhs,
            binary.op == op,
            binary.rhs == rhs,
            binary.typ is None,
    {
        BinaryExpr { lhs, op, rhs, typ: None }
    }
}

/// A name, with the type that was inferred for it.
#[derive(Debug, PartialEq)]
pub struct Identifier {
    pub spelling: String,
    pub typ: Option<Type>,
}

impl Identifier {
    pub fn new(spelling: String) -> (id: Self)
        ensures
            id.spelling == spelling,
            id.typ is None,
    {
        Identifier { spelling, typ: None }
    }
}

impl Clone for Identifier {
    fn clone(&self) -> (id: Self)
        ensures
            id == *self,
    {
        Identifier { spelling: self.spelling.clone(), typ: self.typ }
    }
}

#[derive(Debug, Copy, Clone, PartialEq, Eq, Structural)]
pub enum UnaryOperator {
    BitwiseNot,
    LogicalNot,
    UnaryMinus,
    UnaryPlus,
}

impl UnaryOperator {
    /// The name under which the standard environment declares the operator.
    pub open spec fn name(self) -> Seq<char> {
        match self {
            UnaryOperator::BitwiseNot => "bitwise_not"@,
            UnaryOperator::LogicalNot => "logical_not"@,
            UnaryOperator::UnaryMinus => "unary_minus"@,
            UnaryOperator::UnaryPlus => "unary_plus"@,
        }
    }

    pub fn as_str(&self) -> (s: &'static str)
        ensures
            s@ == self.name(),
    {
        match self {
            UnaryOperator::BitwiseNot => "bitwise_not",
            UnaryOperator::LogicalNot => "logical_not",
            UnaryOperator::UnaryMinus => "unary_minus",
            UnaryOperator::UnaryPlus => "unary_plus",
        }
    }
}

#[derive(Debug, Copy, Clone, PartialEq, Eq, Structural)]
pub enum BinaryOperator {
    Add,
    AddAssign,
    Assign,
    BitwiseAnd,
    BitwiseAndAssign,
    BitwiseOr,
    BitwiseOrAssign,
    BitwiseXor,
    BitwiseXorAssign,
    Div,
    DivAssign,
    Equal,
    GreaterThan,
    GreaterThanOrEqual,
    LeftShift,
    LeftShiftAssign,
    LessThan,
    LessThanOrEqual,
    LogicalAnd,
    LogicalAndAssign,
    LogicalOr,
    LogicalOrAssign,
    Mod,
    ModAssign,
    Mul,
    MulAssign,
    NotEqual,
    RightShift,
    RightShiftAssign,
    Sub,
    SubAssign,
}

impl BinaryOperator {
    /// The name under which the standard environment declares the operator.
    pub open spec fn name(self) -> Seq<char> {
        match self {
            BinaryOperator::Add => "add"@,
            BinaryOperator::AddAssign => "add_assign"@,
            BinaryOperator::Assign => "assign"@,
            BinaryOperator::BitwiseAnd => "bitwise_and"@,
            BinaryOperator::BitwiseAndAssign => "bitwise_and_assign"@,
            BinaryOperator::BitwiseOr => "bitwise_or"@,
            BinaryOperator::BitwiseOrAssign => "bitwise_or_assign"@,
            BinaryOperator::BitwiseXor => "bitwise_xor"@,
            BinaryOperator::BitwiseXorAssign => "bitwise_xor_assign"@,
            BinaryOperator::Div => "div"@,
            BinaryOperator::DivAssign => "div_assign"@,
            BinaryOperator::Equal => "equal"@,
            BinaryOperator::GreaterThan => "greater_than"@,
            BinaryOperator::GreaterThanOrEqual => "greater_than_or_equal"@,
            BinaryOperator::LeftShift => "left_shift"@,
            BinaryOperator::LeftShiftAssign => "left_shift_assign"@,
            BinaryOperator::LessThan => "less_than"@,
            BinaryOperator::LessThanOrEqual => "less_than_or_equal"@,
            BinaryOperator::LogicalAnd => "logical_and"@,
            BinaryOperator::LogicalAndAssign => "logical_and_assign"@,
            BinaryOperator::LogicalOr => "logical_or"@,
            BinaryOperator::LogicalOrAssign => "logical_or_assign"@,
            BinaryOperator::Mod => "mod"@,
            BinaryOperator::ModAssign => "mod_assign"@,
            BinaryOperator::Mul => "mul"@,
            BinaryOperator::MulAssign => "mul_assign"@,
            BinaryOperator::NotEqual => "not_equal"@,
            BinaryOperator::RightShift => "right_shift"@,
            BinaryOperator::RightShiftAssign => "right_shift_assign"@,
            BinaryOperator::Sub => "sub"@,
            BinaryOperator::SubAssign => "sub_assign"@,
        }
    }

    pub fn as_str(&self) -> (s: &'static str)
        ensures
            s@ == self.name(),
    {
        match self {
            BinaryOperator::Add => "add",
            BinaryOperator::AddAssign => "add_assign",
            BinaryOperator::Assign => "assign",
            BinaryOperator::BitwiseAnd => "bitwise_and",
            BinaryOperator::BitwiseAndAssign => "bitwise_and_assign",
            BinaryOperator::BitwiseOr => "bitwise_or",
            BinaryOperator::BitwiseOrAssign => "bitwise_or_assign",
            BinaryOperator::BitwiseXor => "bitwise_xor",
            BinaryOperator::BitwiseXorAssign => "bitwise_xor_assign",
            BinaryOperator::Div => "div",
            BinaryOperator::DivAssign => "div_assign",
            BinaryOperator::Equal => "equal",
            BinaryOperator::GreaterThan => "greater_than",
            BinaryOperator::GreaterThanOrEqual => "greater_than_or_equal",
            BinaryOperator::LeftShift => "left_shift",
            BinaryOperator::LeftShiftAssign => "left_shift_assign",
            BinaryOperator::LessThan => "less_than",
            BinaryOperator::LessThanOrEqual => "less_than_or_equal",
            BinaryOperator::LogicalAnd => "logical_and",
            BinaryOperator::LogicalAndAssign => "logical_and_assign",
            BinaryOperator::LogicalOr => "logical_or",
            BinaryOperator::LogicalOrAssign => "logical_or_assign",
            BinaryOperator::Mod => "mod",
            BinaryOperator::ModAssign => "mod_assign",
            BinaryOperator::Mul => "mul",
            BinaryOperator::MulAssign => "mul_assign",
            BinaryOperator::NotEqual => "not_equal",
            BinaryOperator::RightShift => "right_shift",
            BinaryOperator::RightShiftAssign => "right_shift_assign",
            BinaryOperator::Sub => "sub",
            BinaryOperator::SubAssign => "sub_assign",
        }
    }
}

/// The type of an expression. `AnyType` stands in operator declarations for
/// "both operands of one type, whichever it is".
#[derive(Debug, Copy, Clone, PartialEq, Eq, Structural)]
pub enum Type {
    AnyType,
    BoolType,
    IntType,
}

impl Type {
    /// The name of the type as diagnostics show it.
    pub open spec fn name(self) -> Seq<char> {
        match self {
            Type::AnyType => "AnyType"@,
            Type::BoolType => "BoolType"@,
            Type::IntType => "IntType"@,
        }
    }

    pub fn as_str(&self) -> (s: &'static str)
        ensures
            s@ == self.name(),
    {
        match self {
            Type::AnyType => "AnyType",
            Type::BoolType => "BoolType",
            Type::IntType => "IntType",
        }
    }
}

/// What a name stands for in the identification table.
#[derive(Debug, PartialEq)]
pub enum Decl {
    ConstDecl(ConstDecl),
    OperatorDecl(OperatorDecl),
    IdDecl(Identifier),
}

impl Clone for Decl {
    fn clone(&self) -> (decl: Self)
        ensures
            decl == *self,
    {
        match self {
            Decl::ConstDecl(c) => Decl::ConstDecl(*c),
            Decl::OperatorDecl(o) => Decl::OperatorDecl(*o),
            Decl::IdDecl(id) => Decl::IdDecl(id.clone()),
        }
    }
}

#[derive(Debug, Copy, Clone, PartialEq, Eq, Structural)]
pub enum ConstDecl {
    IntegerLiteral(i32),
    BoolLiteral(bool),
}

#[derive(Debug, Copy, Clone, PartialEq, Eq, Structural)]
pub enum OperatorDecl {
    UnaryOperatorDecl(UnaryOperatorDecl),
    BinaryOperatorDecl(BinaryOperatorDecl),
}

/// What a unary operator takes and gives.
#[derive(Debug, Copy, Clone, PartialEq, Eq, Structural)]
pub struct UnaryOperatorDecl {
    pub elem_typ: Type,
    pub ret_typ: Type,
}

impl UnaryOperatorDecl {
    pub fn new(elem_typ: Type, ret_typ: Type) -> (decl: Self)
        ensures
            decl == (UnaryOperatorDecl { elem_typ, ret_typ }),
    {
        UnaryOperatorDecl { elem_typ, ret_typ }
    }
}

/// What a binary operator takes and gives.
#[derive(Debug, Copy, Clone, PartialEq, Eq, Structural)]
pub struct BinaryOperatorDecl {
    pub lhs_typ: Type,
    pub rhs_typ: Type,
    pub ret_typ: Type,
}

impl BinaryOperatorDecl {
    pub fn new(lhs_typ: Type, rhs_typ: Type, ret_typ: Type) -> (decl: Self)
        ensures
            decl == (BinaryOperatorDecl { lhs_typ, rhs_typ, ret_typ }),
    {
        BinaryOperatorDecl { lhs_typ, rhs_typ, ret_typ }
    }
}

} // verus!
