//! The standard environment: the declarations that level 0 of the
//! identification table holds before any program is checked.
use crate::front::ast::{
    BinaryOperator, BinaryOperatorDecl, ConstDecl, Decl, OperatorDecl, Type, UnaryOperator,
    UnaryOperatorDecl,
};
use crate::middle::id_table::IdentificationTable;
use crate::scope::{lookup, Scopes};
use vstd::prelude::*;

verus! {

/// What each unary operator takes and gives: the logical negation a
/// boolean, the three others an integer.
pub open spec fn unary_spec(op: UnaryOperator) -> UnaryOperatorDecl {
    match op {
        UnaryOperator::LogicalNot => UnaryOperatorDecl {
            elem_typ: Type::BoolType,
            ret_typ: Type::BoolType,
        },
        UnaryOperator::BitwiseNot | UnaryOperator::UnaryMinus | UnaryOperator::UnaryPlus => {
            UnaryOperatorDecl { elem_typ: Type::IntType, ret_typ: Type::IntType }
        },
    }
}

/// What each binary operator takes and gives. Assignment and the two
/// equalities take operands of any one type; assignment gives that type and
/// an equality a boolean. The logical operators take and give booleans;
/// every other operator takes and gives integers.
pub open spec fn binary_spec(op: BinaryOperator) -> BinaryOperatorDecl {
    match op {
        BinaryOperator::Assign => BinaryOperatorDecl {
            lhs_typ: Type::AnyType,
            rhs_typ: Type::AnyType,
            ret_typ: Type::AnyType,
        },
        BinaryOperator::Equal | BinaryOperator::NotEqual => BinaryOperatorDecl {
            lhs_typ: Type::AnyType,
            rhs_typ: Type::AnyType,
            ret_typ: Type::BoolType,
        },
        BinaryOperator::LogicalAnd
        | BinaryOperator::LogicalAndAssign
        | BinaryOperator::LogicalOr
        | BinaryOperator::LogicalOrAssign => BinaryOperatorDecl {
            lhs_typ: Type::BoolType,
            rhs_typ: Type::BoolType,
            ret_typ: Type::BoolType,
        },
        _ => BinaryOperatorDecl {
            lhs_typ: Type::IntType,
            rhs_typ: Type::IntType,
            ret_typ: Type::IntType,
        },
    }
}

/// The declaration of a unary operator in the standard environment.
pub open spec fn unary_decl(op: UnaryOperator) -> Decl {
    Decl::OperatorDecl(OperatorDecl::UnaryOperatorDecl(unary_spec(op)))
}

/// The declaration of a binary operator in the standard environment.
pub open spec fn binary_decl(op: BinaryOperator) -> Decl {
    Decl::OperatorDecl(OperatorDecl::BinaryOperatorDecl(binary_spec(op)))
}

/// The declaration of a boolean constant in the standard environment.
pub open spec fn const_decl(value: bool) -> Decl {
    Decl::ConstDecl(ConstDecl::BoolLiteral(value))
}

/// A level with the standard environment declared in it: the two boolean
/// constants and every operator under its name.
pub open spec fn with_stdenv(level: Map<Seq<char>, Decl>) -> Map<Seq<char>, Decl> {
    level.insert("false"@, const_decl(false)).insert("true"@, const_decl(true))
        .insert(UnaryOperator::BitwiseNot.name(), unary_decl(UnaryOperator::BitwiseNot))
        .insert(UnaryOperator::LogicalNot.name(), unary_decl(UnaryOperator::LogicalNot))
        .insert(UnaryOperator::UnaryPlus.name(), unary_decl(UnaryOperator::UnaryPlus))
        .insert(UnaryOperator::UnaryMinus.name(), unary_decl(UnaryOperator::UnaryMinus))
        .insert(BinaryOperator::Add.name(), binary_decl(BinaryOperator::Add))
        .insert(BinaryOperator::AddAssign.name(), binary_decl(BinaryOperator::AddAssign))
        .insert(BinaryOperator::Assign.name(), binary_decl(BinaryOperator::Assign))
        .insert(BinaryOperator::BitwiseAnd.name(), binary_decl(BinaryOperator::BitwiseAnd))
        .insert(
            BinaryOperator::BitwiseAndAssign.name(),
            binary_decl(BinaryOperator::BitwiseAndAssign),
        )
        .insert(BinaryOperator::BitwiseOr.name(), binary_decl(BinaryOperator::BitwiseOr))
        .insert(
            BinaryOperator::BitwiseOrAssign.name(),
            binary_decl(BinaryOperator::BitwiseOrAssign),
        )
        .insert(BinaryOperator::BitwiseXor.name(), binary_decl(BinaryOperator::BitwiseXor))
        .insert(
            BinaryOperator::BitwiseXorAssign.name(),
            binary_decl(BinaryOperator::BitwiseXorAssign),
        )
        .insert(BinaryOperator::Div.name(), binary_decl(BinaryOperator::Div))
        .insert(BinaryOperator::DivAssign.name(), binary_decl(BinaryOperator::DivAssign))
        .insert(BinaryOperator::Equal.name(), binary_decl(BinaryOperator::Equal))
        .insert(BinaryOperator::GreaterThan.name(), binary_decl(BinaryOperator::GreaterThan))
        .insert(
            BinaryOperator::GreaterThanOrEqual.name(),
            binary_decl(BinaryOperator::GreaterThanOrEqual),
        )
        .insert(BinaryOperator::LeftShift.name(), binary_decl(BinaryOperator::LeftShift))
        .insert(
            BinaryOperator::LeftShiftAssign.name(),
            binary_decl(BinaryOperator::LeftShiftAssign),
        )
        .insert(BinaryOperator::LessThan.name(), binary_decl(BinaryOperator::LessThan))
        .insert(
            BinaryOperator::LessThanOrEqual.name(),
            binary_decl(BinaryOperator::LessThanOrEqual),
        )
        .insert(BinaryOperator::LogicalAnd.name(), binary_decl(BinaryOperator::LogicalAnd))
        .insert(
            BinaryOperator::LogicalAndAssign.name(),
            binary_decl(BinaryOperator::LogicalAndAssign),
        )
        .insert(BinaryOperator::LogicalOr.name(), binary_decl(BinaryOperator::LogicalOr))
        .insert(
            BinaryOperator::LogicalOrAssign.name(),
            binary_decl(BinaryOperator::LogicalOrAssign),
        )
        .insert(BinaryOperator::Mod.name(), binary_decl(BinaryOperator::Mod))
        .insert(BinaryOperator::ModAssign.name(), binary_decl(BinaryOperator::ModAssign))
        .insert(BinaryOperator::Mul.name(), binary_decl(BinaryOperator::Mul))
        .insert(BinaryOperator::MulAssign.name(), binary_decl(BinaryOperator::MulAssign))
        .insert(BinaryOperator::NotEqual.name(), binary_decl(BinaryOperator::NotEqual))
        .insert(BinaryOperator::RightShift.name(), binary_decl(BinaryOperator::RightShift))
        .insert(
            BinaryOperator::RightShiftAssign.name(),
            binary_decl(BinaryOperator::RightShiftAssign),
        )
        .insert(BinaryOperator::Sub.name(), binary_decl(BinaryOperator::Sub))
        .insert(BinaryOperator::SubAssign.name(), binary_decl(BinaryOperator::SubAssign))
}

/// The levels after the standard environment is loaded into the innermost one.
pub open spec fn loaded(scopes: Scopes<Decl>) -> Scopes<Decl> {
    scopes.update(scopes.len() - 1, with_stdenv(scopes.last()))
}

/// No two declarations of the standard environment share a name: the names
/// differ in their length or in one of three of their characters.
pub proof fn lemma_names_differ()
    ensures
        forall|a: UnaryOperator, b: UnaryOperator| a != b ==> a.name() != b.name(),
        forall|a: BinaryOperator, b: BinaryOperator| a != b ==> a.name() != b.name(),
        forall|a: UnaryOperator, b: BinaryOperator| a.name() != b.name(),
        forall|a: UnaryOperator| a.name() != "true"@ && a.name() != "false"@,
        forall|a: BinaryOperator| a.name() != "true"@ && a.name() != "false"@,
        "true"@ != "false"@,
{
    reveal_strlit("true");
    assert("true"@.len() == 4 && "true"@[0] == 't' && "true"@[1] == 'r');
    reveal_strlit("false");
    assert("false"@.len() == 5 && "false"@[0] == 'f' && "false"@[1] == 'a');
    reveal_strlit("bitwise_not");
    assert(
        "bitwise_not"@.len() == 11
        && "bitwise_not"@[0] == 'b'
        && "bitwise_not"@[1] == 'i'
        && "bitwise_not"@[8] == 'n'
    );
    reveal_strlit("logical_not");
    assert(
        "logical_not"@.len() == 11
        && "logical_not"@[0] == 'l'
        && "logical_not"@[1] == 'o'
        && "logical_not"@[8] == 'n'
    );
    reveal_strlit("unary_plus");
    assert(
        "unary_plus"@.len() == 10
        && "unary_plus"@[0] == 'u'
        && "unary_plus"@[1] == 'n'
        && "unary_plus"@[8] == 'u'
    );
    reveal_strlit("unary_minus");
    assert(
        "unary_minus"@.len() == 11
        && "unary_minus"@[0] == 'u'
        && "unary_minus"@[1] == 'n'
        && "unary_minus"@[8] == 'n'
    );
    reveal_strlit("add");
    assert("add"@.len() == 3 && "add"@[0] == 'a' && "add"@[1] == 'd');
    reveal_strlit("add_assign");
    assert(
        "add_assign"@.len() == 10
        && "add_assign"@[0] == 'a'
        && "add_assign"@[1] == 'd'
        && "add_assign"@[8] == 'g'
    );
    reveal_strlit("assign");
    assert("assign"@.len() == 6 && "assign"@[0] == 'a' && "assign"@[1] == 's');
    reveal_strlit("bitwise_and");
    assert(
        "bitwise_and"@.len() == 11
        && "bitwise_and"@[0] == 'b'
        && "bitwise_and"@[1] == 'i'
        && "bitwise_and"@[8] == 'a'
    );
    reveal_strlit("bitwise_and_assign");
    assert(
        "bitwise_and_assign"@.len() == 18
        && "bitwise_and_assign"@[0] == 'b'
        && "bitwise_and_assign"@[1] == 'i'
        && "bitwise_and_assign"@[8] == 'a'
    );
    reveal_strlit("bitwise_or");
    assert(
        "bitwise_or"@.len() == 10
        && "bitwise_or"@[0] == 'b'
        && "bitwise_or"@[1] == 'i'
        && "bitwise_or"@[8] == 'o'
    );
    reveal_strlit("bitwise_or_assign");
    assert(
        "bitwise_or_assign"@.len() == 17
        && "bitwise_or_assign"@[0] == 'b'
        && "bitwise_or_assign"@[1] == 'i'
        && "bitwise_or_assign"@[8] == 'o'
    );
    reveal_strlit("bitwise_xor");
    assert(
        "bitwise_xor"@.len() == 11
        && "bitwise_xor"@[0] == 'b'
        && "bitwise_xor"@[1] == 'i'
        && "bitwise_xor"@[8] == 'x'
    );
    reveal_strlit("bitwise_xor_assign");
    assert(
        "bitwise_xor_assign"@.len() == 18
        && "bitwise_xor_assign"@[0] == 'b'
        && "bitwise_xor_assign"@[1] == 'i'
        && "bitwise_xor_assign"@[8] == 'x'
    );
    reveal_strlit("div");
    assert("div"@.len() == 3 && "div"@[0] == 'd' && "div"@[1] == 'i');
    reveal_strlit("div_assign");
    assert(
        "div_assign"@.len() == 10
        && "div_assign"@[0] == 'd'
        && "div_assign"@[1] == 'i'
        && "div_assign"@[8] == 'g'
    );
    reveal_strlit("equal");
    assert("equal"@.len() == 5 && "equal"@[0] == 'e' && "equal"@[1] == 'q');
    reveal_strlit("greater_than");
    assert(
        "greater_than"@.len() == 12
        && "greater_than"@[0] == 'g'
        && "greater_than"@[1] == 'r'
        && "greater_than"@[8] == 't'
    );
    reveal_strlit("greater_than_or_equal");
    assert(
        "greater_than_or_equal"@.len() == 21
        && "greater_than_or_equal"@[0] == 'g'
        && "greater_than_or_equal"@[1] == 'r'
        && "greater_than_or_equal"@[8] == 't'
    );
    reveal_strlit("left_shift");
    assert(
        "left_shift"@.len() == 10
        && "left_shift"@[0] == 'l'
        && "left_shift"@[1] == 'e'
        && "left_shift"@[8] == 'f'
    );
    reveal_strlit("left_shift_assign");
    assert(
        "left_shift_assign"@.len() == 17
        && "left_shift_assign"@[0] == 'l'
        && "left_shift_assign"@[1] == 'e'
        && "left_shift_assign"@[8] == 'f'
    );
    reveal_strlit("less_than");
    assert(
        "less_than"@.len() == 9
        && "less_than"@[0] == 'l'
        && "less_than"@[1] == 'e'
        && "less_than"@[8] == 'n'
    );
    reveal_strlit("less_than_or_equal");
    assert(
        "less_than_or_equal"@.len() == 18
        && "less_than_or_equal"@[0] == 'l'
        && "less_than_or_equal"@[1] == 'e'
        && "less_than_or_equal"@[8] == 'n'
    );
    reveal_strlit("logical_and");
    assert(
        "logical_and"@.len() == 11
        && "logical_and"@[0] == 'l'
        && "logical_and"@[1] == 'o'
        && "logical_and"@[8] == 'a'
    );
    reveal_strlit("logical_and_assign");
    assert(
        "logical_and_assign"@.len() == 18
        && "logical_and_assign"@[0] == 'l'
        && "logical_and_assign"@[1] == 'o'
        && "logical_and_assign"@[8] == 'a'
    );
    reveal_strlit("logical_or");
    assert(
        "logical_or"@.len() == 10
        && "logical_or"@[0] == 'l'
        && "logical_or"@[1] == 'o'
        && "logical_or"@[8] == 'o'
    );
    reveal_strlit("logical_or_assign");
    assert(
        "logical_or_assign"@.len() == 17
        && "logical_or_assign"@[0] == 'l'
        && "logical_or_assign"@[1] == 'o'
        && "logical_or_assign"@[8] == 'o'
    );
    reveal_strlit("mod");
    assert("mod"@.len() == 3 && "mod"@[0] == 'm' && "mod"@[1] == 'o');
    reveal_strlit("mod_assign");
    assert(
        "mod_assign"@.len() == 10
        && "mod_assign"@[0] == 'm'
        && "mod_assign"@[1] == 'o'
        && "mod_assign"@[8] == 'g'
    );
    reveal_strlit("mul");
    assert("mul"@.len() == 3 && "mul"@[0] == 'm' && "mul"@[1] == 'u');
    reveal_strlit("mul_assign");
    assert(
        "mul_assign"@.len() == 10
        && "mul_assign"@[0] == 'm'
        && "mul_assign"@[1] == 'u'
        && "mul_assign"@[8] == 'g'
    );
    reveal_strlit("not_equal");
    assert(
        "not_equal"@.len() == 9
        && "not_equal"@[0] == 'n'
        && "not_equal"@[1] == 'o'
        && "not_equal"@[8] == 'l'
    );
    reveal_strlit("right_shift");
    assert(
        "right_shift"@.len() == 11
        && "right_shift"@[0] == 'r'
        && "right_shift"@[1] == 'i'
        && "right_shift"@[8] == 'i'
    );
    reveal_strlit("right_shift_assign");
    assert(
        "right_shift_assign"@.len() == 18
        && "right_shift_assign"@[0] == 'r'
        && "right_shift_assign"@[1] == 'i'
        && "right_shift_assign"@[8] == 'i'
    );
    reveal_strlit("sub");
    assert("sub"@.len() == 3 && "sub"@[0] == 's' && "sub"@[1] == 'u');
    reveal_strlit("sub_assign");
    assert(
        "sub_assign"@.len() == 10
        && "sub_assign"@[0] == 's'
        && "sub_assign"@[1] == 'u'
        && "sub_assign"@[8] == 'g'
    );
}

/// Once the standard environment is loaded, every operator and both boolean
/// constants are found under their names, and every other name is found as
/// before.
pub proof fn lemma_loaded_lookup(scopes: Scopes<Decl>)
    requires
        scopes.len() > 0,
    ensures
        forall|op: UnaryOperator| #[trigger]
            lookup(loaded(scopes), op.name()) == Some(unary_decl(op)),
        forall|op: BinaryOperator| #[trigger]
            lookup(loaded(scopes), op.name()) == Some(binary_decl(op)),
        lookup(loaded(scopes), "true"@) == Some(const_decl(true)),
        lookup(loaded(scopes), "false"@) == Some(const_decl(false)),
        forall|name: Seq<char>|
            !with_stdenv(Map::empty()).contains_key(name) ==> #[trigger] lookup(
                loaded(scopes),
                name,
            ) == lookup(scopes, name),
{
    lemma_names_differ();
    assert(loaded(scopes).drop_last() =~= scopes.drop_last());
}

fn unary_operator_decl(op: UnaryOperator) -> (decl: Decl)
    ensures
        decl == unary_decl(op),
{
    let spec = match op {
        UnaryOperator::LogicalNot => UnaryOperatorDecl::new(Type::BoolType, Type::BoolType),
        UnaryOperator::BitwiseNot | UnaryOperator::UnaryMinus | UnaryOperator::UnaryPlus => {
            UnaryOperatorDecl::new(Type::IntType, Type::IntType)
        },
    };
    Decl::OperatorDecl(OperatorDecl::UnaryOperatorDecl(spec))
}

fn binary_operator_decl(op: BinaryOperator) -> (decl: Decl)
    ensures
        decl == binary_decl(op),
{
    let spec = match op {
        BinaryOperator::Assign => BinaryOperatorDecl::new(
            Type::AnyType,
            Type::AnyType,
            Type::AnyType,
        ),
        BinaryOperator::Equal | BinaryOperator::NotEqual => BinaryOperatorDecl::new(
            Type::AnyType,
            Type::AnyType,
            Type::BoolType,
        ),
        BinaryOperator::LogicalAnd
        | BinaryOperator::LogicalAndAssign
        | BinaryOperator::LogicalOr
        | BinaryOperator::LogicalOrAssign => BinaryOperatorDecl::new(
            Type::BoolType,
            Type::BoolType,
            Type::BoolType,
        ),
        _ => BinaryOperatorDecl::new(Type::IntType, Type::IntType, Type::IntType),
    };
    Decl::OperatorDecl(OperatorDecl::BinaryOperatorDecl(spec))
}

fn load_unary(id_table: &mut IdentificationTable, op: UnaryOperator)
    ensures
        final(id_table)@ == old(id_table)@.update(
            old(id_table)@.len() - 1,
            old(id_table)@.last().insert(op.name(), unary_decl(op)),
        ),
{
    id_table.save_attr(op.as_str(), unary_operator_decl(op));
}

fn load_binary(id_table: &mut IdentificationTable, op: BinaryOperator)
    ensures
        final(id_table)@ == old(id_table)@.update(
            old(id_table)@.len() - 1,
            old(id_table)@.last().insert(op.name(), binary_decl(op)),
        ),
{
    id_table.save_attr(op.as_str(), binary_operator_decl(op));
}

/// Loads the standard environment into the innermost level of `id_table`.
pub fn load_stdenv(id_table: &mut IdentificationTable)
    ensures
        final(id_table)@ == loaded(old(id_table)@),
{
    proof {
        id_table.table.lemma_has_level_zero();
    }
    id_table.save_attr("false", Decl::ConstDecl(ConstDecl::BoolLiteral(false)));
    id_table.save_attr("true", Decl::ConstDecl(ConstDecl::BoolLiteral(true)));
    load_unary(id_table, UnaryOperator::BitwiseNot);
    load_unary(id_table, UnaryOperator::LogicalNot);
    load_unary(id_table, UnaryOperator::UnaryPlus);
    load_unary(id_table, UnaryOperator::UnaryMinus);
    load_binary(id_table, BinaryOperator::Add);
    load_binary(id_table, BinaryOperator::AddAssign);
    load_binary(id_table, BinaryOperator::Assign);
    load_binary(id_table, BinaryOperator::BitwiseAnd);
    load_binary(id_table, BinaryOperator::BitwiseAndAssign);
    load_binary(id_table, BinaryOperator::BitwiseOr);
    load_binary(id_table, BinaryOperator::BitwiseOrAssign);
    load_binary(id_table, BinaryOperator::BitwiseXor);
    load_binary(id_table, BinaryOperator::BitwiseXorAssign);
    load_binary(id_table, BinaryOperator::Div);
    load_binary(id_table, BinaryOperator::DivAssign);
    load_binary(id_table, BinaryOperator::Equal);
    load_binary(id_table, BinaryOperator::GreaterThan);
    load_binary(id_table, BinaryOperator::GreaterThanOrEqual);
    load_binary(id_table, BinaryOperator::LeftShift);
    load_binary(id_table, BinaryOperator::LeftShiftAssign);
    load_binary(id_table, BinaryOperator::LessThan);
    load_binary(id_table, BinaryOperator::LessThanOrEqual);
    load_binary(id_table, BinaryOperator::LogicalAnd);
    load_binary(id_table, BinaryOperator::LogicalAndAssign);
    load_binary(id_table, BinaryOperator::LogicalOr);
    load_binary(id_table, BinaryOperator::LogicalOrAssign);
    load_binary(id_table, BinaryOperator::Mod);
    load_binary(id_table, BinaryOperator::ModAssign);
    load_binary(id_table, BinaryOperator::Mul);
    load_binary(id_table, BinaryOperator::MulAssign);
    load_binary(id_table, BinaryOperator::NotEqual);
    load_binary(id_table, BinaryOperator::RightShift);
    load_binary(id_table, BinaryOperator::RightShiftAssign);
    load_binary(id_table, BinaryOperator::Sub);
    load_binary(id_table, BinaryOperator::SubAssign);
    assert(id_table@ =~= loaded(old(id_table)@));
}

} // verus!
