//! Runtime values, the operators on them, and the runtime environment.
use crate::error::{ExprError, ExprErrorKind};
use crate::scope::{bind, lookup, ScopeTable, Scopes};
use crate::text::{push_signed_decimal, signed_decimal};
use vstd::prelude::*;
use vstd::std_specs::cmp::PartialEqSpecImpl;
use vstd::string::*;

verus! {

/// A runtime value. `NoValue` is what a `print` yields, and what an operator
/// yields on operands it is not made for. `Float` holds the bits of a 64-bit
/// IEEE 754 number; no expression of the language produces one.
#[derive(Debug, Clone, Copy)]
pub enum ExprValue {
    NoValue,
    Bool(bool),
    Int(i32),
    Float(u64),
}

/// Whether the bits are those of a NaN: all exponent bits set, and a
/// fraction that is not zero.
pub open spec fn float_is_nan(bits: u64) -> bool {
    bits & 0x7ff0_0000_0000_0000 == 0x7ff0_0000_0000_0000 && bits & 0x000f_ffff_ffff_ffff != 0
}

/// A number that orders the floats which are no NaN as their values are
/// ordered: the magnitude bits, negated where the sign bit is set. The two
/// zeros have one key.
pub open spec fn float_key(bits: u64) -> int {
    if bits & 0x8000_0000_0000_0000 != 0 {
        -((bits & 0x7fff_ffff_ffff_ffff) as int)
    } else {
        (bits & 0x7fff_ffff_ffff_ffff) as int
    }
}

fn is_nan(bits: u64) -> (nan: bool)
    ensures
        nan == float_is_nan(bits),
{
    bits & 0x7ff0_0000_0000_0000 == 0x7ff0_0000_0000_0000 && bits & 0x000f_ffff_ffff_ffff != 0
}

fn key_of(bits: u64) -> (key: i128)
    ensures
        key == float_key(bits),
{
    let magnitude = (bits & 0x7fff_ffff_ffff_ffff) as i128;
    if bits & 0x8000_0000_0000_0000 != 0 {
        -magnitude
    } else {
        magnitude
    }
}

impl ExprValue {
    /// Whether two values are equal: of one kind and equal in what they
    /// hold, floats as numbers, so that a NaN equals nothing.
    pub open spec fn same(self, other: ExprValue) -> bool {
        match (self, other) {
            (ExprValue::NoValue, ExprValue::NoValue) => true,
            (ExprValue::Bool(a), ExprValue::Bool(b)) => a == b,
            (ExprValue::Int(a), ExprValue::Int(b)) => a == b,
            (ExprValue::Float(a), ExprValue::Float(b)) => !float_is_nan(a) && !float_is_nan(b)
                && float_key(a) == float_key(b),
            _ => false,
        }
    }

    /// The place of the value's kind in the order of the kinds.
    pub open spec fn rank(self) -> int {
        match self {
            ExprValue::NoValue => 0,
            ExprValue::Bool(_) => 1,
            ExprValue::Int(_) => 2,
            ExprValue::Float(_) => 3,
        }
    }

    /// Whether the value comes before `other`: within one kind by what the
    /// values hold, `false` before `true` and numbers by size, a NaN neither
    /// before nor behind anything; else by the order of the kinds.
    pub open spec fn less(self, other: ExprValue) -> bool {
        match (self, other) {
            (ExprValue::Bool(a), ExprValue::Bool(b)) => !a && b,
            (ExprValue::Int(a), ExprValue::Int(b)) => a < b,
            (ExprValue::Float(a), ExprValue::Float(b)) => !float_is_nan(a) && !float_is_nan(b)
                && float_key(a) < float_key(b),
            _ => self.rank() < other.rank(),
        }
    }

    pub fn less_than(&self, other: &ExprValue) -> (b: bool)
        ensures
            b == self.less(*other),
    {
        match (*self, *other) {
            (ExprValue::Bool(a), ExprValue::Bool(b)) => !a && b,
            (ExprValue::Int(a), ExprValue::Int(b)) => a < b,
            (ExprValue::Float(a), ExprValue::Float(b)) => !is_nan(a) && !is_nan(b) && key_of(a)
                < key_of(b),
            (ExprValue::NoValue, ExprValue::NoValue) => false,
            (ExprValue::NoValue, _) => true,
            (ExprValue::Bool(_), ExprValue::Int(_)) => true,
            (ExprValue::Bool(_), ExprValue::Float(_)) => true,
            (ExprValue::Int(_), ExprValue::Float(_)) => true,
            _ => false,
        }
    }
}

impl PartialEq for ExprValue {
    fn eq(&self, other: &ExprValue) -> (b: bool) {
        match (*self, *other) {
            (ExprValue::NoValue, ExprValue::NoValue) => true,
            (ExprValue::Bool(a), ExprValue::Bool(b)) => a == b,
            (ExprValue::Int(a), ExprValue::Int(b)) => a == b,
            (ExprValue::Float(a), ExprValue::Float(b)) => !is_nan(a) && !is_nan(b) && key_of(a)
                == key_of(b),
            _ => false,
        }
    }
}

impl PartialEqSpecImpl for ExprValue {
    open spec fn obeys_eq_spec() -> bool {
        true
    }

    open spec fn eq_spec(&self, other: &ExprValue) -> bool {
        self.same(*other)
    }
}

/// Why evaluation stopped.
pub enum EvalFault {
    /// The result of an integer operation is no 32-bit integer.
    Overflow,
    /// An integer is divided by zero.
    DivisionByZero,
    /// An integer is shifted by less than 0 or by more than 31 bits.
    ShiftOutOfRange,
    /// The operator of an assignment does not assign, or the operator of a
    /// binary expression does.
    Unsupported,
}

impl EvalFault {
    pub open spec fn message(self) -> Seq<char> {
        match self {
            EvalFault::Overflow => "integer overflow"@,
            EvalFault::DivisionByZero => "division by zero"@,
            EvalFault::ShiftOutOfRange => "shift amount out of range"@,
            EvalFault::Unsupported => "unsupported operator"@,
        }
    }

    /// Whether `err` is the error that reports this fault.
    pub open spec fn reported_by(self, err: ExprError) -> bool {
        &&& err.kind == ExprErrorKind::InterpreterError
        &&& err.message@ == self.message()
        &&& err.loc is None
    }

    pub fn to_error(&self) -> (err: ExprError)
        ensures
            self.reported_by(err),
    {
        let message = match self {
            EvalFault::Overflow => "integer overflow",
            EvalFault::DivisionByZero => "division by zero",
            EvalFault::ShiftOutOfRange => "shift amount out of range",
            EvalFault::Unsupported => "unsupported operator",
        };
        ExprError::new(ExprErrorKind::InterpreterError, String::from_str(message))
    }
}

/// What an evaluation comes to: a value, or the fault that stopped it.
pub type Outcome = Result<ExprValue, EvalFault>;

/// Whether `res` reports the outcome `outcome`.
pub open spec fn reports(res: Result<ExprValue, ExprError>, outcome: Outcome) -> bool {
    match res {
        Ok(value) => outcome == Ok::<ExprValue, EvalFault>(value),
        Err(err) => outcome matches Err(fault) && fault.reported_by(err),
    }
}

/// The integer `v` as a value, where it is a 32-bit integer.
pub open spec fn int_value(v: int) -> Outcome {
    if i32::MIN <= v <= i32::MAX {
        Ok(ExprValue::Int(v as i32))
    } else {
        Err(EvalFault::Overflow)
    }
}

/// The quotient of `a` by `b`, rounded toward zero.
pub open spec fn quotient(a: int, b: int) -> int {
    if a >= 0 && b > 0 {
        a / b
    } else if a < 0 && b < 0 {
        (-a) / (-b)
    } else if a < 0 {
        -((-a) / b)
    } else {
        -(a / (-b))
    }
}

/// The remainder that `quotient` leaves: it has the sign of `a`.
pub open spec fn remainder(a: int, b: int) -> int {
    if a >= 0 && b > 0 {
        a % b
    } else if a < 0 && b < 0 {
        -((-a) % (-b))
    } else if a < 0 {
        -((-a) % b)
    } else {
        a % (-b)
    }
}

/// Quotient and remainder make up the dividend, and the remainder is closer
/// to zero than the divisor and not of the other sign than the dividend.
pub proof fn lemma_quotient_remainder(a: int, b: int)
    requires
        b != 0,
    ensures
        a == b * quotient(a, b) + remainder(a, b),
        a >= 0 ==> 0 <= remainder(a, b),
        a <= 0 ==> remainder(a, b) <= 0,
        b > 0 ==> -b < remainder(a, b) < b,
        b < 0 ==> b < remainder(a, b) < -b,
{
    let x = if a < 0 {
        -a
    } else {
        a
    };
    let d = if b < 0 {
        -b
    } else {
        b
    };
    vstd::arithmetic::div_mod::lemma_fundamental_div_mod(x, d);
    vstd::arithmetic::div_mod::lemma_mod_bound(x, d);
    assert(b * quotient(a, b) + remainder(a, b) == a) by (nonlinear_arith)
        requires
            x == d * (x / d) + x % d,
            x == if a < 0 {
                -a
            } else {
                a
            },
            d == if b < 0 {
                -b
            } else {
                b
            },
            b != 0,
            quotient(a, b) == if (a >= 0 && b > 0) || (a < 0 && b < 0) {
                x / d
            } else {
                -(x / d)
            },
            remainder(a, b) == if a >= 0 {
                x % d
            } else {
                -(x % d)
            },
    ;
}

impl ExprValue {
    /// The sum of two integers. Of other values, no value.
    pub open spec fn plus(self, rhs: ExprValue) -> Outcome {
        match (self, rhs) {
            (ExprValue::Int(a), ExprValue::Int(b)) => int_value(a + b),
            _ => Ok(ExprValue::NoValue),
        }
    }

    /// The difference of two integers. Of other values, no value.
    pub open spec fn minus(self, rhs: ExprValue) -> Outcome {
        match (self, rhs) {
            (ExprValue::Int(a), ExprValue::Int(b)) => int_value(a - b),
            _ => Ok(ExprValue::NoValue),
        }
    }

    /// The product of two integers. Of other values, no value.
    pub open spec fn times(self, rhs: ExprValue) -> Outcome {
        match (self, rhs) {
            (ExprValue::Int(a), ExprValue::Int(b)) => int_value(a * b),
            _ => Ok(ExprValue::NoValue),
        }
    }

    /// The quotient of two integers, rounded toward zero. Of other values,
    /// no value.
    pub open spec fn divided_by(self, rhs: ExprValue) -> Outcome {
        match (self, rhs) {
            (ExprValue::Int(a), ExprValue::Int(b)) => if b == 0 {
                Err(EvalFault::DivisionByZero)
            } else {
                int_value(quotient(a as int, b as int))
            },
            _ => Ok(ExprValue::NoValue),
        }
    }

    /// The remainder of two integers, with the sign of the first. Of other
    /// values, no value.
    pub open spec fn modulo(self, rhs: ExprValue) -> Outcome {
        match (self, rhs) {
            (ExprValue::Int(a), ExprValue::Int(b)) => if b == 0 {
                Err(EvalFault::DivisionByZero)
            } else if a == i32::MIN && b == -1 {
                Err(EvalFault::Overflow)
            } else {
                int_value(remainder(a as int, b as int))
            },
            _ => Ok(ExprValue::NoValue),
        }
    }

    /// The bitwise and of two integers. Of other values, no value.
    pub open spec fn bit_and(self, rhs: ExprValue) -> Outcome {
        match (self, rhs) {
            (ExprValue::Int(a), ExprValue::Int(b)) => Ok(ExprValue::Int(a & b)),
            _ => Ok(ExprValue::NoValue),
        }
    }

    /// The bitwise or of two integers. Of other values, no value.
    pub open spec fn bit_or(self, rhs: ExprValue) -> Outcome {
        match (self, rhs) {
            (ExprValue::Int(a), ExprValue::Int(b)) => Ok(ExprValue::Int(a | b)),
            _ => Ok(ExprValue::NoValue),
        }
    }

    /// The bitwise exclusive or of two integers. Of other values, no value.
    pub open spec fn bit_xor(self, rhs: ExprValue) -> Outcome {
        match (self, rhs) {
            (ExprValue::Int(a), ExprValue::Int(b)) => Ok(ExprValue::Int(a ^ b)),
            _ => Ok(ExprValue::NoValue),
        }
    }

    /// An integer shifted left by 0 to 31 bits. Of other values, no value.
    pub open spec fn shifted_left(self, rhs: ExprValue) -> Outcome {
        match (self, rhs) {
            (ExprValue::Int(a), ExprValue::Int(b)) => if 0 <= b < 32 {
                Ok(ExprValue::Int(a << b))
            } else {
                Err(EvalFault::ShiftOutOfRange)
            },
            _ => Ok(ExprValue::NoValue),
        }
    }

    /// An integer shifted right by 0 to 31 bits, the sign kept. Of other
    /// values, no value.
    pub open spec fn shifted_right(self, rhs: ExprValue) -> Outcome {
        match (self, rhs) {
            (ExprValue::Int(a), ExprValue::Int(b)) => if 0 <= b < 32 {
                Ok(ExprValue::Int(a >> b))
            } else {
                Err(EvalFault::ShiftOutOfRange)
            },
            _ => Ok(ExprValue::NoValue),
        }
    }

    /// The negative of an integer. Of another value, no value.
    pub open spec fn negated(self) -> Outcome {
        match self {
            ExprValue::Int(a) => int_value(-a),
            _ => Ok(ExprValue::NoValue),
        }
    }

    /// The complement: of an integer, every bit flipped; of a boolean, the
    /// other one. Of another value, no value.
    pub open spec fn complement(self) -> ExprValue {
        match self {
            ExprValue::Int(a) => ExprValue::Int(!a),
            ExprValue::Bool(b) => ExprValue::Bool(!b),
            _ => ExprValue::NoValue,
        }
    }

    pub fn add(self, rhs: ExprValue) -> (res: Result<ExprValue, ExprError>)
        ensures
            reports(res, self.plus(rhs)),
    {
        match (self, rhs) {
            (ExprValue::Int(lhs), ExprValue::Int(rhs)) => match lhs.checked_add(rhs) {
                Some(v) => Ok(ExprValue::Int(v)),
                None => Err(EvalFault::Overflow.to_error()),
            },
            _ => Ok(ExprValue::NoValue),
        }
    }

    pub fn sub(self, rhs: ExprValue) -> (res: Result<ExprValue, ExprError>)
        ensures
            reports(res, self.minus(rhs)),
    {
        match (self, rhs) {
            (ExprValue::Int(lhs), ExprValue::Int(rhs)) => match lhs.checked_sub(rhs) {
                Some(v) => Ok(ExprValue::Int(v)),
                None => Err(EvalFault::Overflow.to_error()),
            },
            _ => Ok(ExprValue::NoValue),
        }
    }

    pub fn mul(self, rhs: ExprValue) -> (res: Result<ExprValue, ExprError>)
        ensures
            reports(res, self.times(rhs)),
    {
        match (self, rhs) {
            (ExprValue::Int(lhs), ExprValue::Int(rhs)) => match lhs.checked_mul(rhs) {
                Some(v) => Ok(ExprValue::Int(v)),
                None => Err(EvalFault::Overflow.to_error()),
            },
            _ => Ok(ExprValue::NoValue),
        }
    }

    pub fn div(self, rhs: ExprValue) -> (res: Result<ExprValue, ExprError>)
        ensures
            reports(res, self.divided_by(rhs)),
    {
        match (self, rhs) {
            (ExprValue::Int(lhs), ExprValue::Int(rhs)) => {
                if rhs == 0 {
                    return Err(EvalFault::DivisionByZero.to_error());
                }
                match lhs.checked_div(rhs) {
                    Some(v) => Ok(ExprValue::Int(v)),
                    None => Err(EvalFault::Overflow.to_error()),
                }
            },
            _ => Ok(ExprValue::NoValue),
        }
    }

    pub fn rem(self, rhs: ExprValue) -> (res: Result<ExprValue, ExprError>)
        ensures
            reports(res, self.modulo(rhs)),
    {
        match (self, rhs) {
            (ExprValue::Int(lhs), ExprValue::Int(rhs)) => {
                if rhs == 0 {
                    return Err(EvalFault::DivisionByZero.to_error());
                }
                match lhs.checked_rem(rhs) {
                    Some(v) => Ok(ExprValue::Int(v)),
                    None => Err(EvalFault::Overflow.to_error()),
                }
            },
            _ => Ok(ExprValue::NoValue),
        }
    }

    pub fn bitand(self, rhs: ExprValue) -> (res: Result<ExprValue, ExprError>)
        ensures
            reports(res, self.bit_and(rhs)),
    {
        match (self, rhs) {
            (ExprValue::Int(lhs), ExprValue::Int(rhs)) => Ok(ExprValue::Int(lhs & rhs)),
            _ => Ok(ExprValue::NoValue),
        }
    }

    pub fn bitor(self, rhs: ExprValue) -> (res: Result<ExprValue, ExprError>)
        ensures
            reports(res, self.bit_or(rhs)),
    {
        match (self, rhs) {
            (ExprValue::Int(lhs), ExprValue::Int(rhs)) => Ok(ExprValue::Int(lhs | rhs)),
            _ => Ok(ExprValue::NoValue),
        }
    }

    pub fn bitxor(self, rhs: ExprValue) -> (res: Result<ExprValue, ExprError>)
        ensures
            reports(res, self.bit_xor(rhs)),
    {
        match (self, rhs) {
            (ExprValue::Int(lhs), ExprValue::Int(rhs)) => Ok(ExprValue::Int(lhs ^ rhs)),
            _ => Ok(ExprValue::NoValue),
        }
    }

    pub fn shl(self, rhs: ExprValue) -> (res: Result<ExprValue, ExprError>)
        ensures
            reports(res, self.shifted_left(rhs)),
    {
        match (self, rhs) {
            (ExprValue::Int(lhs), ExprValue::Int(rhs)) => {
                if 0 <= rhs && rhs < 32 {
                    Ok(ExprValue::Int(lhs << rhs))
                } else {
                    Err(EvalFault::ShiftOutOfRange.to_error())
                }
            },
            _ => Ok(ExprValue::NoValue),
        }
    }

    pub fn shr(self, rhs: ExprValue) -> (res: Result<ExprValue, ExprError>)
        ensures
            reports(res, self.shifted_right(rhs)),
    {
        match (self, rhs) {
            (ExprValue::Int(lhs), ExprValue::Int(rhs)) => {
                if 0 <= rhs && rhs < 32 {
                    Ok(ExprValue::Int(lhs >> rhs))
                } else {
                    Err(EvalFault::ShiftOutOfRange.to_error())
                }
            },
            _ => Ok(ExprValue::NoValue),
        }
    }

    pub fn neg(self) -> (res: Result<ExprValue, ExprError>)
        ensures
            reports(res, self.negated()),
    {
        match self {
            ExprValue::Int(val) => match 0i32.checked_sub(val) {
                Some(v) => Ok(ExprValue::Int(v)),
                None => Err(EvalFault::Overflow.to_error()),
            },
            _ => Ok(ExprValue::NoValue),
        }
    }

    pub fn not(self) -> (res: ExprValue)
        ensures
            res == self.complement(),
    {
        match self {
            ExprValue::Int(ival) => ExprValue::Int(!ival),
            ExprValue::Bool(bval) => ExprValue::Bool(!bval),
            _ => ExprValue::NoValue,
        }
    }

    /// The text that shows the value: `()` for no value, `true` or `false`,
    /// an integer as its decimal numeral. The text of a float is not made
    /// here.
    pub open spec fn display(self) -> Option<Seq<char>> {
        match self {
            ExprValue::NoValue => Some("()"@),
            ExprValue::Bool(b) => Some(
                if b {
                    "true"@
                } else {
                    "false"@
                },
            ),
            ExprValue::Int(i) => Some(signed_decimal(i as int)),
            ExprValue::Float(_) => None,
        }
    }

    pub fn to_string(&self) -> (text: Option<String>)
        ensures
            match text {
                Some(s) => self.display() == Some(s@),
                None => self.display() is None,
            },
    {
        match self {
            ExprValue::NoValue => Some(String::from_str("()")),
            ExprValue::Bool(b) => Some(
                if *b {
                    String::from_str("true")
                } else {
                    String::from_str("false")
                },
            ),
            ExprValue::Int(i) => {
                let mut s = String::new();
                push_signed_decimal(&mut s, *i);
                assert(s@ =~= signed_decimal(*i as int));
                Some(s)
            },
            ExprValue::Float(_) => None,
        }
    }
}

/// The value that a name has in the runtime environment: what it is bound
/// to, and no value where it is bound to nothing.
pub open spec fn value_of(scopes: Scopes<ExprValue>, name: Seq<char>) -> ExprValue {
    match lookup(scopes, name) {
        Some(value) => value,
        None => ExprValue::NoValue,
    }
}

/// The runtime environment: the values of the variables, by scope level.
pub struct Runtime {
    pub bindings: ScopeTable<ExprValue>,
}

impl View for Runtime {
    type V = Scopes<ExprValue>;

    open spec fn view(&self) -> Scopes<ExprValue> {
        self.bindings@
    }
}

impl Runtime {
    /// An environment with level 0 alone, and nothing bound.
    pub fn new() -> (runtime: Self)
        ensures
            runtime@ == seq![Map::<Seq<char>, ExprValue>::empty()],
    {
        Runtime { bindings: ScopeTable::new() }
    }

    /// The number of the innermost level.
    pub fn level(&self) -> (level: usize)
        ensures
            level == self@.len() - 1,
    {
        self.bindings.level()
    }

    /// Binds `id` to `value` in the innermost level.
    pub fn save_binding(&mut self, id: &str, value: ExprValue)
        ensures
            final(self)@ == bind(old(self)@, id@, value),
    {
        self.bindings.save(id, value);
    }

    /// The value of `check_id`, looked up from the innermost level outward.
    pub fn get_binding(&self, check_id: &str) -> (value: ExprValue)
        ensures
            value == value_of(self@, check_id@),
    {
        match self.bindings.get(check_id) {
            Some(value) => *value,
            None => ExprValue::NoValue,
        }
    }

    /// Opens a level inside the innermost one, with nothing bound in it.
    pub fn open_level(&mut self)
        ensures
            final(self)@ == old(self)@.push(Map::empty()),
    {
        self.bindings.open();
    }

    /// Closes the innermost level and drops what was bound in it.
    pub fn close_level(&mut self)
        requires
            old(self)@.len() > 1,
        ensures
            final(self)@ == old(self)@.drop_last(),
    {
        self.bindings.close();
    }
}

} // verus!
