use expr_lang::backend::runtime::{ExprValue, Runtime};
use expr_lang::error::{report_error, ExprError, ExprErrorKind};
use expr_lang::front::source_file::Location;
use expr_lang::scope::ScopeTable;
use expr_lang::text::{parse_i32, push_decimal, push_signed_decimal};

const NAN: u64 = 0x7ff8_0000_0000_0000;

fn float(x: f64) -> ExprValue {
    ExprValue::Float(x.to_bits())
}

#[test]
fn integer_operators() {
    let (a, b) = (ExprValue::Int(14), ExprValue::Int(-4));
    assert_eq!(a.add(b).unwrap(), ExprValue::Int(10));
    assert_eq!(a.sub(b).unwrap(), ExprValue::Int(18));
    assert_eq!(a.mul(b).unwrap(), ExprValue::Int(-56));
    assert_eq!(a.div(b).unwrap(), ExprValue::Int(-3));
    assert_eq!(a.rem(b).unwrap(), ExprValue::Int(2));
    assert_eq!(b.rem(a).unwrap(), ExprValue::Int(-4));
    assert_eq!(a.bitand(b).unwrap(), ExprValue::Int(12));
    assert_eq!(a.bitor(b).unwrap(), ExprValue::Int(-2));
    assert_eq!(a.bitxor(b).unwrap(), ExprValue::Int(-14));
    assert_eq!(a.shl(ExprValue::Int(3)).unwrap(), ExprValue::Int(112));
    assert_eq!(b.shr(ExprValue::Int(1)).unwrap(), ExprValue::Int(-2));
    assert_eq!(a.neg().unwrap(), ExprValue::Int(-14));
    assert_eq!(a.not(), ExprValue::Int(-15));
    assert_eq!(ExprValue::Int(0).not(), ExprValue::Int(-1));
    assert_eq!(ExprValue::Bool(true).not(), ExprValue::Bool(false));
}

#[test]
fn operators_on_other_values_give_no_value() {
    let others = [ExprValue::NoValue, ExprValue::Bool(true), float(1.5)];
    let one = ExprValue::Int(1);
    for v in others {
        assert_eq!(v.add(one).unwrap(), ExprValue::NoValue);
        assert_eq!(one.add(v).unwrap(), ExprValue::NoValue);
        assert_eq!(v.sub(one).unwrap(), ExprValue::NoValue);
        assert_eq!(one.mul(v).unwrap(), ExprValue::NoValue);
        assert_eq!(v.div(ExprValue::Int(0)).unwrap(), ExprValue::NoValue);
        assert_eq!(one.div(v).unwrap(), ExprValue::NoValue);
        assert_eq!(v.rem(ExprValue::Int(0)).unwrap(), ExprValue::NoValue);
        assert_eq!(v.bitand(one).unwrap(), ExprValue::NoValue);
        assert_eq!(one.bitor(v).unwrap(), ExprValue::NoValue);
        assert_eq!(v.bitxor(v).unwrap(), ExprValue::NoValue);
        assert_eq!(v.shl(ExprValue::Int(99)).unwrap(), ExprValue::NoValue);
        assert_eq!(one.shr(v).unwrap(), ExprValue::NoValue);
        assert_eq!(v.neg().unwrap(), ExprValue::NoValue);
    }
    assert_eq!(ExprValue::NoValue.not(), ExprValue::NoValue);
    assert_eq!(float(2.0).not(), ExprValue::NoValue);
}

#[test]
fn faults_of_the_integer_operators() {
    let kind = |r: Result<ExprValue, ExprError>| {
        let err = r.unwrap_err();
        assert_eq!(err.kind, ExprErrorKind::InterpreterError);
        err.message
    };
    let (min, max) = (ExprValue::Int(i32::MIN), ExprValue::Int(i32::MAX));
    assert_eq!(kind(max.add(ExprValue::Int(1))), "integer overflow");
    assert_eq!(kind(min.sub(ExprValue::Int(1))), "integer overflow");
    assert_eq!(kind(max.mul(ExprValue::Int(2))), "integer overflow");
    assert_eq!(kind(min.div(ExprValue::Int(-1))), "integer overflow");
    assert_eq!(kind(min.rem(ExprValue::Int(-1))), "integer overflow");
    assert_eq!(kind(min.neg()), "integer overflow");
    assert_eq!(kind(max.div(ExprValue::Int(0))), "division by zero");
    assert_eq!(kind(max.rem(ExprValue::Int(0))), "division by zero");
    assert_eq!(kind(max.shl(ExprValue::Int(32))), "shift amount out of range");
    assert_eq!(kind(max.shr(ExprValue::Int(-1))), "shift amount out of range");
    assert_eq!(max.neg().unwrap(), ExprValue::Int(-i32::MAX));
}

#[test]
fn equality_of_values() {
    assert_eq!(ExprValue::NoValue, ExprValue::NoValue);
    assert_eq!(ExprValue::Int(3), ExprValue::Int(3));
    assert_ne!(ExprValue::Int(3), ExprValue::Int(4));
    assert_ne!(ExprValue::Int(1), ExprValue::Bool(true));
    assert_ne!(ExprValue::Int(0), ExprValue::NoValue);
    assert_ne!(ExprValue::Bool(true), ExprValue::Bool(false));
    assert_eq!(float(1.5), float(1.5));
    assert_ne!(float(1.5), float(2.5));
    assert_eq!(float(0.0), float(-0.0));
    assert_ne!(ExprValue::Float(NAN), ExprValue::Float(NAN));
    assert_ne!(float(f64::NAN), float(1.0));
    assert_eq!(float(f64::INFINITY), float(f64::INFINITY));
    assert_ne!(float(f64::INFINITY), float(f64::NEG_INFINITY));
    assert_ne!(float(1.0), ExprValue::Int(1));
}

#[test]
fn order_of_values() {
    let lt = |a: ExprValue, b: ExprValue| a.less_than(&b);
    assert!(lt(ExprValue::Int(-3), ExprValue::Int(2)));
    assert!(!lt(ExprValue::Int(2), ExprValue::Int(2)));
    assert!(lt(ExprValue::Bool(false), ExprValue::Bool(true)));
    assert!(!lt(ExprValue::Bool(true), ExprValue::Bool(false)));
    assert!(!lt(ExprValue::Bool(true), ExprValue::Bool(true)));
    assert!(!lt(ExprValue::NoValue, ExprValue::NoValue));
    let ranked = [ExprValue::NoValue, ExprValue::Bool(true), ExprValue::Int(-9), float(-1e300)];
    for i in 0..ranked.len() {
        for j in 0..ranked.len() {
            assert_eq!(lt(ranked[i], ranked[j]), i < j, "{:?} {:?}", ranked[i], ranked[j]);
        }
    }
    let floats = [f64::NEG_INFINITY, -2.5, -1e-310, 0.0, 1e-310, 1.0, 2.5, f64::INFINITY];
    for a in floats {
        for b in floats {
            assert_eq!(lt(float(a), float(b)), a < b, "{} {}", a, b);
        }
        assert!(!lt(float(a), float(f64::NAN)));
        assert!(!lt(float(f64::NAN), float(a)));
    }
    assert!(!lt(float(-0.0), float(0.0)));
    assert!(!lt(float(0.0), float(-0.0)));
}

#[test]
fn display_of_values() {
    assert_eq!(ExprValue::NoValue.to_string().unwrap(), "()");
    assert_eq!(ExprValue::Bool(true).to_string().unwrap(), "true");
    assert_eq!(ExprValue::Bool(false).to_string().unwrap(), "false");
    assert_eq!(ExprValue::Int(0).to_string().unwrap(), "0");
    assert_eq!(ExprValue::Int(42).to_string().unwrap(), "42");
    assert_eq!(ExprValue::Int(-7).to_string().unwrap(), "-7");
    assert_eq!(ExprValue::Int(i32::MAX).to_string().unwrap(), "2147483647");
    assert_eq!(ExprValue::Int(i32::MIN).to_string().unwrap(), "-2147483648");
    assert_eq!(float(1.5).to_string(), None);
}

#[test]
fn runtime_finds_the_innermost_binding() {
    let mut runtime = Runtime::new();
    assert_eq!(runtime.level(), 0);
    assert_eq!(runtime.get_binding("x"), ExprValue::NoValue);
    runtime.save_binding("x", ExprValue::Int(1));
    runtime.save_binding("y", ExprValue::Bool(true));
    runtime.save_binding("x", ExprValue::Int(2));
    assert_eq!(runtime.get_binding("x"), ExprValue::Int(2));
    runtime.open_level();
    assert_eq!(runtime.level(), 1);
    assert_eq!(runtime.get_binding("x"), ExprValue::Int(2));
    runtime.save_binding("x", ExprValue::Int(3));
    runtime.save_binding("z", float(0.5));
    assert_eq!(runtime.get_binding("x"), ExprValue::Int(3));
    assert_eq!(runtime.get_binding("y"), ExprValue::Bool(true));
    assert_eq!(runtime.get_binding("z"), float(0.5));
    runtime.close_level();
    assert_eq!(runtime.level(), 0);
    assert_eq!(runtime.get_binding("x"), ExprValue::Int(2));
    assert_eq!(runtime.get_binding("z"), ExprValue::NoValue);
    assert_eq!(runtime.get_binding(""), ExprValue::NoValue);
}

#[test]
fn scope_table_of_any_value() {
    let mut table: ScopeTable<Vec<u8>> = ScopeTable::new();
    assert_eq!(table.get("k"), None);
    table.save("k", vec![1]);
    table.open();
    table.open();
    table.save("k", vec![2]);
    table.save("j", vec![3]);
    assert_eq!(table.level(), 2);
    assert_eq!(table.get("k"), Some(&vec![2]));
    table.close();
    assert_eq!(table.get("k"), Some(&vec![1]));
    assert_eq!(table.get("j"), None);
    table.close();
    assert_eq!(table.level(), 0);
    assert_eq!(table.get("k"), Some(&vec![1]));
}

#[test]
fn errors_and_their_text() {
    let err = ExprError::new(ExprErrorKind::CheckerError, "unknown identifier x".to_string());
    assert_eq!(err.kind, ExprErrorKind::CheckerError);
    assert_eq!(err.message, "unknown identifier x");
    assert_eq!(err.loc, None);
    assert_eq!(err.to_string(), "Checker Errorunknown identifier x");
    assert_eq!(ExprErrorKind::ScannerError.to_string(), "Scanner Error");
    assert_eq!(ExprErrorKind::ParserError.to_string(), "Parser Error");
    assert_eq!(ExprErrorKind::CheckerError.to_string(), "Checker Error");
    assert_eq!(ExprErrorKind::InterpreterError.to_string(), "Interpreter Error");
    let loc = Location::new("a.expr".to_string(), 3, 14);
    let placed = ExprError::located(ExprErrorKind::ParserError, "oops".to_string(), loc.clone());
    assert_eq!(placed.loc, Some(loc));
    assert_eq!(placed.to_string(), "Parser Erroroops");
}

#[test]
fn diagnostic_lines() {
    let err = ExprError::new(ExprErrorKind::ParserError, "unexpected token Star".to_string());
    assert_eq!(report_error(&err, None), "Parser Errorunexpected token Star");
    let loc = Location::new("dir/a.expr".to_string(), 12, 7);
    assert_eq!(
        report_error(&err, Some(&loc)),
        "[\"dir/a.expr\"] line: 12, col: 7 - Parser Errorunexpected token Star"
    );
    let zero = Location::default();
    let plain = ExprError::new(ExprErrorKind::ScannerError, String::new());
    assert_eq!(report_error(&plain, Some(&zero)), "[\"\"] line: 0, col: 0 - Scanner Error");
}

#[test]
fn decimal_numerals() {
    let text = |n: u64| {
        let mut s = String::from(">");
        push_decimal(&mut s, n);
        s
    };
    assert_eq!(text(0), ">0");
    assert_eq!(text(9), ">9");
    assert_eq!(text(10), ">10");
    assert_eq!(text(1234567890), ">1234567890");
    assert_eq!(text(u64::MAX), ">18446744073709551615");
    let mut s = String::new();
    push_signed_decimal(&mut s, -120);
    push_signed_decimal(&mut s, 45);
    assert_eq!(s, "-12045");
}

#[test]
fn reading_integers() {
    assert_eq!(parse_i32("0"), Some(0));
    assert_eq!(parse_i32("0012"), Some(12));
    assert_eq!(parse_i32("+12"), Some(12));
    assert_eq!(parse_i32("-12"), Some(-12));
    assert_eq!(parse_i32("2147483647"), Some(i32::MAX));
    assert_eq!(parse_i32("-2147483648"), Some(i32::MIN));
    assert_eq!(parse_i32("2147483648"), None);
    assert_eq!(parse_i32("-2147483649"), None);
    assert_eq!(parse_i32("99999999999999999999999999"), None);
    assert_eq!(parse_i32(""), None);
    assert_eq!(parse_i32("+"), None);
    assert_eq!(parse_i32("-"), None);
    assert_eq!(parse_i32("1 "), None);
    assert_eq!(parse_i32("--1"), None);
    assert_eq!(parse_i32("12a"), None);
    assert_eq!(parse_i32("٣"), None);
    for text in ["7", "-7", "+7", "000", "2147483648", "x", "1_000", "-0"] {
        assert_eq!(parse_i32(text), text.parse::<i32>().ok(), "{}", text);
    }
}
