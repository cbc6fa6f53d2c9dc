use codegen_clr::arithmetics::{add_unchecked, binop_unchecked, unop_unchecked, BinOp, UnOp};
use codegen_clr::layout::align_from_exponent;
use codegen_clr::text::{push_decimal, push_signed_decimal, push_str};
use codegen_clr::types::{BaseIR, Type};

fn a_ops() -> Vec<BaseIR> {
    vec![BaseIR::LDConstI32(1)]
}

fn b_ops() -> Vec<BaseIR> {
    vec![BaseIR::LDConstI32(2), BaseIR::LDConstI32(3)]
}

fn lowered(op: BinOp) -> Vec<BaseIR> {
    binop_unchecked(op, (a_ops(), Type::I32), (b_ops(), Type::I32))
}

fn operands_then(tail: Vec<BaseIR>) -> Vec<BaseIR> {
    let mut v = a_ops();
    v.extend(b_ops());
    v.extend(tail);
    v
}

#[test]
fn add_unchecked_is_add() {
    assert_eq!(add_unchecked(Type::I32, Type::U64), BaseIR::Add);
    assert_eq!(add_unchecked(Type::F64, Type::F64), BaseIR::Add);
}

#[test]
fn binop_arithmetic_and_bitwise() {
    let cases = vec![
        (BinOp::Add, BaseIR::Add),
        (BinOp::AddUnchecked, BaseIR::Add),
        (BinOp::Sub, BaseIR::Sub),
        (BinOp::SubUnchecked, BaseIR::Sub),
        (BinOp::Mul, BaseIR::Mul),
        (BinOp::MulUnchecked, BaseIR::Mul),
        (BinOp::Shl, BaseIR::Shl),
        (BinOp::ShlUnchecked, BaseIR::Shl),
        (BinOp::Shr, BaseIR::Shr),
        (BinOp::ShrUnchecked, BaseIR::Shr),
        (BinOp::Eq, BaseIR::Eq),
        (BinOp::Gt, BaseIR::Gt),
        (BinOp::Lt, BaseIR::Lt),
        (BinOp::Rem, BaseIR::Rem),
        (BinOp::BitXor, BaseIR::Xor),
        (BinOp::BitOr, BaseIR::Or),
        (BinOp::BitAnd, BaseIR::And),
        (BinOp::Div, BaseIR::Div),
    ];
    for (op, ir) in cases {
        assert_eq!(lowered(op), operands_then(vec![ir]));
    }
}

#[test]
fn binop_negated_comparisons() {
    assert_eq!(
        lowered(BinOp::Ne),
        operands_then(vec![BaseIR::Eq, BaseIR::LDConstI32(0), BaseIR::Eq])
    );
    assert_eq!(
        lowered(BinOp::Ge),
        operands_then(vec![BaseIR::Lt, BaseIR::LDConstI32(0), BaseIR::Eq])
    );
    assert_eq!(
        lowered(BinOp::Le),
        operands_then(vec![BaseIR::Gt, BaseIR::LDConstI32(0), BaseIR::Eq])
    );
}

#[test]
fn binop_offset_scales_by_pointee_size() {
    let ptr = Type::Ptr(Box::new(Type::U16));
    let r = binop_unchecked(BinOp::Offset, (a_ops(), ptr), (b_ops(), Type::USize));
    let mut expected = b_ops();
    expected.push(BaseIR::SizeOf(Box::new(Type::U16)));
    expected.push(BaseIR::Mul);
    expected.extend(a_ops());
    expected.push(BaseIR::Add);
    assert_eq!(r, expected);
}

#[test]
fn binop_with_empty_operands() {
    let r = binop_unchecked(BinOp::Sub, (vec![], Type::I8), (vec![], Type::I8));
    assert_eq!(r, vec![BaseIR::Sub]);
}

#[test]
fn binop_add_of_floats() {
    let r = binop_unchecked(BinOp::Add, (a_ops(), Type::F32), (b_ops(), Type::F32));
    assert_eq!(r, operands_then(vec![BaseIR::Add]));
}

#[test]
fn unop_not_appends_not() {
    let r = unop_unchecked(UnOp::Not, (a_ops(), Type::Bool));
    assert_eq!(r, vec![BaseIR::LDConstI32(1), BaseIR::Not]);
}

#[test]
fn unop_neg_of_integers() {
    for t in vec![Type::I8, Type::U8, Type::I16, Type::U16, Type::I32, Type::U32, Type::I64, Type::U64, Type::ISize, Type::USize] {
        let r = unop_unchecked(UnOp::Neg, (a_ops(), t));
        assert_eq!(r, vec![BaseIR::LDConstI32(0), BaseIR::Sub, BaseIR::LDConstI32(1)]);
    }
}

#[test]
fn unop_neg_of_floats() {
    for t in vec![Type::F32, Type::F64] {
        let r = unop_unchecked(UnOp::Neg, (b_ops(), t));
        assert_eq!(r, vec![BaseIR::LDConstF32(0.0f32.to_bits()), BaseIR::Sub, BaseIR::LDConstI32(2), BaseIR::LDConstI32(3)]);
    }
}

#[test]
fn align_is_two_to_the_exponent() {
    assert_eq!(align_from_exponent(0), 1);
    assert_eq!(align_from_exponent(3), 8);
    assert_eq!(align_from_exponent(12), 4096);
    assert_eq!(align_from_exponent(63), 1u64 << 63);
}

#[test]
fn decimal_numerals() {
    let mut w = Vec::new();
    for n in [0u64, 7, 10, 1234567890, u64::MAX] {
        push_decimal(&mut w, n);
        push_str(&mut w, " ");
    }
    assert_eq!(String::from_utf8(w).unwrap(), "0 7 10 1234567890 18446744073709551615 ");
}

#[test]
fn decimal_numerals_read_back() {
    for n in [0u64, 5, 99, 100, 4000000000, u64::MAX] {
        let mut w = Vec::new();
        push_decimal(&mut w, n);
        let s = String::from_utf8(w).unwrap();
        assert_eq!(s.parse::<u64>().unwrap(), n);
        assert!(s == "0" || !s.starts_with('0'));
    }
}

#[test]
fn signed_decimal_numerals() {
    let mut w = Vec::new();
    for v in [i32::MIN, -1, 0, 42, i32::MAX] {
        push_signed_decimal(&mut w, v);
        push_str(&mut w, ",");
    }
    assert_eq!(String::from_utf8(w).unwrap(), "-2147483648,-1,0,42,2147483647,");
}

#[test]
fn pointed_type_and_deep_clone() {
    let t = Type::Ptr(Box::new(Type::Ptr(Box::new(Type::I16))));
    assert_eq!(t.pointed_type(), Some(&Type::Ptr(Box::new(Type::I16))));
    assert_eq!(Type::I16.pointed_type(), None);
    assert_eq!(t.deep_clone(), t);
}
