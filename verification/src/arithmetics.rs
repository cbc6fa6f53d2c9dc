//! Lowering of Rust's primitive binary and unary operators to the stack-machine IR.

use vstd::prelude::*;
use crate::types::{BaseIR, Type};

verus! {

/// A binary operator of Rust's mid-level IR.
#[derive(Debug, Clone, Copy, PartialEq, Eq)]
pub enum BinOp {
    Add,
    AddUnchecked,
    Sub,
    SubUnchecked,
    Mul,
    MulUnchecked,
    Div,
    Rem,
    BitXor,
    BitAnd,
    BitOr,
    Shl,
    ShlUnchecked,
    Shr,
    ShrUnchecked,
    Eq,
    Lt,
    Le,
    Ne,
    Ge,
    Gt,
    /// Pointer offset: the pointer advanced by a number of pointee-sized elements.
    Offset,
}

/// A unary operator of Rust's mid-level IR.
#[derive(Debug, Clone, Copy, PartialEq, Eq)]
pub enum UnOp {
    Not,
    Neg,
}

/// The instructions that follow both operands for an operator other than `Offset`.
pub open spec fn binop_tail(op: BinOp) -> Seq<BaseIR> {
    match op {
        BinOp::Add | BinOp::AddUnchecked => seq![BaseIR::Add],
        BinOp::Sub | BinOp::SubUnchecked => seq![BaseIR::Sub],
        BinOp::Mul | BinOp::MulUnchecked => seq![BaseIR::Mul],
        BinOp::Shl | BinOp::ShlUnchecked => seq![BaseIR::Shl],
        BinOp::Shr | BinOp::ShrUnchecked => seq![BaseIR::Shr],
        BinOp::Eq => seq![BaseIR::Eq],
        BinOp::Ne => seq![BaseIR::Eq, BaseIR::LDConstI32(0), BaseIR::Eq],
        BinOp::Gt => seq![BaseIR::Gt],
        BinOp::Lt => seq![BaseIR::Lt],
        BinOp::Ge => seq![BaseIR::Lt, BaseIR::LDConstI32(0), BaseIR::Eq],
        BinOp::Le => seq![BaseIR::Gt, BaseIR::LDConstI32(0), BaseIR::Eq],
        BinOp::Rem => seq![BaseIR::Rem],
        BinOp::BitXor => seq![BaseIR::Xor],
        BinOp::BitOr => seq![BaseIR::Or],
        BinOp::BitAnd => seq![BaseIR::And],
        BinOp::Div => seq![BaseIR::Div],
        BinOp::Offset => Seq::<BaseIR>::empty(),
    }
}

/// The instructions for `a <op> b`, given the instructions that compute each operand and
/// the operands' types. Operands are evaluated left to right, then the operator is
/// applied; a pointer offset scales the right operand by the pointee's size first.
pub open spec fn binop_ops(op: BinOp, a_ops: Seq<BaseIR>, a_ty: Type, b_ops: Seq<BaseIR>) -> Seq<
    BaseIR,
> {
    match op {
        BinOp::Offset => b_ops + seq![
            BaseIR::SizeOf(Box::new(a_ty.spec_pointed_type().unwrap())),
            BaseIR::Mul,
        ] + a_ops + seq![BaseIR::Add],
        _ => a_ops + b_ops + binop_tail(op),
    }
}

/// The operand types that the lowering handles: no 128-bit addition, and a pointer as
/// the left operand of an offset.
pub open spec fn binop_supported(op: BinOp, a_ty: Type, b_ty: Type) -> bool {
    &&& (op is Add || op is AddUnchecked) ==> !a_ty.is_128_bit() && !b_ty.is_128_bit()
    &&& op is Offset ==> a_ty is Ptr
}

/// The types that `Neg` handles: the integers up to 64 bits (and pointer-sized ones),
/// and the floats.
pub open spec fn negatable(t: Type) -> bool {
    match t {
        Type::I8 | Type::U8 | Type::I16 | Type::U16 | Type::I32 | Type::U32 | Type::I64
        | Type::U64 | Type::ISize | Type::USize | Type::F32 | Type::F64 => true,
        _ => false,
    }
}

/// The instructions for `<op> x`, given the instructions that compute `x` and its type.
pub open spec fn unop_ops(op: UnOp, ops: Seq<BaseIR>, ty: Type) -> Seq<BaseIR> {
    match op {
        UnOp::Not => ops.push(BaseIR::Not),
        UnOp::Neg => if ty is F32 || ty is F64 {
            seq![BaseIR::LDConstF32(0), BaseIR::Sub] + ops
        } else {
            seq![BaseIR::LDConstI32(0), BaseIR::Sub] + ops
        },
    }
}

/// The instruction for an addition of values of types `a` and `b`: `Add`. Additions of
/// 128-bit integers are not supported (`requires`).
pub fn add_unchecked(a: Type, b: Type) -> (r: BaseIR)
    requires
        !a.is_128_bit(),
        !b.is_128_bit(),
    ensures
        r == BaseIR::Add,
{
    BaseIR::Add
}

/// The instructions for the binary operation `binop` on the operands `a` and `b`, each
/// given as the instructions that compute it and its type (see `binop_ops`).
pub fn binop_unchecked(binop: BinOp, a: (Vec<BaseIR>, Type), b: (Vec<BaseIR>, Type)) -> (r: Vec<
    BaseIR,
>)
    requires
        binop_supported(binop, a.1, b.1),
    ensures
        r@ == binop_ops(binop, a.0@, a.1, b.0@),
{
    let (mut a_ops, a_ty) = a;
    let (mut b_ops, b_ty) = b;
    let ghost a_seq = a_ops@;
    let ghost b_seq = b_ops@;
    let mut ops: Vec<BaseIR> = Vec::new();
    match binop {
        BinOp::Offset => {
            ops.append(&mut b_ops);
            let pointee = match a_ty.pointed_type() {
                Some(t) => t.deep_clone(),
                None => {
                    assert(false);
                    Type::Void
                },
            };
            ops.push(BaseIR::SizeOf(Box::new(pointee)));
            ops.push(BaseIR::Mul);
            ops.append(&mut a_ops);
            ops.push(BaseIR::Add);
            assert(ops@ == b_seq + seq![
                BaseIR::SizeOf(Box::new(a_ty.spec_pointed_type().unwrap())),
                BaseIR::Mul,
            ] + a_seq + seq![BaseIR::Add]);
        },
        _ => {
            ops.append(&mut a_ops);
            ops.append(&mut b_ops);
            let ghost operands = ops@;
            match binop {
                BinOp::Add | BinOp::AddUnchecked => ops.push(add_unchecked(a_ty, b_ty)),
                BinOp::Sub | BinOp::SubUnchecked => ops.push(BaseIR::Sub),
                BinOp::Mul | BinOp::MulUnchecked => ops.push(BaseIR::Mul),
                BinOp::Shl | BinOp::ShlUnchecked => ops.push(BaseIR::Shl),
                BinOp::Shr | BinOp::ShrUnchecked => ops.push(BaseIR::Shr),
                BinOp::Eq => ops.push(BaseIR::Eq),
                BinOp::Ne => {
                    ops.push(BaseIR::Eq);
                    ops.push(BaseIR::LDConstI32(0));
                    ops.push(BaseIR::Eq);
                },
                BinOp::Gt => ops.push(BaseIR::Gt),
                BinOp::Lt => ops.push(BaseIR::Lt),
                BinOp::Ge => {
                    ops.push(BaseIR::Lt);
                    ops.push(BaseIR::LDConstI32(0));
                    ops.push(BaseIR::Eq);
                },
                BinOp::Le => {
                    ops.push(BaseIR::Gt);
                    ops.push(BaseIR::LDConstI32(0));
                    ops.push(BaseIR::Eq);
                },
                BinOp::Rem => ops.push(BaseIR::Rem),
                BinOp::BitXor => ops.push(BaseIR::Xor),
                BinOp::BitOr => ops.push(BaseIR::Or),
                BinOp::BitAnd => ops.push(BaseIR::And),
                BinOp::Div => ops.push(BaseIR::Div),
                BinOp::Offset => {},
            }
            assert(ops@ == operands + binop_tail(binop));
        },
    }
    ops
}

/// The instructions for the unary operation `unop` on `operand`, given as the
/// instructions that compute it and its type (see `unop_ops`). `Neg` handles only the
/// types of `negatable` (`requires`).
pub fn unop_unchecked(unop: UnOp, operand: (Vec<BaseIR>, Type)) -> (r: Vec<BaseIR>)
    requires
        unop is Neg ==> negatable(operand.1),
    ensures
        r@ == unop_ops(unop, operand.0@, operand.1),
{
    let (mut operand_ops, ty) = operand;
    match unop {
        UnOp::Not => {
            let mut ops = operand_ops;
            ops.push(BaseIR::Not);
            ops
        },
        UnOp::Neg => match ty {
            Type::F32 | Type::F64 => {
                let mut ops: Vec<BaseIR> = Vec::new();
                ops.push(BaseIR::LDConstF32(0));
                ops.push(BaseIR::Sub);
                ops.append(&mut operand_ops);
                ops
            },
            _ => {
                let mut ops: Vec<BaseIR> = Vec::new();
                ops.push(BaseIR::LDConstI32(0));
                ops.push(BaseIR::Sub);
                ops.append(&mut operand_ops);
                ops
            },
        },
    }
}

/// Law: the unchecked form of an arithmetic or shift operator is lowered exactly as the
/// checked form.
pub proof fn lemma_unchecked_as_checked(a_ops: Seq<BaseIR>, a_ty: Type, b_ops: Seq<BaseIR>)
    ensures
        binop_ops(BinOp::AddUnchecked, a_ops, a_ty, b_ops) == binop_ops(BinOp::Add, a_ops, a_ty, b_ops),
        binop_ops(BinOp::SubUnchecked, a_ops, a_ty, b_ops) == binop_ops(BinOp::Sub, a_ops, a_ty, b_ops),
        binop_ops(BinOp::MulUnchecked, a_ops, a_ty, b_ops) == binop_ops(BinOp::Mul, a_ops, a_ty, b_ops),
        binop_ops(BinOp::ShlUnchecked, a_ops, a_ty, b_ops) == binop_ops(BinOp::Shl, a_ops, a_ty, b_ops),
        binop_ops(BinOp::ShrUnchecked, a_ops, a_ty, b_ops) == binop_ops(BinOp::Shr, a_ops, a_ty, b_ops),
{
}

/// Law: `!=`, `>=` and `<=` are lowered as the negation (comparison with zero) of `==`,
/// `<` and `>` on the same operands.
pub proof fn lemma_negated_comparisons(a_ops: Seq<BaseIR>, a_ty: Type, b_ops: Seq<BaseIR>)
    ensures
        binop_ops(BinOp::Ne, a_ops, a_ty, b_ops) == binop_ops(BinOp::Eq, a_ops, a_ty, b_ops) + seq![
            BaseIR::LDConstI32(0),
            BaseIR::Eq,
        ],
        binop_ops(BinOp::Ge, a_ops, a_ty, b_ops) == binop_ops(BinOp::Lt, a_ops, a_ty, b_ops) + seq![
            BaseIR::LDConstI32(0),
            BaseIR::Eq,
        ],
        binop_ops(BinOp::Le, a_ops, a_ty, b_ops) == binop_ops(BinOp::Gt, a_ops, a_ty, b_ops) + seq![
            BaseIR::LDConstI32(0),
            BaseIR::Eq,
        ],
{
    assert(binop_ops(BinOp::Ne, a_ops, a_ty, b_ops) =~= binop_ops(BinOp::Eq, a_ops, a_ty, b_ops)
        + seq![BaseIR::LDConstI32(0), BaseIR::Eq]);
    assert(binop_ops(BinOp::Ge, a_ops, a_ty, b_ops) =~= binop_ops(BinOp::Lt, a_ops, a_ty, b_ops)
        + seq![BaseIR::LDConstI32(0), BaseIR::Eq]);
    assert(binop_ops(BinOp::Le, a_ops, a_ty, b_ops) =~= binop_ops(BinOp::Gt, a_ops, a_ty, b_ops)
        + seq![BaseIR::LDConstI32(0), BaseIR::Eq]);
}

/// Law: for every operator but `Offset`, the left operand's instructions come first,
/// unchanged, then the right operand's, then at least one instruction that combines them;
/// the operand types do not change the result.
pub proof fn lemma_operands_in_order(op: BinOp, a_ops: Seq<BaseIR>, a_ty: Type, b_ops: Seq<BaseIR>, other_ty: Type)
    requires
        !(op is Offset),
    ensures
        binop_ops(op, a_ops, a_ty, b_ops).subrange(0, a_ops.len() as int) == a_ops,
        binop_ops(op, a_ops, a_ty, b_ops).subrange(a_ops.len() as int, (a_ops.len() + b_ops.len()) as int) == b_ops,
        binop_ops(op, a_ops, a_ty, b_ops).len() > a_ops.len() + b_ops.len(),
        binop_ops(op, a_ops, a_ty, b_ops) == binop_ops(op, a_ops, other_ty, b_ops),
{
    let r = binop_ops(op, a_ops, a_ty, b_ops);
    assert(r == a_ops + b_ops + binop_tail(op));
    assert(r.subrange(0, a_ops.len() as int) =~= a_ops);
    assert(r.subrange(a_ops.len() as int, (a_ops.len() + b_ops.len()) as int) =~= b_ops);
}

/// Law: a pointer offset multiplies the right operand by the size of exactly the type
/// the left operand points to (whatever that type is, a pointer type too), then adds the
/// left operand: right operand, `sizeof` pointee, `mul`, left operand, `add`.
pub proof fn lemma_offset_scales_by_pointee(t: Type, a_ops: Seq<BaseIR>, b_ops: Seq<BaseIR>)
    ensures
        ({
            let r = binop_ops(BinOp::Offset, a_ops, Type::Ptr(Box::new(t)), b_ops);
            &&& r.len() == b_ops.len() + a_ops.len() + 3
            &&& r.subrange(0, b_ops.len() as int) == b_ops
            &&& r[b_ops.len() as int] == BaseIR::SizeOf(Box::new(t))
            &&& r[b_ops.len() as int + 1] == BaseIR::Mul
            &&& r.subrange(b_ops.len() as int + 2, b_ops.len() as int + 2 + a_ops.len()) == a_ops
            &&& r[r.len() - 1] == BaseIR::Add
        }),
{
    let r = binop_ops(BinOp::Offset, a_ops, Type::Ptr(Box::new(t)), b_ops);
    assert(r.subrange(0, b_ops.len() as int) =~= b_ops);
    assert(r.subrange(b_ops.len() as int + 2, b_ops.len() as int + 2 + a_ops.len()) =~= a_ops);
}

/// Law: `!x` is lowered the same way for every operand type: the operand's instructions,
/// unchanged, followed by exactly one `not`.
pub proof fn lemma_not_appends_one_not(ops: Seq<BaseIR>, ty: Type, other_ty: Type)
    ensures
        unop_ops(UnOp::Not, ops, ty) == unop_ops(UnOp::Not, ops, other_ty),
        unop_ops(UnOp::Not, ops, ty).len() == ops.len() + 1,
        unop_ops(UnOp::Not, ops, ty).subrange(0, ops.len() as int) == ops,
        unop_ops(UnOp::Not, ops, ty)[ops.len() as int] == BaseIR::Not,
{
    assert(unop_ops(UnOp::Not, ops, ty).subrange(0, ops.len() as int) =~= ops);
}

/// Law: `-x` pushes a zero of the operand's kind (a float zero for the float types, an
/// integer zero otherwise), then `sub`, then the operand's instructions, unchanged; the
/// lowering is the same for all integer types.
pub proof fn lemma_neg_shape(ops: Seq<BaseIR>, ty: Type, other_int: Type)
    requires
        negatable(ty),
        negatable(other_int),
        !(other_int is F32 || other_int is F64),
    ensures
        ({
            let r = unop_ops(UnOp::Neg, ops, ty);
            &&& r.len() == ops.len() + 2
            &&& r[0] == (if ty is F32 || ty is F64 { BaseIR::LDConstF32(0) } else { BaseIR::LDConstI32(0) })
            &&& r[1] == BaseIR::Sub
            &&& r.subrange(2, r.len() as int) == ops
        }),
        !(ty is F32 || ty is F64) ==> unop_ops(UnOp::Neg, ops, ty) == unop_ops(UnOp::Neg, ops, other_int),
{
    let r = unop_ops(UnOp::Neg, ops, ty);
    assert(r.subrange(2, r.len() as int) =~= ops);
}

/// Law: each arithmetic, bitwise, shift and comparison operator (other than `!=`, `<=`,
/// `>=` and `Offset`) is lowered to the two operands followed by the one IR instruction of
/// the same meaning: `+` to `add`, `-` to `sub`, `*` to `mul`, `/` to `div`, `%` to
/// `rem`, `^` to `xor`, `&` to `and`, `|` to `or`, `<<` to `shl`, `>>` to `shr`, `==` to
/// `eq`, `<` to `lt`, `>` to `gt`.
pub proof fn lemma_operator_instructions(a_ops: Seq<BaseIR>, a_ty: Type, b_ops: Seq<BaseIR>)
    ensures
        binop_ops(BinOp::Add, a_ops, a_ty, b_ops) == a_ops + b_ops + seq![BaseIR::Add],
        binop_ops(BinOp::AddUnchecked, a_ops, a_ty, b_ops) == a_ops + b_ops + seq![BaseIR::Add],
        binop_ops(BinOp::Sub, a_ops, a_ty, b_ops) == a_ops + b_ops + seq![BaseIR::Sub],
        binop_ops(BinOp::SubUnchecked, a_ops, a_ty, b_ops) == a_ops + b_ops + seq![BaseIR::Sub],
        binop_ops(BinOp::Mul, a_ops, a_ty, b_ops) == a_ops + b_ops + seq![BaseIR::Mul],
        binop_ops(BinOp::MulUnchecked, a_ops, a_ty, b_ops) == a_ops + b_ops + seq![BaseIR::Mul],
        binop_ops(BinOp::Div, a_ops, a_ty, b_ops) == a_ops + b_ops + seq![BaseIR::Div],
        binop_ops(BinOp::Rem, a_ops, a_ty, b_ops) == a_ops + b_ops + seq![BaseIR::Rem],
        binop_ops(BinOp::BitXor, a_ops, a_ty, b_ops) == a_ops + b_ops + seq![BaseIR::Xor],
        binop_ops(BinOp::BitAnd, a_ops, a_ty, b_ops) == a_ops + b_ops + seq![BaseIR::And],
        binop_ops(BinOp::BitOr, a_ops, a_ty, b_ops) == a_ops + b_ops + seq![BaseIR::Or],
        binop_ops(BinOp::Shl, a_ops, a_ty, b_ops) == a_ops + b_ops + seq![BaseIR::Shl],
        binop_ops(BinOp::ShlUnchecked, a_ops, a_ty, b_ops) == a_ops + b_ops + seq![BaseIR::Shl],
        binop_ops(BinOp::Shr, a_ops, a_ty, b_ops) == a_ops + b_ops + seq![BaseIR::Shr],
        binop_ops(BinOp::ShrUnchecked, a_ops, a_ty, b_ops) == a_ops + b_ops + seq![BaseIR::Shr],
        binop_ops(BinOp::Eq, a_ops, a_ty, b_ops) == a_ops + b_ops + seq![BaseIR::Eq],
        binop_ops(BinOp::Lt, a_ops, a_ty, b_ops) == a_ops + b_ops + seq![BaseIR::Lt],
        binop_ops(BinOp::Gt, a_ops, a_ty, b_ops) == a_ops + b_ops + seq![BaseIR::Gt],
{
}

/// Law: `!=`, `<=` and `>=` produce the operands, the comparison `==`, `>` or `<`
/// respectively, and a comparison of its result with zero (a logical negation).
pub proof fn lemma_negated_comparison_instructions(a_ops: Seq<BaseIR>, a_ty: Type, b_ops: Seq<BaseIR>)
    ensures
        binop_ops(BinOp::Ne, a_ops, a_ty, b_ops) == a_ops + b_ops + seq![BaseIR::Eq, BaseIR::LDConstI32(0), BaseIR::Eq],
        binop_ops(BinOp::Le, a_ops, a_ty, b_ops) == a_ops + b_ops + seq![BaseIR::Gt, BaseIR::LDConstI32(0), BaseIR::Eq],
        binop_ops(BinOp::Ge, a_ops, a_ty, b_ops) == a_ops + b_ops + seq![BaseIR::Lt, BaseIR::LDConstI32(0), BaseIR::Eq],
{
}

} // verus!
