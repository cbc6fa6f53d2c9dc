//! Lowering of the rvalues of Rust's mid-level IR to CIL instructions, once the
//! compiler has answered every question about types and places: what remains is the
//! choice and the assembly of the instruction sequence.

use vstd::prelude::*;
use vstd::arithmetic::power2::pow2;
use crate::types::Type;
use crate::cil::{
    CILOp, CILOpView, CallSite, FieldDescriptor, FnSig, ops_view, plain, push_op, append_ops,
    clone_ops,
};
use crate::layout::align_from_exponent;

verus! {

/// What the lowering of one rvalue reads, as plain values: the instructions already
/// produced for its operand or place, and the lowered types involved.
pub enum RvalueParts {
    /// A cast between pointers (or from a mutable to a constant pointer). `source_fat`
    /// and `target_fat`: whether each side points to a slice or a string.
    /// `deref_target`: the instructions that read a value of the target type through an
    /// address (read only when both sides are fat).
    PtrCast {
        operand: Vec<CILOp>,
        source: Type,
        source_fat: bool,
        target_fat: bool,
        deref_target: Vec<CILOp>,
    },
    /// An unsizing cast from a pointer to an array of `length` elements to a slice.
    Unsize { operand: Vec<CILOp>, source: Type, target: Type, length: u64 },
    /// A reinterpretation of the bits of a `src` value as a `dst` value. `deref_dst`: the
    /// instructions that read a value of type `dst` through an address.
    Transmute { operand: Vec<CILOp>, src: Type, dst: Type, deref_dst: Vec<CILOp> },
    /// The initialization of a box. `deref_boxed`: the instructions that read a box of the
    /// pointee type through an address.
    ShallowInitBox { operand: Vec<CILOp>, src: Type, deref_boxed: Vec<CILOp> },
    /// A conversion between float types.
    FloatToFloat { operand: Vec<CILOp>, target: Type },
    /// The size of a type.
    SizeOf { ty: Type },
    /// The alignment of a type, given as the exponent of its power of two.
    AlignOf { pow2_exp: u8 },
    /// The discriminant of an enum value. `place`: the instructions that push its address.
    Discriminant { place: Vec<CILOp>, owner: Type },
    /// The length of a slice. `place`: the instructions that push its address;
    /// `slice`: the lowered slice type.
    Len { place: Vec<CILOp>, slice: Type },
    /// An array of `times` copies of the operand.
    Repeat { operand: Vec<CILOp>, array: Type, operand_type: Type, times: u64 },
}

/// The rvalues the lowering handles: the types it reads fields of, or calls methods on,
/// are .NET types; a float conversion targets a float type; the alignment fits a `u64`.
pub open spec fn rvalue_supported(p: RvalueParts) -> bool {
    match p {
        RvalueParts::PtrCast { source, source_fat, target_fat, .. } => source_fat && !target_fat
            ==> source is DotnetType,
        RvalueParts::Unsize { target, .. } => target is DotnetType,
        RvalueParts::FloatToFloat { target, .. } => target is F32 || target is F64,
        RvalueParts::AlignOf { pow2_exp } => pow2_exp < 64,
        RvalueParts::Discriminant { owner, .. } => owner is DotnetType,
        RvalueParts::Len { slice, .. } => slice is DotnetType,
        RvalueParts::Repeat { array, .. } => array is DotnetType,
        _ => true,
    }
}

/// A field of the .NET type `owner`.
pub open spec fn field(owner: Type, tpe: Type, name: &'static str) -> Box<FieldDescriptor> {
    Box::new(FieldDescriptor { owner: owner.spec_as_dotnet().unwrap(), tpe, name })
}

/// The type of an untyped pointer.
pub open spec fn void_ptr() -> Type {
    Type::Ptr(Box::new(Type::Void))
}

/// Stores the stack top in a fresh temporary of type `tmp`, pushes its address, and
/// closes the temporary.
pub open spec fn spill_to_address(tmp: Type) -> Seq<CILOpView> {
    seq![
        plain(CILOp::NewTMPLocal(Box::new(tmp))),
        plain(CILOp::SetTMPLocal),
        plain(CILOp::LoadAddresOfTMPLocal),
        plain(CILOp::FreeTMPLocal),
    ]
}

/// Stores the stack top in a fresh temporary of type `tmp`, reads it back through its
/// address with `load`, and closes the temporary.
pub open spec fn reload_as(tmp: Type, load: CILOp) -> Seq<CILOpView> {
    seq![
        plain(CILOp::NewTMPLocal(Box::new(tmp))),
        plain(CILOp::SetTMPLocal),
        plain(CILOp::LoadAddresOfTMPLocal),
        plain(load),
        plain(CILOp::FreeTMPLocal),
    ]
}

/// Whether a type is pointer-sized or a pointer.
pub open spec fn is_pointer_like(t: Type) -> bool {
    t is ISize || t is USize || t is Ptr
}

/// The instructions of a transmute: nothing between pointer-sized types and from `u16`
/// to `char`; a reload through an address for the float/integer pairs of equal size;
/// otherwise a spill to a temporary whose address is read as the target type.
pub open spec fn transmute_ops(operand: Seq<CILOpView>, src: Type, dst: Type, deref_dst: Seq<
    CILOpView,
>) -> Seq<CILOpView> {
    if is_pointer_like(src) && is_pointer_like(dst) {
        operand
    } else if src is U16 && dst is DotnetChar {
        operand
    } else if src is F64 && dst is U64 {
        operand + reload_as(Type::Ptr(Box::new(src)), CILOp::LDIndI64)
    } else if src is F32 && dst is U32 {
        operand + reload_as(Type::Ptr(Box::new(src)), CILOp::LDIndI32)
    } else if src is U32 && dst is F32 {
        operand + reload_as(Type::Ptr(Box::new(src)), CILOp::LDIndF32)
    } else if src is U64 && dst is F64 {
        operand + reload_as(Type::Ptr(Box::new(src)), CILOp::LDIndF64)
    } else {
        operand + spill_to_address(src) + deref_dst
    }
}

/// Whether a transmute from `src` to `dst` is done by reading the spilled value through
/// its address as a `dst` (the case in which `deref_dst` is used).
pub open spec fn transmute_reads_as_target(src: Type, dst: Type) -> bool {
    !(is_pointer_like(src) && is_pointer_like(dst)) && !(src is U16 && dst is DotnetChar) && !(
    src is F64 && dst is U64) && !(src is F32 && dst is U32) && !(src is U32 && dst is F32) && !(
    src is U64 && dst is F64)
}

/// Whether a transmute from `src` to `dst` reads the value back as the target type, so
/// that the instructions for such a read must be handed in.
pub fn transmute_needs_deref(src: &Type, dst: &Type) -> (r: bool)
    ensures
        r == transmute_reads_as_target(*src, *dst),
{
    match (src, dst) {
        (
            Type::ISize | Type::USize | Type::Ptr(_),
            Type::ISize | Type::USize | Type::Ptr(_),
        ) => false,
        (Type::U16, Type::DotnetChar) => false,
        (Type::F64, Type::U64) => false,
        (Type::F32, Type::U32) => false,
        (Type::U32, Type::F32) => false,
        (Type::U64, Type::F64) => false,
        (_, _) => true,
    }
}

/// The instructions that turn a pointer to an array of `length` elements into a slice
/// of the .NET type `target`: the slice's data address is the array pointer, its
/// metadata the length.
pub open spec fn unsize_tail(source: Type, target: Type, length: u64) -> Seq<CILOpView> {
    seq![
        plain(CILOp::NewTMPLocal(Box::new(source))),
        plain(CILOp::SetTMPLocal),
        plain(CILOp::NewTMPLocal(Box::new(target))),
        plain(CILOp::LoadAddresOfTMPLocal),
        plain(CILOp::LoadUnderTMPLocal(1)),
        plain(CILOp::STField(field(target, void_ptr(), "data_address"))),
        plain(CILOp::LoadAddresOfTMPLocal),
        plain(CILOp::LdcI64(length as i64)),
        plain(CILOp::ConvUSize(false)),
        plain(CILOp::STField(field(target, Type::USize, "metadata"))),
        plain(CILOp::LoadTMPLocal),
        plain(CILOp::FreeTMPLocal),
        plain(CILOp::FreeTMPLocal),
    ]
}

/// The call that stores an element into an array of the .NET type `array`.
pub open spec fn set_item_call(array: Type, operand_type: Type) -> CILOpView {
    CILOpView::Call {
        class: array.spec_as_dotnet(),
        name: "set_Item",
        inputs: seq![array, Type::USize, operand_type],
        output: Type::Void,
        is_static: false,
    }
}

/// The instructions that store the operand at index `idx` of the array in the innermost
/// temporary.
pub open spec fn repeat_item(operand: Seq<CILOpView>, array: Type, operand_type: Type, idx: u64) -> Seq<
    CILOpView,
> {
    seq![plain(CILOp::LoadAddresOfTMPLocal)] + operand + seq![
        plain(CILOp::LdcI64(#[verifier::truncate] (idx as i64))),
        plain(CILOp::ConvUSize(false)),
        set_item_call(array, operand_type),
    ]
}

/// The stores at indices `0 .. k`, in order.
pub open spec fn repeat_items(operand: Seq<CILOpView>, array: Type, operand_type: Type, k: u64) -> Seq<
    CILOpView,
>
    decreases k,
{
    if k == 0 {
        Seq::empty()
    } else {
        repeat_items(operand, array, operand_type, (k - 1) as u64) + repeat_item(
            operand,
            array,
            operand_type,
            (k - 1) as u64,
        )
    }
}

/// The instructions of one rvalue.
pub open spec fn rvalue_ops(p: RvalueParts) -> Seq<CILOpView> {
    match p {
        RvalueParts::PtrCast { operand, source, source_fat, target_fat, deref_target } => {
            if source_fat && target_fat {
                ops_view(operand@) + spill_to_address(source) + ops_view(deref_target@)
            } else if source_fat {
                ops_view(operand@).push(plain(CILOp::LDField(field(source, void_ptr(), "data_address"))))
            } else {
                ops_view(operand@)
            }
        },
        RvalueParts::Unsize { operand, source, target, length } => ops_view(operand@) + unsize_tail(
            source,
            target,
            length,
        ),
        RvalueParts::Transmute { operand, src, dst, deref_dst } => transmute_ops(
            ops_view(operand@),
            src,
            dst,
            ops_view(deref_dst@),
        ),
        RvalueParts::ShallowInitBox { operand, src, deref_boxed } => ops_view(operand@)
            + spill_to_address(Type::Ptr(Box::new(src))) + ops_view(deref_boxed@),
        RvalueParts::FloatToFloat { operand, target } => ops_view(operand@).push(
            if target is F32 {
                plain(CILOp::ConvF32(false))
            } else {
                plain(CILOp::ConvF64(false))
            },
        ),
        RvalueParts::SizeOf { ty } => seq![plain(CILOp::SizeOf(Box::new(ty)))],
        RvalueParts::AlignOf { pow2_exp } => seq![
            plain(CILOp::LdcI64((pow2(pow2_exp as nat) as u64) as i64)),
            plain(CILOp::ConvUSize(false)),
        ],
        RvalueParts::Discriminant { place, owner } => ops_view(place@).push(
            plain(CILOp::LDField(field(owner, Type::U8, "_tag"))),
        ),
        RvalueParts::Len { place, slice } => ops_view(place@).push(
            plain(CILOp::LDField(field(slice, Type::USize, "metadata"))),
        ),
        RvalueParts::Repeat { operand, array, operand_type, times } => seq![
            plain(CILOp::NewTMPLocal(Box::new(array))),
        ] + repeat_items(ops_view(operand@), array, operand_type, times) + seq![
            plain(CILOp::LoadTMPLocal),
            plain(CILOp::FreeTMPLocal),
        ],
    }
}

/// Appends a spill of the stack top to a temporary of type `tmp`, leaving its address.
fn emit_spill(ops: &mut Vec<CILOp>, tmp: Type)
    ensures
        ops_view(final(ops)@) == ops_view(old(ops)@) + spill_to_address(tmp),
{
    let ghost t = tmp;
    push_op(ops, CILOp::NewTMPLocal(Box::new(tmp)));
    push_op(ops, CILOp::SetTMPLocal);
    push_op(ops, CILOp::LoadAddresOfTMPLocal);
    push_op(ops, CILOp::FreeTMPLocal);
    assert(ops_view(ops@) =~= ops_view(old(ops)@) + spill_to_address(t));
}

/// Appends a reload of the stack top, through a temporary of type `tmp`, with `load`.
fn emit_reload(ops: &mut Vec<CILOp>, tmp: Type, load: CILOp)
    requires
        !(load is Call),
    ensures
        ops_view(final(ops)@) == ops_view(old(ops)@) + reload_as(tmp, load),
{
    let ghost t = tmp;
    let ghost l = load;
    push_op(ops, CILOp::NewTMPLocal(Box::new(tmp)));
    push_op(ops, CILOp::SetTMPLocal);
    push_op(ops, CILOp::LoadAddresOfTMPLocal);
    push_op(ops, load);
    push_op(ops, CILOp::FreeTMPLocal);
    assert(ops_view(ops@) =~= ops_view(old(ops)@) + reload_as(t, l));
}

/// A field descriptor of the .NET type `owner`.
fn make_field(owner: &Type, tpe: Type, name: &'static str) -> (r: Box<FieldDescriptor>)
    requires
        owner is DotnetType,
    ensures
        r == field(*owner, tpe, name),
{
    let owner_ref = match owner.as_dotnet() {
        Some(r) => r,
        None => {
            assert(false);
            crate::types::DotnetTypeRef { assembly: None, name_path: String::new(), is_valuetype: false }
        },
    };
    Box::new(FieldDescriptor { owner: owner_ref, tpe, name })
}

/// The instructions of a cast between pointers.
fn lower_ptr_cast(
    operand: Vec<CILOp>,
    source: Type,
    source_fat: bool,
    target_fat: bool,
    deref_target: Vec<CILOp>,
) -> (r: Vec<CILOp>)
    requires
        source_fat && !target_fat ==> source is DotnetType,
    ensures
        ops_view(r@) == rvalue_ops(RvalueParts::PtrCast { operand, source, source_fat, target_fat, deref_target }),
{
    let mut res = operand;
    if source_fat && target_fat {
        emit_spill(&mut res, source);
        append_ops(&mut res, deref_target);
    } else if source_fat {
        let f = make_field(&source, Type::Ptr(Box::new(Type::Void)), "data_address");
        push_op(&mut res, CILOp::LDField(f));
    }
    res
}

/// The instructions of an unsizing cast from an array pointer to a slice.
fn lower_unsize(operand: Vec<CILOp>, source: Type, target: Type, length: u64) -> (r: Vec<CILOp>)
    requires
        target is DotnetType,
    ensures
        ops_view(r@) == ops_view(operand@) + unsize_tail(source, target, length),
{
    let ghost (s, t) = (source, target);
    let data_address = make_field(&target, Type::Ptr(Box::new(Type::Void)), "data_address");
    let metadata = make_field(&target, Type::USize, "metadata");
    let mut res = operand;
    push_op(&mut res, CILOp::NewTMPLocal(Box::new(source)));
    push_op(&mut res, CILOp::SetTMPLocal);
    push_op(&mut res, CILOp::NewTMPLocal(Box::new(target)));
    push_op(&mut res, CILOp::LoadAddresOfTMPLocal);
    push_op(&mut res, CILOp::LoadUnderTMPLocal(1));
    push_op(&mut res, CILOp::STField(data_address));
    push_op(&mut res, CILOp::LoadAddresOfTMPLocal);
    push_op(&mut res, CILOp::LdcI64(#[verifier::truncate] (length as i64)));
    push_op(&mut res, CILOp::ConvUSize(false));
    push_op(&mut res, CILOp::STField(metadata));
    push_op(&mut res, CILOp::LoadTMPLocal);
    push_op(&mut res, CILOp::FreeTMPLocal);
    push_op(&mut res, CILOp::FreeTMPLocal);
    assert(ops_view(res@) =~= ops_view(operand@) + unsize_tail(s, t, length));
    res
}

/// The instructions of a transmute.
fn lower_transmute(operand: Vec<CILOp>, src: Type, dst: Type, deref_dst: Vec<CILOp>) -> (r: Vec<CILOp>)
    ensures
        ops_view(r@) == transmute_ops(ops_view(operand@), src, dst, ops_view(deref_dst@)),
{
    let mut res = operand;
    let src_ptr = Type::Ptr(Box::new(src.deep_clone()));
    match (&src, &dst) {
        (
            Type::ISize | Type::USize | Type::Ptr(_),
            Type::ISize | Type::USize | Type::Ptr(_),
        ) => {},
        (Type::U16, Type::DotnetChar) => {},
        (Type::F64, Type::U64) => emit_reload(&mut res, src_ptr, CILOp::LDIndI64),
        (Type::F32, Type::U32) => emit_reload(&mut res, src_ptr, CILOp::LDIndI32),
        (Type::U32, Type::F32) => emit_reload(&mut res, src_ptr, CILOp::LDIndF32),
        (Type::U64, Type::F64) => emit_reload(&mut res, src_ptr, CILOp::LDIndF64),
        (_, _) => {
            emit_spill(&mut res, src);
            append_ops(&mut res, deref_dst);
        },
    }
    res
}

/// The instructions of an array of `times` copies of the operand.
fn lower_repeat(operand: Vec<CILOp>, array: Type, operand_type: Type, times: u64) -> (r: Vec<CILOp>)
    requires
        array is DotnetType,
    ensures
        ops_view(r@) == seq![plain(CILOp::NewTMPLocal(Box::new(array)))] + repeat_items(
            ops_view(operand@),
            array,
            operand_type,
            times,
        ) + seq![plain(CILOp::LoadTMPLocal), plain(CILOp::FreeTMPLocal)],
{
    let ghost opv = ops_view(operand@);
    let array_dotnet = match array.as_dotnet() {
        Some(r) => r,
        None => {
            assert(false);
            crate::types::DotnetTypeRef { assembly: None, name_path: String::new(), is_valuetype: false }
        },
    };
    let mut ops: Vec<CILOp> = Vec::new();
    push_op(&mut ops, CILOp::NewTMPLocal(Box::new(array.deep_clone())));
    let mut idx: u64 = 0;
    while idx < times
        invariant
            idx <= times,
            opv == ops_view(operand@),
            Some(array_dotnet) == array.spec_as_dotnet(),
            ops_view(ops@) == seq![plain(CILOp::NewTMPLocal(Box::new(array)))] + repeat_items(
                opv,
                array,
                operand_type,
                idx,
            ),
        decreases times - idx,
    {
        let ghost before = ops_view(ops@);
        push_op(&mut ops, CILOp::LoadAddresOfTMPLocal);
        append_ops(&mut ops, clone_ops(&operand));
        push_op(&mut ops, CILOp::LdcI64(#[verifier::truncate] (idx as i64)));
        push_op(&mut ops, CILOp::ConvUSize(false));
        let mut inputs: Vec<Type> = Vec::new();
        inputs.push(array.deep_clone());
        inputs.push(Type::USize);
        inputs.push(operand_type.deep_clone());
        assert(inputs@ =~= seq![array, Type::USize, operand_type]);
        let call = CallSite {
            class: Some(array_dotnet.deep_clone()),
            name: "set_Item",
            signature: FnSig { inputs, output: Type::Void },
            is_static: false,
        };
        let ghost call_view = CILOp::Call(Box::new(call))@;
        push_op(&mut ops, CILOp::Call(Box::new(call)));
        proof {
            assert(call_view == set_item_call(array, operand_type));
            assert(ops_view(ops@) =~= before + repeat_item(opv, array, operand_type, idx));
        }
        idx = idx + 1;
    }
    push_op(&mut ops, CILOp::LoadTMPLocal);
    push_op(&mut ops, CILOp::FreeTMPLocal);
    ops
}

/// The instructions of one rvalue, from the parts that the compiler's queries produced
/// (see `rvalue_ops`). The parts must be of the kinds the lowering handles
/// (`rvalue_supported`).
pub fn lower_rvalue(p: RvalueParts) -> (r: Vec<CILOp>)
    requires
        rvalue_supported(p),
    ensures
        ops_view(r@) == rvalue_ops(p),
{
    match p {
        RvalueParts::PtrCast { operand, source, source_fat, target_fat, deref_target } => lower_ptr_cast(
            operand,
            source,
            source_fat,
            target_fat,
            deref_target,
        ),
        RvalueParts::Unsize { operand, source, target, length } => lower_unsize(
            operand,
            source,
            target,
            length,
        ),
        RvalueParts::Transmute { operand, src, dst, deref_dst } => lower_transmute(
            operand,
            src,
            dst,
            deref_dst,
        ),
        RvalueParts::ShallowInitBox { operand, src, deref_boxed } => {
            let mut res = operand;
            emit_spill(&mut res, Type::Ptr(Box::new(src)));
            append_ops(&mut res, deref_boxed);
            res
        },
        RvalueParts::FloatToFloat { operand, target } => {
            let mut ops = operand;
            match target {
                Type::F32 => push_op(&mut ops, CILOp::ConvF32(false)),
                _ => push_op(&mut ops, CILOp::ConvF64(false)),
            }
            ops
        },
        RvalueParts::SizeOf { ty } => {
            let mut ops: Vec<CILOp> = Vec::new();
            push_op(&mut ops, CILOp::SizeOf(Box::new(ty)));
            ops
        },
        RvalueParts::AlignOf { pow2_exp } => {
            let align = align_from_exponent(pow2_exp);
            let mut ops: Vec<CILOp> = Vec::new();
            push_op(&mut ops, CILOp::LdcI64(#[verifier::truncate] (align as i64)));
            push_op(&mut ops, CILOp::ConvUSize(false));
            ops
        },
        RvalueParts::Discriminant { place, owner } => {
            let f = make_field(&owner, Type::U8, "_tag");
            let mut ops = place;
            push_op(&mut ops, CILOp::LDField(f));
            ops
        },
        RvalueParts::Len { place, slice } => {
            let f = make_field(&slice, Type::USize, "metadata");
            let mut ops = place;
            push_op(&mut ops, CILOp::LDField(f));
            ops
        },
        RvalueParts::Repeat { operand, array, operand_type, times } => lower_repeat(
            operand,
            array,
            operand_type,
            times,
        ),
    }
}

// ---------------------------------------------------------------------------------------
// Temporaries
// ---------------------------------------------------------------------------------------

/// How an instruction changes the number of open temporaries.
pub open spec fn tmp_delta(op: CILOpView) -> int {
    match op {
        CILOpView::Plain(CILOp::NewTMPLocal(_)) => 1,
        CILOpView::Plain(CILOp::FreeTMPLocal) => -1,
        _ => 0,
    }
}

/// The number of temporaries opened and not yet freed after the whole sequence.
pub open spec fn tmp_depth(s: Seq<CILOpView>) -> int
    decreases s.len(),
{
    if s.len() == 0 {
        0
    } else {
        tmp_depth(s.drop_last()) + tmp_delta(s.last())
    }
}

/// Whether, starting with `base` open temporaries, no prefix of the sequence closes more
/// temporaries than are open.
pub open spec fn never_below(s: Seq<CILOpView>, base: int) -> bool
    decreases s.len(),
{
    if s.len() == 0 {
        base >= 0
    } else {
        never_below(s.drop_last(), base) && base + tmp_depth(s) >= 0
    }
}

/// Every temporary that the sequence opens, it frees, and it never frees one that it
/// has not opened.
pub open spec fn tmps_balanced(s: Seq<CILOpView>) -> bool {
    tmp_depth(s) == 0 && never_below(s, 0)
}

/// The instruction sequences handed in with the parts free the temporaries they open.
pub open spec fn parts_balanced(p: RvalueParts) -> bool {
    match p {
        RvalueParts::PtrCast { operand, deref_target, .. } => tmps_balanced(ops_view(operand@))
            && tmps_balanced(ops_view(deref_target@)),
        RvalueParts::Unsize { operand, .. } => tmps_balanced(ops_view(operand@)),
        RvalueParts::Transmute { operand, deref_dst, .. } => tmps_balanced(ops_view(operand@))
            && tmps_balanced(ops_view(deref_dst@)),
        RvalueParts::ShallowInitBox { operand, deref_boxed, .. } => tmps_balanced(ops_view(operand@))
            && tmps_balanced(ops_view(deref_boxed@)),
        RvalueParts::FloatToFloat { operand, .. } => tmps_balanced(ops_view(operand@)),
        RvalueParts::SizeOf { .. } => true,
        RvalueParts::AlignOf { .. } => true,
        RvalueParts::Discriminant { place, .. } => tmps_balanced(ops_view(place@)),
        RvalueParts::Len { place, .. } => tmps_balanced(ops_view(place@)),
        RvalueParts::Repeat { operand, .. } => tmps_balanced(ops_view(operand@)),
    }
}

proof fn lemma_depth_concat(a: Seq<CILOpView>, b: Seq<CILOpView>)
    ensures
        tmp_depth(a + b) == tmp_depth(a) + tmp_depth(b),
    decreases b.len(),
{
    if b.len() == 0 {
        assert(a + b =~= a);
    } else {
        lemma_depth_concat(a, b.drop_last());
        assert((a + b).drop_last() =~= a + b.drop_last());
        assert((a + b).last() == b.last());
    }
}

proof fn lemma_never_below_concat(a: Seq<CILOpView>, b: Seq<CILOpView>, base: int)
    requires
        never_below(a, base),
        never_below(b, base + tmp_depth(a)),
    ensures
        never_below(a + b, base),
    decreases b.len(),
{
    if b.len() == 0 {
        assert(a + b =~= a);
    } else {
        lemma_never_below_concat(a, b.drop_last(), base);
        assert((a + b).drop_last() =~= a + b.drop_last());
        lemma_depth_concat(a, b);
    }
}

proof fn lemma_never_below_mono(s: Seq<CILOpView>, lo: int, hi: int)
    requires
        never_below(s, lo),
        lo <= hi,
    ensures
        never_below(s, hi),
    decreases s.len(),
{
    if s.len() > 0 {
        lemma_never_below_mono(s.drop_last(), lo, hi);
    }
}

/// The concatenation of balanced sequences is balanced.
proof fn lemma_balanced_concat(a: Seq<CILOpView>, b: Seq<CILOpView>)
    requires
        tmps_balanced(a),
        tmps_balanced(b),
    ensures
        tmps_balanced(a + b),
{
    lemma_depth_concat(a, b);
    lemma_never_below_concat(a, b, 0);
}

proof fn lemma_fixed_sequences_balanced(src: Type, load: CILOp, source: Type, target: Type, length: u64)
    requires
        !(load is NewTMPLocal),
        !(load is FreeTMPLocal),
    ensures
        tmps_balanced(spill_to_address(src)),
        tmps_balanced(reload_as(src, load)),
        tmps_balanced(unsize_tail(source, target, length)),
{
    reveal_with_fuel(tmp_depth, 14);
    reveal_with_fuel(never_below, 14);
    let s = spill_to_address(src);
    assert(s.drop_last().drop_last().drop_last() =~= seq![s[0]]);
    let r = reload_as(src, load);
    assert(r.drop_last().drop_last().drop_last().drop_last() =~= seq![r[0]]);
    let u = unsize_tail(source, target, length);
    assert(tmps_balanced(s));
    assert(tmps_balanced(r));
    assert(tmps_balanced(u));
}

proof fn lemma_repeat_items_balanced(opv: Seq<CILOpView>, array: Type, operand_type: Type, k: u64)
    requires
        tmps_balanced(opv),
    ensures
        tmps_balanced(repeat_items(opv, array, operand_type, k)),
    decreases k,
{
    if k > 0 {
        lemma_repeat_items_balanced(opv, array, operand_type, (k - 1) as u64);
        let head = seq![plain(CILOp::LoadAddresOfTMPLocal)];
        let tail = seq![
            plain(CILOp::LdcI64((k - 1) as u64 as i64)),
            plain(CILOp::ConvUSize(false)),
            set_item_call(array, operand_type),
        ];
        reveal_with_fuel(tmp_depth, 4);
        reveal_with_fuel(never_below, 4);
        assert(tmps_balanced(head));
        assert(tmps_balanced(tail));
        lemma_balanced_concat(head, opv);
        lemma_balanced_concat(head + opv, tail);
        lemma_balanced_concat(repeat_items(opv, array, operand_type, (k - 1) as u64), head + opv + tail);
        assert(repeat_item(opv, array, operand_type, (k - 1) as u64) == head + opv + tail);
    }
}

/// Law: when the instruction sequences handed in free the temporaries they open, so does
/// the lowering of every rvalue: it opens and frees equally many temporaries, and no
/// prefix of its instructions frees more than it has opened.
pub proof fn lemma_rvalue_frees_its_temporaries(p: RvalueParts)
    requires
        parts_balanced(p),
    ensures
        tmps_balanced(rvalue_ops(p)),
{
    reveal_with_fuel(tmp_depth, 3);
    reveal_with_fuel(never_below, 3);
    match p {
        RvalueParts::PtrCast { operand, source, source_fat, target_fat, deref_target } => {
            let o = ops_view(operand@);
            lemma_fixed_sequences_balanced(source, CILOp::LDIndI32, source, source, 0);
            if source_fat && target_fat {
                lemma_balanced_concat(o, spill_to_address(source));
                lemma_balanced_concat(o + spill_to_address(source), ops_view(deref_target@));
            } else if source_fat {
                let l = seq![plain(CILOp::LDField(field(source, void_ptr(), "data_address")))];
                assert(tmps_balanced(l));
                lemma_balanced_concat(o, l);
                assert(o + l =~= o.push(l[0]));
            }
        },
        RvalueParts::Unsize { operand, source, target, length } => {
            lemma_fixed_sequences_balanced(source, CILOp::LDIndI32, source, target, length);
            lemma_balanced_concat(ops_view(operand@), unsize_tail(source, target, length));
        },
        RvalueParts::Transmute { operand, src, dst, deref_dst } => {
            let o = ops_view(operand@);
            let sp = Type::Ptr(Box::new(src));
            lemma_fixed_sequences_balanced(src, CILOp::LDIndI32, src, src, 0);
            lemma_fixed_sequences_balanced(sp, CILOp::LDIndI32, src, src, 0);
            lemma_fixed_sequences_balanced(sp, CILOp::LDIndI64, src, src, 0);
            lemma_fixed_sequences_balanced(sp, CILOp::LDIndF32, src, src, 0);
            lemma_fixed_sequences_balanced(sp, CILOp::LDIndF64, src, src, 0);
            lemma_balanced_concat(o, reload_as(sp, CILOp::LDIndI32));
            lemma_balanced_concat(o, reload_as(sp, CILOp::LDIndI64));
            lemma_balanced_concat(o, reload_as(sp, CILOp::LDIndF32));
            lemma_balanced_concat(o, reload_as(sp, CILOp::LDIndF64));
            lemma_balanced_concat(o, spill_to_address(src));
            lemma_balanced_concat(o + spill_to_address(src), ops_view(deref_dst@));
        },
        RvalueParts::ShallowInitBox { operand, src, deref_boxed } => {
            let o = ops_view(operand@);
            let sp = Type::Ptr(Box::new(src));
            lemma_fixed_sequences_balanced(sp, CILOp::LDIndI32, src, src, 0);
            lemma_balanced_concat(o, spill_to_address(sp));
            lemma_balanced_concat(o + spill_to_address(sp), ops_view(deref_boxed@));
        },
        RvalueParts::FloatToFloat { operand, target } => {
            let o = ops_view(operand@);
            let c = if target is F32 {
                plain(CILOp::ConvF32(false))
            } else {
                plain(CILOp::ConvF64(false))
            };
            assert(tmps_balanced(seq![c]));
            lemma_balanced_concat(o, seq![c]);
            assert(o + seq![c] =~= o.push(c));
        },
        RvalueParts::SizeOf { ty } => {},
        RvalueParts::AlignOf { pow2_exp } => {},
        RvalueParts::Discriminant { place, owner } => {
            let o = ops_view(place@);
            let c = plain(CILOp::LDField(field(owner, Type::U8, "_tag")));
            assert(tmps_balanced(seq![c]));
            lemma_balanced_concat(o, seq![c]);
            assert(o + seq![c] =~= o.push(c));
        },
        RvalueParts::Len { place, slice } => {
            let o = ops_view(place@);
            let c = plain(CILOp::LDField(field(slice, Type::USize, "metadata")));
            assert(tmps_balanced(seq![c]));
            lemma_balanced_concat(o, seq![c]);
            assert(o + seq![c] =~= o.push(c));
        },
        RvalueParts::Repeat { operand, array, operand_type, times } => {
            let items = repeat_items(ops_view(operand@), array, operand_type, times);
            lemma_repeat_items_balanced(ops_view(operand@), array, operand_type, times);
            let open = seq![plain(CILOp::NewTMPLocal(Box::new(array)))];
            let close = seq![plain(CILOp::LoadTMPLocal), plain(CILOp::FreeTMPLocal)];
            assert(tmp_depth(open) == 1 && never_below(open, 0));
            assert(tmp_depth(close) == -1 && never_below(close, 1));
            lemma_never_below_mono(items, 0, 1);
            lemma_depth_concat(open, items);
            lemma_never_below_concat(open, items, 0);
            lemma_depth_concat(open + items, close);
            lemma_never_below_concat(open + items, close, 0);
        },
    }
}

// ---------------------------------------------------------------------------------------
// Array repetition
// ---------------------------------------------------------------------------------------

/// Whether `s`, from position `at` on, holds the store of element `idx`: the address of
/// the array temporary, the operand's instructions, the index as a native unsigned
/// integer, and a call of the array's `set_Item(array, native uint, element type)`.
pub open spec fn store_block_at(
    s: Seq<CILOpView>,
    at: int,
    o: Seq<CILOpView>,
    array: Type,
    operand_type: Type,
    idx: int,
) -> bool {
    &&& 0 <= at
    &&& at + o.len() + 4 <= s.len()
    &&& s[at] == plain(CILOp::LoadAddresOfTMPLocal)
    &&& s.subrange(at + 1, at + 1 + o.len()) == o
    &&& s[at + 1 + o.len()] == plain(CILOp::LdcI64((idx as u64) as i64))
    &&& s[at + 2 + o.len()] == plain(CILOp::ConvUSize(false))
    &&& s[at + 3 + o.len()] == CILOpView::Call {
        class: array.spec_as_dotnet(),
        name: "set_Item",
        inputs: Seq::empty().push(array).push(Type::USize).push(operand_type),
        output: Type::Void,
        is_static: false,
    }
}

proof fn lemma_store_block_extend(
    s: Seq<CILOpView>,
    t: Seq<CILOpView>,
    at: int,
    o: Seq<CILOpView>,
    array: Type,
    operand_type: Type,
    idx: int,
)
    requires
        store_block_at(s, at, o, array, operand_type, idx),
    ensures
        store_block_at(s + t, at, o, array, operand_type, idx),
        store_block_at(t + s, at + t.len(), o, array, operand_type, idx),
{
    assert((s + t).subrange(at + 1, at + 1 + o.len()) =~= s.subrange(at + 1, at + 1 + o.len()));
    assert((t + s).subrange(at + t.len() + 1, at + t.len() + 1 + o.len()) =~= s.subrange(
        at + 1,
        at + 1 + o.len(),
    ));
}

proof fn lemma_repeat_items_blocks(o: Seq<CILOpView>, array: Type, operand_type: Type, k: u64)
    ensures
        repeat_items(o, array, operand_type, k).len() == k * (o.len() + 4),
        forall|j: int|
            0 <= j < k ==> #[trigger] store_block_at(
                repeat_items(o, array, operand_type, k),
                j * (o.len() + 4),
                o,
                array,
                operand_type,
                j,
            ),
    decreases k,
{
    let n = o.len() + 4;
    if k > 0 {
        let km = (k - 1) as u64;
        lemma_repeat_items_blocks(o, array, operand_type, km);
        let a = repeat_items(o, array, operand_type, km);
        let b = repeat_item(o, array, operand_type, km);
        assert(b.len() == n);
        assert(km * n + n == k * n) by (nonlinear_arith)
            requires
                km + 1 == k,
        ;
        assert(store_block_at(b, 0, o, array, operand_type, km as int)) by {
            assert(b.subrange(1, 1 + o.len() as int) =~= o);
            assert(Seq::empty().push(array).push(Type::USize).push(operand_type) =~= set_item_call(
                array,
                operand_type,
            )->inputs);
        }
        assert forall|j: int| 0 <= j < k implies #[trigger] store_block_at(
            a + b,
            j * n,
            o,
            array,
            operand_type,
            j,
        ) by {
            if j < km {
                assert(store_block_at(a, j * n, o, array, operand_type, j));
                lemma_store_block_extend(a, b, j * n, o, array, operand_type, j);
            } else {
                assert(j * n == km * n);
                lemma_store_block_extend(b, a, 0, o, array, operand_type, km as int);
            }
        }
    }
}

/// Law: the lowering of `[x; times]` opens one temporary of the array type, then for
/// every index `k` in order stores the element: the temporary's address, the operand's
/// instructions unchanged, `k` as a native unsigned integer, and a call of the array's
/// `set_Item` with parameters (array, native uint, the element type handed in) returning
/// nothing; then it loads the array and frees the temporary.
pub proof fn lemma_repeat_stores_each_element(
    operand: Vec<CILOp>,
    array: Type,
    operand_type: Type,
    times: u64,
)
    ensures
        ({
            let r = rvalue_ops(RvalueParts::Repeat { operand, array, operand_type, times });
            let o = ops_view(operand@);
            let n = o.len() + 4;
            &&& r.len() == times * n + 3
            &&& r[0] == plain(CILOp::NewTMPLocal(Box::new(array)))
            &&& r[r.len() - 2] == plain(CILOp::LoadTMPLocal)
            &&& r[r.len() - 1] == plain(CILOp::FreeTMPLocal)
            &&& forall|k: int|
                0 <= k < times ==> #[trigger] store_block_at(r, 1 + k * n, o, array, operand_type, k)
        }),
{
    let o = ops_view(operand@);
    let n = o.len() + 4;
    let items = repeat_items(o, array, operand_type, times);
    lemma_repeat_items_blocks(o, array, operand_type, times);
    let open = seq![plain(CILOp::NewTMPLocal(Box::new(array)))];
    let close = seq![plain(CILOp::LoadTMPLocal), plain(CILOp::FreeTMPLocal)];
    let r = rvalue_ops(RvalueParts::Repeat { operand, array, operand_type, times });
    assert(r == open + items + close);
    assert forall|k: int| 0 <= k < times implies #[trigger] store_block_at(
        r,
        1 + k * n,
        o,
        array,
        operand_type,
        k,
    ) by {
        assert(store_block_at(items, k * n, o, array, operand_type, k));
        lemma_store_block_extend(items, open, k * n, o, array, operand_type, k);
        lemma_store_block_extend(open + items, close, k * n + 1, o, array, operand_type, k);
    }
}

// ---------------------------------------------------------------------------------------
// What each kind of rvalue becomes
// ---------------------------------------------------------------------------------------

/// Law: a transmute between pointer-sized types (pointers included), or from `u16` to
/// `char`, is the operand alone; between a float and the integer of the same size it
/// stores the operand in a temporary pointer slot and loads it back with the load of the
/// target kind (`f64`→`u64`: 64-bit integer load, `f32`→`u32`: 32-bit integer load,
/// `u32`→`f32`: 32-bit float load, `u64`→`f64`: 64-bit float load); any other transmute
/// stores the operand in a temporary of the source type and reads it through its address
/// with the instructions for the target type.
pub proof fn lemma_transmute_cases(operand: Vec<CILOp>, src: Type, dst: Type, deref_dst: Vec<CILOp>)
    ensures
        ({
            let r = rvalue_ops(RvalueParts::Transmute { operand, src, dst, deref_dst });
            let o = ops_view(operand@);
            let through = |load: CILOp|
                Seq::empty().push(plain(CILOp::NewTMPLocal(Box::new(Type::Ptr(Box::new(src))))))
                    .push(plain(CILOp::SetTMPLocal)).push(plain(CILOp::LoadAddresOfTMPLocal))
                    .push(plain(load)).push(plain(CILOp::FreeTMPLocal));
            &&& ((src is ISize || src is USize || src is Ptr) && (dst is ISize || dst is USize
                || dst is Ptr)) ==> r == o
            &&& (src is U16 && dst is DotnetChar) ==> r == o
            &&& (src is F64 && dst is U64) ==> r == o + through(CILOp::LDIndI64)
            &&& (src is F32 && dst is U32) ==> r == o + through(CILOp::LDIndI32)
            &&& (src is U32 && dst is F32) ==> r == o + through(CILOp::LDIndF32)
            &&& (src is U64 && dst is F64) ==> r == o + through(CILOp::LDIndF64)
            &&& transmute_reads_as_target(src, dst) ==> r == o + Seq::empty().push(
                plain(CILOp::NewTMPLocal(Box::new(src))),
            ).push(plain(CILOp::SetTMPLocal)).push(plain(CILOp::LoadAddresOfTMPLocal)).push(
                plain(CILOp::FreeTMPLocal),
            ) + ops_view(deref_dst@)
        }),
{
    let o = ops_view(operand@);
    let through = |load: CILOp|
        Seq::empty().push(plain(CILOp::NewTMPLocal(Box::new(Type::Ptr(Box::new(src))))))
            .push(plain(CILOp::SetTMPLocal)).push(plain(CILOp::LoadAddresOfTMPLocal))
            .push(plain(load)).push(plain(CILOp::FreeTMPLocal));
    assert(through(CILOp::LDIndI64) =~= reload_as(Type::Ptr(Box::new(src)), CILOp::LDIndI64));
    assert(through(CILOp::LDIndI32) =~= reload_as(Type::Ptr(Box::new(src)), CILOp::LDIndI32));
    assert(through(CILOp::LDIndF32) =~= reload_as(Type::Ptr(Box::new(src)), CILOp::LDIndF32));
    assert(through(CILOp::LDIndF64) =~= reload_as(Type::Ptr(Box::new(src)), CILOp::LDIndF64));
    assert(Seq::empty().push(plain(CILOp::NewTMPLocal(Box::new(src)))).push(plain(CILOp::SetTMPLocal))
        .push(plain(CILOp::LoadAddresOfTMPLocal)).push(plain(CILOp::FreeTMPLocal)) =~= spill_to_address(src));
}

/// Law: the discriminant of an enum is its place's address followed by a load of the
/// enum type's `_tag` field, a `u8`; the length of a slice is its place's address
/// followed by a load of the slice type's `metadata` field, a native unsigned integer.
pub proof fn lemma_tag_and_length_loads(place: Vec<CILOp>, d: crate::types::DotnetTypeRef)
    ensures
        rvalue_ops(RvalueParts::Discriminant { place, owner: Type::DotnetType(Box::new(d)) })
            == ops_view(place@) + Seq::empty().push(CILOpView::Plain(CILOp::LDField(Box::new(
            FieldDescriptor { owner: d, tpe: Type::U8, name: "_tag" },
        )))),
        rvalue_ops(RvalueParts::Len { place, slice: Type::DotnetType(Box::new(d)) })
            == ops_view(place@) + Seq::empty().push(CILOpView::Plain(CILOp::LDField(Box::new(
            FieldDescriptor { owner: d, tpe: Type::USize, name: "metadata" },
        )))),
{
    let o = ops_view(place@);
    assert(o.push(plain(CILOp::LDField(field(Type::DotnetType(Box::new(d)), Type::U8, "_tag"))))
        =~= o + Seq::empty().push(CILOpView::Plain(CILOp::LDField(Box::new(
        FieldDescriptor { owner: d, tpe: Type::U8, name: "_tag" },
    )))));
    assert(o.push(plain(CILOp::LDField(field(Type::DotnetType(Box::new(d)), Type::USize, "metadata"))))
        =~= o + Seq::empty().push(CILOpView::Plain(CILOp::LDField(Box::new(
        FieldDescriptor { owner: d, tpe: Type::USize, name: "metadata" },
    )))));
}

/// Law: a cast between pointers is the operand alone unless the source points to a
/// slice or string. From such a fat pointer to a thin one it loads the fat pointer's
/// `data_address` field (an untyped pointer); between two fat pointers it stores the
/// operand in a temporary of the source type and reads it through its address as the
/// target type.
pub proof fn lemma_ptr_cast_cases(
    operand: Vec<CILOp>,
    source: Type,
    source_fat: bool,
    target_fat: bool,
    deref_target: Vec<CILOp>,
    d: crate::types::DotnetTypeRef,
)
    ensures
        ({
            let r = rvalue_ops(RvalueParts::PtrCast { operand, source, source_fat, target_fat, deref_target });
            let o = ops_view(operand@);
            &&& !source_fat ==> r == o
            &&& source_fat && target_fat ==> r == o + Seq::empty().push(
                plain(CILOp::NewTMPLocal(Box::new(source))),
            ).push(plain(CILOp::SetTMPLocal)).push(plain(CILOp::LoadAddresOfTMPLocal)).push(
                plain(CILOp::FreeTMPLocal),
            ) + ops_view(deref_target@)
            &&& source_fat && !target_fat && source == Type::DotnetType(Box::new(d)) ==> r == o
                + Seq::empty().push(CILOpView::Plain(CILOp::LDField(Box::new(FieldDescriptor {
                owner: d,
                tpe: Type::Ptr(Box::new(Type::Void)),
                name: "data_address",
            }))))
        }),
{
    let o = ops_view(operand@);
    assert(Seq::empty().push(plain(CILOp::NewTMPLocal(Box::new(source)))).push(plain(CILOp::SetTMPLocal))
        .push(plain(CILOp::LoadAddresOfTMPLocal)).push(plain(CILOp::FreeTMPLocal)) =~= spill_to_address(source));
    if source_fat && !target_fat && source == Type::DotnetType(Box::new(d)) {
        assert(o.push(plain(CILOp::LDField(field(source, void_ptr(), "data_address")))) =~= o
            + Seq::empty().push(CILOpView::Plain(CILOp::LDField(Box::new(FieldDescriptor {
            owner: d,
            tpe: Type::Ptr(Box::new(Type::Void)),
            name: "data_address",
        })))));
    }
}

/// Law: an unsizing cast from a pointer to an array of `length` elements to the slice
/// type `d` stores the pointer in a temporary, opens a temporary slice, stores the
/// pointer in the slice's `data_address` field and the length (as a native unsigned
/// integer) in its `metadata` field, loads the slice, and frees both temporaries.
pub proof fn lemma_unsize_builds_slice(operand: Vec<CILOp>, source: Type, d: crate::types::DotnetTypeRef, length: u64)
    ensures
        ({
            let target = Type::DotnetType(Box::new(d));
            let r = rvalue_ops(RvalueParts::Unsize { operand, source, target, length });
            let o = ops_view(operand@);
            &&& r.len() == o.len() + 13
            &&& r.subrange(0, o.len() as int) == o
            &&& r[o.len() as int + 0] == plain(CILOp::NewTMPLocal(Box::new(source)))
            &&& r[o.len() as int + 1] == plain(CILOp::SetTMPLocal)
            &&& r[o.len() as int + 2] == plain(CILOp::NewTMPLocal(Box::new(target)))
            &&& r[o.len() as int + 3] == plain(CILOp::LoadAddresOfTMPLocal)
            &&& r[o.len() as int + 4] == plain(CILOp::LoadUnderTMPLocal(1))
            &&& r[o.len() as int + 5] == plain(CILOp::STField(Box::new(FieldDescriptor {
                owner: d,
                tpe: Type::Ptr(Box::new(Type::Void)),
                name: "data_address",
            })))
            &&& r[o.len() as int + 6] == plain(CILOp::LoadAddresOfTMPLocal)
            &&& r[o.len() as int + 7] == plain(CILOp::LdcI64(length as i64))
            &&& r[o.len() as int + 8] == plain(CILOp::ConvUSize(false))
            &&& r[o.len() as int + 9] == plain(CILOp::STField(Box::new(FieldDescriptor {
                owner: d,
                tpe: Type::USize,
                name: "metadata",
            })))
            &&& r[o.len() as int + 10] == plain(CILOp::LoadTMPLocal)
            &&& r[o.len() as int + 11] == plain(CILOp::FreeTMPLocal)
            &&& r[o.len() as int + 12] == plain(CILOp::FreeTMPLocal)
        }),
{
    let o = ops_view(operand@);
    let target = Type::DotnetType(Box::new(d));
    let r = rvalue_ops(RvalueParts::Unsize { operand, source, target, length });
    assert(r.subrange(0, o.len() as int) =~= o);
}

/// Law: a float conversion appends one conversion to the target float type; a box
/// initialization stores the pointer in a temporary and reads it as a box; `size_of`
/// and `align_of` push the type's size, or the alignment `2^e` as a native unsigned
/// integer.
pub proof fn lemma_small_rvalues(operand: Vec<CILOp>, src: Type, deref_boxed: Vec<CILOp>, ty: Type, e: u8)
    ensures
        rvalue_ops(RvalueParts::FloatToFloat { operand, target: Type::F32 }) == ops_view(operand@)
            + Seq::empty().push(plain(CILOp::ConvF32(false))),
        rvalue_ops(RvalueParts::FloatToFloat { operand, target: Type::F64 }) == ops_view(operand@)
            + Seq::empty().push(plain(CILOp::ConvF64(false))),
        rvalue_ops(RvalueParts::ShallowInitBox { operand, src, deref_boxed }) == ops_view(operand@)
            + Seq::empty().push(plain(CILOp::NewTMPLocal(Box::new(Type::Ptr(Box::new(src))))))
            .push(plain(CILOp::SetTMPLocal)).push(plain(CILOp::LoadAddresOfTMPLocal)).push(
            plain(CILOp::FreeTMPLocal),
        ) + ops_view(deref_boxed@),
        rvalue_ops(RvalueParts::SizeOf { ty }) == Seq::empty().push(plain(CILOp::SizeOf(Box::new(ty)))),
        e < 64 ==> rvalue_ops(RvalueParts::AlignOf { pow2_exp: e }) == Seq::empty().push(
            plain(CILOp::LdcI64((pow2(e as nat) as u64) as i64)),
        ).push(plain(CILOp::ConvUSize(false))),
{
    let o = ops_view(operand@);
    assert(o.push(plain(CILOp::ConvF32(false))) =~= o + Seq::empty().push(plain(CILOp::ConvF32(false))));
    assert(o.push(plain(CILOp::ConvF64(false))) =~= o + Seq::empty().push(plain(CILOp::ConvF64(false))));
    assert(Seq::empty().push(plain(CILOp::NewTMPLocal(Box::new(Type::Ptr(Box::new(src))))))
        .push(plain(CILOp::SetTMPLocal)).push(plain(CILOp::LoadAddresOfTMPLocal)).push(
        plain(CILOp::FreeTMPLocal)) =~= spill_to_address(Type::Ptr(Box::new(src))));
    assert(Seq::empty().push(plain(CILOp::SizeOf(Box::new(ty)))) =~= seq![plain(CILOp::SizeOf(Box::new(ty)))]);
    assert(Seq::empty().push(plain(CILOp::LdcI64((pow2(e as nat) as u64) as i64))).push(
        plain(CILOp::ConvUSize(false))) =~= seq![
        plain(CILOp::LdcI64((pow2(e as nat) as u64) as i64)),
        plain(CILOp::ConvUSize(false)),
    ]);
}

} // verus!
