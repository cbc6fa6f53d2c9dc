//! How types and instructions are spelled in ILASM text.

use vstd::prelude::*;
use crate::text::{text, signed_decimal, push_str, push_signed_decimal};
use crate::types::{BaseIR, DotnetTypeRef, Type};

verus! {

/// The spelling of a reference to a .NET type: `valuetype` or `class`, a space, the
/// assembly in square brackets when there is one, then the type's full name.
pub open spec fn dotnet_type_ref_cli(r: DotnetTypeRef) -> Seq<u8> {
    (if r.is_valuetype { text("valuetype"@) } else { text("class"@) }) + text(" "@) + match r.assembly {
        Some(assembly_name) => text("["@) + text(assembly_name@) + text("]"@),
        None => Seq::<u8>::empty(),
    } + text(r.name_path@)
}

/// The spelling of a type in ILASM text.
pub open spec fn type_cil(t: Type) -> Seq<u8>
    decreases t,
{
    match t {
        Type::Void => text("void"@),
        Type::Bool => text("bool"@),
        Type::DotnetChar => text("char"@),
        Type::I8 => text("int8"@),
        Type::U8 => text("uint8"@),
        Type::I16 => text("int16"@),
        Type::U16 => text("uint16"@),
        Type::I32 => text("int32"@),
        Type::U32 => text("uint32"@),
        Type::I64 => text("int64"@),
        Type::U64 => text("uint64"@),
        Type::I128 => text("valuetype [System.Runtime]System.Int128"@),
        Type::U128 => text("valuetype [System.Runtime]System.UInt128"@),
        Type::ISize => text("native int"@),
        Type::USize => text("native uint"@),
        Type::F32 => text("float32"@),
        Type::F64 => text("float64"@),
        Type::Ptr(inner) => type_cil(*inner) + text("*"@),
        Type::DotnetType(r) => dotnet_type_ref_cli(*r),
    }
}

/// The spelling of a type in a position where `void` may not stand (fields, parameters,
/// locals): `void` becomes the placeholder value type `RustVoid`.
pub open spec fn non_void_type_cil(t: Type) -> Seq<u8> {
    match t {
        Type::Void => text("valuetype RustVoid"@),
        _ => type_cil(t),
    }
}

/// The spelling of an instruction in ILASM text.
pub open spec fn op_cli(op: BaseIR) -> Seq<u8> {
    match op {
        BaseIR::Add => text("add"@),
        BaseIR::Sub => text("sub"@),
        BaseIR::Mul => text("mul"@),
        BaseIR::Div => text("div"@),
        BaseIR::Rem => text("rem"@),
        BaseIR::Shl => text("shl"@),
        BaseIR::Shr => text("shr"@),
        BaseIR::Eq => text("ceq"@),
        BaseIR::Gt => text("cgt"@),
        BaseIR::Lt => text("clt"@),
        BaseIR::Not => text("not"@),
        BaseIR::Xor => text("xor"@),
        BaseIR::Or => text("or"@),
        BaseIR::And => text("and"@),
        BaseIR::LDConstI32(v) => text("ldc.i4 "@) + signed_decimal(v as int),
        BaseIR::LDConstF32(bits) => text("ldc.r4 float32("@) + signed_decimal((bits as i32) as int)
            + text(")"@),
        BaseIR::SizeOf(t) => text("sizeof "@) + type_cil(*t),
    }
}

/// Appends the spelling of a .NET type reference to `w`.
pub fn emit_dotnet_type_ref(w: &mut Vec<u8>, r: &DotnetTypeRef)
    ensures
        final(w)@ == old(w)@ + dotnet_type_ref_cli(*r),
{
    if r.is_valuetype {
        push_str(w, "valuetype");
    } else {
        push_str(w, "class");
    }
    push_str(w, " ");
    let ghost head = w@;
    match &r.assembly {
        Some(assembly_name) => {
            push_str(w, "[");
            push_str(w, assembly_name.as_str());
            push_str(w, "]");
            assert(w@ == head + (text("["@) + text(assembly_name@) + text("]"@)));
        },
        None => {
            assert(w@ == head + Seq::<u8>::empty());
        },
    }
    push_str(w, r.name_path.as_str());
}

/// Appends the spelling of `t` to `w`.
pub fn emit_type_cil(w: &mut Vec<u8>, t: &Type)
    ensures
        final(w)@ == old(w)@ + type_cil(*t),
    decreases t,
{
    match t {
        Type::Void => push_str(w, "void"),
        Type::Bool => push_str(w, "bool"),
        Type::DotnetChar => push_str(w, "char"),
        Type::I8 => push_str(w, "int8"),
        Type::U8 => push_str(w, "uint8"),
        Type::I16 => push_str(w, "int16"),
        Type::U16 => push_str(w, "uint16"),
        Type::I32 => push_str(w, "int32"),
        Type::U32 => push_str(w, "uint32"),
        Type::I64 => push_str(w, "int64"),
        Type::U64 => push_str(w, "uint64"),
        Type::I128 => push_str(w, "valuetype [System.Runtime]System.Int128"),
        Type::U128 => push_str(w, "valuetype [System.Runtime]System.UInt128"),
        Type::ISize => push_str(w, "native int"),
        Type::USize => push_str(w, "native uint"),
        Type::F32 => push_str(w, "float32"),
        Type::F64 => push_str(w, "float64"),
        Type::Ptr(inner) => {
            emit_type_cil(w, &**inner);
            push_str(w, "*");
            assert(w@ == old(w)@ + (type_cil(**inner) + text("*"@)));
        },
        Type::DotnetType(r) => emit_dotnet_type_ref(w, &**r),
    }
}

/// Appends the spelling of `t` in a position where `void` may not stand.
pub fn emit_non_void_type_cil(w: &mut Vec<u8>, t: &Type)
    ensures
        final(w)@ == old(w)@ + non_void_type_cil(*t),
{
    match t {
        Type::Void => push_str(w, "valuetype RustVoid"),
        _ => emit_type_cil(w, t),
    }
}

/// Appends the spelling of the instruction `op` to `w`.
pub fn emit_op_cli(w: &mut Vec<u8>, op: &BaseIR)
    ensures
        final(w)@ == old(w)@ + op_cli(*op),
{
    match op {
        BaseIR::Add => push_str(w, "add"),
        BaseIR::Sub => push_str(w, "sub"),
        BaseIR::Mul => push_str(w, "mul"),
        BaseIR::Div => push_str(w, "div"),
        BaseIR::Rem => push_str(w, "rem"),
        BaseIR::Shl => push_str(w, "shl"),
        BaseIR::Shr => push_str(w, "shr"),
        BaseIR::Eq => push_str(w, "ceq"),
        BaseIR::Gt => push_str(w, "cgt"),
        BaseIR::Lt => push_str(w, "clt"),
        BaseIR::Not => push_str(w, "not"),
        BaseIR::Xor => push_str(w, "xor"),
        BaseIR::Or => push_str(w, "or"),
        BaseIR::And => push_str(w, "and"),
        BaseIR::LDConstI32(v) => {
            push_str(w, "ldc.i4 ");
            push_signed_decimal(w, *v);
            assert(w@ == old(w)@ + (text("ldc.i4 "@) + signed_decimal(*v as int)));
        },
        BaseIR::LDConstF32(bits) => {
            push_str(w, "ldc.r4 float32(");
            let signed: i32 = *bits as i32;
            push_signed_decimal(w, signed);
            push_str(w, ")");
            assert(w@ == old(w)@ + (text("ldc.r4 float32("@) + signed_decimal((*bits as i32) as int)
                + text(")"@)));
        },
        BaseIR::SizeOf(t) => {
            push_str(w, "sizeof ");
            emit_type_cil(w, &**t);
            assert(w@ == old(w)@ + (text("sizeof "@) + type_cil(**t)));
        },
    }
}

} // verus!
