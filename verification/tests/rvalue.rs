use codegen_clr::cil::{CILOp, CallSite, FieldDescriptor, FnSig};
use codegen_clr::rvalue::{lower_rvalue, transmute_needs_deref, RvalueParts};
use codegen_clr::types::{DotnetTypeRef, Type};

fn dotnet(name: &str) -> DotnetTypeRef {
    DotnetTypeRef { assembly: None, name_path: name.to_string(), is_valuetype: true }
}

fn dt(name: &str) -> Type {
    Type::DotnetType(Box::new(dotnet(name)))
}

fn ptr(t: Type) -> Type {
    Type::Ptr(Box::new(t))
}

fn operand() -> Vec<CILOp> {
    vec![CILOp::LdcI64(1)]
}

fn fd(owner: &str, tpe: Type, name: &'static str) -> Box<FieldDescriptor> {
    Box::new(FieldDescriptor { owner: dotnet(owner), tpe, name })
}

fn spill(tmp: Type) -> Vec<CILOp> {
    vec![
        CILOp::NewTMPLocal(Box::new(tmp)),
        CILOp::SetTMPLocal,
        CILOp::LoadAddresOfTMPLocal,
        CILOp::FreeTMPLocal,
    ]
}

fn reload(tmp: Type, load: CILOp) -> Vec<CILOp> {
    vec![
        CILOp::NewTMPLocal(Box::new(tmp)),
        CILOp::SetTMPLocal,
        CILOp::LoadAddresOfTMPLocal,
        load,
        CILOp::FreeTMPLocal,
    ]
}

fn cat(parts: Vec<Vec<CILOp>>) -> Vec<CILOp> {
    parts.into_iter().flatten().collect()
}

/// Every temporary opened is freed, and no prefix frees more than it opened.
fn temporaries_balanced(ops: &[CILOp]) -> bool {
    let mut depth: i64 = 0;
    for op in ops {
        match op {
            CILOp::NewTMPLocal(_) => depth += 1,
            CILOp::FreeTMPLocal => depth -= 1,
            _ => {}
        }
        if depth < 0 {
            return false;
        }
    }
    depth == 0
}

#[test]
fn ptr_cast_between_fat_pointers_spills_and_rereads() {
    let r = lower_rvalue(RvalueParts::PtrCast {
        operand: operand(),
        source: ptr(Type::U8),
        source_fat: true,
        target_fat: true,
        deref_target: vec![CILOp::LDIndI64],
    });
    assert_eq!(r, cat(vec![operand(), spill(ptr(Type::U8)), vec![CILOp::LDIndI64]]));
    assert!(temporaries_balanced(&r));
}

#[test]
fn ptr_cast_from_fat_to_thin_loads_data_address() {
    let r = lower_rvalue(RvalueParts::PtrCast {
        operand: operand(),
        source: dt("Slice"),
        source_fat: true,
        target_fat: false,
        deref_target: vec![],
    });
    assert_eq!(r, vec![CILOp::LdcI64(1), CILOp::LDField(fd("Slice", ptr(Type::Void), "data_address"))]);
}

#[test]
fn ptr_cast_between_thin_pointers_is_the_operand() {
    for (sf, tf) in [(false, false), (false, true)] {
        let r = lower_rvalue(RvalueParts::PtrCast {
            operand: operand(),
            source: ptr(Type::I32),
            source_fat: sf,
            target_fat: tf,
            deref_target: vec![CILOp::LDIndI32],
        });
        assert_eq!(r, operand());
    }
}

#[test]
fn unsize_builds_a_slice_from_pointer_and_length() {
    let r = lower_rvalue(RvalueParts::Unsize {
        operand: operand(),
        source: ptr(dt("Arr")),
        target: dt("Slice"),
        length: 5,
    });
    let expected = vec![
        CILOp::LdcI64(1),
        CILOp::NewTMPLocal(Box::new(ptr(dt("Arr")))),
        CILOp::SetTMPLocal,
        CILOp::NewTMPLocal(Box::new(dt("Slice"))),
        CILOp::LoadAddresOfTMPLocal,
        CILOp::LoadUnderTMPLocal(1),
        CILOp::STField(fd("Slice", ptr(Type::Void), "data_address")),
        CILOp::LoadAddresOfTMPLocal,
        CILOp::LdcI64(5),
        CILOp::ConvUSize(false),
        CILOp::STField(fd("Slice", Type::USize, "metadata")),
        CILOp::LoadTMPLocal,
        CILOp::FreeTMPLocal,
        CILOp::FreeTMPLocal,
    ];
    assert_eq!(r, expected);
    assert!(temporaries_balanced(&r));
}

#[test]
fn unsize_length_wraps_as_i64() {
    let r = lower_rvalue(RvalueParts::Unsize {
        operand: vec![],
        source: ptr(Type::U8),
        target: dt("S"),
        length: u64::MAX,
    });
    assert_eq!(r[7], CILOp::LdcI64(-1));
}

fn transmute(src: Type, dst: Type) -> Vec<CILOp> {
    lower_rvalue(RvalueParts::Transmute {
        operand: operand(),
        src,
        dst,
        deref_dst: vec![CILOp::LDIndF64],
    })
}

#[test]
fn transmute_between_pointer_sized_types_is_the_operand() {
    for (s, d) in [
        (Type::USize, ptr(Type::U8)),
        (ptr(Type::U8), Type::ISize),
        (Type::ISize, Type::USize),
        (ptr(Type::I8), ptr(Type::U64)),
    ] {
        assert!(!transmute_needs_deref(&s, &d));
        assert_eq!(transmute(s, d), operand());
    }
    assert_eq!(transmute(Type::U16, Type::DotnetChar), operand());
}

#[test]
fn transmute_float_integer_pairs_reload() {
    assert_eq!(transmute(Type::F64, Type::U64), cat(vec![operand(), reload(ptr(Type::F64), CILOp::LDIndI64)]));
    assert_eq!(transmute(Type::F32, Type::U32), cat(vec![operand(), reload(ptr(Type::F32), CILOp::LDIndI32)]));
    assert_eq!(transmute(Type::U32, Type::F32), cat(vec![operand(), reload(ptr(Type::U32), CILOp::LDIndF32)]));
    assert_eq!(transmute(Type::U64, Type::F64), cat(vec![operand(), reload(ptr(Type::U64), CILOp::LDIndF64)]));
    assert!(!transmute_needs_deref(&Type::U64, &Type::F64));
}

#[test]
fn transmute_otherwise_spills_and_reads_as_target() {
    let r = transmute(Type::I32, Type::U32);
    assert_eq!(r, cat(vec![operand(), spill(Type::I32), vec![CILOp::LDIndF64]]));
    assert!(transmute_needs_deref(&Type::I32, &Type::U32));
    assert!(transmute_needs_deref(&Type::F64, &Type::I64));
    assert!(temporaries_balanced(&r));
}

#[test]
fn shallow_init_box_spills_pointer() {
    let r = lower_rvalue(RvalueParts::ShallowInitBox {
        operand: operand(),
        src: Type::U8,
        deref_boxed: vec![CILOp::LDIndI64],
    });
    assert_eq!(r, cat(vec![operand(), spill(ptr(Type::U8)), vec![CILOp::LDIndI64]]));
}

#[test]
fn float_to_float_converts() {
    let r = lower_rvalue(RvalueParts::FloatToFloat { operand: operand(), target: Type::F32 });
    assert_eq!(r, vec![CILOp::LdcI64(1), CILOp::ConvF32(false)]);
    let r = lower_rvalue(RvalueParts::FloatToFloat { operand: operand(), target: Type::F64 });
    assert_eq!(r, vec![CILOp::LdcI64(1), CILOp::ConvF64(false)]);
}

#[test]
fn size_and_alignment() {
    assert_eq!(lower_rvalue(RvalueParts::SizeOf { ty: Type::I16 }), vec![CILOp::SizeOf(Box::new(Type::I16))]);
    assert_eq!(
        lower_rvalue(RvalueParts::AlignOf { pow2_exp: 3 }),
        vec![CILOp::LdcI64(8), CILOp::ConvUSize(false)]
    );
    assert_eq!(
        lower_rvalue(RvalueParts::AlignOf { pow2_exp: 63 }),
        vec![CILOp::LdcI64(i64::MIN), CILOp::ConvUSize(false)]
    );
}

#[test]
fn discriminant_and_length_load_a_field() {
    let r = lower_rvalue(RvalueParts::Discriminant { place: operand(), owner: dt("E") });
    assert_eq!(r, vec![CILOp::LdcI64(1), CILOp::LDField(fd("E", Type::U8, "_tag"))]);
    let r = lower_rvalue(RvalueParts::Len { place: operand(), slice: dt("S") });
    assert_eq!(r, vec![CILOp::LdcI64(1), CILOp::LDField(fd("S", Type::USize, "metadata"))]);
}

fn set_item(array: &str, operand_type: Type) -> CILOp {
    CILOp::Call(Box::new(CallSite {
        class: Some(dotnet(array)),
        name: "set_Item",
        signature: FnSig { inputs: vec![dt(array), Type::USize, operand_type], output: Type::Void },
        is_static: false,
    }))
}

#[test]
fn repeat_stores_each_index() {
    let r = lower_rvalue(RvalueParts::Repeat {
        operand: operand(),
        array: dt("A"),
        operand_type: Type::I64,
        times: 2,
    });
    let mut expected = vec![CILOp::NewTMPLocal(Box::new(dt("A")))];
    for idx in 0..2 {
        expected.push(CILOp::LoadAddresOfTMPLocal);
        expected.push(CILOp::LdcI64(1));
        expected.push(CILOp::LdcI64(idx));
        expected.push(CILOp::ConvUSize(false));
        expected.push(set_item("A", Type::I64));
    }
    expected.push(CILOp::LoadTMPLocal);
    expected.push(CILOp::FreeTMPLocal);
    assert_eq!(r, expected);
    assert!(temporaries_balanced(&r));
}

#[test]
fn repeat_zero_times() {
    let r = lower_rvalue(RvalueParts::Repeat {
        operand: operand(),
        array: dt("A"),
        operand_type: Type::I64,
        times: 0,
    });
    assert_eq!(
        r,
        vec![CILOp::NewTMPLocal(Box::new(dt("A"))), CILOp::LoadTMPLocal, CILOp::FreeTMPLocal]
    );
}

#[test]
fn repeat_copies_operand_with_temporaries() {
    let inner = spill(Type::U8);
    let r = lower_rvalue(RvalueParts::Repeat {
        operand: spill(Type::U8),
        array: dt("A"),
        operand_type: Type::U8,
        times: 3,
    });
    assert_eq!(r.len(), 1 + 3 * (1 + inner.len() + 3) + 2);
    assert!(temporaries_balanced(&r));
}
