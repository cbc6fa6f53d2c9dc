use codegen_clr::ilasm_exporter::{
    find_bytes, ilasm_args, ilasm_outcome, method_cil, type_def_cli, ILASMExporter,
};
use codegen_clr::types::{
    AccessModifer, AssemblyExportError, AssemblyExternRef, BaseIR, DotnetTypeRef, Method, Type,
    TypeDef,
};

fn text_of(bytes: Vec<u8>) -> String {
    String::from_utf8(bytes).unwrap()
}

fn empty_def(name: &str, access: AccessModifer) -> TypeDef {
    TypeDef {
        name: name.to_string(),
        gargc: 0,
        extends: None,
        access,
        explicit_offsets: None,
        inner_types: vec![],
        fields: vec![],
        methods: vec![],
    }
}

fn simple_method(name: &str) -> Method {
    Method {
        access: AccessModifer::Private,
        is_static: false,
        output: Type::Bool,
        name: name.to_string(),
        explicit_inputs: vec![],
        is_entrypoint: false,
        locals: vec![],
        ops: vec![],
    }
}

#[test]
fn init_declares_assembly() {
    let e = ILASMExporter::init("hello");
    assert_eq!(text_of(e.into_bytes()), ".assembly hello{}");
}

#[test]
fn init_keeps_non_ascii_name_as_utf8() {
    let e = ILASMExporter::init("Größe");
    assert_eq!(e.into_bytes(), ".assembly Größe{}".as_bytes().to_vec());
}

#[test]
fn add_global_spells_type_and_name() {
    let mut e = ILASMExporter::init("a");
    e.add_global(&Type::I32, "G");
    e.add_global(&Type::Void, "V");
    assert_eq!(
        text_of(e.into_bytes()),
        ".assembly a{}.field static int32 G\n.field static valuetype RustVoid V\n"
    );
}

#[test]
fn add_global_with_dotnet_and_pointer_types() {
    let mut e = ILASMExporter::init("a");
    let obj = DotnetTypeRef {
        assembly: Some("System.Runtime".to_string()),
        name_path: "System.Object".to_string(),
        is_valuetype: false,
    };
    e.add_global(&Type::DotnetType(Box::new(obj)), "O");
    let local = DotnetTypeRef { assembly: None, name_path: "Point".to_string(), is_valuetype: true };
    e.add_global(&Type::Ptr(Box::new(Type::DotnetType(Box::new(local)))), "P");
    e.add_global(&Type::Ptr(Box::new(Type::Ptr(Box::new(Type::USize)))), "Q");
    assert_eq!(
        text_of(e.into_bytes()),
        ".assembly a{}.field static class [System.Runtime]System.Object O\n\
         .field static valuetype Point* P\n\
         .field static native uint** Q\n"
    );
}

#[test]
fn add_global_spells_every_primitive() {
    let cases = vec![
        (Type::Bool, "bool"),
        (Type::DotnetChar, "char"),
        (Type::I8, "int8"),
        (Type::U8, "uint8"),
        (Type::I16, "int16"),
        (Type::U16, "uint16"),
        (Type::I32, "int32"),
        (Type::U32, "uint32"),
        (Type::I64, "int64"),
        (Type::U64, "uint64"),
        (Type::I128, "valuetype [System.Runtime]System.Int128"),
        (Type::U128, "valuetype [System.Runtime]System.UInt128"),
        (Type::ISize, "native int"),
        (Type::USize, "native uint"),
        (Type::F32, "float32"),
        (Type::F64, "float64"),
    ];
    for (t, spelled) in cases {
        let mut e = ILASMExporter::init("x");
        e.add_global(&t, "f");
        assert_eq!(text_of(e.into_bytes()), format!(".assembly x{{}}.field static {} f\n", spelled));
    }
}

#[test]
fn add_extern_ref_writes_version() {
    let mut e = ILASMExporter::init("a");
    e.add_extern_ref("System.Runtime", &AssemblyExternRef { version: (8, 0, 10, 65535) });
    assert_eq!(
        text_of(e.into_bytes()),
        ".assembly a{}.assembly extern System.Runtime{.ver 8:0:10:65535 }"
    );
}

#[test]
fn write_appends_raw_bytes_and_flush_keeps_them() {
    let mut e = ILASMExporter::init("a");
    let n = e.write(&[0xff, 0x00, b'z']);
    assert_eq!(n, 3);
    e.flush();
    let n = e.write(&[]);
    assert_eq!(n, 0);
    let mut expected = b".assembly a{}".to_vec();
    expected.extend_from_slice(&[0xff, 0x00, b'z']);
    assert_eq!(e.into_bytes(), expected);
}

#[test]
fn method_with_inputs_locals_and_body() {
    let m = Method {
        access: AccessModifer::Public,
        is_static: true,
        output: Type::Void,
        name: "main".to_string(),
        explicit_inputs: vec![Type::I32, Type::Ptr(Box::new(Type::U8)), Type::Void],
        is_entrypoint: true,
        locals: vec![Type::I64, Type::USize, Type::Void],
        ops: vec![BaseIR::LDConstI32(-5), BaseIR::LDConstI32(7), BaseIR::Add],
    };
    let mut w = Vec::new();
    assert!(method_cil(&mut w, &m).is_ok());
    assert_eq!(
        text_of(w),
        ".method public hidebysig static void main(int32,uint8*,valuetype RustVoid){\n\
         .entrypoint\n\
         \t.locals init(\n\
         \t\t[0] int64,\n\
         \t\t[1] native uint,\n\
         \t\t[2] valuetype RustVoid\n\
         \t)\n\
         \tldc.i4 -5\n\
         \tldc.i4 7\n\
         \tadd\n\
         }\n"
    );
}

#[test]
fn method_without_inputs_locals_or_body() {
    let mut w = b"prefix;".to_vec();
    assert!(method_cil(&mut w, &simple_method("f")).is_ok());
    assert_eq!(
        text_of(w),
        "prefix;.method private hidebysig instance bool f(){\n\t.locals init(\n\n\t)\n}\n"
    );
}

#[test]
fn method_body_spells_every_instruction() {
    let mut m = simple_method("g");
    m.ops = vec![
        BaseIR::Sub,
        BaseIR::Mul,
        BaseIR::Div,
        BaseIR::Rem,
        BaseIR::Shl,
        BaseIR::Shr,
        BaseIR::Eq,
        BaseIR::Gt,
        BaseIR::Lt,
        BaseIR::Not,
        BaseIR::Xor,
        BaseIR::Or,
        BaseIR::And,
        BaseIR::LDConstI32(i32::MIN),
        BaseIR::LDConstF32(0),
        BaseIR::LDConstF32(0x8000_0000),
        BaseIR::SizeOf(Box::new(Type::Ptr(Box::new(Type::I8)))),
    ];
    let mut w = Vec::new();
    assert!(method_cil(&mut w, &m).is_ok());
    let body = "\tsub\n\tmul\n\tdiv\n\trem\n\tshl\n\tshr\n\tceq\n\tcgt\n\tclt\n\tnot\n\txor\n\tor\n\tand\n\
                \tldc.i4 -2147483648\n\tldc.r4 float32(0)\n\tldc.r4 float32(-2147483648)\n\tsizeof int8*\n";
    assert_eq!(
        text_of(w),
        format!(
            ".method private hidebysig instance bool g(){{\n\t.locals init(\n\n\t)\n{}}}\n",
            body
        )
    );
}

#[test]
fn type_def_with_nested_type_fields_and_method() {
    let mut def = empty_def("Foo", AccessModifer::Public);
    def.inner_types = vec![empty_def("Bar", AccessModifer::Private)];
    def.fields = vec![("a".to_string(), Type::I32), ("b".to_string(), Type::F64)];
    def.methods = vec![simple_method("m")];
    let mut w = Vec::new();
    assert!(type_def_cli(&mut w, &def, false).is_ok());
    assert_eq!(
        text_of(w),
        ".class  public  ansi sealed beforefieldinit Foo extends [System.Runtime]System.ValueType{\n\
         .class nested private  ansi sealed beforefieldinit Bar extends [System.Runtime]System.ValueType{\n\
         }\n\
         \t.field public int32 a\n\
         \t.field public float64 b\n\
         .method private hidebysig instance bool m(){\n\t.locals init(\n\n\t)\n}\n\
         }\n"
    );
}

#[test]
fn type_def_with_explicit_offsets_pairs_fields_and_offsets() {
    let mut def = empty_def("U", AccessModifer::Private);
    def.explicit_offsets = Some(vec![0, 8]);
    def.fields = vec![
        ("x".to_string(), Type::U64),
        ("y".to_string(), Type::Void),
        ("dropped".to_string(), Type::U8),
    ];
    let mut w = Vec::new();
    assert!(type_def_cli(&mut w, &def, true).is_ok());
    assert_eq!(
        text_of(w),
        ".class nested private explicit ansi sealed beforefieldinit U extends [System.Runtime]System.ValueType{\n\
         \t.field [0] public uint64 x\n\
         \t.field [8] public valuetype RustVoid y\n\
         }\n"
    );
}

#[test]
fn type_def_with_more_offsets_than_fields() {
    let mut def = empty_def("V", AccessModifer::Public);
    def.explicit_offsets = Some(vec![4, 4000000000]);
    def.fields = vec![("only".to_string(), Type::Bool)];
    let mut w = Vec::new();
    assert!(type_def_cli(&mut w, &def, false).is_ok());
    assert_eq!(
        text_of(w),
        ".class  public explicit ansi sealed beforefieldinit V extends [System.Runtime]System.ValueType{\n\
         \t.field [4] public bool only\n\
         }\n"
    );
}

#[test]
fn exporter_add_type_and_method_append_in_order() {
    let mut e = ILASMExporter::init("asm");
    e.add_type(&empty_def("T", AccessModifer::Public));
    e.add_method(&simple_method("f"));
    assert_eq!(
        text_of(e.into_bytes()),
        ".assembly asm{}\
         .class  public  ansi sealed beforefieldinit T extends [System.Runtime]System.ValueType{\n}\n\
         .method private hidebysig instance bool f(){\n\t.locals init(\n\n\t)\n}\n"
    );
}

#[test]
fn ilasm_outcome_success() {
    let out = "Microsoft (R) .NET IL Assembler.\nOperation completed successfully\n";
    assert_eq!(ilasm_outcome(out, "warnings"), Ok(()));
}

#[test]
fn ilasm_outcome_failure_carries_both_outputs() {
    assert_eq!(
        ilasm_outcome("error at line 3", "bad"),
        Err(AssemblyExportError::ExporterError("stdout:error at line 3 stderr:bad".to_string()))
    );
}

#[test]
fn ilasm_outcome_needs_the_whole_marker_line() {
    let out = "Operation completed successfully\n";
    assert!(ilasm_outcome(out, "").is_err());
    let out = "\nOperation completed successfully";
    assert!(ilasm_outcome(out, "").is_err());
}

#[test]
fn ilasm_args_for_dll_and_exe() {
    assert_eq!(
        ilasm_args(true, "/tmp/out.dll", "/tmp/out.il"),
        vec!["-dll".to_string(), "-output:/tmp/out.dll".to_string(), "/tmp/out.il".to_string()]
    );
    assert_eq!(
        ilasm_args(false, "a", "b"),
        vec!["-exe".to_string(), "-output:a".to_string(), "b".to_string()]
    );
}

#[test]
fn find_bytes_edges() {
    assert!(find_bytes(b"abc", b""));
    assert!(find_bytes(b"", b""));
    assert!(!find_bytes(b"ab", b"abc"));
    assert!(find_bytes(b"xxabc", b"abc"));
    assert!(find_bytes(b"abcxx", b"abc"));
    assert!(!find_bytes(b"abxc", b"abc"));
}

#[test]
fn nested_definitions_are_written_one_after_the_other() {
    let x = {
        let mut d = empty_def("X", AccessModifer::Public);
        d.fields = vec![("f".to_string(), Type::U8)];
        d
    };
    let y = empty_def("Y", AccessModifer::Private);
    let mut alone_x = Vec::new();
    assert!(type_def_cli(&mut alone_x, &x, true).is_ok());
    let mut alone_y = Vec::new();
    assert!(type_def_cli(&mut alone_y, &y, true).is_ok());

    let mut outer = empty_def("O", AccessModifer::Public);
    outer.inner_types = vec![x, y];
    let mut w = Vec::new();
    assert!(type_def_cli(&mut w, &outer, false).is_ok());
    let mut expected =
        b".class  public  ansi sealed beforefieldinit O extends [System.Runtime]System.ValueType{\n".to_vec();
    expected.extend(alone_x);
    expected.extend(alone_y);
    expected.extend(b"}\n");
    assert_eq!(w, expected);
}

#[test]
fn method_body_split_in_two_is_written_in_order() {
    let mut whole = simple_method("h");
    whole.ops = vec![BaseIR::LDConstI32(1), BaseIR::Not, BaseIR::LDConstI32(2), BaseIR::Or];
    let mut w = Vec::new();
    assert!(method_cil(&mut w, &whole).is_ok());
    let text = text_of(w);
    assert!(text.ends_with("\tldc.i4 1\n\tnot\n\tldc.i4 2\n\tor\n}\n"));
}
