//! The ILASM exporter: builds the text of an assembly, piece by piece, as bytes.

use vstd::prelude::*;
use crate::text::{text, decimal, push_bytes, push_str, push_decimal};
use vstd::string::StringExecFns;
use crate::types::{AccessModifer, Method, Type, TypeDef, AssemblyExternRef, AssemblyExportError};
use crate::ilasm_op::{type_cil, non_void_type_cil, op_cli, emit_type_cil, emit_non_void_type_cil, emit_op_cli};

verus! {

/// Whether every method body declares its locals with `init` (zero-initialized).
pub const ALWAYS_INIT_LOCALS: bool = true;

// ---------------------------------------------------------------------------------------
// Methods
// ---------------------------------------------------------------------------------------

/// The parameter list of a method header: the parameter types, separated by commas.
pub open spec fn inputs_cil(inputs: Seq<Type>) -> Seq<u8>
    decreases inputs.len(),
{
    if inputs.len() == 0 {
        Seq::<u8>::empty()
    } else if inputs.len() == 1 {
        non_void_type_cil(inputs[0])
    } else {
        inputs_cil(inputs.drop_last()) + text(","@) + non_void_type_cil(inputs.last())
    }
}

/// One entry of the `.locals` list: its slot number in brackets, then its type.
pub open spec fn local_cil(idx: nat, t: Type) -> Seq<u8> {
    text("\t\t["@) + decimal(idx) + text("] "@) + non_void_type_cil(t)
}

/// The entries of the `.locals` list, separated by a comma and a line break.
pub open spec fn locals_cil(locals: Seq<Type>) -> Seq<u8>
    decreases locals.len(),
{
    if locals.len() == 0 {
        Seq::<u8>::empty()
    } else if locals.len() == 1 {
        local_cil(0, locals[0])
    } else {
        locals_cil(locals.drop_last()) + text(",\n"@) + local_cil(
            (locals.len() - 1) as nat,
            locals.last(),
        )
    }
}

/// The instructions of a method body, one per line, each indented by a tab.
pub open spec fn ops_cil(ops: Seq<crate::types::BaseIR>) -> Seq<u8>
    decreases ops.len(),
{
    if ops.len() == 0 {
        Seq::<u8>::empty()
    } else {
        ops_cil(ops.drop_last()) + text("\t"@) + op_cli(ops.last()) + text("\n"@)
    }
}

/// The header line of a method, up to and including the opening brace.
pub open spec fn method_header_cil(m: Method) -> Seq<u8> {
    text(".method "@) + (if m.access is Private { text("private"@) } else { text("public"@) })
        + text(" hidebysig "@) + (if m.is_static { text("static"@) } else { text("instance"@) })
        + text(" "@) + type_cil(m.output) + text(" "@) + text(m.name@) + text("("@)
        + inputs_cil(m.explicit_inputs@) + text("){\n"@)
}

/// The complete text of a method: header, entry-point marker, locals, body, closing brace.
pub open spec fn method_text(m: Method) -> Seq<u8> {
    method_header_cil(m) + (if m.is_entrypoint { text(".entrypoint\n"@) } else { Seq::<u8>::empty() })
        + (if ALWAYS_INIT_LOCALS { text("\t.locals init(\n"@) } else { text("\t.locals (\n"@) })
        + locals_cil(m.locals@) + text("\n\t)\n"@) + ops_cil(m.ops@) + text("}\n"@)
}

/// Writes the parameter list of a method header.
fn emit_inputs(w: &mut Vec<u8>, inputs: &Vec<Type>)
    ensures
        final(w)@ == old(w)@ + inputs_cil(inputs@),
{
    let n = inputs.len();
    if n == 0 {
        return;
    }
    emit_non_void_type_cil(w, &inputs[0]);
    assert(inputs@.take(1).drop_last().len() == 0);
    assert(inputs_cil(inputs@.take(1)) == non_void_type_cil(inputs@[0]));
    let mut i: usize = 1;
    while i < n
        invariant
            n == inputs@.len(),
            1 <= i <= n,
            w@ == old(w)@ + inputs_cil(inputs@.take(i as int)),
        decreases n - i,
    {
        push_str(w, ",");
        emit_non_void_type_cil(w, &inputs[i]);
        proof {
            let s = inputs@.take(i + 1);
            assert(s.drop_last() == inputs@.take(i as int));
            assert(s.last() == inputs@[i as int]);
            assert(inputs_cil(s) == inputs_cil(s.drop_last()) + text(","@) + non_void_type_cil(
                s.last(),
            ));
        }
        i = i + 1;
    }
    assert(inputs@.take(n as int) == inputs@);
}

/// Writes the entries of the `.locals` list.
fn emit_locals(w: &mut Vec<u8>, locals: &Vec<Type>)
    ensures
        final(w)@ == old(w)@ + locals_cil(locals@),
{
    let n = locals.len();
    if n == 0 {
        return;
    }
    push_str(w, "\t\t[");
    push_decimal(w, 0);
    push_str(w, "] ");
    emit_non_void_type_cil(w, &locals[0]);
    assert(locals_cil(locals@.take(1)) == local_cil(0, locals@[0]));
    let mut i: usize = 1;
    while i < n
        invariant
            n == locals@.len(),
            1 <= i <= n,
            w@ == old(w)@ + locals_cil(locals@.take(i as int)),
        decreases n - i,
    {
        push_str(w, ",\n");
        push_str(w, "\t\t[");
        push_decimal(w, i as u64);
        push_str(w, "] ");
        emit_non_void_type_cil(w, &locals[i]);
        proof {
            let s = locals@.take(i + 1);
            assert(s.drop_last() == locals@.take(i as int));
            assert(s.last() == locals@[i as int]);
            assert(locals_cil(s) == locals_cil(s.drop_last()) + text(",\n"@) + local_cil(
                i as nat,
                s.last(),
            ));
        }
        i = i + 1;
    }
    assert(locals@.take(n as int) == locals@);
}

/// Writes the instructions of a method body.
fn emit_ops(w: &mut Vec<u8>, ops: &Vec<crate::types::BaseIR>)
    ensures
        final(w)@ == old(w)@ + ops_cil(ops@),
{
    let n = ops.len();
    let mut i: usize = 0;
    assert(ops@.take(0).len() == 0);
    while i < n
        invariant
            n == ops@.len(),
            i <= n,
            w@ == old(w)@ + ops_cil(ops@.take(i as int)),
        decreases n - i,
    {
        push_str(w, "\t");
        emit_op_cli(w, &ops[i]);
        push_str(w, "\n");
        proof {
            let s = ops@.take(i + 1);
            assert(s.drop_last() == ops@.take(i as int));
            assert(s.last() == ops@[i as int]);
        }
        i = i + 1;
    }
    assert(ops@.take(n as int) == ops@);
}

/// Writes the header line of a method.
fn emit_method_header(w: &mut Vec<u8>, method: &Method)
    ensures
        final(w)@ == old(w)@ + method_header_cil(*method),
{
    push_str(w, ".method ");
    match method.access {
        AccessModifer::Private => push_str(w, "private"),
        AccessModifer::Public => push_str(w, "public"),
    }
    let ghost s2 = w@;
    push_str(w, " hidebysig ");
    if method.is_static {
        push_str(w, "static");
    } else {
        push_str(w, "instance");
    }
    let ghost s3 = w@;
    push_str(w, " ");
    emit_type_cil(w, &method.output);
    push_str(w, " ");
    push_str(w, method.name.as_str());
    let ghost s4 = w@;
    push_str(w, "(");
    emit_inputs(w, &method.explicit_inputs);
    push_str(w, "){\n");
    proof {
    let m = *method;
    let a1 = text(".method "@) + (if m.access is Private { text("private"@) } else { text("public"@) });
    assert(s2 == old(w)@ + a1);
    let a2 = a1 + text(" hidebysig "@) + (if m.is_static { text("static"@) } else { text("instance"@) });
    assert(s3 == old(w)@ + a2);
    let a3 = a2 + text(" "@) + type_cil(m.output) + text(" "@) + text(m.name@);
    assert(s4 == old(w)@ + a3);
    assert(w@ == old(w)@ + (a3 + text("("@) + inputs_cil(m.explicit_inputs@) + text("){\n"@)));
    }
}

/// Writes the text of `method` to `w`: the `.method` header with its parameter types,
/// `.entrypoint` for the entry point, the `.locals` list with slot numbers, one line per
/// instruction, and the closing brace. Writing to memory cannot fail: the result is `Ok`.
pub fn method_cil(w: &mut Vec<u8>, method: &Method) -> (r: Result<(), AssemblyExportError>)
    ensures
        r is Ok,
        final(w)@ == old(w)@ + method_text(*method),
{
    emit_method_header(w, method);
    if method.is_entrypoint {
        push_str(w, ".entrypoint\n");
    }
    let ghost s2 = w@;
    if ALWAYS_INIT_LOCALS {
        push_str(w, "\t.locals init(\n");
    } else {
        push_str(w, "\t.locals (\n");
    }
    let ghost s3 = w@;
    emit_locals(w, &method.locals);
    push_str(w, "\n\t)\n");
    let ghost s4 = w@;
    emit_ops(w, &method.ops);
    push_str(w, "}\n");
    proof {
        let m = *method;
        let b1 = method_header_cil(m) + (if m.is_entrypoint { text(".entrypoint\n"@) } else { Seq::<u8>::empty() });
        assert(s2 == old(w)@ + b1);
        let b2 = b1 + (if ALWAYS_INIT_LOCALS { text("\t.locals init(\n"@) } else { text("\t.locals (\n"@) });
        assert(s3 == old(w)@ + b2);
        let b3 = b2 + locals_cil(m.locals@) + text("\n\t)\n"@);
        assert(s4 == old(w)@ + b3);
        assert(w@ == old(w)@ + (b3 + ops_cil(m.ops@) + text("}\n"@)));
    }
    Ok(())
}

// ---------------------------------------------------------------------------------------
// Type definitions
// ---------------------------------------------------------------------------------------

/// The definitions that the exporter can write: no generic parameters and no base type,
/// in the definition itself and in every nested definition.
pub open spec fn def_supported(t: TypeDef) -> bool
    decreases t,
{
    &&& t.gargc == 0
    &&& t.extends is None
    &&& forall|i: int| 0 <= i < t.inner_types@.len() ==> def_supported(#[trigger] t.inner_types@[i])
}

/// The start of the `.class` line: the keyword and the modifiers of the definition.
pub open spec fn class_modifiers_cil(t: TypeDef, is_nested: bool) -> Seq<u8> {
    text(".class "@) + (if is_nested { text("nested"@) } else { text(""@) }) + text(" "@)
        + (if t.access is Public { text("public"@) } else { text("private"@) }) + text(" "@)
        + (if t.explicit_offsets is Some { text("explicit"@) } else { text(""@) }) + text(" ansi "@)
        + (if t.explicit_offsets is Some || t.extends is None { text("sealed"@) } else { text(""@) })
}

/// The `.class` line of a type definition, up to and including the opening brace.
pub open spec fn class_header_cil(t: TypeDef, is_nested: bool) -> Seq<u8> {
    class_modifiers_cil(t, is_nested) + text(" beforefieldinit "@) + text(t.name@) + text(
        " extends "@,
    ) + text("[System.Runtime]System.ValueType"@) + text("{\n"@)
}

/// A field declaration with an explicit byte offset.
pub open spec fn explicit_field_cil(field: (String, Type), offset: u32) -> Seq<u8> {
    text("\t.field ["@) + decimal(offset as nat) + text("] public "@) + non_void_type_cil(field.1)
        + text(" "@) + text(field.0@) + text("\n"@)
}

/// A field declaration without an offset.
pub open spec fn plain_field_cil(field: (String, Type)) -> Seq<u8> {
    text("\t.field public "@) + non_void_type_cil(field.1) + text(" "@) + text(field.0@) + text(
        "\n"@,
    )
}

/// The first `k` fields, each paired with the offset at the same position.
pub open spec fn explicit_fields_cil(fields: Seq<(String, Type)>, offsets: Seq<u32>, k: nat) -> Seq<u8>
    decreases k,
{
    if k == 0 {
        Seq::<u8>::empty()
    } else {
        explicit_fields_cil(fields, offsets, (k - 1) as nat) + explicit_field_cil(
            fields[k - 1],
            offsets[k - 1],
        )
    }
}

/// The declarations of the given fields, without offsets.
pub open spec fn plain_fields_cil(fields: Seq<(String, Type)>) -> Seq<u8>
    decreases fields.len(),
{
    if fields.len() == 0 {
        Seq::<u8>::empty()
    } else {
        plain_fields_cil(fields.drop_last()) + plain_field_cil(fields.last())
    }
}

/// The smaller of two numbers.
pub open spec fn min_nat(a: nat, b: nat) -> nat {
    if a <= b { a } else { b }
}

/// The field declarations of a definition. With explicit offsets, fields and offsets are
/// taken in pairs, as far as the shorter of the two lists goes.
pub open spec fn fields_cil(t: TypeDef) -> Seq<u8> {
    match t.explicit_offsets {
        Some(offsets) => explicit_fields_cil(
            t.fields@,
            offsets@,
            min_nat(t.fields@.len(), offsets@.len()),
        ),
        None => plain_fields_cil(t.fields@),
    }
}

/// The texts of the given methods, one after the other.
pub open spec fn methods_cil(methods: Seq<Method>) -> Seq<u8>
    decreases methods.len(),
{
    if methods.len() == 0 {
        Seq::<u8>::empty()
    } else {
        methods_cil(methods.drop_last()) + method_text(methods.last())
    }
}

/// The complete text of a type definition: the `.class` line, the nested definitions, the
/// fields, the methods, and the closing brace.
pub open spec fn type_def_text(t: TypeDef, is_nested: bool) -> Seq<u8>
    decreases t,
{
    class_header_cil(t, is_nested) + nested_defs_cil(t.inner_types@) + fields_cil(t) + methods_cil(
        t.methods@,
    ) + text("}\n"@)
}

/// The texts of the given nested definitions, one after the other.
pub open spec fn nested_defs_cil(defs: Seq<TypeDef>) -> Seq<u8>
    decreases defs,
{
    if defs.len() == 0 {
        Seq::<u8>::empty()
    } else {
        nested_defs_cil(defs.drop_last()) + type_def_text(defs.last(), true)
    }
}

/// Writes the keyword and the modifiers of a `.class` line.
fn emit_class_modifiers(w: &mut Vec<u8>, tpe: &TypeDef, is_nested: bool)
    ensures
        final(w)@ == old(w)@ + class_modifiers_cil(*tpe, is_nested),
{
    push_str(w, ".class ");
    if is_nested {
        push_str(w, "nested");
    } else {
        push_str(w, "");
    }
    push_str(w, " ");
    let ghost s1 = w@;
    match tpe.access {
        AccessModifer::Public => push_str(w, "public"),
        AccessModifer::Private => push_str(w, "private"),
    }
    push_str(w, " ");
    let ghost s2 = w@;
    if tpe.explicit_offsets.is_some() {
        push_str(w, "explicit");
    } else {
        push_str(w, "");
    }
    push_str(w, " ansi ");
    let ghost s3 = w@;
    if tpe.explicit_offsets.is_some() || tpe.extends.is_none() {
        push_str(w, "sealed");
    } else {
        push_str(w, "");
    }
    proof {
        let t = *tpe;
        let a1 = text(".class "@) + (if is_nested { text("nested"@) } else { text(""@) }) + text(" "@);
        assert(s1 == old(w)@ + a1);
        let a2 = a1 + (if t.access is Public { text("public"@) } else { text("private"@) }) + text(" "@);
        assert(s2 == old(w)@ + a2);
        let a3 = a2 + (if t.explicit_offsets is Some { text("explicit"@) } else { text(""@) }) + text(" ansi "@);
        assert(s3 == old(w)@ + a3);
    }
}

/// Writes the `.class` line of a type definition.
fn emit_class_header(w: &mut Vec<u8>, tpe: &TypeDef, is_nested: bool)
    ensures
        final(w)@ == old(w)@ + class_header_cil(*tpe, is_nested),
{
    emit_class_modifiers(w, tpe, is_nested);
    push_str(w, " beforefieldinit ");
    push_str(w, tpe.name.as_str());
    push_str(w, " extends ");
    push_str(w, "[System.Runtime]System.ValueType");
    push_str(w, "{\n");
}

/// Writes one field declaration with an explicit offset.
fn emit_explicit_field(w: &mut Vec<u8>, field: &(String, Type), offset: u32)
    ensures
        final(w)@ == old(w)@ + explicit_field_cil(*field, offset),
{
    push_str(w, "\t.field [");
    push_decimal(w, offset as u64);
    push_str(w, "] public ");
    emit_non_void_type_cil(w, &field.1);
    push_str(w, " ");
    push_str(w, field.0.as_str());
    push_str(w, "\n");
}

/// Writes one field declaration without an offset.
fn emit_plain_field(w: &mut Vec<u8>, field: &(String, Type))
    ensures
        final(w)@ == old(w)@ + plain_field_cil(*field),
{
    push_str(w, "\t.field public ");
    emit_non_void_type_cil(w, &field.1);
    push_str(w, " ");
    push_str(w, field.0.as_str());
    push_str(w, "\n");
}

/// Writes the field declarations of a definition.
fn emit_fields(w: &mut Vec<u8>, tpe: &TypeDef)
    ensures
        final(w)@ == old(w)@ + fields_cil(*tpe),
{
    let fields = &tpe.fields;
    match &tpe.explicit_offsets {
        Some(offsets) => {
            let n = if fields.len() <= offsets.len() {
                fields.len()
            } else {
                offsets.len()
            };
            let mut i: usize = 0;
            while i < n
                invariant
                    n == min_nat(fields@.len(), offsets@.len()),
                    i <= n,
                    w@ == old(w)@ + explicit_fields_cil(fields@, offsets@, i as nat),
                decreases n - i,
            {
                emit_explicit_field(w, &fields[i], offsets[i]);
                i = i + 1;
            }
        },
        None => {
            let n = fields.len();
            let mut i: usize = 0;
            assert(fields@.take(0).len() == 0);
            while i < n
                invariant
                    n == fields@.len(),
                    i <= n,
                    w@ == old(w)@ + plain_fields_cil(fields@.take(i as int)),
                decreases n - i,
            {
                emit_plain_field(w, &fields[i]);
                proof {
                    let s = fields@.take(i + 1);
                    assert(s.drop_last() == fields@.take(i as int));
                    assert(s.last() == fields@[i as int]);
                }
                i = i + 1;
            }
            assert(fields@.take(n as int) == fields@);
        },
    }
}

/// Writes the texts of the methods of a definition.
fn emit_methods(w: &mut Vec<u8>, methods: &Vec<Method>)
    ensures
        final(w)@ == old(w)@ + methods_cil(methods@),
{
    let n = methods.len();
    let mut i: usize = 0;
    assert(methods@.take(0).len() == 0);
    while i < n
        invariant
            n == methods@.len(),
            i <= n,
            w@ == old(w)@ + methods_cil(methods@.take(i as int)),
        decreases n - i,
    {
        let _ = method_cil(w, &methods[i]);
        proof {
            let s = methods@.take(i + 1);
            assert(s.drop_last() == methods@.take(i as int));
            assert(s.last() == methods@[i as int]);
        }
        i = i + 1;
    }
    assert(methods@.take(n as int) == methods@);
}

/// Writes the text of the type definition `tpe` to `w`: the `.class` line (with `nested`
/// when `is_nested`), every nested definition, the fields (with their offsets when the
/// layout is explicit), the methods, and the closing brace. Generic definitions and
/// definitions with a base type are not supported (`requires`). Writing to memory cannot
/// fail: the result is `Ok`.
pub fn type_def_cli(w: &mut Vec<u8>, tpe: &TypeDef, is_nested: bool) -> (r: Result<
    (),
    AssemblyExportError,
>)
    requires
        def_supported(*tpe),
    ensures
        r is Ok,
        final(w)@ == old(w)@ + type_def_text(*tpe, is_nested),
    decreases tpe,
{
    emit_class_header(w, tpe, is_nested);
    let ghost s1 = w@;
    let n = tpe.inner_types.len();
    let mut i: usize = 0;
    assert(tpe.inner_types@.take(0).len() == 0);
    while i < n
        invariant
            n == tpe.inner_types@.len(),
            i <= n,
            def_supported(*tpe),
            w@ == s1 + nested_defs_cil(tpe.inner_types@.take(i as int)),
        decreases n - i,
    {
        let _ = type_def_cli(w, &tpe.inner_types[i], true);
        proof {
            let s = tpe.inner_types@.take(i + 1);
            assert(s.drop_last() == tpe.inner_types@.take(i as int));
            assert(s.last() == tpe.inner_types@[i as int]);
        }
        i = i + 1;
    }
    assert(tpe.inner_types@.take(n as int) == tpe.inner_types@);
    emit_fields(w, tpe);
    emit_methods(w, &tpe.methods);
    push_str(w, "}\n");
    assert(w@ == old(w)@ + (class_header_cil(*tpe, is_nested) + nested_defs_cil(tpe.inner_types@)
        + fields_cil(*tpe) + methods_cil(tpe.methods@) + text("}\n"@)));
    Ok(())
}

// ---------------------------------------------------------------------------------------
// The exporter
// ---------------------------------------------------------------------------------------

/// Builds the ILASM text of an assembly: the assembly declaration, references to other
/// assemblies, globals, types and methods, in the order they are added.
pub struct ILASMExporter {
    encoded_asm: Vec<u8>,
}

impl View for ILASMExporter {
    type V = Seq<u8>;

    /// The bytes of the assembly text written so far.
    closed spec fn view(&self) -> Seq<u8> {
        self.encoded_asm@
    }
}

/// The declaration that starts the text of an assembly.
pub open spec fn assembly_decl_cil(asm_name: Seq<char>) -> Seq<u8> {
    text(".assembly "@) + text(asm_name) + text("{}"@)
}

/// The declaration of a static field (a global).
pub open spec fn global_cil(tpe: Type, name: Seq<char>) -> Seq<u8> {
    text(".field static "@) + non_void_type_cil(tpe) + text(" "@) + text(name) + text("\n"@)
}

/// The declaration of a reference to another assembly, with its four-part version.
pub open spec fn extern_ref_cil(asm_name: Seq<char>, r: AssemblyExternRef) -> Seq<u8> {
    text(".assembly extern "@) + text(asm_name) + text("{.ver "@) + decimal(r.version.0 as nat)
        + text(":"@) + decimal(r.version.1 as nat) + text(":"@) + decimal(r.version.2 as nat)
        + text(":"@) + decimal(r.version.3 as nat) + text(" }"@)
}

impl ILASMExporter {
    /// A new exporter whose text holds only the declaration of the assembly `asm_name`.
    pub fn init(asm_name: &str) -> (r: Self)
        ensures
            r@ == assembly_decl_cil(asm_name@),
    {
        let mut encoded_asm: Vec<u8> = Vec::new();
        push_str(&mut encoded_asm, ".assembly ");
        push_str(&mut encoded_asm, asm_name);
        push_str(&mut encoded_asm, "{}");
        ILASMExporter { encoded_asm }
    }

    /// Appends the raw bytes `buf`; returns how many were taken (all of them).
    pub fn write(&mut self, buf: &[u8]) -> (n: usize)
        ensures
            final(self)@ == old(self)@ + buf@,
            n == buf@.len(),
    {
        push_bytes(&mut self.encoded_asm, buf);
        buf.len()
    }

    /// Nothing is buffered: the text is left as it is.
    pub fn flush(&mut self)
        ensures
            final(self)@ == old(self)@,
    {
    }

    /// Appends the declaration of a global (a static field) of type `tpe` named `name`.
    pub fn add_global(&mut self, tpe: &Type, name: &str)
        ensures
            final(self)@ == old(self)@ + global_cil(*tpe, name@),
    {
        push_str(&mut self.encoded_asm, ".field static ");
        emit_non_void_type_cil(&mut self.encoded_asm, tpe);
        push_str(&mut self.encoded_asm, " ");
        push_str(&mut self.encoded_asm, name);
        push_str(&mut self.encoded_asm, "\n");
    }

    /// Appends a reference to the assembly `asm_name` with the version in `asm_ref_data`.
    pub fn add_extern_ref(&mut self, asm_name: &str, asm_ref_data: &AssemblyExternRef)
        ensures
            final(self)@ == old(self)@ + extern_ref_cil(asm_name@, *asm_ref_data),
    {
        let (v1, v2, v3, v4) = asm_ref_data.version;
        push_str(&mut self.encoded_asm, ".assembly extern ");
        push_str(&mut self.encoded_asm, asm_name);
        push_str(&mut self.encoded_asm, "{.ver ");
        push_decimal(&mut self.encoded_asm, v1 as u64);
        push_str(&mut self.encoded_asm, ":");
        push_decimal(&mut self.encoded_asm, v2 as u64);
        let ghost mid = self.encoded_asm@;
        push_str(&mut self.encoded_asm, ":");
        push_decimal(&mut self.encoded_asm, v3 as u64);
        push_str(&mut self.encoded_asm, ":");
        push_decimal(&mut self.encoded_asm, v4 as u64);
        push_str(&mut self.encoded_asm, " }");
        proof {
            let a1 = text(".assembly extern "@) + text(asm_name@) + text("{.ver "@) + decimal(v1 as nat)
                + text(":"@) + decimal(v2 as nat);
            assert(mid == old(self)@ + a1);
        }
    }

    /// Appends the text of the type definition `tpe` (not nested).
    pub fn add_type(&mut self, tpe: &TypeDef)
        requires
            def_supported(*tpe),
        ensures
            final(self)@ == old(self)@ + type_def_text(*tpe, false),
    {
        let _ = type_def_cli(&mut self.encoded_asm, tpe, false);
    }

    /// Appends the text of the method `method`.
    pub fn add_method(&mut self, method: &Method)
        ensures
            final(self)@ == old(self)@ + method_text(*method),
    {
        let _ = method_cil(&mut self.encoded_asm, method);
    }

    /// The text written so far, handed over for assembling.
    pub fn into_bytes(self) -> (r: Vec<u8>)
        ensures
            r@ == self@,
    {
        self.encoded_asm
    }
}

// ---------------------------------------------------------------------------------------
// Running the assembler: what goes in, and what its answer means
// ---------------------------------------------------------------------------------------

/// The line that the assembler prints when it has built the assembly.
pub open spec fn success_marker() -> Seq<char> {
    "\nOperation completed successfully\n"@
}

/// Whether `pat` occurs in `hay` starting at position `i`.
pub open spec fn occurs_at(hay: Seq<u8>, pat: Seq<u8>, i: int) -> bool {
    0 <= i && i + pat.len() <= hay.len() && hay.subrange(i, i + pat.len()) == pat
}

/// Whether `pat` occurs somewhere in `hay` as a contiguous run of bytes.
pub open spec fn contains_bytes(hay: Seq<u8>, pat: Seq<u8>) -> bool {
    exists|i: int| occurs_at(hay, pat, i)
}

/// Whether `pat` occurs somewhere in `hay` as a contiguous run of bytes.
pub fn find_bytes(hay: &[u8], pat: &[u8]) -> (r: bool)
    ensures
        r == contains_bytes(hay@, pat@),
{
    let n = hay.len();
    let m = pat.len();
    if m > n {
        return false;
    }
    let mut i: usize = 0;
    while i <= n - m
        invariant
            n == hay@.len(),
            m == pat@.len(),
            m <= n,
            i <= n - m + 1,
            forall|k: int| 0 <= k < i ==> !occurs_at(hay@, pat@, k),
        decreases n - m + 1 - i,
    {
        let mut j: usize = 0;
        let mut same = true;
        while j < m
            invariant
                n == hay@.len(),
                m == pat@.len(),
                i + m <= n,
                j <= m,
                same == (forall|k: int| 0 <= k < j ==> hay@[i + k] == pat@[k]),
            decreases m - j,
        {
            if hay[i + j] != pat[j] {
                same = false;
            }
            j = j + 1;
        }
        if same {
            assert(hay@.subrange(i as int, i + m) == pat@);
            assert(occurs_at(hay@, pat@, i as int));
            return true;
        }
        proof {
            if occurs_at(hay@, pat@, i as int) {
                assert forall|k: int| 0 <= k < m implies hay@[i + k] == pat@[k] by {
                    assert(hay@.subrange(i as int, i + m)[k] == hay@[i + k]);
                }
            }
        }
        i = i + 1;
    }
    proof {
        assert forall|k: int| !occurs_at(hay@, pat@, k) by {
            if 0 <= k < i {
            }
        }
    }
    false
}

/// What the assembler's answer means: success when its standard output contains the
/// line `Operation completed successfully`, otherwise an error that carries both of its
/// outputs, as `stdout:<stdout> stderr:<stderr>`.
pub fn ilasm_outcome(stdout: &str, stderr: &str) -> (r: Result<(), AssemblyExportError>)
    ensures
        r is Ok <==> contains_bytes(text(stdout@), text(success_marker())),
        r matches Err(AssemblyExportError::ExporterError(msg)) ==> msg@ == "stdout:"@ + stdout@
            + " stderr:"@ + stderr@,
{
    let marker = "\nOperation completed successfully\n";
    proof { reveal(text); }
    if find_bytes(stdout.as_bytes(), marker.as_bytes()) {
        Ok(())
    } else {
        let mut msg: String = "stdout:".to_owned();
        msg.append(stdout);
        msg.append(" stderr:");
        msg.append(stderr);
        Err(AssemblyExportError::ExporterError(msg))
    }
}

/// The arguments of the assembler: the kind of output (`-dll` or `-exe`), the output
/// file, and the file that holds the assembly text.
pub fn ilasm_args(is_dll: bool, out_path: &str, cil_path: &str) -> (r: Vec<String>)
    ensures
        r@.len() == 3,
        r@[0]@ == (if is_dll { "-dll"@ } else { "-exe"@ }),
        r@[1]@ == "-output:"@ + out_path@,
        r@[2]@ == cil_path@,
{
    let asm_type = if is_dll {
        "-dll"
    } else {
        "-exe"
    };
    let mut target: String = "-output:".to_owned();
    target.append(out_path);
    let mut args: Vec<String> = Vec::new();
    args.push(asm_type.to_owned());
    args.push(target);
    args.push(cil_path.to_owned());
    args
}

// ---------------------------------------------------------------------------------------
// Laws
// ---------------------------------------------------------------------------------------

/// Law: the text of a method body split in two is the text of the first part followed by
/// the text of the second part.
pub proof fn lemma_ops_cil_concat(a: Seq<crate::types::BaseIR>, b: Seq<crate::types::BaseIR>)
    ensures
        ops_cil(a + b) == ops_cil(a) + ops_cil(b),
    decreases b.len(),
{
    if b.len() == 0 {
        assert(a + b == a);
    } else {
        lemma_ops_cil_concat(a, b.drop_last());
        assert((a + b).drop_last() == a + b.drop_last());
        assert((a + b).last() == b.last());
    }
}

/// Law: the text of a list of methods split in two is the text of the first part
/// followed by the text of the second part.
pub proof fn lemma_methods_cil_concat(a: Seq<Method>, b: Seq<Method>)
    ensures
        methods_cil(a + b) == methods_cil(a) + methods_cil(b),
    decreases b.len(),
{
    if b.len() == 0 {
        assert(a + b == a);
    } else {
        lemma_methods_cil_concat(a, b.drop_last());
        assert((a + b).drop_last() == a + b.drop_last());
        assert((a + b).last() == b.last());
    }
}

/// Law: the text of a list of nested definitions split in two is the text of the first
/// part followed by the text of the second part.
pub proof fn lemma_nested_defs_cil_concat(a: Seq<TypeDef>, b: Seq<TypeDef>)
    ensures
        nested_defs_cil(a + b) == nested_defs_cil(a) + nested_defs_cil(b),
    decreases b.len(),
{
    if b.len() == 0 {
        assert(a + b == a);
    } else {
        lemma_nested_defs_cil_concat(a, b.drop_last());
        assert((a + b).drop_last() == a + b.drop_last());
        assert((a + b).last() == b.last());
    }
}

/// The part of a byte sequence after its first `n` bytes.
pub open spec fn after(s: Seq<u8>, n: nat) -> Seq<u8> {
    s.subrange(n as int, s.len() as int)
}

proof fn lemma_shift(x: Seq<u8>, r: Seq<u8>, p: Seq<u8>)
    ensures
        (x + r) + p == x + (r + p),
{
    assert((x + r) + p =~= x + (r + p));
}

proof fn lemma_after_prefix(a: Seq<u8>, b: Seq<u8>)
    ensures
        after(a + b, a.len()) == b,
{
    assert(after(a + b, a.len()) =~= b);
}

/// What follows the access word in the text of a type definition.
spec fn class_text_tail(t: TypeDef) -> Seq<u8> {
    text(" "@) + (if t.explicit_offsets is Some { text("explicit"@) } else { text(""@) })
        + text(" ansi "@) + (if t.explicit_offsets is Some || t.extends is None {
        text("sealed"@)
    } else {
        text(""@)
    }) + text(" beforefieldinit "@) + text(t.name@) + text(" extends "@) + text(
        "[System.Runtime]System.ValueType"@,
    ) + text("{\n"@) + nested_defs_cil(t.inner_types@) + fields_cil(t) + methods_cil(t.methods@)
        + text("}\n"@)
}

proof fn lemma_class_text_split(t: TypeDef, is_nested: bool)
    ensures
        type_def_text(t, is_nested) == text(".class "@) + (if is_nested { text("nested"@) } else {
            text(""@)
        }) + text(" "@) + (if t.access is Public { text("public"@) } else { text("private"@) })
            + class_text_tail(t),
{
    let x = text(".class "@) + (if is_nested { text("nested"@) } else { text(""@) }) + text(" "@) + (
    if t.access is Public { text("public"@) } else { text("private"@) });
    let p1 = text(" "@);
    let p2 = if t.explicit_offsets is Some { text("explicit"@) } else { text(""@) };
    let p3 = text(" ansi "@);
    let p4 = if t.explicit_offsets is Some || t.extends is None { text("sealed"@) } else { text(""@) };
    let p5 = text(" beforefieldinit "@);
    let p6 = text(t.name@);
    let p7 = text(" extends "@);
    let p8 = text("[System.Runtime]System.ValueType"@);
    let p9 = text("{\n"@);
    let p10 = nested_defs_cil(t.inner_types@);
    let p11 = fields_cil(t);
    let p12 = methods_cil(t.methods@);
    let p13 = text("}\n"@);
    let r2 = p1 + p2;
    lemma_shift(x, p1, p2);
    let r3 = r2 + p3;
    lemma_shift(x, r2, p3);
    let r4 = r3 + p4;
    lemma_shift(x, r3, p4);
    assert(class_modifiers_cil(t, is_nested) == x + r4);
    let r5 = r4 + p5;
    lemma_shift(x, r4, p5);
    let r6 = r5 + p6;
    lemma_shift(x, r5, p6);
    let r7 = r6 + p7;
    lemma_shift(x, r6, p7);
    let r8 = r7 + p8;
    lemma_shift(x, r7, p8);
    let r9 = r8 + p9;
    lemma_shift(x, r8, p9);
    assert(class_header_cil(t, is_nested) == x + r9);
    let r10 = r9 + p10;
    lemma_shift(x, r9, p10);
    let r11 = r10 + p11;
    lemma_shift(x, r10, p11);
    let r12 = r11 + p12;
    lemma_shift(x, r11, p12);
    let r13 = r12 + p13;
    lemma_shift(x, r12, p13);
    assert(class_text_tail(t) == r13);
}

/// Law: the text of a nested definition differs from that of the same definition at top
/// level only by the word `nested` after `.class `: everything else, the access word
/// included, is the same.
pub proof fn lemma_nested_only_adds_the_word(t: TypeDef)
    ensures
        ({
            let k = text(".class "@).len() + text(""@).len();
            &&& type_def_text(t, false) == text(".class "@) + text(""@) + after(type_def_text(t, false), k)
            &&& type_def_text(t, true) == text(".class "@) + text("nested"@) + after(type_def_text(t, false), k)
        }),
{
    let word = if t.access is Public { text("public"@) } else { text("private"@) };
    let rest = text(" "@) + word + class_text_tail(t);
    lemma_class_text_split(t, false);
    lemma_class_text_split(t, true);
    let h0 = text(".class "@) + text(""@);
    let h1 = text(".class "@) + text("nested"@);
    lemma_shift(h0, text(" "@), word);
    lemma_shift(h0, text(" "@) + word, class_text_tail(t));
    lemma_shift(h1, text(" "@), word);
    lemma_shift(h1, text(" "@) + word, class_text_tail(t));
    assert(type_def_text(t, false) == h0 + rest);
    assert(type_def_text(t, true) == h1 + rest);
    lemma_after_prefix(h0, rest);
}

/// Law: the `.class` line names the definition `public` exactly when its access is
/// `Public`, and `private` otherwise, nested or not: the access word comes right after
/// `.class`, the optional `nested` and a space.
pub proof fn lemma_access_word(t: TypeDef, is_nested: bool)
    ensures
        ({
            let lead = text(".class "@) + (if is_nested { text("nested"@) } else { text(""@) }) + text(" "@);
            let word = if t.access is Public { text("public"@) } else { text("private"@) };
            type_def_text(t, is_nested) == lead + word + after(type_def_text(t, is_nested), lead.len() + word.len())
        }),
{
    let lead = text(".class "@) + (if is_nested { text("nested"@) } else { text(""@) }) + text(" "@);
    let word = if t.access is Public { text("public"@) } else { text("private"@) };
    lemma_class_text_split(t, is_nested);
    lemma_after_prefix(lead + word, class_text_tail(t));
}

/// What follows the optional `.entrypoint` line in the text of a method.
spec fn method_text_tail(m: Method) -> Seq<u8> {
    (if ALWAYS_INIT_LOCALS { text("\t.locals init(\n"@) } else { text("\t.locals (\n"@) })
        + locals_cil(m.locals@) + text("\n\t)\n"@) + ops_cil(m.ops@) + text("}\n"@)
}

proof fn lemma_method_text_split(m: Method)
    ensures
        method_text(m) == method_header_cil(m) + (if m.is_entrypoint { text(".entrypoint\n"@) } else {
            Seq::<u8>::empty()
        }) + method_text_tail(m),
{
    let x = method_header_cil(m) + (if m.is_entrypoint { text(".entrypoint\n"@) } else {
        Seq::<u8>::empty()
    });
    let p1 = if ALWAYS_INIT_LOCALS { text("\t.locals init(\n"@) } else { text("\t.locals (\n"@) };
    let p2 = locals_cil(m.locals@);
    let p3 = text("\n\t)\n"@);
    let p4 = ops_cil(m.ops@);
    let p5 = text("}\n"@);
    lemma_shift(x, p1, p2);
    lemma_shift(x, p1 + p2, p3);
    lemma_shift(x, p1 + p2 + p3, p4);
    lemma_shift(x, p1 + p2 + p3 + p4, p5);
}

/// Law: the `.entrypoint` line is written exactly for the entry point. The method header
/// does not depend on the flag; without the flag the `.locals` line follows the header
/// directly (whether the method is static or not), and with it the only difference is the
/// `.entrypoint` line between the two.
pub proof fn lemma_entrypoint_marks_only_the_entry_point(m: Method)
    ensures
        ({
            let off = Method { is_entrypoint: false, ..m };
            let on = Method { is_entrypoint: true, ..m };
            let h = method_header_cil(off);
            let locals_open = if ALWAYS_INIT_LOCALS { text("\t.locals init(\n"@) } else { text("\t.locals (\n"@) };
            &&& method_header_cil(on) == h
            &&& method_text(off) == h + locals_open + after(method_text(off), h.len() + locals_open.len())
            &&& method_text(on) == h + text(".entrypoint\n"@) + after(method_text(off), h.len())
        }),
{
    let off = Method { is_entrypoint: false, ..m };
    let on = Method { is_entrypoint: true, ..m };
    let h = method_header_cil(off);
    let locals_open = if ALWAYS_INIT_LOCALS { text("\t.locals init(\n"@) } else { text("\t.locals (\n"@) };
    let p2 = locals_cil(m.locals@);
    let p3 = text("\n\t)\n"@);
    let p4 = ops_cil(m.ops@);
    let p5 = text("}\n"@);
    lemma_method_text_split(off);
    lemma_method_text_split(on);
    assert(method_header_cil(on) == h);
    assert(method_text_tail(on) == method_text_tail(off));
    let tail = method_text_tail(off);
    assert(h + Seq::<u8>::empty() =~= h);
    assert(method_text(off) == h + tail);
    lemma_shift(locals_open, p2, p3);
    lemma_shift(locals_open, p2 + p3, p4);
    lemma_shift(locals_open, p2 + p3 + p4, p5);
    let rest = p2 + p3 + p4 + p5;
    assert(tail == locals_open + rest);
    lemma_shift(h, locals_open, rest);
    lemma_after_prefix(h + locals_open, rest);
    lemma_after_prefix(h, tail);
}

/// Law: a method header starts with `.method`, then `private` exactly for a private
/// method and `public` otherwise, then `hidebysig`, then `static` exactly for a static
/// method and `instance` otherwise; what follows (return type, name, parameters) does
/// not depend on the access or on staticness.
pub proof fn lemma_method_header_words(m: Method, access: AccessModifer, is_static: bool)
    ensures
        ({
            let lead = text(".method "@) + (if m.access is Private { text("private"@) } else {
                text("public"@)
            }) + text(" hidebysig "@) + (if m.is_static { text("static"@) } else {
                text("instance"@)
            });
            let other = Method { access, is_static, ..m };
            let other_lead = text(".method "@) + (if access is Private { text("private"@) } else {
                text("public"@)
            }) + text(" hidebysig "@) + (if is_static { text("static"@) } else {
                text("instance"@)
            });
            &&& method_header_cil(m) == lead + after(method_header_cil(m), lead.len())
            &&& method_header_cil(other) == other_lead + after(method_header_cil(m), lead.len())
        }),
{
    let other = Method { access, is_static, ..m };
    let p1 = text(" "@);
    let p2 = type_cil(m.output);
    let p3 = text(" "@);
    let p4 = text(m.name@);
    let p5 = text("("@);
    let p6 = inputs_cil(m.explicit_inputs@);
    let p7 = text("){\n"@);
    let lead = text(".method "@) + (if m.access is Private { text("private"@) } else {
        text("public"@)
    }) + text(" hidebysig "@) + (if m.is_static { text("static"@) } else { text("instance"@) });
    let other_lead = text(".method "@) + (if access is Private { text("private"@) } else {
        text("public"@)
    }) + text(" hidebysig "@) + (if is_static { text("static"@) } else { text("instance"@) });
    lemma_shift(lead, p1, p2);
    lemma_shift(lead, p1 + p2, p3);
    lemma_shift(lead, p1 + p2 + p3, p4);
    lemma_shift(lead, p1 + p2 + p3 + p4, p5);
    lemma_shift(lead, p1 + p2 + p3 + p4 + p5, p6);
    lemma_shift(lead, p1 + p2 + p3 + p4 + p5 + p6, p7);
    lemma_shift(other_lead, p1, p2);
    lemma_shift(other_lead, p1 + p2, p3);
    lemma_shift(other_lead, p1 + p2 + p3, p4);
    lemma_shift(other_lead, p1 + p2 + p3 + p4, p5);
    lemma_shift(other_lead, p1 + p2 + p3 + p4 + p5, p6);
    lemma_shift(other_lead, p1 + p2 + p3 + p4 + p5 + p6, p7);
    let rest = p1 + p2 + p3 + p4 + p5 + p6 + p7;
    assert(method_header_cil(m) == lead + rest);
    assert(method_header_cil(other) == other_lead + rest);
    lemma_after_prefix(lead, rest);
}

/// Law: the `.locals` list gives the local at position `i` the slot number `i`: adding a
/// local at the end adds (after a comma and a line break, unless it is the first) the
/// entry `[i] type` with `i` the number of locals before it.
pub proof fn lemma_locals_numbered_in_order(locals: Seq<Type>, t: Type)
    ensures
        locals_cil(locals.push(t)) == locals_cil(locals) + (if locals.len() == 0 {
            Seq::<u8>::empty()
        } else {
            text(",\n"@)
        }) + text("\t\t["@) + decimal(locals.len()) + text("] "@) + non_void_type_cil(t),
{
    let s = locals.push(t);
    assert(s.drop_last() =~= locals);
    let e = text("\t\t["@) + decimal(locals.len()) + text("] "@) + non_void_type_cil(t);
    if locals.len() == 0 {
        assert(Seq::<u8>::empty() + text("\t\t["@) =~= text("\t\t["@));
        assert(locals_cil(locals) == Seq::<u8>::empty());
        assert(locals_cil(s) == e);
        assert(Seq::<u8>::empty() + Seq::<u8>::empty() + text("\t\t["@) =~= text("\t\t["@));
    } else {
        lemma_shift(locals_cil(locals) + text(",\n"@), text("\t\t["@) + decimal(locals.len()), text("] "@));
        assert(locals_cil(s) =~= locals_cil(locals) + text(",\n"@) + e);
    }
}

/// Law: the parameter list of a method header lists the parameter types in order,
/// separated by single commas: adding a parameter at the end adds a comma (unless it is
/// the first) and its type.
pub proof fn lemma_inputs_in_order(inputs: Seq<Type>, t: Type)
    ensures
        inputs_cil(inputs.push(t)) == inputs_cil(inputs) + (if inputs.len() == 0 {
            Seq::<u8>::empty()
        } else {
            text(","@)
        }) + non_void_type_cil(t),
{
    let s = inputs.push(t);
    assert(s.drop_last() =~= inputs);
    if inputs.len() == 0 {
        assert(Seq::<u8>::empty() + Seq::<u8>::empty() + non_void_type_cil(t) =~= non_void_type_cil(t));
    }
}

/// Law: the instructions of a method body are written one per line, in order, each
/// after a tab: adding an instruction at the end adds exactly its line.
pub proof fn lemma_ops_one_per_line(ops: Seq<crate::types::BaseIR>, op: crate::types::BaseIR)
    ensures
        ops_cil(ops.push(op)) == ops_cil(ops) + text("\t"@) + op_cli(op) + text("\n"@),
{
    assert(ops.push(op).drop_last() =~= ops);
}

/// Law: with an explicit layout, the field at position `k` is declared with the offset
/// at position `k`; adding a field together with an offset adds exactly one declaration,
/// `[offset] public type name`, on a line of its own after a tab.
pub proof fn lemma_explicit_fields_paired(
    fields: Seq<(String, Type)>,
    offsets: Seq<u32>,
    field: (String, Type),
    offset: u32,
)
    requires
        fields.len() == offsets.len(),
    ensures
        explicit_fields_cil(fields.push(field), offsets.push(offset), fields.len() + 1)
            == explicit_fields_cil(fields, offsets, fields.len()) + text("\t.field ["@)
            + decimal(offset as nat) + text("] public "@) + non_void_type_cil(field.1) + text(" "@)
            + text(field.0@) + text("\n"@),
{
    lemma_explicit_fields_prefix(fields, offsets, field, offset, fields.len());
}

proof fn lemma_explicit_fields_prefix(
    fields: Seq<(String, Type)>,
    offsets: Seq<u32>,
    field: (String, Type),
    offset: u32,
    k: nat,
)
    requires
        k <= fields.len(),
        k <= offsets.len(),
    ensures
        explicit_fields_cil(fields.push(field), offsets.push(offset), k) == explicit_fields_cil(
            fields,
            offsets,
            k,
        ),
    decreases k,
{
    if k > 0 {
        lemma_explicit_fields_prefix(fields, offsets, field, offset, (k - 1) as nat);
        assert(fields.push(field)[k - 1] == fields[k - 1]);
        assert(offsets.push(offset)[k - 1] == offsets[k - 1]);
    }
}

/// Law: a reference to another assembly gives the four version parts in the order major,
/// minor, build, revision, each as its decimal numeral, separated by colons, inside
/// `{.ver ... }` right after the assembly's name.
pub proof fn lemma_extern_ref_version_order(name: Seq<char>, major: u16, minor: u16, build: u16, revision: u16)
    ensures
        extern_ref_cil(name, AssemblyExternRef { version: (major, minor, build, revision) }) == text(
            ".assembly extern "@,
        ) + text(name) + text("{.ver "@) + decimal(major as nat) + text(":"@) + decimal(minor as nat)
            + text(":"@) + decimal(build as nat) + text(":"@) + decimal(revision as nat) + text(
            " }"@,
        ),
{
}

/// Law: a global is declared as a static field whose type is spelled as in any other
/// field position (`void` as the placeholder value type), followed by its name, on a
/// line of its own.
pub proof fn lemma_global_is_static_field(tpe: Type, name: Seq<char>)
    ensures
        global_cil(tpe, name) == text(".field static "@) + (if tpe is Void {
            text("valuetype RustVoid"@)
        } else {
            type_cil(tpe)
        }) + text(" "@) + text(name) + text("\n"@),
{
}

} // verus!
