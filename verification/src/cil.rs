//! The CIL-level instructions that the rvalue lowering produces, and their view.

use vstd::prelude::*;
use crate::types::{DotnetTypeRef, Type};

verus! {

/// A field of a .NET type: the type that owns it, its type and its name.
#[derive(Debug, PartialEq, Eq)]
pub struct FieldDescriptor {
    pub owner: DotnetTypeRef,
    pub tpe: Type,
    pub name: &'static str,
}

/// The signature of a called method: its parameter types and its return type.
#[derive(Debug, PartialEq, Eq)]
pub struct FnSig {
    pub inputs: Vec<Type>,
    pub output: Type,
}

/// A called method: the class that defines it (if any), its name, its signature, and
/// whether it is static.
#[derive(Debug, PartialEq, Eq)]
pub struct CallSite {
    pub class: Option<DotnetTypeRef>,
    pub name: &'static str,
    pub signature: FnSig,
    pub is_static: bool,
}

/// One CIL instruction, or one operation on the stack of temporary locals.
#[derive(Debug, PartialEq, Eq)]
pub enum CILOp {
    /// Open a new temporary local of the boxed type.
    NewTMPLocal(Box<Type>),
    /// Pop the stack top into the innermost temporary local.
    SetTMPLocal,
    /// Push the address of the innermost temporary local.
    LoadAddresOfTMPLocal,
    /// Push the value of the innermost temporary local.
    LoadTMPLocal,
    /// Push the value of the temporary local that many levels below the innermost one.
    LoadUnderTMPLocal(u8),
    /// Close the innermost temporary local.
    FreeTMPLocal,
    /// Load a field through the address on the stack.
    LDField(Box<FieldDescriptor>),
    /// Store into a field through the address on the stack.
    STField(Box<FieldDescriptor>),
    /// Push a 64-bit integer constant.
    LdcI64(i64),
    /// Convert to a pointer-sized unsigned integer (the flag: with overflow check).
    ConvUSize(bool),
    /// Convert to a 32-bit float (the flag: from an unsigned integer).
    ConvF32(bool),
    /// Convert to a 64-bit float (the flag: from an unsigned integer).
    ConvF64(bool),
    /// Push the size in bytes of the boxed type.
    SizeOf(Box<Type>),
    /// Load a 32-bit integer through the address on the stack.
    LDIndI32,
    /// Load a 64-bit integer through the address on the stack.
    LDIndI64,
    /// Load a 32-bit float through the address on the stack.
    LDIndF32,
    /// Load a 64-bit float through the address on the stack.
    LDIndF64,
    /// Call a method.
    Call(Box<CallSite>),
}

/// What an instruction is: a call with its parameter types as a sequence, or any other
/// instruction as it stands.
pub enum CILOpView {
    Call {
        class: Option<DotnetTypeRef>,
        name: &'static str,
        inputs: Seq<Type>,
        output: Type,
        is_static: bool,
    },
    Plain(CILOp),
}

impl View for CILOp {
    type V = CILOpView;

    open spec fn view(&self) -> CILOpView {
        match self {
            CILOp::Call(c) => CILOpView::Call {
                class: c.class,
                name: c.name,
                inputs: c.signature.inputs@,
                output: c.signature.output,
                is_static: c.is_static,
            },
            _ => CILOpView::Plain(*self),
        }
    }
}

/// An instruction sequence, each instruction taken by its view.
pub open spec fn ops_view(ops: Seq<CILOp>) -> Seq<CILOpView> {
    ops.map_values(|o: CILOp| o@)
}

/// An instruction other than a call, as a view.
pub open spec fn plain(op: CILOp) -> CILOpView {
    CILOpView::Plain(op)
}

/// Appends `op` to `ops`.
pub fn push_op(ops: &mut Vec<CILOp>, op: CILOp)
    ensures
        ops_view(final(ops)@) == ops_view(old(ops)@).push(op@),
{
    ops.push(op);
    assert(ops_view(ops@) =~= ops_view(old(ops)@).push(op@));
}

/// Appends the instructions of `other` to `ops`.
pub fn append_ops(ops: &mut Vec<CILOp>, other: Vec<CILOp>)
    ensures
        ops_view(final(ops)@) == ops_view(old(ops)@) + ops_view(other@),
{
    let mut other = other;
    let ghost o = other@;
    ops.append(&mut other);
    assert(ops_view(ops@) =~= ops_view(old(ops)@) + ops_view(o));
}

/// An equal copy of a list of types.
pub fn clone_types(v: &Vec<Type>) -> (r: Vec<Type>)
    ensures
        r@ == v@,
{
    let mut r: Vec<Type> = Vec::new();
    let n = v.len();
    let mut i: usize = 0;
    while i < n
        invariant
            n == v@.len(),
            i <= n,
            r@ == v@.subrange(0, i as int),
        decreases n - i,
    {
        r.push(v[i].deep_clone());
        i = i + 1;
        assert(r@ =~= v@.subrange(0, i as int));
    }
    assert(v@.subrange(0, n as int) =~= v@);
    r
}

impl FieldDescriptor {
    /// An equal copy of this field descriptor.
    pub fn deep_clone(&self) -> (r: FieldDescriptor)
        ensures
            r == *self,
    {
        FieldDescriptor { owner: self.owner.deep_clone(), tpe: self.tpe.deep_clone(), name: self.name }
    }
}

impl CILOp {
    /// A copy of this instruction with the same view.
    pub fn deep_clone(&self) -> (r: CILOp)
        ensures
            r@ == self@,
    {
        match self {
            CILOp::NewTMPLocal(t) => CILOp::NewTMPLocal(Box::new(t.deep_clone())),
            CILOp::SetTMPLocal => CILOp::SetTMPLocal,
            CILOp::LoadAddresOfTMPLocal => CILOp::LoadAddresOfTMPLocal,
            CILOp::LoadTMPLocal => CILOp::LoadTMPLocal,
            CILOp::LoadUnderTMPLocal(n) => CILOp::LoadUnderTMPLocal(*n),
            CILOp::FreeTMPLocal => CILOp::FreeTMPLocal,
            CILOp::LDField(f) => CILOp::LDField(Box::new(f.deep_clone())),
            CILOp::STField(f) => CILOp::STField(Box::new(f.deep_clone())),
            CILOp::LdcI64(v) => CILOp::LdcI64(*v),
            CILOp::ConvUSize(b) => CILOp::ConvUSize(*b),
            CILOp::ConvF32(b) => CILOp::ConvF32(*b),
            CILOp::ConvF64(b) => CILOp::ConvF64(*b),
            CILOp::SizeOf(t) => CILOp::SizeOf(Box::new(t.deep_clone())),
            CILOp::LDIndI32 => CILOp::LDIndI32,
            CILOp::LDIndI64 => CILOp::LDIndI64,
            CILOp::LDIndF32 => CILOp::LDIndF32,
            CILOp::LDIndF64 => CILOp::LDIndF64,
            CILOp::Call(c) => {
                let class = match &c.class {
                    Some(d) => Some(d.deep_clone()),
                    None => None,
                };
                let signature = FnSig {
                    inputs: clone_types(&c.signature.inputs),
                    output: c.signature.output.deep_clone(),
                };
                CILOp::Call(Box::new(CallSite { class, name: c.name, signature, is_static: c.is_static }))
            },
        }
    }
}

/// A copy of an instruction sequence with the same view.
pub fn clone_ops(v: &Vec<CILOp>) -> (r: Vec<CILOp>)
    ensures
        ops_view(r@) == ops_view(v@),
{
    let mut r: Vec<CILOp> = Vec::new();
    let n = v.len();
    let mut i: usize = 0;
    while i < n
        invariant
            n == v@.len(),
            i <= n,
            ops_view(r@) == ops_view(v@.subrange(0, i as int)),
        decreases n - i,
    {
        let op = v[i].deep_clone();
        push_op(&mut r, op);
        i = i + 1;
        assert(ops_view(v@.subrange(0, i as int)) =~= ops_view(v@.subrange(0, i - 1)).push(v@[i - 1]@));
    }
    assert(v@.subrange(0, n as int) =~= v@);
    r
}

} // verus!
