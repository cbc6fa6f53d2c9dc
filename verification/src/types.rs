//! The data that the emitters read: types, type definitions, methods, and the
//! stack-machine instructions of a method body.

use vstd::prelude::*;

verus! {

/// Visibility of a type or method.
#[derive(Debug, Clone, Copy, PartialEq, Eq)]
pub enum AccessModifer {
    Private,
    Public,
}

/// A reference to a .NET type defined in some assembly.
#[derive(Debug, PartialEq, Eq)]
pub struct DotnetTypeRef {
    /// The assembly that defines the type, if it is not the one being built.
    pub assembly: Option<String>,
    /// The full name of the type, namespaces included.
    pub name_path: String,
    /// Whether the type is a value type (`valuetype`) or a reference type (`class`).
    pub is_valuetype: bool,
}

/// A type as the generated code sees it.
#[derive(Debug, PartialEq, Eq)]
pub enum Type {
    Void,
    Bool,
    DotnetChar,
    I8,
    U8,
    I16,
    U16,
    I32,
    U32,
    I64,
    U64,
    I128,
    U128,
    ISize,
    USize,
    F32,
    F64,
    /// An unmanaged pointer to the boxed type.
    Ptr(Box<Type>),
    /// A .NET class or value type.
    DotnetType(Box<DotnetTypeRef>),
}

/// One instruction of the stack-machine IR that the arithmetic lowering produces.
#[derive(Debug, PartialEq, Eq)]
pub enum BaseIR {
    Add,
    Sub,
    Mul,
    Div,
    Rem,
    Shl,
    Shr,
    Eq,
    Gt,
    Lt,
    Not,
    Xor,
    Or,
    And,
    /// Push a 32-bit integer constant.
    LDConstI32(i32),
    /// Push a 32-bit float constant, given by its IEEE-754 bit pattern.
    LDConstF32(u32),
    /// Push the size in bytes of the boxed type.
    SizeOf(Box<Type>),
}

/// A method: its header, its locals and its body.
#[derive(Debug, PartialEq, Eq)]
pub struct Method {
    pub access: AccessModifer,
    pub is_static: bool,
    /// The return type.
    pub output: Type,
    pub name: String,
    /// The declared parameters, in order.
    pub explicit_inputs: Vec<Type>,
    /// Whether this method is the program's entry point.
    pub is_entrypoint: bool,
    /// The types of the local variables, in slot order.
    pub locals: Vec<Type>,
    /// The body.
    pub ops: Vec<BaseIR>,
}

/// A type definition: a value type with fields, nested types and methods.
#[derive(Debug, PartialEq, Eq)]
pub struct TypeDef {
    pub name: String,
    /// The number of generic parameters.
    pub gargc: u32,
    /// The base type, if the definition inherits from one.
    pub extends: Option<DotnetTypeRef>,
    pub access: AccessModifer,
    /// Byte offsets of the fields, when the layout is explicit.
    pub explicit_offsets: Option<Vec<u32>>,
    pub inner_types: Vec<TypeDef>,
    /// Field names and types, in declaration order.
    pub fields: Vec<(String, Type)>,
    pub methods: Vec<Method>,
}

/// Data about an assembly that the generated assembly refers to.
#[derive(Debug, Clone, Copy, PartialEq, Eq)]
pub struct AssemblyExternRef {
    /// The four parts of the version: major, minor, build, revision.
    pub version: (u16, u16, u16, u16),
}

/// Errors of the assembly export.
#[derive(Debug, PartialEq, Eq)]
pub enum AssemblyExportError {
    /// The assembler refused the generated text; the message holds its output.
    ExporterError(String),
}

impl Type {
    /// The type that a pointer type points to; `None` for any other type.
    pub open spec fn spec_pointed_type(self) -> Option<Type> {
        match self {
            Type::Ptr(inner) => Some(*inner),
            _ => None,
        }
    }

    /// The .NET type reference of a .NET type; `None` for any other type.
    pub open spec fn spec_as_dotnet(self) -> Option<DotnetTypeRef> {
        match self {
            Type::DotnetType(r) => Some(*r),
            _ => None,
        }
    }

    /// The .NET type reference of a .NET type; `None` for any other type.
    pub fn as_dotnet(&self) -> (r: Option<DotnetTypeRef>)
        ensures
            r == self.spec_as_dotnet(),
    {
        match self {
            Type::DotnetType(r) => Some(r.deep_clone()),
            _ => None,
        }
    }

    /// Whether this is a 128-bit integer type.
    pub open spec fn is_128_bit(self) -> bool {
        self is I128 || self is U128
    }

    /// The type that a pointer type points to; `None` for any other type.
    pub fn pointed_type(&self) -> (r: Option<&Type>)
        ensures
            r == match self.spec_pointed_type() {
                Some(t) => Some(&t),
                None => None::<&Type>,
            },
    {
        match self {
            Type::Ptr(inner) => Some(&**inner),
            _ => None,
        }
    }

    /// An equal copy of this type.
    pub fn deep_clone(&self) -> (r: Type)
        ensures
            r == *self,
        decreases self,
    {
        match self {
            Type::Void => Type::Void,
            Type::Bool => Type::Bool,
            Type::DotnetChar => Type::DotnetChar,
            Type::I8 => Type::I8,
            Type::U8 => Type::U8,
            Type::I16 => Type::I16,
            Type::U16 => Type::U16,
            Type::I32 => Type::I32,
            Type::U32 => Type::U32,
            Type::I64 => Type::I64,
            Type::U64 => Type::U64,
            Type::I128 => Type::I128,
            Type::U128 => Type::U128,
            Type::ISize => Type::ISize,
            Type::USize => Type::USize,
            Type::F32 => Type::F32,
            Type::F64 => Type::F64,
            Type::Ptr(inner) => Type::Ptr(Box::new(inner.deep_clone())),
            Type::DotnetType(r) => Type::DotnetType(Box::new(r.deep_clone())),
        }
    }
}

impl DotnetTypeRef {
    /// An equal copy of this type reference.
    pub fn deep_clone(&self) -> (r: DotnetTypeRef)
        ensures
            r == *self,
    {
        let assembly = match &self.assembly {
            Some(a) => Some(a.clone()),
            None => None,
        };
        DotnetTypeRef { assembly, name_path: self.name_path.clone(), is_valuetype: self.is_valuetype }
    }
}

} // verus!
