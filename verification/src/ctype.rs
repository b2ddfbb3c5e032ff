//! C data types, including pointer and `const` modifiers and arrays.
use vstd::prelude::*;
use crate::text::{decimal_text, push_decimal};

verus! {

/// Comprehensive C data types including pointer modifiers and arrays.
#[derive(Debug, PartialEq, Eq)]
pub enum CType {
    Int,
    UnsignedInt,
    Long,
    UnsignedLong,
    Char,
    Float,
    Double,
    Void,
    Ptr(Box<CType>),
    Const(Box<CType>),
    Array(Box<CType>, usize),
    Struct(String),
    Enum(String),
    Custom(String),
}

/// How a type is written in C. An array is written as its innermost
/// element type: its dimensions belong to the declarator that names it.
pub open spec fn ctype_text(t: CType) -> Seq<char>
    decreases t,
{
    match t {
        CType::Int => "int"@,
        CType::UnsignedInt => "unsigned int"@,
        CType::Long => "long"@,
        CType::UnsignedLong => "unsigned long"@,
        CType::Char => "char"@,
        CType::Float => "float"@,
        CType::Double => "double"@,
        CType::Void => "void"@,
        CType::Ptr(inner) => ctype_text(*inner) + "*"@,
        CType::Const(inner) => "const "@ + ctype_text(*inner),
        CType::Array(inner, _) => ctype_text(*inner),
        CType::Struct(name) => "struct "@ + name@,
        CType::Enum(name) => "enum "@ + name@,
        CType::Custom(s) => s@,
    }
}

/// The dimensions of an array type in brackets, outermost first
/// (`[3][2]` for an array of 3 arrays of 2); nothing for any other type.
pub open spec fn dims_text(t: CType) -> Seq<char>
    decreases t,
{
    match t {
        CType::Array(inner, size) => "["@ + decimal_text(size as nat) + "]"@ + dims_text(*inner),
        _ => Seq::empty(),
    }
}

/// A declarator: the type (for an array, its innermost element type), a
/// space, the name, and for an array every dimension in brackets after the
/// name, outermost first (`int xs[4]`, `int m[3][2]`).
pub open spec fn declarator_text(t: CType, name: Seq<char>) -> Seq<char> {
    ctype_text(t) + " "@ + name + dims_text(t)
}

impl Clone for CType {
    fn clone(&self) -> (r: Self)
        ensures
            r == *self,
        decreases self,
    {
        match self {
            CType::Int => CType::Int,
            CType::UnsignedInt => CType::UnsignedInt,
            CType::Long => CType::Long,
            CType::UnsignedLong => CType::UnsignedLong,
            CType::Char => CType::Char,
            CType::Float => CType::Float,
            CType::Double => CType::Double,
            CType::Void => CType::Void,
            CType::Ptr(inner) => CType::Ptr(Box::new((**inner).clone())),
            CType::Const(inner) => CType::Const(Box::new((**inner).clone())),
            CType::Array(inner, size) => CType::Array(Box::new((**inner).clone()), *size),
            CType::Struct(name) => CType::Struct(name.clone()),
            CType::Enum(name) => CType::Enum(name.clone()),
            CType::Custom(s) => CType::Custom(s.clone()),
        }
    }
}

impl CType {
    /// A pointer to this type.
    pub fn ptr(self) -> (r: Self)
        ensures
            r == CType::Ptr(Box::new(self)),
    {
        CType::Ptr(Box::new(self))
    }

    /// This type with the `const` qualifier.
    pub fn to_const(self) -> (r: Self)
        ensures
            r == CType::Const(Box::new(self)),
    {
        CType::Const(Box::new(self))
    }

    /// Appends how this type is written in C.
    pub fn write_to(&self, out: &mut String)
        ensures
            final(out)@ == old(out)@ + ctype_text(*self),
        decreases self,
    {
        match self {
            CType::Int => out.append("int"),
            CType::UnsignedInt => out.append("unsigned int"),
            CType::Long => out.append("long"),
            CType::UnsignedLong => out.append("unsigned long"),
            CType::Char => out.append("char"),
            CType::Float => out.append("float"),
            CType::Double => out.append("double"),
            CType::Void => out.append("void"),
            CType::Ptr(inner) => {
                inner.write_to(out);
                out.append("*");
                assert(final(out)@ =~= old(out)@ + ctype_text(*self));
            },
            CType::Const(inner) => {
                out.append("const ");
                inner.write_to(out);
                assert(final(out)@ =~= old(out)@ + ctype_text(*self));
            },
            CType::Array(inner, _) => inner.write_to(out),
            CType::Struct(name) => {
                out.append("struct ");
                out.append(name.as_str());
                assert(final(out)@ =~= old(out)@ + ctype_text(*self));
            },
            CType::Enum(name) => {
                out.append("enum ");
                out.append(name.as_str());
                assert(final(out)@ =~= old(out)@ + ctype_text(*self));
            },
            CType::Custom(s) => out.append(s.as_str()),
        }
    }

    /// How this type is written in C (the type's display form).
    pub fn render(&self) -> (r: String)
        ensures
            r@ == ctype_text(*self),
    {
        let mut out = String::new();
        self.write_to(&mut out);
        assert(out@ =~= ctype_text(*self));
        out
    }

    /// Appends the dimensions of this type, outermost first.
    pub fn write_dims(&self, out: &mut String)
        ensures
            final(out)@ == old(out)@ + dims_text(*self),
        decreases self,
    {
        match self {
            CType::Array(inner, size) => {
                out.append("[");
                push_decimal(out, *size as u64);
                out.append("]");
                inner.write_dims(out);
                assert(final(out)@ =~= old(out)@ + dims_text(*self));
            },
            _ => {
                assert(final(out)@ =~= old(out)@ + dims_text(*self));
            },
        }
    }

    /// Appends a declarator naming `name` with this type.
    pub fn write_declarator(&self, name: &str, out: &mut String)
        ensures
            final(out)@ == old(out)@ + declarator_text(*self, name@),
    {
        self.write_to(out);
        out.append(" ");
        out.append(name);
        self.write_dims(out);
        assert(final(out)@ =~= old(out)@ + declarator_text(*self, name@));
    }
}

} // verus!
