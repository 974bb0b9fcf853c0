//! A plain model of the declarations a Rust parser finds in a source file:
//! only what the conversion reads is kept.
use vstd::prelude::*;

verus! {

/// A type as written in the source.
#[derive(Debug)]
pub enum TypeSyntax {
    /// A path type such as `std::collections::HashMap<K, V>`.
    Path(TypePathSyntax),
    /// Any other form: references, tuples, arrays, slices, function
    /// pointers, trait objects and so on.
    Other,
}

/// A path type.
#[derive(Debug)]
pub struct TypePathSyntax {
    /// Written with a qualified self type, as in `<T as Trait>::Item`.
    pub qself: bool,
    /// Written with a leading `::`.
    pub leading_colon: bool,
    pub segments: Vec<PathSegmentSyntax>,
}

/// One segment of a path, with its arguments.
#[derive(Debug)]
pub struct PathSegmentSyntax {
    pub ident: String,
    pub arguments: PathArgumentsSyntax,
}

/// The arguments of a path segment.
#[derive(Debug)]
pub enum PathArgumentsSyntax {
    /// No arguments.
    NoArguments,
    /// `<A, B, ...>`.
    AngleBracketed(Vec<GenericArgumentSyntax>),
    /// `(A, B) -> C`, as in `Fn(A, B) -> C`.
    Parenthesized,
}

/// One argument between angle brackets.
#[derive(Debug)]
pub enum GenericArgumentSyntax {
    Type(TypeSyntax),
    /// A lifetime, a binding, a constraint or a const expression.
    Other,
}

/// A field of a struct or of an enum variant.
#[derive(Debug)]
pub struct FieldSyntax {
    /// Absent for the fields of a tuple struct or tuple variant.
    pub ident: Option<String>,
    pub ty: TypeSyntax,
}

/// A nested item of an attribute's meta list.
#[derive(Debug)]
pub enum NestedMetaSyntax {
    Meta(MetaSyntax),
    /// A literal, as in `#[doc("...")]`.
    Literal,
}

/// The structured form of an attribute.
#[derive(Debug)]
pub enum MetaSyntax {
    /// `#[name]`.
    Word(String),
    /// `#[name(nested, ...)]`.
    List(String, Vec<NestedMetaSyntax>),
    /// `#[name = literal]`.
    NameValue(String),
}

/// An attribute: its structured form, where it has one.
#[derive(Debug)]
pub struct AttributeSyntax {
    pub meta: Option<MetaSyntax>,
}

/// A struct declaration.
#[derive(Debug)]
pub struct StructSyntax {
    pub attrs: Vec<AttributeSyntax>,
    pub ident: String,
    pub fields: Vec<FieldSyntax>,
}

/// A variant of an enum declaration.
#[derive(Debug)]
pub struct VariantSyntax {
    pub ident: String,
    pub fields: Vec<FieldSyntax>,
}

/// An enum declaration.
#[derive(Debug)]
pub struct EnumSyntax {
    pub ident: String,
    pub variants: Vec<VariantSyntax>,
}

/// A top-level item of a source file.
#[derive(Debug)]
pub enum ItemSyntax {
    Struct(StructSyntax),
    Enum(EnumSyntax),
    /// Any other item, which the conversion ignores.
    Other,
}

} // verus!
