use vstd::prelude::*;
use crate::text::{text_contains, text_is};

verus! {

broadcast use vstd::std_specs::vec::axiom_vec_index_decreases;

/// A normalised type reference: a path of identifier segments and the
/// generic arguments of its last segment.
#[derive(Debug)]
pub struct SimpleType {
    pub path: Vec<String>,
    pub generic_args: Vec<SimpleType>,
}

/// Why a declared type has no `SimpleType`.
#[derive(Debug, PartialEq, Eq, Clone, Copy)]
pub enum SimpleTypeError {
    /// A qualified-self path such as `<T as Trait>::Item`.
    QSelf,
    /// A path rooted with a leading `::`.
    LeadingColon,
    /// Arguments on a segment other than the last.
    EarlyGenericArgs,
    /// An angle-bracketed argument that is not a type.
    InvalidGenericArgType,
    /// Arguments in a form other than angle brackets.
    InvalidArgType,
    /// A type that is not a path at all.
    TypeIsNotPath,
}

/// The path is the single segment `name`.
pub open spec fn path_is(path: Seq<String>, name: Seq<char>) -> bool {
    path.len() == 1 && path[0]@ == name
}

/// The ten numeric primitive names, which all render as `number`.
pub open spec fn is_numeric_name(s: Seq<char>) -> bool {
    ||| s == "i8"@
    ||| s == "i16"@
    ||| s == "i32"@
    ||| s == "i64"@
    ||| s == "u8"@
    ||| s == "u16"@
    ||| s == "u32"@
    ||| s == "u64"@
    ||| s == "f32"@
    ||| s == "f64"@
}

/// The type is `DateTime<Utc>`, with `Utc` taking no arguments.
pub open spec fn spec_is_datetime_utc(t: SimpleType) -> bool {
    &&& path_is(t.path@, "DateTime"@)
    &&& t.generic_args.len() == 1
    &&& path_is(t.generic_args[0].path@, "Utc"@)
    &&& t.generic_args[0].generic_args.len() == 0
}

/// The element part of an array type: compound renderings (those holding a
/// space) are put in parentheses.
pub open spec fn array_element(inner: Seq<char>) -> Seq<char> {
    if inner.contains(' ') {
        "("@ + inner + ")"@
    } else {
        inner
    }
}

/// The TypeScript rendering of a type reference. The wrapper rules are
/// tried first, in this order; then the zero-argument forms; anything
/// else renders as a placeholder.
pub open spec fn render(t: SimpleType) -> Seq<char>
    decreases t,
{
    let args = t.generic_args;
    if path_is(t.path@, "Option"@) && args.len() == 1 {
        render(args[0]) + " | null"@
    } else if path_is(t.path@, "Vec"@) && args.len() == 1 {
        array_element(render(args[0])) + "[]"@
    } else if spec_is_datetime_utc(t) {
        "DateTimeUtc"@
    } else if path_is(t.path@, "HashMap"@) && args.len() == 2 {
        "Record<"@ + render(args[0]) + ", "@ + render(args[1]) + ">"@
    } else if args.len() == 0 {
        if t.path.len() == 1 {
            if is_numeric_name(t.path[0]@) {
                "number"@
            } else if t.path[0]@ == "String"@ {
                "string"@
            } else {
                t.path[0]@
            }
        } else {
            "TODO1"@
        }
    } else {
        "TODO2"@
    }
}

fn path_is_single(path: &Vec<String>, name: &str) -> (r: bool)
    ensures
        r == path_is(path@, name@),
{
    path.len() == 1 && text_is(path[0].as_str(), name)
}

fn is_numeric(s: &str) -> (r: bool)
    ensures
        r == is_numeric_name(s@),
{
    text_is(s, "i8") || text_is(s, "i16") || text_is(s, "i32") || text_is(s, "i64")
        || text_is(s, "u8") || text_is(s, "u16") || text_is(s, "u32") || text_is(s, "u64")
        || text_is(s, "f32") || text_is(s, "f64")
}

impl SimpleType {
    pub fn new(path: Vec<String>, generic_args: Vec<SimpleType>) -> (r: SimpleType)
        ensures
            r.path == path,
            r.generic_args == generic_args,
    {
        SimpleType { path, generic_args }
    }

    /// Whether this is `DateTime<Utc>`.
    pub fn is_datetime_utc(&self) -> (r: bool)
        ensures
            r == spec_is_datetime_utc(*self),
    {
        path_is_single(&self.path, "DateTime") && self.generic_args.len() == 1
            && path_is_single(&self.generic_args[0].path, "Utc")
            && self.generic_args[0].generic_args.len() == 0
    }

    /// Renders this type reference as a TypeScript type expression.
    pub fn to_ts(&self) -> (r: String)
        ensures
            r@ == render(*self),
        decreases self,
    {
        let args = &self.generic_args;
        if path_is_single(&self.path, "Option") && args.len() == 1 {
            let mut out = args[0].to_ts();
            out.append(" | null");
            out
        } else if path_is_single(&self.path, "Vec") && args.len() == 1 {
            let inner = args[0].to_ts();
            let mut out = if text_contains(inner.as_str(), ' ') {
                let mut wrapped = String::from_str("(");
                wrapped.append(inner.as_str());
                wrapped.append(")");
                wrapped
            } else {
                inner
            };
            out.append("[]");
            out
        } else if self.is_datetime_utc() {
            String::from_str("DateTimeUtc")
        } else if path_is_single(&self.path, "HashMap") && args.len() == 2 {
            let mut out = String::from_str("Record<");
            let key = args[0].to_ts();
            out.append(key.as_str());
            out.append(", ");
            let value = args[1].to_ts();
            out.append(value.as_str());
            out.append(">");
            out
        } else if args.len() == 0 {
            if self.path.len() == 1 {
                let name = self.path[0].as_str();
                if is_numeric(name) {
                    String::from_str("number")
                } else if text_is(name, "String") {
                    String::from_str("string")
                } else {
                    name.to_owned()
                }
            } else {
                String::from_str("TODO1")
            }
        } else {
            String::from_str("TODO2")
        }
    }
}

} // verus!
