//! Records (structs) and unions (enums) and their TypeScript declarations.
use vstd::prelude::*;
use crate::types::{render, SimpleType};

verus! {

/// A field of a record: a name, absent for the one field of a newtype.
#[derive(Debug)]
pub struct SimpleField {
    pub name: Option<String>,
    pub ty: SimpleType,
}

/// A record declaration.
#[derive(Debug)]
pub struct SimpleStruct {
    pub name: String,
    pub fields: Vec<SimpleField>,
}

/// A variant of a union, with its payload types in order.
#[derive(Debug)]
pub struct SimpleVariant {
    pub name: String,
    pub fields: Vec<SimpleType>,
}

/// A union declaration.
#[derive(Debug)]
pub struct SimpleEnum {
    pub name: String,
    pub variants: Vec<SimpleVariant>,
}

/// The parts joined by `sep`, in order.
pub open spec fn join(parts: Seq<Seq<char>>, sep: Seq<char>) -> Seq<char>
    decreases parts.len(),
{
    if parts.len() == 0 {
        Seq::empty()
    } else if parts.len() == 1 {
        parts[0]
    } else {
        join(parts.drop_last(), sep) + sep + parts.last()
    }
}

/// Joining one more part adds the separator and that part.
pub proof fn lemma_join_step(parts: Seq<Seq<char>>, sep: Seq<char>, i: int)
    requires
        0 < i < parts.len(),
    ensures
        join(parts.take(i + 1), sep) == join(parts.take(i), sep) + sep + parts[i],
{
    assert(parts.take(i + 1).drop_last() == parts.take(i));
}

/// A record can be rendered: it has a field, and every field is named
/// unless the record is a newtype of one field.
pub open spec fn struct_wf(s: SimpleStruct) -> bool {
    &&& s.fields.len() > 0
    &&& forall|i: int| 0 <= i < s.fields.len() ==> #[trigger] s.fields[i].name is Some || s.fields.len() == 1
}

/// A record of one unnamed field, rendered as a type alias.
pub open spec fn is_newtype(s: SimpleStruct) -> bool {
    s.fields.len() == 1 && s.fields[0].name is None
}

/// One member line of an interface.
pub open spec fn member_line(f: SimpleField) -> Seq<char> {
    "  "@ + f.name->Some_0@ + ": "@ + render(f.ty) + ";\n"@
}

/// The member lines of an interface, in field order.
pub open spec fn member_lines(fs: Seq<SimpleField>) -> Seq<char>
    decreases fs.len(),
{
    if fs.len() == 0 {
        Seq::empty()
    } else {
        member_lines(fs.drop_last()) + member_line(fs.last())
    }
}

/// The TypeScript declaration of a record.
pub open spec fn render_struct(s: SimpleStruct) -> Seq<char> {
    if is_newtype(s) {
        "export type "@ + s.name@ + " = "@ + render(s.fields[0].ty) + ";\n"@
    } else {
        "export interface "@ + s.name@ + " {\n"@ + member_lines(s.fields@) + "}\n"@
    }
}

/// The renderings of a list of types.
pub open spec fn renders(ts: Seq<SimpleType>) -> Seq<Seq<char>> {
    ts.map_values(|t: SimpleType| render(t))
}

/// One member of a union: a string literal for a unit variant, an object
/// with one key for a variant of one payload, and an object whose value is
/// a tuple for a variant of several.
pub open spec fn variant_member(v: SimpleVariant) -> Seq<char> {
    if v.fields.len() == 0 {
        "  \""@ + v.name@ + "\""@
    } else if v.fields.len() == 1 {
        "  { "@ + v.name@ + ": "@ + render(v.fields[0]) + " }"@
    } else {
        "  { "@ + v.name@ + ": ["@ + join(renders(v.fields@), ", "@) + "] }"@
    }
}

/// The members of a union, in variant order.
pub open spec fn variant_members(vs: Seq<SimpleVariant>) -> Seq<Seq<char>> {
    vs.map_values(|v: SimpleVariant| variant_member(v))
}

/// The TypeScript declaration of a union.
pub open spec fn render_enum(e: SimpleEnum) -> Seq<char> {
    "export type "@ + e.name@ + " =\n"@ + join(variant_members(e.variants@), " |\n"@) + ";\n"@
}

impl SimpleField {
    pub fn new(name: Option<String>, ty: SimpleType) -> (r: SimpleField)
        ensures
            r.name == name,
            r.ty == ty,
    {
        SimpleField { name, ty }
    }
}

impl SimpleVariant {
    pub fn new(name: String, fields: Vec<SimpleType>) -> (r: SimpleVariant)
        ensures
            r.name == name,
            r.fields == fields,
    {
        SimpleVariant { name, fields }
    }

    /// Renders this variant as one member of its union.
    pub fn to_ts(&self) -> (r: String)
        ensures
            r@ == variant_member(*self),
    {
        let n = self.fields.len();
        if n == 0 {
            let mut out = String::from_str("  \"");
            out.append(self.name.as_str());
            out.append("\"");
            out
        } else if n == 1 {
            let mut out = String::from_str("  { ");
            out.append(self.name.as_str());
            out.append(": ");
            let t = self.fields[0].to_ts();
            out.append(t.as_str());
            out.append(" }");
            out
        } else {
            let mut out = String::from_str("  { ");
            out.append(self.name.as_str());
            out.append(": [");
            let ghost start = out@;
            let ghost parts = renders(self.fields@);
            let mut i: usize = 0;
            while i < n
                invariant
                    n == self.fields.len(),
                    parts == renders(self.fields@),
                    i <= n,
                    out@ == start + join(parts.take(i as int), ", "@),
                decreases n - i,
            {
                if i > 0 {
                    out.append(", ");
                }
                let t = self.fields[i].to_ts();
                out.append(t.as_str());
                proof {
                    if i > 0 {
                        lemma_join_step(parts, ", "@, i as int);
                    } else {
                        assert(parts.take(1) == seq![parts[0]]);
                    }
                }
                i = i + 1;
            }
            assert(parts.take(n as int) == parts);
            out.append("] }");
            out
        }
    }
}

impl SimpleEnum {
    /// Renders this union as a TypeScript type alias.
    pub fn to_ts(&self) -> (r: String)
        ensures
            r@ == render_enum(*self),
    {
        let n = self.variants.len();
        let mut out = String::from_str("export type ");
        out.append(self.name.as_str());
        out.append(" =\n");
        let ghost start = out@;
        let ghost parts = variant_members(self.variants@);
        let mut i: usize = 0;
        while i < n
            invariant
                n == self.variants.len(),
                parts == variant_members(self.variants@),
                i <= n,
                out@ == start + join(parts.take(i as int), " |\n"@),
            decreases n - i,
        {
            if i > 0 {
                out.append(" |\n");
            }
            let v = self.variants[i].to_ts();
            out.append(v.as_str());
            proof {
                if i > 0 {
                    lemma_join_step(parts, " |\n"@, i as int);
                } else {
                    assert(parts.take(1) == seq![parts[0]]);
                }
            }
            i = i + 1;
        }
        assert(parts.take(n as int) == parts);
        out.append(";\n");
        out
    }
}

impl SimpleStruct {
    /// Renders this record: a newtype as a type alias, any other record as
    /// an interface with one member per field, in order.
    pub fn to_ts(&self) -> (r: String)
        requires
            struct_wf(*self),
        ensures
            r@ == render_struct(*self),
    {
        let n = self.fields.len();
        if n == 1 && self.fields[0].name.is_none() {
            let mut out = String::from_str("export type ");
            out.append(self.name.as_str());
            out.append(" = ");
            let t = self.fields[0].ty.to_ts();
            out.append(t.as_str());
            out.append(";\n");
            out
        } else {
            let mut out = String::from_str("export interface ");
            out.append(self.name.as_str());
            out.append(" {\n");
            let ghost start = out@;
            let mut i: usize = 0;
            while i < n
                invariant
                    n == self.fields.len(),
                    forall|j: int| 0 <= j < n ==> (#[trigger] self.fields[j]).name is Some,
                    i <= n,
                    out@ == start + member_lines(self.fields@.take(i as int)),
                decreases n - i,
            {
                let f = &self.fields[i];
                let name = match &f.name {
                    Some(name) => name,
                    None => {
                        assert(false);
                        return String::new();
                    }
                };
                out.append("  ");
                out.append(name.as_str());
                out.append(": ");
                let t = f.ty.to_ts();
                out.append(t.as_str());
                out.append(";\n");
                assert(self.fields@.take(i + 1).drop_last() == self.fields@.take(i as int));
                i = i + 1;
            }
            assert(self.fields@.take(n as int) == self.fields@);
            out.append("}\n");
            out
        }
    }
}

} // verus!
