//! Building records and unions from the declarations a parser found.
use vstd::prelude::*;
use crate::decl::{SimpleEnum, SimpleField, SimpleStruct, SimpleVariant};
use crate::normalize::{represents, type_error};
use crate::syntax::{
    AttributeSyntax, EnumSyntax, FieldSyntax, MetaSyntax, NestedMetaSyntax, StructSyntax,
    VariantSyntax,
};
use crate::text::text_is;
use crate::types::{SimpleType, SimpleTypeError};

verus! {

/// A record field left out because its type has no normal form.
#[derive(Debug)]
pub struct SkippedField {
    pub name: Option<String>,
    pub error: SimpleTypeError,
}

/// The bare names listed in a meta list, in order.
pub open spec fn listed_words(s: Seq<NestedMetaSyntax>) -> Seq<String>
    decreases s.len(),
{
    if s.len() == 0 {
        Seq::empty()
    } else {
        listed_words(s.drop_last()) + match s.last() {
            NestedMetaSyntax::Meta(MetaSyntax::Word(w)) => seq![w],
            _ => Seq::empty(),
        }
    }
}

/// The trait names that an attribute derives: those of `#[derive(...)]`,
/// none for any other attribute.
pub open spec fn attr_derives(a: AttributeSyntax) -> Seq<String> {
    match a.meta {
        Some(MetaSyntax::List(name, nested)) => if name@ == "derive"@ {
            listed_words(nested@)
        } else {
            Seq::empty()
        },
        _ => Seq::empty(),
    }
}

/// The trait names that a list of attributes derives, in order.
pub open spec fn all_derives(attrs: Seq<AttributeSyntax>) -> Seq<String>
    decreases attrs.len(),
{
    if attrs.len() == 0 {
        Seq::empty()
    } else {
        all_derives(attrs.drop_last()) + attr_derives(attrs.last())
    }
}

/// A record is rendered only when it derives `Serialize` or `Deserialize`.
pub open spec fn has_serde_marker(derives: Seq<String>) -> bool {
    exists|i: int|
        0 <= i < derives.len() && (#[trigger] derives[i]@ == "Deserialize"@ || derives[i]@
            == "Serialize"@)
}

/// The field's type has a normal form.
pub open spec fn field_normalizes(f: FieldSyntax) -> bool {
    type_error(f.ty) is None
}

/// The fields whose types have a normal form, in order.
pub open spec fn kept_fields(fs: Seq<FieldSyntax>) -> Seq<FieldSyntax> {
    fs.filter(|f: FieldSyntax| field_normalizes(f))
}

/// The fields whose types have none, in order.
pub open spec fn dropped_fields(fs: Seq<FieldSyntax>) -> Seq<FieldSyntax> {
    fs.filter(|f: FieldSyntax| !field_normalizes(f))
}

/// Each field of `out` carries the name and the normal form of the type of
/// the field of `src` at its place.
pub open spec fn fields_from(out: Seq<SimpleField>, src: Seq<FieldSyntax>) -> bool {
    &&& out.len() == src.len()
    &&& forall|i: int|
        0 <= i < out.len() ==> (#[trigger] out[i]).name == src[i].ident && represents(
            out[i].ty,
            src[i].ty,
        )
}

/// Each entry of `out` carries the name of the field of `src` at its place
/// and the error that normalising its type meets.
pub open spec fn skipped_from(out: Seq<SkippedField>, src: Seq<FieldSyntax>) -> bool {
    &&& out.len() == src.len()
    &&& forall|i: int|
        0 <= i < out.len() ==> (#[trigger] out[i]).name == src[i].ident && type_error(src[i].ty)
            == Some(out[i].error)
}

/// Every payload type of every variant has a normal form.
pub open spec fn enum_normalizes(e: EnumSyntax) -> bool {
    forall|i: int, j: int|
        0 <= i < e.variants.len() && 0 <= j < e.variants[i].fields.len() ==> type_error(
            #[trigger] e.variants[i].fields[j].ty,
        ) is None
}

/// `v` is the variant `src` with its payload types normalised.
pub open spec fn variant_from(v: SimpleVariant, src: VariantSyntax) -> bool {
    &&& v.name == src.ident
    &&& v.fields.len() == src.fields.len()
    &&& forall|j: int| 0 <= j < v.fields.len() ==> represents(#[trigger] v.fields[j], src.fields[j].ty)
}

/// `ss` is the record of the struct declaration `s`: its name, and the
/// fields whose types have a normal form.
pub open spec fn struct_from(ss: SimpleStruct, s: StructSyntax) -> bool {
    &&& ss.name == s.ident
    &&& fields_from(ss.fields@, kept_fields(s.fields@))
}

/// `se` is the union of the enum declaration `e`.
pub open spec fn enum_from(se: SimpleEnum, e: EnumSyntax) -> bool {
    &&& se.name == e.ident
    &&& se.variants.len() == e.variants.len()
    &&& forall|i: int|
        0 <= i < se.variants.len() ==> variant_from(#[trigger] se.variants[i], e.variants[i])
}

fn clone_name(name: &Option<String>) -> (r: Option<String>)
    ensures
        r == *name,
{
    match name {
        Some(n) => Some(n.clone()),
        None => None,
    }
}

/// The trait names that an attribute derives, in order.
pub fn attr_to_derives(attr: &AttributeSyntax) -> (r: Vec<String>)
    ensures
        r@ == attr_derives(*attr),
{
    let mut derives: Vec<String> = Vec::new();
    if let Some(MetaSyntax::List(name, nested)) = &attr.meta {
        if !text_is(name.as_str(), "derive") {
            return derives;
        }
        let n = nested.len();
        let mut i: usize = 0;
        while i < n
            invariant
                n == nested.len(),
                i <= n,
                derives@ == listed_words(nested@.take(i as int)),
            decreases n - i,
        {
            if let NestedMetaSyntax::Meta(MetaSyntax::Word(w)) = &nested[i] {
                derives.push(w.clone());
            }
            assert(nested@.take(i + 1).drop_last() == nested@.take(i as int));
            i = i + 1;
        }
        assert(nested@.take(n as int) == nested@);
    }
    derives
}

/// Whether the derived trait names include `Serialize` or `Deserialize`.
pub fn derives_serde(derives: &Vec<String>) -> (r: bool)
    ensures
        r == has_serde_marker(derives@),
{
    let n = derives.len();
    let mut i: usize = 0;
    while i < n
        invariant
            n == derives.len(),
            i <= n,
            forall|j: int|
                0 <= j < i ==> !(#[trigger] derives[j]@ == "Deserialize"@ || derives[j]@
                    == "Serialize"@),
        decreases n - i,
    {
        let d = derives[i].as_str();
        if text_is(d, "Deserialize") || text_is(d, "Serialize") {
            assert(derives@[i as int]@ == "Deserialize"@ || derives@[i as int]@ == "Serialize"@);
            return true;
        }
        i = i + 1;
    }
    false
}

impl SimpleStruct {
    /// Builds the record of a struct declaration, with the fields whose
    /// types were left out and why. A struct that derives neither
    /// `Serialize` nor `Deserialize` gives nothing.
    pub fn new(s: &StructSyntax) -> (r: Option<(SimpleStruct, Vec<SkippedField>)>)
        ensures
            match r {
                None => !has_serde_marker(all_derives(s.attrs@)),
                Some((ss, skipped)) => {
                    &&& has_serde_marker(all_derives(s.attrs@))
                    &&& struct_from(ss, *s)
                    &&& skipped_from(skipped@, dropped_fields(s.fields@))
                },
            },
    {
        let mut derives: Vec<String> = Vec::new();
        let na = s.attrs.len();
        let mut i: usize = 0;
        while i < na
            invariant
                na == s.attrs.len(),
                i <= na,
                derives@ == all_derives(s.attrs@.take(i as int)),
            decreases na - i,
        {
            let mut more = attr_to_derives(&s.attrs[i]);
            derives.append(&mut more);
            assert(s.attrs@.take(i + 1).drop_last() == s.attrs@.take(i as int));
            i = i + 1;
        }
        assert(s.attrs@.take(na as int) == s.attrs@);
        if !derives_serde(&derives) {
            return None;
        }
        let mut fields: Vec<SimpleField> = Vec::new();
        let mut skipped: Vec<SkippedField> = Vec::new();
        let nf = s.fields.len();
        let mut k: usize = 0;
        while k < nf
            invariant
                nf == s.fields.len(),
                k <= nf,
                fields_from(fields@, kept_fields(s.fields@.take(k as int))),
                skipped_from(skipped@, dropped_fields(s.fields@.take(k as int))),
            decreases nf - k,
        {
            let f = &s.fields[k];
            let ghost pre = s.fields@.take(k as int);
            let ghost post = s.fields@.take(k + 1);
            proof {
                assert(post.drop_last() == pre);
                assert(post.last() == *f);
                reveal(Seq::filter);
            }
            match SimpleType::from_syn_type(&f.ty) {
                Ok(st) => {
                    fields.push(SimpleField::new(clone_name(&f.ident), st));
                },
                Err(error) => {
                    skipped.push(SkippedField { name: clone_name(&f.ident), error });
                },
            }
            k = k + 1;
        }
        assert(s.fields@.take(nf as int) == s.fields@);
        Some((SimpleStruct { name: s.ident.clone(), fields }, skipped))
    }
}

impl SimpleEnum {
    /// Builds the union of an enum declaration, or nothing when a payload
    /// type has no normal form.
    pub fn from_syn_type(e: &EnumSyntax) -> (r: Option<SimpleEnum>)
        ensures
            match r {
                None => !enum_normalizes(*e),
                Some(se) => enum_normalizes(*e) && enum_from(se, *e),
            },
    {
        let mut variants: Vec<SimpleVariant> = Vec::new();
        let nv = e.variants.len();
        let mut i: usize = 0;
        while i < nv
            invariant
                nv == e.variants.len(),
                i <= nv,
                variants.len() == i,
                forall|a: int, j: int|
                    0 <= a < i && 0 <= j < e.variants[a].fields.len() ==> type_error(
                        #[trigger] e.variants[a].fields[j].ty,
                    ) is None,
                forall|a: int| 0 <= a < i ==> variant_from(#[trigger] variants[a], e.variants[a]),
            decreases nv - i,
        {
            let v = &e.variants[i];
            let mut fields: Vec<SimpleType> = Vec::new();
            let nf = v.fields.len();
            let mut k: usize = 0;
            while k < nf
                invariant
                    nv == e.variants.len(),
                    i < nv,
                    *v == e.variants[i as int],
                    variants.len() == i,
                    forall|a: int, j: int|
                        0 <= a < i && 0 <= j < e.variants[a].fields.len() ==> type_error(
                            #[trigger] e.variants[a].fields[j].ty,
                        ) is None,
                    forall|a: int| 0 <= a < i ==> variant_from(#[trigger] variants[a], e.variants[a]),
                    nf == v.fields.len(),
                    k <= nf,
                    fields.len() == k,
                    forall|j: int| 0 <= j < k ==> type_error(#[trigger] v.fields[j].ty) is None,
                    forall|j: int| 0 <= j < k ==> represents(#[trigger] fields[j], v.fields[j].ty),
                decreases nf - k,
            {
                match SimpleType::from_syn_type(&v.fields[k].ty) {
                    Ok(st) => {
                        fields.push(st);
                    },
                    Err(_) => {
                        assert(type_error(e.variants[i as int].fields[k as int].ty) is Some);
                        return None;
                    },
                }
                k = k + 1;
            }
            variants.push(SimpleVariant::new(v.ident.clone(), fields));
            i = i + 1;
        }
        Some(SimpleEnum { name: e.ident.clone(), variants })
    }
}

} // verus!
