//! The unions and records of a source file, and the text of a whole run.
use vstd::prelude::*;
use crate::decl::{render_enum, render_struct, struct_wf, SimpleEnum, SimpleStruct};
use crate::extract::{
    all_derives, dropped_fields, enum_from, enum_normalizes, has_serde_marker, skipped_from,
    struct_from, SkippedField,
};
use crate::normalize::type_error;
use crate::syntax::{EnumSyntax, FieldSyntax, ItemSyntax, StructSyntax};

verus! {

/// The unions and records of one source file, in source order.
pub struct SimpleFile {
    pub name: String,
    pub enums: Vec<SimpleEnum>,
    pub structs: Vec<SimpleStruct>,
}

/// The enum declarations among `items` whose payload types all normalise.
pub open spec fn emitted_enums(items: Seq<ItemSyntax>) -> Seq<EnumSyntax>
    decreases items.len(),
{
    if items.len() == 0 {
        Seq::empty()
    } else {
        emitted_enums(items.drop_last()) + match items.last() {
            ItemSyntax::Enum(e) => if enum_normalizes(e) {
                seq![e]
            } else {
                Seq::empty()
            },
            _ => Seq::empty(),
        }
    }
}

/// The struct declarations among `items` that derive `Serialize` or
/// `Deserialize`.
pub open spec fn emitted_structs(items: Seq<ItemSyntax>) -> Seq<StructSyntax>
    decreases items.len(),
{
    if items.len() == 0 {
        Seq::empty()
    } else {
        emitted_structs(items.drop_last()) + match items.last() {
            ItemSyntax::Struct(s) => if has_serde_marker(all_derives(s.attrs@)) {
                seq![s]
            } else {
                Seq::empty()
            },
            _ => Seq::empty(),
        }
    }
}

/// The fields left out of the records of `ss`, record by record.
pub open spec fn all_dropped(ss: Seq<StructSyntax>) -> Seq<FieldSyntax>
    decreases ss.len(),
{
    if ss.len() == 0 {
        Seq::empty()
    } else {
        all_dropped(ss.drop_last()) + dropped_fields(ss.last().fields@)
    }
}

/// The text of a file: a comment with its name, then its unions, then its
/// records.
pub open spec fn render_file(f: SimpleFile) -> Seq<char> {
    "// "@ + f.name@ + "\n"@ + concat(f.enums@.map_values(|e: SimpleEnum| render_enum(e)))
        + concat(f.structs@.map_values(|s: SimpleStruct| render_struct(s)))
}

/// The parts one after the other.
pub open spec fn concat(parts: Seq<Seq<char>>) -> Seq<char>
    decreases parts.len(),
{
    if parts.len() == 0 {
        Seq::empty()
    } else {
        concat(parts.drop_last()) + parts.last()
    }
}

/// Every record of the file can be rendered.
pub open spec fn file_wf(f: SimpleFile) -> bool {
    forall|i: int| 0 <= i < f.structs.len() ==> struct_wf(#[trigger] f.structs[i])
}

/// The line that opens the output of a run: the alias that `DateTime<Utc>`
/// renders to.
pub fn output_preamble() -> (r: String)
    ensures
        r@ == "export type DateTimeUtc = string;\n"@,
{
    String::from_str("export type DateTimeUtc = string;\n")
}

impl SimpleStruct {
    /// Whether this record can be rendered: it has a field, and all its
    /// fields are named unless it is a newtype.
    pub fn can_render(&self) -> (r: bool)
        ensures
            r == struct_wf(*self),
    {
        let n = self.fields.len();
        if n == 0 {
            return false;
        }
        if n == 1 {
            return true;
        }
        let mut i: usize = 0;
        while i < n
            invariant
                n == self.fields.len(),
                n > 1,
                i <= n,
                forall|j: int| 0 <= j < i ==> (#[trigger] self.fields[j]).name is Some,
            decreases n - i,
        {
            if self.fields[i].name.is_none() {
                return false;
            }
            i = i + 1;
        }
        true
    }
}

impl SimpleFile {
    /// Collects the unions and records of a file's top-level items, in
    /// order, with the record fields that were left out and why.
    pub fn from_items(name: String, items: &Vec<ItemSyntax>) -> (r: (SimpleFile, Vec<SkippedField>))
        ensures
            r.0.name == name,
            r.0.enums.len() == emitted_enums(items@).len(),
            forall|i: int|
                0 <= i < r.0.enums.len() ==> enum_from(
                    #[trigger] r.0.enums[i],
                    emitted_enums(items@)[i],
                ),
            r.0.structs.len() == emitted_structs(items@).len(),
            forall|i: int|
                0 <= i < r.0.structs.len() ==> struct_from(
                    #[trigger] r.0.structs[i],
                    emitted_structs(items@)[i],
                ),
            skipped_from(r.1@, all_dropped(emitted_structs(items@))),
    {
        let mut enums: Vec<SimpleEnum> = Vec::new();
        let mut structs: Vec<SimpleStruct> = Vec::new();
        let mut skipped: Vec<SkippedField> = Vec::new();
        let n = items.len();
        let mut i: usize = 0;
        while i < n
            invariant
                n == items.len(),
                i <= n,
                enums.len() == emitted_enums(items@.take(i as int)).len(),
                forall|j: int|
                    0 <= j < enums.len() ==> enum_from(
                        #[trigger] enums[j],
                        emitted_enums(items@.take(i as int))[j],
                    ),
                structs.len() == emitted_structs(items@.take(i as int)).len(),
                forall|j: int|
                    0 <= j < structs.len() ==> struct_from(
                        #[trigger] structs[j],
                        emitted_structs(items@.take(i as int))[j],
                    ),
                skipped_from(skipped@, all_dropped(emitted_structs(items@.take(i as int)))),
            decreases n - i,
        {
            let ghost pre = items@.take(i as int);
            let ghost post = items@.take(i + 1);
            assert(post.drop_last() == pre);
            match &items[i] {
                ItemSyntax::Enum(e) => {
                    assert(emitted_structs(post) == emitted_structs(pre));
                    match SimpleEnum::from_syn_type(e) {
                        Some(se) => {
                            enums.push(se);
                        },
                        None => {},
                    }
                },
                ItemSyntax::Struct(s) => {
                    assert(emitted_enums(post) == emitted_enums(pre));
                    match SimpleStruct::new(s) {
                        Some((ss, mut more)) => {
                            structs.push(ss);
                            let ghost old_skipped = skipped@;
                            let ghost added = more@;
                            skipped.append(&mut more);
                            proof {
                                let tp = emitted_structs(pre);
                                assert(emitted_structs(post) == tp.push(*s));
                                assert(tp.push(*s).drop_last() == tp);
                                let a = all_dropped(tp);
                                let b = dropped_fields(s.fields@);
                                assert forall|j: int| 0 <= j < skipped@.len() implies {
                                    &&& (#[trigger] skipped@[j]).name == (a + b)[j].ident
                                    &&& type_error((a + b)[j].ty) == Some(skipped@[j].error)
                                } by {
                                    if j < a.len() {
                                        assert(skipped@[j] == old_skipped[j]);
                                    } else {
                                        assert(skipped@[j] == added[j - a.len()]);
                                    }
                                }
                            }
                        },
                        None => {},
                    }
                },
                ItemSyntax::Other => {},
            }
            i = i + 1;
        }
        assert(items@.take(n as int) == items@);
        (SimpleFile { name, enums, structs }, skipped)
    }

    /// Whether every record of the file can be rendered.
    pub fn can_render(&self) -> (r: bool)
        ensures
            r == file_wf(*self),
    {
        let n = self.structs.len();
        let mut i: usize = 0;
        while i < n
            invariant
                n == self.structs.len(),
                i <= n,
                forall|j: int| 0 <= j < i ==> struct_wf(#[trigger] self.structs[j]),
            decreases n - i,
        {
            if !self.structs[i].can_render() {
                return false;
            }
            i = i + 1;
        }
        true
    }

    /// Renders the file: a comment with its name, then each union, then
    /// each record, in order.
    pub fn to_ts(&self) -> (r: String)
        requires
            file_wf(*self),
        ensures
            r@ == render_file(*self),
    {
        let mut out = String::from_str("// ");
        out.append(self.name.as_str());
        out.append("\n");
        let ghost start = out@;
        let ghost eparts = self.enums@.map_values(|e: SimpleEnum| render_enum(e));
        let ne = self.enums.len();
        let mut i: usize = 0;
        while i < ne
            invariant
                ne == self.enums.len(),
                eparts == self.enums@.map_values(|e: SimpleEnum| render_enum(e)),
                i <= ne,
                out@ == start + concat(eparts.take(i as int)),
            decreases ne - i,
        {
            let t = self.enums[i].to_ts();
            out.append(t.as_str());
            assert(eparts.take(i + 1).drop_last() == eparts.take(i as int));
            i = i + 1;
        }
        assert(eparts.take(ne as int) == eparts);
        let ghost mid = out@;
        let ghost sparts = self.structs@.map_values(|s: SimpleStruct| render_struct(s));
        let ns = self.structs.len();
        let mut k: usize = 0;
        while k < ns
            invariant
                ns == self.structs.len(),
                file_wf(*self),
                sparts == self.structs@.map_values(|s: SimpleStruct| render_struct(s)),
                k <= ns,
                out@ == mid + concat(sparts.take(k as int)),
            decreases ns - k,
        {
            let t = self.structs[k].to_ts();
            out.append(t.as_str());
            assert(sparts.take(k + 1).drop_last() == sparts.take(k as int));
            k = k + 1;
        }
        assert(sparts.take(ns as int) == sparts);
        out
    }
}

} // verus!
