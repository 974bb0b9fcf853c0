//! Properties of the conversion that hold for all inputs.
use vstd::prelude::*;
use crate::extract::{all_derives, dropped_fields, has_serde_marker, kept_fields, field_normalizes};
use crate::file::emitted_structs;
use crate::syntax::{FieldSyntax, ItemSyntax, StructSyntax};
use crate::types::{array_element, is_numeric_name, path_is, render, spec_is_datetime_utc, SimpleType};

verus! {

broadcast use vstd::std_specs::vec::axiom_vec_index_decreases;

/// Every numeric primitive name, alone and without arguments, renders as
/// `number`.
pub proof fn lemma_numeric_renders_number(t: SimpleType)
    requires
        t.path.len() == 1,
        is_numeric_name(t.path[0]@),
        t.generic_args.len() == 0,
    ensures
        render(t) == "number"@,
{
}

/// A single name without arguments that is neither numeric nor `String`
/// renders as itself.
pub proof fn lemma_plain_name_passes_through(t: SimpleType)
    requires
        t.path.len() == 1,
        !is_numeric_name(t.path[0]@),
        t.path[0]@ != "String"@,
        t.generic_args.len() == 0,
    ensures
        render(t) == t.path[0]@,
{
}

/// `Option<T>` renders as the rendering of `T` followed by ` | null`,
/// whatever `T` is.
pub proof fn lemma_option_renders_nullable(o: SimpleType, t: SimpleType)
    requires
        path_is(o.path@, "Option"@),
        o.generic_args@ == seq![t],
    ensures
        render(o) == render(t) + " | null"@,
{
    assert(o.generic_args[0] == t);
}

/// `Vec<T>` renders as the rendering of `T` followed by `[]`, in
/// parentheses exactly when that rendering holds a space.
pub proof fn lemma_vec_renders_array(v: SimpleType, t: SimpleType)
    requires
        path_is(v.path@, "Vec"@),
        v.generic_args@ == seq![t],
    ensures
        render(t).contains(' ') ==> render(v) == "("@ + render(t) + ")"@ + "[]"@,
        !render(t).contains(' ') ==> render(v) == render(t) + "[]"@,
        render(v) == array_element(render(t)) + "[]"@,
{
    reveal_strlit("Option");
    reveal_strlit("Vec");
    assert("Vec"@.len() != "Option"@.len());
    assert("Vec"@ != "Option"@);
    assert(v.generic_args[0] == t);
}

/// `DateTime<Utc>` renders as the `DateTimeUtc` alias.
pub proof fn lemma_datetime_utc_renders_alias(t: SimpleType)
    requires
        spec_is_datetime_utc(t),
    ensures
        render(t) == "DateTimeUtc"@,
{
    reveal_strlit("Option");
    reveal_strlit("Vec");
    reveal_strlit("DateTime");
    assert("DateTime"@.len() != "Option"@.len());
    assert("DateTime"@ != "Option"@);
    assert("DateTime"@.len() != "Vec"@.len());
    assert("DateTime"@ != "Vec"@);
}

/// `HashMap<K, V>` renders as `Record<K', V'>` over the renderings of its
/// arguments.
pub proof fn lemma_hashmap_renders_record(m: SimpleType, k: SimpleType, v: SimpleType)
    requires
        path_is(m.path@, "HashMap"@),
        m.generic_args@ == seq![k, v],
    ensures
        render(m) == "Record<"@ + render(k) + ", "@ + render(v) + ">"@,
{
    assert(m.generic_args[0] == k);
    assert(m.generic_args[1] == v);
}

/// Two type references with the same path text and arguments of the same
/// shape, place by place.
pub open spec fn same_shape(a: SimpleType, b: SimpleType) -> bool
    decreases a,
{
    &&& a.path.len() == b.path.len()
    &&& forall|i: int| 0 <= i < a.path.len() ==> #[trigger] a.path[i]@ == b.path[i]@
    &&& a.generic_args.len() == b.generic_args.len()
    &&& forall|i: int|
        0 <= i < a.generic_args.len() ==> same_shape(#[trigger] a.generic_args[i], b.generic_args[i])
}

/// Rendering depends on the text of the type reference alone: two
/// references of the same shape render to the same text.
pub proof fn lemma_render_depends_on_shape(a: SimpleType, b: SimpleType)
    requires
        same_shape(a, b),
    ensures
        render(a) == render(b),
    decreases a,
{
    let n = a.generic_args.len();
    assert forall|i: int| 0 <= i < n implies render(#[trigger] a.generic_args[i]) == render(
        b.generic_args[i],
    ) by {
        lemma_render_depends_on_shape(a.generic_args[i], b.generic_args[i]);
    }
    if n > 0 {
        assert(path_is(a.path@, "Utc"@) == path_is(b.path@, "Utc"@));
    }
    if n == 1 {
        let (a0, b0) = (a.generic_args[0], b.generic_args[0]);
        assert(same_shape(a0, b0));
        if a0.path.len() == 1 {
            assert(a0.path[0]@ == b0.path[0]@);
        }
        assert(path_is(a0.path@, "Utc"@) == path_is(b0.path@, "Utc"@));
    }
    if a.path.len() == 1 {
        assert(a.path[0]@ == b.path[0]@);
    }
}

/// No record without a `Serialize` or `Deserialize` derive is among the
/// records that a list of items gives.
pub proof fn lemma_unmarked_structs_dropped(items: Seq<ItemSyntax>)
    ensures
        forall|i: int|
            0 <= i < emitted_structs(items).len() ==> has_serde_marker(
                all_derives(#[trigger] emitted_structs(items)[i].attrs@),
            ),
    decreases items.len(),
{
    if items.len() > 0 {
        let pre = items.drop_last();
        lemma_unmarked_structs_dropped(pre);
        let tp = emitted_structs(pre);
        assert forall|i: int| 0 <= i < emitted_structs(items).len() implies has_serde_marker(
            all_derives(#[trigger] emitted_structs(items)[i].attrs@),
        ) by {
            if i < tp.len() {
                assert(emitted_structs(items)[i] == tp[i]);
            }
        }
    }
}

/// A struct declaration that derives neither `Serialize` nor `Deserialize`
/// is never among the declarations whose records a file holds, wherever it
/// stands in the file's items: `SimpleFile::from_items` builds each record
/// from one of `emitted_structs(items)`.
pub proof fn lemma_unmarked_struct_not_emitted(items: Seq<ItemSyntax>, s: StructSyntax)
    requires
        !has_serde_marker(all_derives(s.attrs@)),
    ensures
        !emitted_structs(items).contains(s),
{
    lemma_unmarked_structs_dropped(items);
    if emitted_structs(items).contains(s) {
        let i = choose|i: int| 0 <= i < emitted_structs(items).len() && emitted_structs(items)[i] == s;
        assert(has_serde_marker(all_derives(emitted_structs(items)[i].attrs@)));
    }
}

/// Of a field whose type normalises and one whose type does not, in either
/// order, the record keeps the first alone and reports the second.
pub proof fn lemma_bad_field_isolated(fields: Seq<FieldSyntax>, good: FieldSyntax, bad: FieldSyntax)
    requires
        fields == seq![good, bad] || fields == seq![bad, good],
        field_normalizes(good),
        !field_normalizes(bad),
    ensures
        kept_fields(fields) == seq![good],
        dropped_fields(fields) == seq![bad],
{
    reveal_with_fuel(Seq::filter, 3);
    assert(fields.drop_last().drop_last() == Seq::<FieldSyntax>::empty());
    assert(seq![good].drop_last() == Seq::<FieldSyntax>::empty());
    assert(seq![bad].drop_last() == Seq::<FieldSyntax>::empty());
    assert(Seq::<FieldSyntax>::empty().push(good) == seq![good]);
    assert(Seq::<FieldSyntax>::empty().push(bad) == seq![bad]);
}

} // verus!
