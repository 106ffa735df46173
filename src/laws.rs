use vstd::prelude::*;
use crate::error_type::error_text;
use crate::generate::{all_name_arms, all_variant_tokens, generated_text, name_arm, variant_tokens};
use crate::model::{EnumDef, NamedField, Variant, named_idents};
use crate::accessors::{
    fallible_text, into_doc, is_doc, named_pattern, no_value, ok_expr, predicate_text, ref_doc, unit_text,
    unnamed_pattern, whole_value,
};
use crate::naming::accessor_ident;
use crate::shape::{binding_list, positional_name, positional_names, return_type};
use crate::text::{join_each, lemma_join_each_at};

verus! {

proof fn lemma_variant_tokens_append(d: EnumDef, a: Seq<Variant>, b: Seq<Variant>)
    ensures
        all_variant_tokens(d, a + b) == all_variant_tokens(d, a) + all_variant_tokens(d, b),
    decreases b.len(),
{
    if b.len() == 0 {
        assert(a + b =~= a);
        assert(all_variant_tokens(d, a) + all_variant_tokens(d, b) =~= all_variant_tokens(d, a));
    } else {
        lemma_variant_tokens_append(d, a, b.drop_last());
        assert((a + b).drop_last() =~= a + b.drop_last());
        assert(all_variant_tokens(d, a + b) =~= all_variant_tokens(d, a) + all_variant_tokens(d, b));
    }
}

proof fn lemma_name_arms_append(a: Seq<Variant>, b: Seq<Variant>)
    ensures
        all_name_arms(a + b) == all_name_arms(a) + all_name_arms(b),
    decreases b.len(),
{
    if b.len() == 0 {
        assert(a + b =~= a);
        assert(all_name_arms(a) + all_name_arms(b) =~= all_name_arms(a));
    } else {
        lemma_name_arms_append(a, b.drop_last());
        assert((a + b).drop_last() =~= a + b.drop_last());
        assert(all_name_arms(a + b) =~= all_name_arms(a) + all_name_arms(b));
    }
}

/// Every variant gets its own accessors, in declaration order: those of
/// variant `i` follow those of the variants before it and precede those of
/// the variants after it.
pub proof fn lemma_accessors_for_each_variant(d: EnumDef, i: int)
    requires
        0 <= i < d.variants@.len(),
    ensures
        all_variant_tokens(d, d.variants@) == all_variant_tokens(d, d.variants@.take(i))
            + variant_tokens(d, d.variants@[i]) + all_variant_tokens(d, d.variants@.skip(i + 1)),
{
    let vs = d.variants@;
    let mid = seq![vs[i]];
    assert(vs =~= vs.take(i) + mid + vs.skip(i + 1));
    lemma_variant_tokens_append(d, vs.take(i) + mid, vs.skip(i + 1));
    lemma_variant_tokens_append(d, vs.take(i), mid);
    assert(mid.drop_last() =~= Seq::<Variant>::empty());
    assert(all_variant_tokens(d, Seq::<Variant>::empty()) == Seq::<char>::empty());
    assert(mid.last() == vs[i]);
    assert(Seq::<char>::empty() + variant_tokens(d, vs[i]) =~= variant_tokens(d, vs[i]));
    assert(all_variant_tokens(d, mid) =~= variant_tokens(d, vs[i]));
}

/// Every variant has its own arm in `variant_name`, which maps it to its own
/// name: that is the name a failed accessor gives as the actual variant.
pub proof fn lemma_name_arm_for_each_variant(vs: Seq<Variant>, i: int)
    requires
        0 <= i < vs.len(),
    ensures
        all_name_arms(vs) == all_name_arms(vs.take(i)) + name_arm(vs[i]) + all_name_arms(vs.skip(i + 1)),
{
    let mid = seq![vs[i]];
    assert(vs =~= vs.take(i) + mid + vs.skip(i + 1));
    lemma_name_arms_append(vs.take(i) + mid, vs.skip(i + 1));
    lemma_name_arms_append(vs.take(i), mid);
    assert(mid.drop_last() =~= Seq::<Variant>::empty());
    assert(all_name_arms(Seq::<Variant>::empty()) == Seq::<char>::empty());
    assert(mid.last() == vs[i]);
    assert(Seq::<char>::empty() + name_arm(vs[i]) =~= name_arm(vs[i]));
    assert(all_name_arms(mid) =~= name_arm(vs[i]));
}

/// The error type is always generated, whatever the enum: the generated text
/// ends with it.
pub proof fn lemma_error_type_always_emitted(d: EnumDef)
    ensures
        generated_text(d).len() >= error_text(d).len(),
        generated_text(d).skip(generated_text(d).len() - error_text(d).len()) == error_text(d),
{
    let g = generated_text(d);
    assert(g.skip(g.len() - error_text(d).len()) =~= error_text(d));
}

/// An enum without variants gets no accessor and no arm in `variant_name`,
/// and its error type is still generated.
pub proof fn lemma_no_variants(d: EnumDef)
    requires
        d.variants@.len() == 0,
    ensures
        all_variant_tokens(d, d.variants@) == Seq::<char>::empty(),
        all_name_arms(d.variants@) == Seq::<char>::empty(),
        generated_text(d).skip(generated_text(d).len() - error_text(d).len()) == error_text(d),
{
    lemma_error_type_always_emitted(d);
}

/// With two or more fields, the tuple an accessor returns lists the fields in
/// declaration order: the element for field `i` (its type after `pre`) comes
/// after those of fields `0..i` and before those of the fields after it.
pub proof fn lemma_tuple_in_field_order(tys: Seq<Seq<char>>, pre: Seq<char>, i: int)
    requires
        tys.len() >= 2,
        0 <= i < tys.len(),
    ensures
        return_type(tys, pre) == "("@ + join_each(tys.take(i), pre, ", "@) + (pre + tys[i] + ", "@)
            + join_each(tys.skip(i + 1), pre, ", "@) + ")"@,
{
    lemma_join_each_at(tys, pre, ", "@, i);
}

/// With two or more fields, the bindings of a variant's pattern, and so the
/// tuple of values an accessor builds from them, follow declaration order:
/// the name bound to field `i` stands between those of the fields before and
/// after it.
pub proof fn lemma_bindings_in_field_order(names: Seq<Seq<char>>, i: int)
    requires
        names.len() >= 2,
        0 <= i < names.len(),
    ensures
        binding_list(names) == join_each(names.take(i), ""@, ", "@) + (""@ + names[i] + ", "@)
            + join_each(names.skip(i + 1), ""@, ", "@),
{
    lemma_join_each_at(names, ""@, ", "@, i);
}

/// With two or more positional fields, field `i` is bound to `match_i`.
pub proof fn lemma_positional_name_of_field(n: nat, i: int)
    requires
        n >= 2,
        0 <= i < n,
    ensures
        positional_names(n).len() == n,
        positional_names(n)[i] == positional_name(i as nat),
{
}

/// A successful accessor hands back exactly what the pattern it matched
/// bound, in the pattern's order. For positional fields the pattern is the
/// variant applied to the very expression returned, so `Self::V` applied to
/// what `try_into_*` gives back rebuilds the consumed value; for named fields
/// each field is bound under its own name, and the returned tuple lists those
/// names in declaration order.
pub proof fn lemma_round_trip(v: Seq<char>, n: nat, fs: Seq<NamedField>)
    ensures
        unnamed_pattern(v, positional_names(n)) == "Self::"@ + v + ok_expr(positional_names(n)),
        named_pattern(v, named_idents(fs)) == "Self::"@ + v + " { "@ + binding_list(named_idents(fs)) + " }"@,
        ok_expr(named_idents(fs)) == "("@ + binding_list(named_idents(fs)) + ")"@,
        named_idents(fs).len() == fs.len(),
        forall|i: int| 0 <= i < fs.len() ==> #[trigger] named_idents(fs)[i] == fs[i].name@,
{
    assert(unnamed_pattern(v, positional_names(n)) =~= "Self::"@ + v + ok_expr(positional_names(n)));
}

/// The accessor names of a variant depend on its name alone: two variants
/// with the same name get the same four names, whatever their fields, and a
/// variant without a field list gets exactly `is_*`, `try_as_*` and
/// `try_into_*`, with no `try_as_*_mut`.
pub proof fn lemma_accessor_names(t: Seq<char>, e: Seq<char>, g: Seq<char>, v: Seq<char>, w: Seq<char>)
    requires
        v == w,
    ensures
        accessor_ident("is_"@, v, ""@) == accessor_ident("is_"@, w, ""@),
        accessor_ident("try_as_"@, v, ""@) == accessor_ident("try_as_"@, w, ""@),
        accessor_ident("try_as_"@, v, "_mut"@) == accessor_ident("try_as_"@, w, "_mut"@),
        accessor_ident("try_into_"@, v, ""@) == accessor_ident("try_into_"@, w, ""@),
        unit_text(t, e, g, v) == predicate_text(accessor_ident("is_"@, v, ""@), is_doc(t, v, e), "Self::"@ + v)
            + fallible_text(
                accessor_ident("try_as_"@, v, ""@), ref_doc(t, v, e), "&self"@, "()"@, "()"@,
                no_value(), v, e, e + g, "Self::"@ + v,
            )
            + fallible_text(
                accessor_ident("try_into_"@, v, ""@), into_doc(t, v, e), "self"@, "()"@, "()"@,
                whole_value(), v, e, e + g, "Self::"@ + v,
            ),
{
}

} // verus!
