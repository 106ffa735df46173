use vstd::prelude::*;
use crate::accessors::{named_fields_return, named_text, unit_fields_return, unit_text, unnamed_fields_return, unnamed_text};
use crate::error_type::{error_text, impl_err};
use crate::model::{EnumDef, Fields, Variant, texts};
use crate::naming::{error_ident, error_name};

verus! {

/// The accessors generated for variant `v` of the enum `d`.
pub open spec fn variant_tokens(d: EnumDef, v: Variant) -> Seq<char> {
    let t = d.name@;
    let e = error_ident(t);
    let g = d.ty_generics@;
    match v.fields {
        Fields::Unit => unit_text(t, e, g, v.name@),
        Fields::Unnamed(tys) => unnamed_text(t, e, g, v.name@, texts(tys@)),
        Fields::Named(fs) => named_text(t, e, g, v.name@, fs@),
    }
}

/// The accessors of the variants `vs`, in order.
pub open spec fn all_variant_tokens(d: EnumDef, vs: Seq<Variant>) -> Seq<char>
    decreases vs.len(),
{
    if vs.len() == 0 {
        Seq::empty()
    } else {
        all_variant_tokens(d, vs.drop_last()) + variant_tokens(d, vs.last())
    }
}

/// The pattern that `variant_name` uses for variant `v`, with any fields
/// ignored.
pub open spec fn wildcard_pattern(v: Variant) -> Seq<char> {
    match v.fields {
        Fields::Unit => "Self::"@ + v.name@,
        Fields::Unnamed(_) => "Self::"@ + v.name@ + "(..)"@,
        Fields::Named(_) => "Self::"@ + v.name@ + " { .. }"@,
    }
}

/// The arm of `variant_name` for variant `v`.
pub open spec fn name_arm(v: Variant) -> Seq<char> {
    "        "@ + wildcard_pattern(v) + " => \""@ + v.name@ + "\",\n"@
}

/// The arms of `variant_name` for the variants `vs`, in order.
pub open spec fn all_name_arms(vs: Seq<Variant>) -> Seq<char>
    decreases vs.len(),
{
    if vs.len() == 0 {
        Seq::empty()
    } else {
        all_name_arms(vs.drop_last()) + name_arm(vs.last())
    }
}

/// A where clause, or nothing.
pub open spec fn where_text(w: Option<String>) -> Seq<char> {
    match w {
        Some(w) => w@,
        None => ""@,
    }
}

/// The `impl` block that holds every variant's accessors and the private
/// `variant_name` helper that the errors use.
pub open spec fn impl_fns_text(d: EnumDef) -> Seq<char> {
    "impl"@ + d.impl_generics@ + " "@ + d.name@ + d.ty_generics@ + " "@ + where_text(d.where_clause)
        + " {\n"@ + all_variant_tokens(d, d.variants@)
        + "/// Returns the name of the variant.\nfn variant_name(&self) -> &'static str {\n    match self {\n"@
        + all_name_arms(d.variants@) + "        _ => unreachable!(),\n    }\n}\n}\n\n"@
}

fn variant_fns(def: &EnumDef, err_name: &str, v: &Variant) -> (r: String)
    requires
        err_name@ == error_ident(def.name@),
    ensures
        r@ == variant_tokens(*def, *v),
{
    let t = def.name.as_str();
    let g = def.ty_generics.as_str();
    let vn = v.name.as_str();
    match &v.fields {
        Fields::Unit => unit_fields_return(t, err_name, g, vn),
        Fields::Unnamed(tys) => unnamed_fields_return(t, err_name, g, vn, tys),
        Fields::Named(fs) => named_fields_return(t, err_name, g, vn, fs),
    }
}

fn name_arm_text(v: &Variant) -> (r: String)
    ensures
        r@ == name_arm(*v),
{
    let mut pattern = String::from_str("Self::");
    pattern.append(v.name.as_str());
    match &v.fields {
        Fields::Unit => {},
        Fields::Unnamed(_) => pattern.append("(..)"),
        Fields::Named(_) => pattern.append(" { .. }"),
    }
    let mut r = String::from_str("        ");
    r.append(pattern.as_str());
    r.append(" => \"");
    r.append(v.name.as_str());
    r.append("\",\n");
    r
}

/// Appends `w`, if there is one, to `out`.
pub fn append_where(out: &mut String, w: &Option<String>)
    ensures
        final(out)@ == old(out)@ + where_text(*w),
{
    match w {
        Some(w) => out.append(w.as_str()),
        None => out.append(""),
    }
}

/// The `impl` block of accessors for every variant of `def`, in declaration
/// order.
pub fn impl_all_as_fns(def: &EnumDef) -> (r: String)
    ensures
        r@ == impl_fns_text(*def),
{
    let err_name = error_name(def.name.as_str());
    let mut stream = String::new();
    let mut arms = String::new();
    let n = def.variants.len();
    for i in 0..n
        invariant
            n == def.variants@.len(),
            err_name@ == error_ident(def.name@),
            stream@ == all_variant_tokens(*def, def.variants@.take(i as int)),
            arms@ == all_name_arms(def.variants@.take(i as int)),
    {
        let v = &def.variants[i];
        let tokens = variant_fns(def, err_name.as_str(), v);
        stream.append(tokens.as_str());
        let arm = name_arm_text(v);
        arms.append(arm.as_str());
        proof {
            let next = def.variants@.take(i + 1);
            assert(next.drop_last() =~= def.variants@.take(i as int));
            assert(next.last() == def.variants@[i as int]);
        }
    }
    assert(def.variants@.take(n as int) =~= def.variants@);

    let mut r = String::from_str("impl");
    r.append(def.impl_generics.as_str());
    r.append(" ");
    r.append(def.name.as_str());
    r.append(def.ty_generics.as_str());
    r.append(" ");
    append_where(&mut r, &def.where_clause);
    r.append(" {\n");
    r.append(stream.as_str());
    r.append("/// Returns the name of the variant.\nfn variant_name(&self) -> &'static str {\n    match self {\n");
    r.append(arms.as_str());
    r.append("        _ => unreachable!(),\n    }\n}\n}\n\n");
    r
}

/// Everything generated for the enum `d`: the accessors, then the error type.
pub open spec fn generated_text(d: EnumDef) -> Seq<char> {
    impl_fns_text(d) + error_text(d)
}

/// The source of the accessors of every variant of `def` and of its error
/// type, ready to be parsed as Rust items placed next to the enum.
pub fn enum_try_as_inner(def: &EnumDef) -> (r: String)
    ensures
        r@ == generated_text(*def),
{
    let mut r = impl_all_as_fns(def);
    let err = impl_err(def);
    r.append(err.as_str());
    r
}

} // verus!
