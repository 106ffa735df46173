use vstd::prelude::*;
use crate::model::{NamedField, named_idents, named_types, texts};
use crate::naming::{accessor_ident, accessor_name};
use crate::shape::{binding_list, field_returns, positional_bindings, positional_names, return_type, split_named};

verus! {

/// The doc comment of `is_*` for variant `v` of type `t` with error type `e`.
pub open spec fn is_doc(t: Seq<char>, v: Seq<char>, e: Seq<char>) -> Seq<char> {
    "Returns true if this is a `"@ + t + "::"@ + v + "`, otherwise false (the fallible accessors of `"@
        + t + "::"@ + v + "` then fail with an `"@ + e + "`)"@
}

/// The doc comment of `try_as_*` for variant `v` of type `t` with error type `e`.
pub open spec fn ref_doc(t: Seq<char>, v: Seq<char>, e: Seq<char>) -> Seq<char> {
    "Returns references to the inner fields if this is a `"@ + t + "::"@ + v + "`, otherwise an `"@ + e + "`"@
}

/// The doc comment of `try_as_*_mut` for variant `v` of type `t` with error type `e`.
pub open spec fn mut_doc(t: Seq<char>, v: Seq<char>, e: Seq<char>) -> Seq<char> {
    "Returns mutable references to the inner fields if this is a `"@ + t + "::"@ + v + "`, otherwise an `"@ + e + "`"@
}

/// The doc comment of `try_into_*` for variant `v` of type `t` with error type `e`.
pub open spec fn into_doc(t: Seq<char>, v: Seq<char>, e: Seq<char>) -> Seq<char> {
    "Returns the inner fields if this is a `"@ + t + "::"@ + v
        + "`, otherwise returns back the enum in the `Err` case of the result, inside an `"@ + e + "`"@
}

fn is_doc_text(t: &str, v: &str, e: &str) -> (r: String)
    ensures
        r@ == is_doc(t@, v@, e@),
{
    let mut r = String::from_str("Returns true if this is a `");
    r.append(t);
    r.append("::");
    r.append(v);
    r.append("`, otherwise false (the fallible accessors of `");
    r.append(t);
    r.append("::");
    r.append(v);
    r.append("` then fail with an `");
    r.append(e);
    r.append("`)");
    r
}

fn ref_doc_text(t: &str, v: &str, e: &str) -> (r: String)
    ensures
        r@ == ref_doc(t@, v@, e@),
{
    let mut r = String::from_str("Returns references to the inner fields if this is a `");
    r.append(t);
    r.append("::");
    r.append(v);
    r.append("`, otherwise an `");
    r.append(e);
    r.append("`");
    r
}

fn mut_doc_text(t: &str, v: &str, e: &str) -> (r: String)
    ensures
        r@ == mut_doc(t@, v@, e@),
{
    let mut r = String::from_str("Returns mutable references to the inner fields if this is a `");
    r.append(t);
    r.append("::");
    r.append(v);
    r.append("`, otherwise an `");
    r.append(e);
    r.append("`");
    r
}

fn into_doc_text(t: &str, v: &str, e: &str) -> (r: String)
    ensures
        r@ == into_doc(t@, v@, e@),
{
    let mut r = String::from_str("Returns the inner fields if this is a `");
    r.append(t);
    r.append("::");
    r.append(v);
    r.append("`, otherwise returns back the enum in the `Err` case of the result, inside an `");
    r.append(e);
    r.append("`");
    r
}

/// What a failed borrowing accessor keeps in its error: nothing.
pub open spec fn no_value() -> Seq<char> {
    "::core::option::Option::None"@
}

/// What a failed consuming accessor keeps in its error: the whole value.
pub open spec fn whole_value() -> Seq<char> {
    "::core::option::Option::Some(self)"@
}

/// The `is_*` predicate named `name`, documented by `doc`, which tests
/// `self` against `pattern`.
pub open spec fn predicate_text(name: Seq<char>, doc: Seq<char>, pattern: Seq<char>) -> Seq<char> {
    "#[doc = \""@ + doc + "\"]\n#[inline]\n#[allow(unused_variables)]\npub fn "@ + name
        + "(&self) -> bool {\n    matches!(self, "@ + pattern + ")\n}\n\n"@
}

/// A fallible accessor named `name`, documented by `doc`, taking `receiver`.
/// When `self` matches `pattern` it returns `ok_expr` of type `ok_ty`;
/// otherwise an `err_name` error that names `variant` as expected, the
/// variant present as actual, and holds `carried`.
pub open spec fn fallible_text(
    name: Seq<char>,
    doc: Seq<char>,
    receiver: Seq<char>,
    ok_ty: Seq<char>,
    ok_expr: Seq<char>,
    carried: Seq<char>,
    variant: Seq<char>,
    err_name: Seq<char>,
    err_ty: Seq<char>,
    pattern: Seq<char>,
) -> Seq<char> {
    "#[doc = \""@ + doc + "\"]\n#[inline]\npub fn "@ + name + "("@ + receiver
        + ") -> ::core::result::Result<"@ + ok_ty + ", "@ + err_ty
        + "> {\n    match self {\n        "@ + pattern
        + " => ::core::result::Result::Ok("@ + ok_expr
        + "),\n        _ => ::core::result::Result::Err("@ + err_name + "::new(\""@ + variant
        + "\", self.variant_name(), "@ + carried + ")),\n    }\n}\n\n"@
}

/// The `is_*` predicate named `name`: see `predicate_text`.
pub fn predicate_fn(name: &str, doc: &str, pattern: &str) -> (r: String)
    ensures
        r@ == predicate_text(name@, doc@, pattern@),
{
    let mut r = String::from_str("#[doc = \"");
    r.append(doc);
    r.append("\"]\n#[inline]\n#[allow(unused_variables)]\npub fn ");
    r.append(name);
    r.append("(&self) -> bool {\n    matches!(self, ");
    r.append(pattern);
    r.append(")\n}\n\n");
    r
}

/// The context shared by the fallible accessors of one variant.
pub struct Mismatch<'a> {
    /// The variant the accessors expect.
    pub variant: &'a str,
    /// The name of the error type.
    pub err_name: &'a str,
    /// The error type with its type arguments.
    pub err_ty: &'a str,
    /// The pattern of the expected variant.
    pub pattern: &'a str,
}

/// A fallible accessor named `name`: see `fallible_text`.
pub fn fallible_fn(
    name: &str,
    doc: &str,
    receiver: &str,
    ok_ty: &str,
    ok_expr: &str,
    carried: &str,
    m: &Mismatch,
) -> (r: String)
    ensures
        r@ == fallible_text(
            name@, doc@, receiver@, ok_ty@, ok_expr@, carried@,
            m.variant@, m.err_name@, m.err_ty@, m.pattern@,
        ),
{
    let mut r = String::from_str("#[doc = \"");
    r.append(doc);
    r.append("\"]\n#[inline]\npub fn ");
    r.append(name);
    r.append("(");
    r.append(receiver);
    r.append(") -> ::core::result::Result<");
    r.append(ok_ty);
    r.append(", ");
    r.append(m.err_ty);
    r.append("> {\n    match self {\n        ");
    r.append(m.pattern);
    r.append(" => ::core::result::Result::Ok(");
    r.append(ok_expr);
    r.append("),\n        _ => ::core::result::Result::Err(");
    r.append(m.err_name);
    r.append("::new(\"");
    r.append(m.variant);
    r.append("\", self.variant_name(), ");
    r.append(carried);
    r.append(")),\n    }\n}\n\n");
    r
}

/// The accessors of a variant `v` without a field list, on type `t` with
/// error type `e` and type arguments `g`: `is_*`, `try_as_*` giving `()`
/// and `try_into_*` giving `()`.
pub open spec fn unit_text(t: Seq<char>, e: Seq<char>, g: Seq<char>, v: Seq<char>) -> Seq<char> {
    let p = "Self::"@ + v;
    predicate_text(accessor_ident("is_"@, v, ""@), is_doc(t, v, e), p)
        + fallible_text(
            accessor_ident("try_as_"@, v, ""@), ref_doc(t, v, e), "&self"@, "()"@, "()"@,
            no_value(), v, e, e + g, p,
        )
        + fallible_text(
            accessor_ident("try_into_"@, v, ""@), into_doc(t, v, e), "self"@, "()"@, "()"@,
            whole_value(), v, e, e + g, p,
        )
}

/// The value a successful accessor builds from the bindings `names` of the
/// variant's pattern.
pub open spec fn ok_expr(names: Seq<Seq<char>>) -> Seq<char> {
    "("@ + binding_list(names) + ")"@
}

/// The accessors of a variant `v` with a field list whose types are `tys`
/// and whose bindings in `pattern` are `names`: `is_*`, then `try_as_*_mut`,
/// `try_as_*` and `try_into_*`, which give the fields by mutable reference,
/// by reference and by value.
pub open spec fn fields_text(
    t: Seq<char>,
    e: Seq<char>,
    g: Seq<char>,
    v: Seq<char>,
    pattern: Seq<char>,
    tys: Seq<Seq<char>>,
    names: Seq<Seq<char>>,
) -> Seq<char> {
    let ok = ok_expr(names);
    predicate_text(accessor_ident("is_"@, v, ""@), is_doc(t, v, e), pattern)
        + fallible_text(
            accessor_ident("try_as_"@, v, "_mut"@), mut_doc(t, v, e), "&mut self"@,
            return_type(tys, "&mut "@), ok, no_value(), v, e, e + g, pattern,
        )
        + fallible_text(
            accessor_ident("try_as_"@, v, ""@), ref_doc(t, v, e), "&self"@,
            return_type(tys, "&"@), ok, no_value(), v, e, e + g, pattern,
        )
        + fallible_text(
            accessor_ident("try_into_"@, v, ""@), into_doc(t, v, e), "self"@,
            return_type(tys, ""@), ok, whole_value(), v, e, e + g, pattern,
        )
}

/// The pattern of variant `v` with positional bindings `names`.
pub open spec fn unnamed_pattern(v: Seq<char>, names: Seq<Seq<char>>) -> Seq<char> {
    "Self::"@ + v + "("@ + binding_list(names) + ")"@
}

/// The pattern of variant `v` with named bindings `names`.
pub open spec fn named_pattern(v: Seq<char>, names: Seq<Seq<char>>) -> Seq<char> {
    "Self::"@ + v + " { "@ + binding_list(names) + " }"@
}

/// The accessors of a variant `v` with positional fields of types `tys`.
pub open spec fn unnamed_text(t: Seq<char>, e: Seq<char>, g: Seq<char>, v: Seq<char>, tys: Seq<Seq<char>>) -> Seq<char> {
    let names = positional_names(tys.len());
    fields_text(t, e, g, v, unnamed_pattern(v, names), tys, names)
}

/// The accessors of a variant `v` with the named fields `fs`.
pub open spec fn named_text(t: Seq<char>, e: Seq<char>, g: Seq<char>, v: Seq<char>, fs: Seq<NamedField>) -> Seq<char> {
    let names = named_idents(fs);
    fields_text(t, e, g, v, named_pattern(v, names), named_types(fs), names)
}

fn concat(a: &str, b: &str) -> (r: String)
    ensures
        r@ == a@ + b@,
{
    let mut r = String::from_str(a);
    r.append(b);
    r
}

/// The accessors of a variant without a field list.
pub fn unit_fields_return(enum_name: &str, err_name: &str, ty_generics: &str, variant: &str) -> (r: String)
    ensures
        r@ == unit_text(enum_name@, err_name@, ty_generics@, variant@),
{
    let pattern = concat("Self::", variant);
    let err_ty = concat(err_name, ty_generics);
    let m = Mismatch {
        variant,
        err_name,
        err_ty: err_ty.as_str(),
        pattern: pattern.as_str(),
    };
    let is_name = accessor_name("is_", variant, "");
    let is_doc = is_doc_text(enum_name, variant, err_name);
    let mut r = predicate_fn(is_name.as_str(), is_doc.as_str(), pattern.as_str());

    let ref_name = accessor_name("try_as_", variant, "");
    let ref_doc = ref_doc_text(enum_name, variant, err_name);
    let f = fallible_fn(ref_name.as_str(), ref_doc.as_str(), "&self", "()", "()", "::core::option::Option::None", &m);
    r.append(f.as_str());

    let into_name = accessor_name("try_into_", variant, "");
    let into_doc = into_doc_text(enum_name, variant, err_name);
    let f = fallible_fn(into_name.as_str(), into_doc.as_str(), "self", "()", "()", "::core::option::Option::Some(self)", &m);
    r.append(f.as_str());
    r
}

fn fields_fns(
    enum_name: &str,
    err_name: &str,
    ty_generics: &str,
    variant: &str,
    pattern: &str,
    tys: &Vec<String>,
    names: &Vec<String>,
) -> (r: String)
    requires
        tys.len() == names.len(),
    ensures
        r@ == fields_text(enum_name@, err_name@, ty_generics@, variant@, pattern@, texts(tys@), texts(names@)),
{
    let parts = field_returns(tys, names);
    let mut ok = String::from_str("(");
    ok.append(parts.bindings.as_str());
    ok.append(")");
    let err_ty = concat(err_name, ty_generics);
    let m = Mismatch { variant, err_name, err_ty: err_ty.as_str(), pattern };

    let is_name = accessor_name("is_", variant, "");
    let is_doc = is_doc_text(enum_name, variant, err_name);
    let mut r = predicate_fn(is_name.as_str(), is_doc.as_str(), pattern);

    let mut_name = accessor_name("try_as_", variant, "_mut");
    let mut_doc = mut_doc_text(enum_name, variant, err_name);
    let f = fallible_fn(
        mut_name.as_str(), mut_doc.as_str(), "&mut self", parts.mut_ref.as_str(), ok.as_str(),
        "::core::option::Option::None", &m,
    );
    r.append(f.as_str());

    let ref_name = accessor_name("try_as_", variant, "");
    let ref_doc = ref_doc_text(enum_name, variant, err_name);
    let f = fallible_fn(
        ref_name.as_str(), ref_doc.as_str(), "&self", parts.by_ref.as_str(), ok.as_str(),
        "::core::option::Option::None", &m,
    );
    r.append(f.as_str());

    let into_name = accessor_name("try_into_", variant, "");
    let into_doc = into_doc_text(enum_name, variant, err_name);
    let f = fallible_fn(
        into_name.as_str(), into_doc.as_str(), "self", parts.by_val.as_str(), ok.as_str(),
        "::core::option::Option::Some(self)", &m,
    );
    r.append(f.as_str());
    r
}

/// The accessors of a variant with positional fields of types `tys`.
pub fn unnamed_fields_return(
    enum_name: &str,
    err_name: &str,
    ty_generics: &str,
    variant: &str,
    tys: &Vec<String>,
) -> (r: String)
    ensures
        r@ == unnamed_text(enum_name@, err_name@, ty_generics@, variant@, texts(tys@)),
{
    let names = positional_bindings(tys.len());
    let parts = field_returns(tys, &names);
    let mut pattern = String::from_str("Self::");
    pattern.append(variant);
    pattern.append("(");
    pattern.append(parts.bindings.as_str());
    pattern.append(")");
    fields_fns(enum_name, err_name, ty_generics, variant, pattern.as_str(), tys, &names)
}

/// The accessors of a variant with the named fields `fields`.
pub fn named_fields_return(
    enum_name: &str,
    err_name: &str,
    ty_generics: &str,
    variant: &str,
    fields: &Vec<NamedField>,
) -> (r: String)
    ensures
        r@ == named_text(enum_name@, err_name@, ty_generics@, variant@, fields@),
{
    let (names, tys) = split_named(fields);
    let parts = field_returns(&tys, &names);
    let mut pattern = String::from_str("Self::");
    pattern.append(variant);
    pattern.append(" { ");
    pattern.append(parts.bindings.as_str());
    pattern.append(" }");
    fields_fns(enum_name, err_name, ty_generics, variant, pattern.as_str(), &tys, &names)
}

} // verus!
