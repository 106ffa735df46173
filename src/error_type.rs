use vstd::prelude::*;
use crate::generate::{append_where, where_text};
use crate::model::{EnumDef, texts};
use crate::naming::{error_ident, error_name};
use crate::text::{append_each, join_each};

verus! {

/// Whether `Debug` is among the traits requested for the error type.
pub open spec fn lists_debug(ds: Seq<Seq<char>>) -> bool
    decreases ds.len(),
{
    if ds.len() == 0 {
        false
    } else {
        lists_debug(ds.drop_last()) || ds.last() == "Debug"@
    }
}

/// The requested traits other than `Debug`, in order: those the error type
/// derives. `Debug` itself is written by hand, along with `Display` and
/// `Error`.
pub open spec fn plain_derives(ds: Seq<Seq<char>>) -> Seq<Seq<char>>
    decreases ds.len(),
{
    if ds.len() == 0 {
        Seq::empty()
    } else if ds.last() == "Debug"@ {
        plain_derives(ds.drop_last())
    } else {
        plain_derives(ds.drop_last()).push(ds.last())
    }
}

/// The `derive` attribute of the error type, absent when nothing is derived.
pub open spec fn derive_attr(ds: Seq<Seq<char>>) -> Seq<char> {
    if ds.len() == 0 {
        ""@
    } else {
        "#[derive("@ + join_each(ds, ""@, ", "@) + ")]\n"@
    }
}

/// The declaration of the error type of enum `d`, named `e`.
pub open spec fn error_struct_text(d: EnumDef, e: Seq<char>, derives: Seq<char>) -> Seq<char> {
    "#[doc = \"An error type for the `"@ + d.name@ + "::try_as_*` functions\"]\n"@ + derives + d.vis@
        + " struct "@ + e + d.generics@
        + " {\n    expected: &'static str,\n    actual: &'static str,\n    value: ::core::option::Option<"@
        + d.name@ + d.ty_generics@ + ">,\n}\n\n"@
}

/// The inherent methods of the error type of enum `d`, named `e`.
pub open spec fn error_methods_text(d: EnumDef, e: Seq<char>) -> Seq<char> {
    "impl"@ + d.impl_generics@ + " "@ + e + d.ty_generics@ + " "@ + where_text(d.where_clause)
        + " {\n/// Creates a new error indicating the expected variant and the actual variant.\nfn new(expected: &'static str, actual: &'static str, value: ::core::option::Option<"@
        + d.name@ + d.ty_generics@
        + ">) -> Self {\n    Self { expected, actual, value }\n}\n\n/// Returns the name of the variant that was expected.\npub fn expected(&self) -> &'static str {\n    self.expected\n}\n\n/// Returns the name of the actual variant.\npub fn actual(&self) -> &'static str {\n    self.actual\n}\n\n/// Returns a reference to the actual value, if present.\npub fn value(&self) -> ::core::option::Option<&"@
        + d.name@ + d.ty_generics@
        + "> {\n    self.value.as_ref()\n}\n\n/// Returns the actual value, if present.\npub fn into_value(self) -> ::core::option::Option<"@
        + d.name@ + d.ty_generics@ + "> {\n    self.value\n}\n}\n\n"@
}

/// The where clause of the error type's `Debug` and `Error` impls: the enum's
/// own clause, extended by a `Debug` bound on the enum.
pub open spec fn debug_bound(d: EnumDef) -> Seq<char> {
    match d.where_clause {
        Some(w) => w@ + ", "@ + d.name@ + d.ty_generics@ + ": ::core::fmt::Debug"@,
        None => "where "@ + d.name@ + d.ty_generics@ + ": ::core::fmt::Debug"@,
    }
}

/// The `Debug`, `Display` and `Error` impls of the error type of enum `d`,
/// named `e`.
pub open spec fn error_traits_text(d: EnumDef, e: Seq<char>) -> Seq<char> {
    "impl"@ + d.impl_generics@ + " ::core::fmt::Debug for "@ + e + d.ty_generics@ + " "@ + debug_bound(d)
        + " {\nfn fmt(&self, f: &mut ::core::fmt::Formatter) -> ::core::fmt::Result {\n    f.debug_struct(\""@
        + e
        + "\")\n        .field(\"expected\", &self.expected)\n        .field(\"actual\", &self.actual)\n        .field(\"value\", &self.value)\n        .finish()\n}\n}\n\n"@
        + "impl"@ + d.impl_generics@ + " ::core::fmt::Display for "@ + e + d.ty_generics@ + " "@
        + where_text(d.where_clause)
        + " {\nfn fmt(&self, formatter: &mut ::core::fmt::Formatter) -> ::core::fmt::Result {\n    write!(formatter, \"expected "@
        + d.name@ + "::{}, but got "@ + d.name@
        + "::{}\", self.expected(), self.actual())\n}\n}\n\n"@
        + "impl"@ + d.impl_generics@ + " ::std::error::Error for "@ + e + d.ty_generics@ + " "@
        + debug_bound(d) + " {}\n\n"@
}

/// Everything generated for the error type of enum `d`: its declaration, its
/// methods and, when `Debug` was requested, its formatting and `Error` impls.
pub open spec fn error_text(d: EnumDef) -> Seq<char> {
    let e = error_ident(d.name@);
    let ds = texts(d.err_derives@);
    let decl = error_struct_text(d, e, derive_attr(plain_derives(ds))) + error_methods_text(d, e);
    if lists_debug(ds) {
        decl + error_traits_text(d, e)
    } else {
        decl
    }
}

/// Splits the requested traits: whether `Debug` is among them, and the others
/// in order.
pub fn split_derives(ds: &Vec<String>) -> (r: (bool, Vec<String>))
    ensures
        r.0 == lists_debug(texts(ds@)),
        texts(r.1@) == plain_derives(texts(ds@)),
{
    let debug = String::from_str("Debug");
    let mut derive_debug = false;
    let mut others: Vec<String> = Vec::new();
    let n = ds.len();
    for i in 0..n
        invariant
            n == ds@.len(),
            debug@ == "Debug"@,
            derive_debug == lists_debug(texts(ds@.take(i as int))),
            texts(others@) =~= plain_derives(texts(ds@.take(i as int))),
    {
        proof {
            let next = texts(ds@.take(i + 1));
            assert(next.drop_last() =~= texts(ds@.take(i as int)));
            assert(next.last() == ds@[i as int]@);
        }
        if ds[i] == debug {
            derive_debug = true;
        } else {
            let d = ds[i].clone();
            assert(texts(others@.push(d)) =~= texts(others@).push(d@));
            others.push(d);
        }
    }
    assert(ds@.take(n as int) =~= ds@);
    (derive_debug, others)
}

fn derive_attr_text(ds: &Vec<String>) -> (r: String)
    ensures
        r@ == derive_attr(texts(ds@)),
{
    if ds.len() == 0 {
        String::from_str("")
    } else {
        let mut r = String::from_str("#[derive(");
        append_each(&mut r, ds, "", ", ");
        r.append(")]\n");
        r
    }
}

fn error_struct(def: &EnumDef, e: &str, derives: &str) -> (r: String)
    ensures
        r@ == error_struct_text(*def, e@, derives@),
{
    let mut r = String::from_str("#[doc = \"An error type for the `");
    r.append(def.name.as_str());
    r.append("::try_as_*` functions\"]\n");
    r.append(derives);
    r.append(def.vis.as_str());
    r.append(" struct ");
    r.append(e);
    r.append(def.generics.as_str());
    r.append(" {\n    expected: &'static str,\n    actual: &'static str,\n    value: ::core::option::Option<");
    r.append(def.name.as_str());
    r.append(def.ty_generics.as_str());
    r.append(">,\n}\n\n");
    r
}

fn error_methods(def: &EnumDef, e: &str) -> (r: String)
    ensures
        r@ == error_methods_text(*def, e@),
{
    let t = def.name.as_str();
    let g = def.ty_generics.as_str();
    let mut r = String::from_str("impl");
    r.append(def.impl_generics.as_str());
    r.append(" ");
    r.append(e);
    r.append(g);
    r.append(" ");
    append_where(&mut r, &def.where_clause);
    r.append(" {\n/// Creates a new error indicating the expected variant and the actual variant.\nfn new(expected: &'static str, actual: &'static str, value: ::core::option::Option<");
    r.append(t);
    r.append(g);
    r.append(">) -> Self {\n    Self { expected, actual, value }\n}\n\n/// Returns the name of the variant that was expected.\npub fn expected(&self) -> &'static str {\n    self.expected\n}\n\n/// Returns the name of the actual variant.\npub fn actual(&self) -> &'static str {\n    self.actual\n}\n\n/// Returns a reference to the actual value, if present.\npub fn value(&self) -> ::core::option::Option<&");
    r.append(t);
    r.append(g);
    r.append("> {\n    self.value.as_ref()\n}\n\n/// Returns the actual value, if present.\npub fn into_value(self) -> ::core::option::Option<");
    r.append(t);
    r.append(g);
    r.append("> {\n    self.value\n}\n}\n\n");
    r
}

fn append_debug_bound(out: &mut String, def: &EnumDef)
    ensures
        final(out)@ == old(out)@ + debug_bound(*def),
{
    let ghost start = out@;
    match &def.where_clause {
        Some(w) => {
            out.append(w.as_str());
            out.append(", ");
        },
        None => out.append("where "),
    }
    out.append(def.name.as_str());
    out.append(def.ty_generics.as_str());
    out.append(": ::core::fmt::Debug");
    assert(out@ =~= start + debug_bound(*def));
}

fn error_traits(def: &EnumDef, e: &str) -> (r: String)
    ensures
        r@ == error_traits_text(*def, e@),
{
    let t = def.name.as_str();
    let ig = def.impl_generics.as_str();
    let g = def.ty_generics.as_str();
    let mut r = String::from_str("impl");
    r.append(ig);
    r.append(" ::core::fmt::Debug for ");
    r.append(e);
    r.append(g);
    r.append(" ");
    append_debug_bound(&mut r, def);
    r.append(" {\nfn fmt(&self, f: &mut ::core::fmt::Formatter) -> ::core::fmt::Result {\n    f.debug_struct(\"");
    r.append(e);
    r.append("\")\n        .field(\"expected\", &self.expected)\n        .field(\"actual\", &self.actual)\n        .field(\"value\", &self.value)\n        .finish()\n}\n}\n\n");
    r.append("impl");
    r.append(ig);
    r.append(" ::core::fmt::Display for ");
    r.append(e);
    r.append(g);
    r.append(" ");
    append_where(&mut r, &def.where_clause);
    r.append(" {\nfn fmt(&self, formatter: &mut ::core::fmt::Formatter) -> ::core::fmt::Result {\n    write!(formatter, \"expected ");
    r.append(t);
    r.append("::{}, but got ");
    r.append(t);
    r.append("::{}\", self.expected(), self.actual())\n}\n}\n\n");
    r.append("impl");
    r.append(ig);
    r.append(" ::std::error::Error for ");
    r.append(e);
    r.append(g);
    r.append(" ");
    append_debug_bound(&mut r, def);
    r.append(" {}\n\n");
    r
}

/// The error type of `def` and its impls.
pub fn impl_err(def: &EnumDef) -> (r: String)
    ensures
        r@ == error_text(*def),
{
    let e = error_name(def.name.as_str());
    let (derive_debug, others) = split_derives(&def.err_derives);
    let derives = derive_attr_text(&others);
    let mut r = error_struct(def, e.as_str(), derives.as_str());
    let methods = error_methods(def, e.as_str());
    r.append(methods.as_str());
    if derive_debug {
        let traits = error_traits(def, e.as_str());
        r.append(traits.as_str());
    }
    r
}

} // verus!
