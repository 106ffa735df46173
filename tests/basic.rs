use enum_as_inner::enum_try_as_inner;
use enum_as_inner::model::{EnumDef, Fields, Variant};

fn def(name: &str, variants: Vec<Variant>, derives: &[&str]) -> EnumDef {
    EnumDef {
        name: name.to_string(),
        vis: String::new(),
        generics: String::new(),
        impl_generics: String::new(),
        ty_generics: String::new(),
        where_clause: None,
        variants,
        err_derives: derives.iter().map(|d| d.to_string()).collect(),
    }
}

fn unnamed(name: &str, tys: &[&str]) -> Variant {
    Variant { name: name.to_string(), fields: Fields::Unnamed(tys.iter().map(|t| t.to_string()).collect()) }
}

#[test]
fn test_empty() {
    let out = enum_try_as_inner(&def("EmptyTest", vec![], &["Debug"]));
    assert!(!out.contains("pub fn is_"));
    assert!(!out.contains("pub fn try_"));
    assert!(out.contains(" struct EmptyTestError {"));
    assert!(out.contains("impl ::core::fmt::Debug for EmptyTestError where EmptyTest: ::core::fmt::Debug"));
    assert!(out.contains("fn variant_name(&self) -> &'static str {\n    match self {\n        _ => unreachable!(),"));
}

#[test]
fn test_empty_parends() {
    let out = enum_try_as_inner(&def("EmptyParendsTest", vec![unnamed("Empty", &[])], &["Debug"]));
    assert!(out.contains("pub fn is_empty(&self) -> bool {\n    matches!(self, Self::Empty())\n}"));
    assert!(out.contains(
        "pub fn try_as_empty(&self) -> ::core::result::Result<(), EmptyParendsTestError> {\n    match self {\n        Self::Empty() => ::core::result::Result::Ok(()),"
    ));
    assert!(out.contains("pub fn try_as_empty_mut(&mut self) -> ::core::result::Result<(), EmptyParendsTestError>"));
    assert!(out.contains("pub fn try_into_empty(self) -> ::core::result::Result<(), EmptyParendsTestError>"));
    assert!(out.contains("        Self::Empty(..) => \"Empty\",\n"));
}

#[test]
fn test_one() {
    let out = enum_try_as_inner(&def("OneTest", vec![unnamed("One", &["u32"])], &["Debug"]));
    assert!(out.contains("pub fn is_one(&self) -> bool {\n    matches!(self, Self::One(inner))\n}"));
    assert!(out.contains(
        "pub fn try_as_one(&self) -> ::core::result::Result<&u32, OneTestError> {\n    match self {\n        Self::One(inner) => ::core::result::Result::Ok((inner)),"
    ));
    assert!(out.contains("pub fn try_as_one_mut(&mut self) -> ::core::result::Result<&mut u32, OneTestError>"));
    assert!(out.contains("pub fn try_into_one(self) -> ::core::result::Result<u32, OneTestError>"));
}

#[test]
fn test_multi() {
    let out = enum_try_as_inner(&def("MultiTest", vec![unnamed("Multi", &["u32", "u32"])], &["Debug"]));
    assert!(out.contains("matches!(self, Self::Multi(match_0, match_1, ))"));
    assert!(out.contains(
        "pub fn try_as_multi(&self) -> ::core::result::Result<(&u32, &u32, ), MultiTestError> {\n    match self {\n        Self::Multi(match_0, match_1, ) => ::core::result::Result::Ok((match_0, match_1, )),"
    ));
    assert!(out.contains("pub fn try_as_multi_mut(&mut self) -> ::core::result::Result<(&mut u32, &mut u32, ), MultiTestError>"));
    assert!(out.contains("pub fn try_into_multi(self) -> ::core::result::Result<(u32, u32, ), MultiTestError>"));
}

#[test]
fn unit_variant_has_no_mutable_accessor() {
    let out = enum_try_as_inner(&def("Light", vec![Variant { name: "Red".to_string(), fields: Fields::Unit }], &[]));
    assert!(out.contains("pub fn is_red(&self) -> bool {\n    matches!(self, Self::Red)\n}"));
    assert!(out.contains(
        "pub fn try_as_red(&self) -> ::core::result::Result<(), LightError> {\n    match self {\n        Self::Red => ::core::result::Result::Ok(()),"
    ));
    assert!(out.contains(
        "pub fn try_into_red(self) -> ::core::result::Result<(), LightError> {\n    match self {\n        Self::Red => ::core::result::Result::Ok(()),"
    ));
    assert!(!out.contains("try_as_red_mut"));
    assert!(out.contains("        Self::Red => \"Red\",\n"));
}

#[test]
fn every_accessor_doc_names_the_error_type() {
    let out = enum_try_as_inner(&def("A", vec![unnamed("B", &["u8"])], &[]));
    assert!(out.contains(
        "#[doc = \"Returns true if this is a `A::B`, otherwise false (the fallible accessors of `A::B` then fail with an `AError`)\"]\n#[inline]\n#[allow(unused_variables)]\npub fn is_b(&self)"
    ));
    assert!(out.contains(
        "#[doc = \"Returns references to the inner fields if this is a `A::B`, otherwise an `AError`\"]\n#[inline]\npub fn try_as_b(&self)"
    ));
    assert!(out.contains(
        "#[doc = \"Returns mutable references to the inner fields if this is a `A::B`, otherwise an `AError`\"]\n#[inline]\npub fn try_as_b_mut(&mut self)"
    ));
    assert!(out.contains(
        "#[doc = \"Returns the inner fields if this is a `A::B`, otherwise returns back the enum in the `Err` case of the result, inside an `AError`\"]\n#[inline]\npub fn try_into_b(self)"
    ));
}
