use enum_as_inner::enum_try_as_inner;
use enum_as_inner::model::{EnumDef, Fields, Variant};

fn with_generics_def(where_clause: Option<String>) -> EnumDef {
    let one = |name: &str| Variant { name: name.to_string(), fields: Fields::Unnamed(vec!["T".to_string()]) };
    EnumDef {
        name: "WithGenerics".to_string(),
        vis: String::new(),
        generics: "<T: Clone + Copy>".to_string(),
        impl_generics: "<T: Clone + Copy>".to_string(),
        ty_generics: "<T>".to_string(),
        where_clause,
        variants: vec![one("A"), one("B")],
        err_derives: vec!["Debug".to_string()],
    }
}

#[test]
fn with_generics() {
    let out = enum_try_as_inner(&with_generics_def(None));
    assert!(out.starts_with("impl<T: Clone + Copy> WithGenerics<T>  {\n"));
    assert!(out.contains("pub fn is_a(&self) -> bool"));
    assert!(out.contains("pub fn is_b(&self) -> bool"));
    assert!(out.contains("pub fn try_as_a(&self) -> ::core::result::Result<&T, WithGenericsError<T>>"));
    assert!(out.contains("pub fn try_as_b(&self) -> ::core::result::Result<&T, WithGenericsError<T>>"));
    assert!(out.contains("pub fn try_into_a(self) -> ::core::result::Result<T, WithGenericsError<T>>"));
    assert!(out.contains("pub fn try_as_a_mut(&mut self) -> ::core::result::Result<&mut T, WithGenericsError<T>>"));
    assert!(out.contains("pub fn try_into_b(self) -> ::core::result::Result<T, WithGenericsError<T>>"));
    assert!(out.contains("pub fn try_as_b_mut(&mut self) -> ::core::result::Result<&mut T, WithGenericsError<T>>"));
    assert!(out.contains(" struct WithGenericsError<T: Clone + Copy> {"));
    assert!(out.contains("impl<T: Clone + Copy> WithGenericsError<T>  {"));
    assert!(out.contains("value: ::core::option::Option<WithGenerics<T>>) -> Self"));
    assert!(out.contains(
        "impl<T: Clone + Copy> ::core::fmt::Debug for WithGenericsError<T> where WithGenerics<T>: ::core::fmt::Debug {"
    ));
}

#[test]
fn where_clause_is_extended_for_debug() {
    let out = enum_try_as_inner(&with_generics_def(Some("where T: Default".to_string())));
    assert!(out.starts_with("impl<T: Clone + Copy> WithGenerics<T> where T: Default {\n"));
    assert!(out.contains(
        "impl<T: Clone + Copy> ::core::fmt::Debug for WithGenericsError<T> where T: Default, WithGenerics<T>: ::core::fmt::Debug {"
    ));
    assert!(out.contains("impl<T: Clone + Copy> ::core::fmt::Display for WithGenericsError<T> where T: Default {"));
}
