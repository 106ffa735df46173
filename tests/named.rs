use enum_as_inner::enum_try_as_inner;
use enum_as_inner::model::{EnumDef, Fields, NamedField, Variant};

fn many_variants() -> String {
    let named = |name: &str, fs: &[(&str, &str)]| Variant {
        name: name.to_string(),
        fields: Fields::Named(
            fs.iter().map(|(n, t)| NamedField { name: n.to_string(), ty: t.to_string() }).collect(),
        ),
    };
    enum_try_as_inner(&EnumDef {
        name: "ManyVariants".to_string(),
        vis: String::new(),
        generics: String::new(),
        impl_generics: String::new(),
        ty_generics: String::new(),
        where_clause: None,
        variants: vec![
            named("One", &[("one", "u32")]),
            named("Two", &[("one", "u32"), ("two", "i32")]),
            named("Three", &[("one", "bool"), ("two", "u32"), ("three", "i64")]),
        ],
        err_derives: vec!["Debug".to_string()],
    })
}

#[test]
fn test_one_named() {
    let out = many_variants();
    assert!(out.contains("pub fn is_one(&self) -> bool {\n    matches!(self, Self::One { one })\n}"));
    assert!(out.contains(
        "pub fn try_as_one(&self) -> ::core::result::Result<&u32, ManyVariantsError> {\n    match self {\n        Self::One { one } => ::core::result::Result::Ok((one)),"
    ));
    assert!(out.contains("pub fn try_as_one_mut(&mut self) -> ::core::result::Result<&mut u32, ManyVariantsError>"));
    assert!(out.contains("pub fn try_into_one(self) -> ::core::result::Result<u32, ManyVariantsError>"));
    assert!(out.contains("ManyVariantsError::new(\"One\", self.variant_name(), ::core::option::Option::None)"));
    assert!(out.contains("        Self::One { .. } => \"One\",\n"));
}

#[test]
fn test_two_named() {
    let out = many_variants();
    assert!(out.contains("matches!(self, Self::Two { one, two,  })"));
    assert!(out.contains(
        "pub fn try_as_two(&self) -> ::core::result::Result<(&u32, &i32, ), ManyVariantsError> {\n    match self {\n        Self::Two { one, two,  } => ::core::result::Result::Ok((one, two, )),"
    ));
    assert!(out.contains("pub fn try_as_two_mut(&mut self) -> ::core::result::Result<(&mut u32, &mut i32, ), ManyVariantsError>"));
    assert!(out.contains("pub fn try_into_two(self) -> ::core::result::Result<(u32, i32, ), ManyVariantsError>"));
}

#[test]
fn test_three_named() {
    let out = many_variants();
    assert!(out.contains("matches!(self, Self::Three { one, two, three,  })"));
    assert!(out.contains(
        "pub fn try_as_three(&self) -> ::core::result::Result<(&bool, &u32, &i64, ), ManyVariantsError>"
    ));
    assert!(out.contains(
        "pub fn try_as_three_mut(&mut self) -> ::core::result::Result<(&mut bool, &mut u32, &mut i64, ), ManyVariantsError>"
    ));
    assert!(out.contains(
        "pub fn try_into_three(self) -> ::core::result::Result<(bool, u32, i64, ), ManyVariantsError> {\n    match self {\n        Self::Three { one, two, three,  } => ::core::result::Result::Ok((one, two, three, )),"
    ));
}

#[test]
fn named_without_fields_is_like_unit() {
    let out = enum_try_as_inner(&EnumDef {
        name: "Braces".to_string(),
        vis: String::new(),
        generics: String::new(),
        impl_generics: String::new(),
        ty_generics: String::new(),
        where_clause: None,
        variants: vec![Variant { name: "Nothing".to_string(), fields: Fields::Named(vec![]) }],
        err_derives: vec![],
    });
    assert!(out.contains(
        "pub fn try_as_nothing(&self) -> ::core::result::Result<(), BracesError> {\n    match self {\n        Self::Nothing {  } => ::core::result::Result::Ok(()),"
    ));
    assert!(out.contains("pub fn try_into_nothing(self) -> ::core::result::Result<(), BracesError>"));
}
