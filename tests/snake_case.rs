use enum_as_inner::enum_try_as_inner;
use enum_as_inner::model::{EnumDef, Fields, NamedField, Variant};
use enum_as_inner::naming::accessor_name;

fn mixed_case() -> String {
    enum_try_as_inner(&EnumDef {
        name: "MixedCaseVariants".to_string(),
        vis: String::new(),
        generics: String::new(),
        impl_generics: String::new(),
        ty_generics: String::new(),
        where_clause: None,
        variants: vec![
            Variant { name: "XMLIsNotCool".to_string(), fields: Fields::Unit },
            Variant { name: "Rust_IsCoolThough".to_string(), fields: Fields::Unnamed(vec!["u32".to_string()]) },
            Variant {
                name: "YMCA".to_string(),
                fields: Fields::Named(vec![NamedField { name: "named".to_string(), ty: "i16".to_string() }]),
            },
        ],
        err_derives: vec!["Debug".to_string()],
    })
}

#[test]
fn test_xml_unit() {
    let out = mixed_case();
    assert!(out.contains("pub fn is_xml_is_not_cool(&self) -> bool {\n    matches!(self, Self::XMLIsNotCool)\n}"));
    assert!(out.contains("pub fn try_as_xml_is_not_cool(&self)"));
    assert!(out.contains("pub fn try_into_xml_is_not_cool(self)"));
    assert!(out.contains("MixedCaseVariantsError::new(\"XMLIsNotCool\", self.variant_name(), "));
}

#[test]
fn test_rust_unnamed() {
    let out = mixed_case();
    assert!(out.contains("pub fn is_rust_is_cool_though(&self) -> bool"));
    assert!(out.contains("pub fn try_as_rust_is_cool_though(&self) -> ::core::result::Result<&u32, MixedCaseVariantsError>"));
    assert!(out.contains("pub fn try_as_rust_is_cool_though_mut(&mut self)"));
    assert!(out.contains("pub fn try_into_rust_is_cool_though(self) -> ::core::result::Result<u32, MixedCaseVariantsError>"));
    assert!(out.contains("        Self::Rust_IsCoolThough(..) => \"Rust_IsCoolThough\",\n"));
}

#[test]
fn test_ymca_named() {
    let out = mixed_case();
    assert!(out.contains("pub fn is_ymca(&self) -> bool {\n    matches!(self, Self::YMCA { named })\n}"));
    assert!(out.contains("pub fn try_as_ymca(&self) -> ::core::result::Result<&i16, MixedCaseVariantsError>"));
    assert!(out.contains("pub fn try_as_ymca_mut(&mut self) -> ::core::result::Result<&mut i16, MixedCaseVariantsError>"));
    assert!(out.contains("pub fn try_into_ymca(self) -> ::core::result::Result<i16, MixedCaseVariantsError>"));
}

#[test]
fn converted_names_do_not_collide() {
    let a = accessor_name("is_", "XMLIsNotCool", "");
    let b = accessor_name("is_", "Rust_IsCoolThough", "");
    assert_eq!(a, "is_xml_is_not_cool");
    assert_eq!(b, "is_rust_is_cool_though");
    assert_ne!(a, b);
    assert_eq!(accessor_name("try_as_", "Rust_IsCoolThough", ""), "try_as_rust_is_cool_though");
    assert_eq!(accessor_name("try_as_", "YMCA", "_mut"), "try_as_ymca_mut");
    // Converting again gives the same name.
    assert_eq!(accessor_name("is_", "XMLIsNotCool", ""), a);
}
