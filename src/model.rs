use vstd::prelude::*;

verus! {

/// A named field of a struct-like variant: its identifier and the source text
/// of its type.
pub struct NamedField {
    pub name: String,
    pub ty: String,
}

/// The fields a variant declares.
pub enum Fields {
    /// No field list at all: `V`.
    Unit,
    /// Positional fields, `V(A, B)`, given by the source text of each type.
    Unnamed(Vec<String>),
    /// Named fields, `V { a: A, b: B }`.
    Named(Vec<NamedField>),
}

/// One variant of the enum being described.
pub struct Variant {
    pub name: String,
    pub fields: Fields,
}

/// The shape of an enum declaration, as far as code generation needs it.
///
/// The generic parts are kept as source text, already split the way an
/// `impl` block uses them: `generics` is the parameter list as declared
/// (`<T: Clone>`), `impl_generics` the list after `impl`, `ty_generics` the
/// arguments after the type's name (`<T>`), and `where_clause` the clause,
/// if any, including the `where` keyword.
pub struct EnumDef {
    pub name: String,
    pub vis: String,
    pub generics: String,
    pub impl_generics: String,
    pub ty_generics: String,
    pub where_clause: Option<String>,
    pub variants: Vec<Variant>,
    /// The traits listed in the enum's `derive_err(...)` attribute, in order.
    pub err_derives: Vec<String>,
}

/// The source text of the types of a list of named fields, in order.
pub open spec fn named_types(fs: Seq<NamedField>) -> Seq<Seq<char>> {
    fs.map_values(|f: NamedField| f.ty@)
}

/// The identifiers of a list of named fields, in order.
pub open spec fn named_idents(fs: Seq<NamedField>) -> Seq<Seq<char>> {
    fs.map_values(|f: NamedField| f.name@)
}

/// The views of a list of strings.
pub open spec fn texts(v: Seq<String>) -> Seq<Seq<char>> {
    v.map_values(|s: String| s@)
}

} // verus!
