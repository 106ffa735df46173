use vstd::prelude::*;
use crate::model::{NamedField, named_idents, named_types, texts};
use crate::text::{append_decimal, append_each, decimal, join_each};

verus! {

/// How many fields a variant carries, as far as the generated signatures
/// care: none, exactly one (returned bare), or several (returned as a tuple).
pub enum Arity {
    Zero,
    One,
    Many,
}

/// The category of a field count `n`.
pub open spec fn arity_of(n: nat) -> Arity {
    if n == 0 {
        Arity::Zero
    } else if n == 1 {
        Arity::One
    } else {
        Arity::Many
    }
}

/// The category of a field count.
pub fn arity(n: usize) -> (r: Arity)
    ensures
        r == arity_of(n as nat),
{
    if n == 0 {
        Arity::Zero
    } else if n == 1 {
        Arity::One
    } else {
        Arity::Many
    }
}

/// The type an accessor returns for fields of types `tys`, each written
/// after `pre` (`&`, `&mut ` or nothing): `()` for no field, the single type
/// for one field, and a tuple in declaration order otherwise.
pub open spec fn return_type(tys: Seq<Seq<char>>, pre: Seq<char>) -> Seq<char> {
    match arity_of(tys.len()) {
        Arity::Zero => "()"@,
        Arity::One => pre + tys[0],
        Arity::Many => "("@ + join_each(tys, pre, ", "@) + ")"@,
    }
}

/// The bindings of a pattern, and of the value built from them: the single
/// name for one field, and the names separated by commas otherwise.
pub open spec fn binding_list(names: Seq<Seq<char>>) -> Seq<char> {
    match arity_of(names.len()) {
        Arity::Zero => Seq::empty(),
        Arity::One => names[0],
        Arity::Many => join_each(names, ""@, ", "@),
    }
}

/// The parts of the accessor signatures and patterns that depend on a
/// variant's fields.
pub struct FieldReturns {
    /// What `try_as_*_mut` returns on success.
    pub mut_ref: String,
    /// What `try_as_*` returns on success.
    pub by_ref: String,
    /// What `try_into_*` returns on success.
    pub by_val: String,
    /// The bindings of the variant's pattern.
    pub bindings: String,
}

/// Whether `r` holds the return types for fields of types `tys` and the
/// bindings `names`.
pub open spec fn returns_match(r: FieldReturns, tys: Seq<Seq<char>>, names: Seq<Seq<char>>) -> bool {
    &&& r.mut_ref@ == return_type(tys, "&mut "@)
    &&& r.by_ref@ == return_type(tys, "&"@)
    &&& r.by_val@ == return_type(tys, ""@)
    &&& r.bindings@ == binding_list(names)
}

fn append_return_type(out: &mut String, tys: &Vec<String>, pre: &str)
    ensures
        final(out)@ == old(out)@ + return_type(texts(tys@), pre@),
{
    let ghost start = out@;
    match arity(tys.len()) {
        Arity::Zero => out.append("()"),
        Arity::One => {
            out.append(pre);
            out.append(tys[0].as_str());
        },
        Arity::Many => {
            out.append("(");
            append_each(out, tys, pre, ", ");
            out.append(")");
        },
    }
    assert(out@ =~= start + return_type(texts(tys@), pre@));
}

/// The return types and pattern bindings for fields of types `tys` bound to
/// the names `names`.
pub fn field_returns(tys: &Vec<String>, names: &Vec<String>) -> (r: FieldReturns)
    requires
        tys.len() == names.len(),
    ensures
        returns_match(r, texts(tys@), texts(names@)),
{
    let mut mut_ref = String::new();
    append_return_type(&mut mut_ref, tys, "&mut ");
    let mut by_ref = String::new();
    append_return_type(&mut by_ref, tys, "&");
    let mut by_val = String::new();
    append_return_type(&mut by_val, tys, "");
    let mut bindings = String::new();
    match arity(names.len()) {
        Arity::Zero => {},
        Arity::One => bindings.append(names[0].as_str()),
        Arity::Many => append_each(&mut bindings, names, "", ", "),
    }
    assert(bindings@ =~= binding_list(texts(names@)));
    FieldReturns { mut_ref, by_ref, by_val, bindings }
}

/// The name bound to positional field `i` of a variant with several fields.
pub open spec fn positional_name(i: nat) -> Seq<char> {
    "match_"@ + decimal(i)
}

/// The names bound to the `n` positional fields of a variant: `inner` for a
/// single field, `match_0`, `match_1`, ... otherwise.
pub open spec fn positional_names(n: nat) -> Seq<Seq<char>> {
    if n == 1 {
        seq!["inner"@]
    } else {
        Seq::new(n, |i: int| positional_name(i as nat))
    }
}

/// Builds the names bound to `n` positional fields.
pub fn positional_bindings(n: usize) -> (r: Vec<String>)
    ensures
        r@.len() == n,
        texts(r@) == positional_names(n as nat),
{
    let mut r: Vec<String> = Vec::new();
    if n == 1 {
        r.push(String::from_str("inner"));
        assert(texts(r@) =~= positional_names(1));
        return r;
    }
    for i in 0..n
        invariant
            n != 1,
            r@.len() == i,
            texts(r@) =~= Seq::new(i as nat, |j: int| positional_name(j as nat)),
    {
        let mut name = String::from_str("match_");
        append_decimal(&mut name, i);
        proof {
            lemma_texts_push(r@, name);
        }
        r.push(name);
    }
    r
}

proof fn lemma_texts_push(s: Seq<String>, x: String)
    ensures
        texts(s.push(x)) =~= texts(s).push(x@),
{
}

/// The identifiers and the types of a list of named fields, in order.
pub fn split_named(fields: &Vec<NamedField>) -> (r: (Vec<String>, Vec<String>))
    ensures
        texts(r.0@) == named_idents(fields@),
        texts(r.1@) == named_types(fields@),
{
    let mut idents: Vec<String> = Vec::new();
    let mut tys: Vec<String> = Vec::new();
    for i in 0..fields.len()
        invariant
            texts(idents@) =~= named_idents(fields@.take(i as int)),
            texts(tys@) =~= named_types(fields@.take(i as int)),
    {
        let ident = fields[i].name.clone();
        let ty = fields[i].ty.clone();
        proof {
            lemma_texts_push(idents@, ident);
            lemma_texts_push(tys@, ty);
            let prev = fields@.take(i as int);
            let next = fields@.take(i + 1);
            assert(next =~= prev.push(fields@[i as int]));
            assert(named_idents(next) =~= named_idents(prev).push(ident@));
            assert(named_types(next) =~= named_types(prev).push(ty@));
        }
        idents.push(ident);
        tys.push(ty);
    }
    assert(fields@.take(fields@.len() as int) =~= fields@);
    (idents, tys)
}

} // verus!
