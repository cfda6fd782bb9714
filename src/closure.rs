use vstd::prelude::*;

use crate::abi::{AbiError, AbiModel, Field, FunctionDecl, TokenizedAbi, Variant};
use crate::category::{category_of, classify, generic_arity, generic_arity_exec};
use crate::text::{
    arg_count, arg_count_exec, is_delim, is_delim_exec, is_seg_start, lemma_seg_end, lemma_seg_run,
    path_at, path_slice, seg_end, seg_end_exec,
};
use crate::tokenize::{find_enum, find_struct, has_enum, has_struct};

verus! {

/// A path that the model can resolve: catalogued, or a declared struct or enum.
pub open spec fn resolved(p: Seq<char>, m: AbiModel) -> bool {
    category_of(p) is Some || has_struct(m.structs, p) || has_enum(m.enums, p)
}

/// A parametrized built-in at `i` is followed by exactly as many type
/// arguments as it takes.
pub open spec fn arity_ok(s: Seq<char>, i: int) -> bool {
    match generic_arity(path_at(s, i)) {
        Some(n) => seg_end(s, i) < s.len() && s[seg_end(s, i)] == '<' && arg_count(s, seg_end(s, i) + 1, 0, 0)
            == Some(n),
        None => true,
    }
}

/// Every path in a type reference, at any depth, resolves, and every
/// parametrized built-in in it has its number of arguments.
pub open spec fn type_closed(s: Seq<char>, m: AbiModel) -> bool {
    forall|i: int| #[trigger] is_seg_start(s, i) ==> resolved(path_at(s, i), m) && arity_ok(s, i)
}

pub open spec fn fields_closed(fs: Seq<Field>, m: AbiModel) -> bool {
    forall|k: int| 0 <= k < fs.len() ==> type_closed(#[trigger] fs[k].ty@, m)
}

pub open spec fn variants_closed(vs: Seq<Variant>, m: AbiModel) -> bool {
    forall|k: int|
        0 <= k < vs.len() && #[trigger] vs[k].ty is Some ==> type_closed(vs[k].ty->0@, m)
}

pub open spec fn function_closed(f: FunctionDecl, m: AbiModel) -> bool {
    fields_closed(f.inputs@, m) && forall|k: int|
        0 <= k < f.outputs@.len() ==> type_closed(#[trigger] f.outputs@[k]@, m)
}

pub open spec fn functions_closed(fs: Seq<FunctionDecl>, m: AbiModel) -> bool {
    forall|k: int| 0 <= k < fs.len() ==> function_closed(#[trigger] fs[k], m)
}

/// The closure of a model: every type that a struct field, an enum variant
/// or a function signature names resolves within the model.
pub open spec fn model_closed(m: AbiModel) -> bool {
    &&& forall|k: int| 0 <= k < m.structs.len() ==> fields_closed(#[trigger] m.structs[k].fields@, m)
    &&& forall|k: int| 0 <= k < m.enums.len() ==> variants_closed(#[trigger] m.enums[k].variants@, m)
    &&& functions_closed(m.functions, m)
    &&& forall|k: int| 0 <= k < m.interfaces.len() ==> functions_closed(#[trigger] m.interfaces[k].1, m)
}

/// The path that a failed check of a type reference reports: one that does
/// not resolve, or a parametrized built-in with a wrong argument list.
pub open spec fn path_fault(e: AbiError, m: AbiModel) -> bool {
    match e {
        AbiError::UnresolvedReference(p, _) => !resolved(p@, m),
        AbiError::MalformedSource(p) => generic_arity(p@) is Some,
        _ => false,
    }
}

/// `w` names a struct, an enum or a function of the model whose types do
/// not all resolve.
pub open spec fn entity_open(w: String, m: AbiModel) -> bool {
    ||| exists|k: int|
        0 <= k < m.structs.len() && m.structs[k].path == w && !fields_closed(m.structs[k].fields@, m)
    ||| exists|k: int|
        0 <= k < m.enums.len() && m.enums[k].path == w && !variants_closed(m.enums[k].variants@, m)
    ||| exists|k: int|
        0 <= k < m.functions.len() && m.functions[k].name == w && !function_closed(m.functions[k], m)
    ||| exists|g: int, k: int|
        0 <= g < m.interfaces.len() && 0 <= k < m.interfaces[g].1.len() && m.interfaces[g].1[k].name == w
            && !function_closed(m.interfaces[g].1[k], m)
}

/// What a failed closure check reports: an unresolved path together with
/// the struct, enum or function that names it, or a parametrized built-in
/// with a wrong argument list.
pub open spec fn reports_bad_reference(e: AbiError, m: AbiModel) -> bool {
    &&& path_fault(e, m)
    &&& (e matches AbiError::UnresolvedReference(_, w) ==> entity_open(w, m))
}

/// What a failed check of the functions `fs` reports.
pub open spec fn reports_in_functions(e: AbiError, fs: Seq<FunctionDecl>, m: AbiModel) -> bool {
    &&& path_fault(e, m)
    &&& (e matches AbiError::UnresolvedReference(_, w) ==> exists|k: int|
        0 <= k < fs.len() && fs[k].name == w && !function_closed(fs[k], m))
}

fn is_resolved(p: &str, t: &TokenizedAbi) -> (r: bool)
    ensures
        r == resolved(p@, t@),
{
    classify(p).is_some() || find_struct(&t.structs, p).is_some() || find_enum(&t.enums, p).is_some()
}

/// Checks that every path in a type reference resolves.
pub fn check_type(s: &str, t: &TokenizedAbi, within: &String) -> (r: Result<(), AbiError>)
    ensures
        r is Ok <==> type_closed(s@, t@),
        r matches Err(e) ==> path_fault(e, t@),
        r matches Err(AbiError::UnresolvedReference(_, w)) ==> w == *within,
{
    let n = s.unicode_len();
    let mut i: usize = 0;
    while i < n
        invariant
            n == s@.len(),
            0 <= i <= n,
            i < n && !is_delim(s@[i as int]) ==> (i == 0 || is_delim(s@[i - 1])),
            forall|k: int|
                0 <= k < i && #[trigger] is_seg_start(s@, k) ==> resolved(path_at(s@, k), t@) && arity_ok(s@, k),
        decreases n - i,
    {
        if is_delim_exec(s.get_char(i)) {
            i = i + 1;
        } else {
            proof {
                lemma_seg_end(s@, i as int);
                lemma_seg_run(s@, i as int);
            }
            let j = seg_end_exec(s, i);
            let p = path_slice(s, i, j);
            assert(p@ == path_at(s@, i as int));
            assert(is_seg_start(s@, i as int));
            if !is_resolved(p.as_str(), t) {
                return Err(AbiError::UnresolvedReference(p, within.clone()));
            }
            match generic_arity_exec(p.as_str()) {
                Some(want) => {
                    if j >= n || s.get_char(j) != '<' {
                        return Err(AbiError::MalformedSource(p));
                    }
                    match arg_count_exec(s, j + 1) {
                        Some(got) => {
                            if got != want {
                                return Err(AbiError::MalformedSource(p));
                            }
                        },
                        None => {
                            return Err(AbiError::MalformedSource(p));
                        },
                    }
                },
                None => {},
            }
            assert(arity_ok(s@, i as int));
            assert forall|k: int| 0 <= k < j && #[trigger] is_seg_start(s@, k) implies resolved(path_at(s@, k), t@)
                && arity_ok(s@, k) by {
                if i < k < j {
                    assert(!is_delim(s@[k - 1]));
                }
            }
            i = j;
        }
    }
    Ok(())
}

fn check_fields(fs: &Vec<Field>, t: &TokenizedAbi, within: &String) -> (r: Result<(), AbiError>)
    ensures
        r is Ok <==> fields_closed(fs@, t@),
        r matches Err(e) ==> path_fault(e, t@),
        r matches Err(AbiError::UnresolvedReference(_, w)) ==> w == *within,
{
    let mut i: usize = 0;
    while i < fs.len()
        invariant
            0 <= i <= fs@.len(),
            forall|k: int| 0 <= k < i ==> type_closed(#[trigger] fs@[k].ty@, t@),
        decreases fs.len() - i,
    {
        check_type(fs[i].ty.as_str(), t, within)?;
        i = i + 1;
    }
    Ok(())
}

fn check_variants(vs: &Vec<Variant>, t: &TokenizedAbi, within: &String) -> (r: Result<(), AbiError>)
    ensures
        r is Ok <==> variants_closed(vs@, t@),
        r matches Err(e) ==> path_fault(e, t@),
        r matches Err(AbiError::UnresolvedReference(_, w)) ==> w == *within,
{
    let mut i: usize = 0;
    while i < vs.len()
        invariant
            0 <= i <= vs@.len(),
            forall|k: int|
                0 <= k < i && #[trigger] vs@[k].ty is Some ==> type_closed(vs@[k].ty->0@, t@),
        decreases vs.len() - i,
    {
        match &vs[i].ty {
            Some(ty) => {
                check_type(ty.as_str(), t, within)?;
            },
            None => {},
        }
        i = i + 1;
    }
    Ok(())
}

fn check_function(f: &FunctionDecl, t: &TokenizedAbi) -> (r: Result<(), AbiError>)
    ensures
        r is Ok <==> function_closed(*f, t@),
        r matches Err(e) ==> path_fault(e, t@),
        r matches Err(AbiError::UnresolvedReference(_, w)) ==> w == f.name,
{
    check_fields(&f.inputs, t, &f.name)?;
    let mut i: usize = 0;
    while i < f.outputs.len()
        invariant
            0 <= i <= f.outputs@.len(),
            fields_closed(f.inputs@, t@),
            forall|k: int| 0 <= k < i ==> type_closed(#[trigger] f.outputs@[k]@, t@),
        decreases f.outputs.len() - i,
    {
        check_type(f.outputs[i].as_str(), t, &f.name)?;
        i = i + 1;
    }
    Ok(())
}

fn check_functions(fs: &Vec<FunctionDecl>, t: &TokenizedAbi) -> (r: Result<(), AbiError>)
    ensures
        r is Ok <==> functions_closed(fs@, t@),
        r matches Err(e) ==> reports_in_functions(e, fs@, t@),
{
    let mut i: usize = 0;
    while i < fs.len()
        invariant
            0 <= i <= fs@.len(),
            forall|k: int| 0 <= k < i ==> function_closed(#[trigger] fs@[k], t@),
        decreases fs.len() - i,
    {
        check_function(&fs[i], t)?;
        i = i + 1;
    }
    Ok(())
}

/// Checks the closure of a model, reporting the first unresolved path.
pub fn check_closure(t: &TokenizedAbi) -> (r: Result<(), AbiError>)
    ensures
        r is Ok <==> model_closed(t@),
        r matches Err(e) ==> reports_bad_reference(e, t@),
{
    let mut i: usize = 0;
    while i < t.structs.len()
        invariant
            0 <= i <= t@.structs.len(),
            forall|k: int| 0 <= k < i ==> fields_closed(#[trigger] t@.structs[k].fields@, t@),
        decreases t.structs.len() - i,
    {
        check_fields(&t.structs[i].fields, t, &t.structs[i].path)?;
        i = i + 1;
    }
    let mut i: usize = 0;
    while i < t.enums.len()
        invariant
            0 <= i <= t@.enums.len(),
            forall|k: int| 0 <= k < t@.structs.len() ==> fields_closed(#[trigger] t@.structs[k].fields@, t@),
            forall|k: int| 0 <= k < i ==> variants_closed(#[trigger] t@.enums[k].variants@, t@),
        decreases t.enums.len() - i,
    {
        check_variants(&t.enums[i].variants, t, &t.enums[i].path)?;
        i = i + 1;
    }
    check_functions(&t.functions, t)?;
    let mut i: usize = 0;
    while i < t.interfaces.len()
        invariant
            0 <= i <= t@.interfaces.len(),
            forall|k: int| 0 <= k < t@.structs.len() ==> fields_closed(#[trigger] t@.structs[k].fields@, t@),
            forall|k: int| 0 <= k < t@.enums.len() ==> variants_closed(#[trigger] t@.enums[k].variants@, t@),
            functions_closed(t@.functions, t@),
            forall|k: int| 0 <= k < i ==> functions_closed(#[trigger] t@.interfaces[k].1, t@),
        decreases t.interfaces.len() - i,
    {
        assert(t@.interfaces[i as int].1 == t.interfaces@[i as int].1@);
        check_functions(&t.interfaces[i].1, t)?;
        i = i + 1;
    }
    Ok(())
}

} // verus!
