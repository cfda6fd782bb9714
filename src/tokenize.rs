use vstd::prelude::*;

use crate::abi::{
    field_shape, same_enum, same_struct, variant_shape, AbiEntry, AbiError, AbiModel, EnumDecl, Field,
    FunctionDecl, RawFunction, StateMutability, StructDecl, TokenizedAbi, Variant,
};
use crate::category::{category_of, classify};
use crate::text::{decl_key, decl_key_exec, str_eq};

verus! {

/// The mutability that an ABI word stands for.
pub open spec fn mutability_of(s: Seq<char>) -> Option<StateMutability> {
    if s == "view"@ {
        Some(StateMutability::View)
    } else if s == "external"@ {
        Some(StateMutability::External)
    } else {
        None
    }
}

/// Some struct of the list is declared under the key `p`.
pub open spec fn has_struct(v: Seq<StructDecl>, p: Seq<char>) -> bool {
    exists|k: int| 0 <= k < v.len() && decl_key(v[k].path@) == p
}

/// Some enum of the list is declared under the key `p`.
pub open spec fn has_enum(v: Seq<EnumDecl>, p: Seq<char>) -> bool {
    exists|k: int| 0 <= k < v.len() && decl_key(v[k].path@) == p
}

pub open spec fn unique_structs(v: Seq<StructDecl>) -> bool {
    forall|a: int, b: int|
        0 <= a < v.len() && 0 <= b < v.len() && decl_key(v[a].path@) == decl_key(v[b].path@) ==> a == b
}

pub open spec fn unique_enums(v: Seq<EnumDecl>) -> bool {
    forall|a: int, b: int|
        0 <= a < v.len() && 0 <= b < v.len() && decl_key(v[a].path@) == decl_key(v[b].path@) ==> a == b
}

/// Adds a struct declaration, known by the head of its path: a catalogued
/// head is left to the catalogue, a head already declared as an enum
/// conflicts, a repeat of an identical struct is dropped, a differing one
/// conflicts.
pub open spec fn add_struct(m: AbiModel, s: StructDecl) -> Result<AbiModel, AbiError> {
    let key = decl_key(s.path@);
    if category_of(key) is Some {
        Ok(m)
    } else if has_enum(m.enums, key) {
        Err(AbiError::ConflictingDefinition(s.path))
    } else if has_struct(m.structs, key) {
        if exists|k: int|
            0 <= k < m.structs.len() && decl_key(m.structs[k].path@) == key && same_struct(m.structs[k], s) {
            Ok(m)
        } else {
            Err(AbiError::ConflictingDefinition(s.path))
        }
    } else {
        Ok(AbiModel { structs: m.structs.push(s), ..m })
    }
}

/// Adds an enum declaration, with the same rules as for structs: a head
/// already declared as a struct conflicts.
pub open spec fn add_enum(m: AbiModel, e: EnumDecl) -> Result<AbiModel, AbiError> {
    let key = decl_key(e.path@);
    if category_of(key) is Some {
        Ok(m)
    } else if has_struct(m.structs, key) {
        Err(AbiError::ConflictingDefinition(e.path))
    } else if has_enum(m.enums, key) {
        if exists|k: int|
            0 <= k < m.enums.len() && decl_key(m.enums[k].path@) == key && same_enum(m.enums[k], e) {
            Ok(m)
        } else {
            Err(AbiError::ConflictingDefinition(e.path))
        }
    } else {
        Ok(AbiModel { enums: m.enums.push(e), ..m })
    }
}

/// A function entry with its mutability word recognised.
pub open spec fn recognise(f: RawFunction) -> Result<FunctionDecl, AbiError> {
    match mutability_of(f.state_mutability@) {
        Some(sm) => Ok(
            FunctionDecl { name: f.name, state_mutability: sm, inputs: f.inputs, outputs: f.outputs },
        ),
        None => Err(AbiError::MalformedSource(f.state_mutability)),
    }
}

/// Every function of a list recognised; the first failure wins.
pub open spec fn recognise_all(fs: Seq<RawFunction>) -> Result<Seq<FunctionDecl>, AbiError>
    decreases fs.len(),
{
    if fs.len() == 0 {
        Ok(Seq::empty())
    } else {
        match recognise_all(fs.drop_last()) {
            Err(e) => Err(e),
            Ok(d) => match recognise(fs.last()) {
                Err(e) => Err(e),
                Ok(g) => Ok(d.push(g)),
            },
        }
    }
}

/// The model after one more entry.
pub open spec fn add_entry(m: AbiModel, e: AbiEntry) -> Result<AbiModel, AbiError> {
    match e {
        AbiEntry::Struct(s) => add_struct(m, s),
        AbiEntry::Enum(d) => add_enum(m, d),
        AbiEntry::Function(f) => match recognise(f) {
            Ok(g) => Ok(AbiModel { functions: m.functions.push(g), ..m }),
            Err(x) => Err(x),
        },
        AbiEntry::Interface(i) => match recognise_all(i.items@) {
            Ok(gs) => Ok(AbiModel { interfaces: m.interfaces.push((i.name, gs)), ..m }),
            Err(x) => Err(x),
        },
    }
}

pub open spec fn empty_model() -> AbiModel {
    AbiModel {
        structs: Seq::empty(),
        enums: Seq::empty(),
        functions: Seq::empty(),
        interfaces: Seq::empty(),
    }
}

/// The model that a list of entries declares, entry by entry; the first
/// failure wins.
pub open spec fn collect(es: Seq<AbiEntry>) -> Result<AbiModel, AbiError>
    decreases es.len(),
{
    if es.len() == 0 {
        Ok(empty_model())
    } else {
        match collect(es.drop_last()) {
            Err(e) => Err(e),
            Ok(m) => add_entry(m, es.last()),
        }
    }
}

fn same_field_list(a: &Vec<Field>, b: &Vec<Field>) -> (r: bool)
    ensures
        r == (a@.map_values(|f: Field| field_shape(f)) == b@.map_values(|f: Field| field_shape(f))),
{
    let ghost fa = a@.map_values(|f: Field| field_shape(f));
    let ghost fb = b@.map_values(|f: Field| field_shape(f));
    if a.len() != b.len() {
        assert(fa.len() != fb.len());
        return false;
    }
    let mut i: usize = 0;
    while i < a.len()
        invariant
            a.len() == b.len(),
            0 <= i <= a.len(),
            fa == a@.map_values(|f: Field| field_shape(f)),
            fb == b@.map_values(|f: Field| field_shape(f)),
            forall|k: int| 0 <= k < i ==> fa[k] == fb[k],
        decreases a.len() - i,
    {
        if !str_eq(a[i].name.as_str(), b[i].name.as_str()) || !str_eq(a[i].ty.as_str(), b[i].ty.as_str()) {
            assert(fa[i as int] != fb[i as int]);
            return false;
        }
        i = i + 1;
    }
    assert(fa =~= fb);
    true
}

fn same_variant_list(a: &Vec<Variant>, b: &Vec<Variant>) -> (r: bool)
    ensures
        r == (a@.map_values(|v: Variant| variant_shape(v)) == b@.map_values(|v: Variant| variant_shape(v))),
{
    let ghost fa = a@.map_values(|v: Variant| variant_shape(v));
    let ghost fb = b@.map_values(|v: Variant| variant_shape(v));
    if a.len() != b.len() {
        assert(fa.len() != fb.len());
        return false;
    }
    let mut i: usize = 0;
    while i < a.len()
        invariant
            a.len() == b.len(),
            0 <= i <= a.len(),
            fa == a@.map_values(|v: Variant| variant_shape(v)),
            fb == b@.map_values(|v: Variant| variant_shape(v)),
            forall|k: int| 0 <= k < i ==> fa[k] == fb[k],
        decreases a.len() - i,
    {
        if !str_eq(a[i].name.as_str(), b[i].name.as_str()) {
            assert(fa[i as int] != fb[i as int]);
            return false;
        }
        let same_ty = match (&a[i].ty, &b[i].ty) {
            (Some(x), Some(y)) => str_eq(x.as_str(), y.as_str()),
            (None, None) => true,
            _ => false,
        };
        if !same_ty {
            assert(fa[i as int] != fb[i as int]);
            return false;
        }
        i = i + 1;
    }
    assert(fa =~= fb);
    true
}

/// Finds the struct declared under the key `p`.
pub fn find_struct(v: &Vec<StructDecl>, p: &str) -> (r: Option<usize>)
    ensures
        match r {
            Some(k) => k < v@.len() && decl_key(v@[k as int].path@) == p@,
            None => !has_struct(v@, p@),
        },
{
    let mut i: usize = 0;
    while i < v.len()
        invariant
            0 <= i <= v@.len(),
            forall|k: int| 0 <= k < i ==> decl_key(v@[k].path@) != p@,
        decreases v.len() - i,
    {
        let key = decl_key_exec(v[i].path.as_str());
        if str_eq(key.as_str(), p) {
            return Some(i);
        }
        i = i + 1;
    }
    None
}

/// Finds the enum declared under the key `p`.
pub fn find_enum(v: &Vec<EnumDecl>, p: &str) -> (r: Option<usize>)
    ensures
        match r {
            Some(k) => k < v@.len() && decl_key(v@[k as int].path@) == p@,
            None => !has_enum(v@, p@),
        },
{
    let mut i: usize = 0;
    while i < v.len()
        invariant
            0 <= i <= v@.len(),
            forall|k: int| 0 <= k < i ==> decl_key(v@[k].path@) != p@,
        decreases v.len() - i,
    {
        let key = decl_key_exec(v[i].path.as_str());
        if str_eq(key.as_str(), p) {
            return Some(i);
        }
        i = i + 1;
    }
    None
}


fn push_struct(t: &mut TokenizedAbi, s: StructDecl) -> (r: Result<(), AbiError>)
    requires
        unique_structs(old(t)@.structs),
    ensures
        match r {
            Ok(()) => add_struct(old(t)@, s) == Ok::<AbiModel, AbiError>(final(t)@),
            Err(e) => add_struct(old(t)@, s) == Err::<AbiModel, AbiError>(e),
        },
        unique_structs(final(t)@.structs),
        final(t)@.enums == old(t)@.enums,
{
    let key = decl_key_exec(s.path.as_str());
    if classify(key.as_str()).is_some() {
        return Ok(());
    }
    if find_enum(&t.enums, key.as_str()).is_some() {
        return Err(AbiError::ConflictingDefinition(s.path));
    }
    match find_struct(&t.structs, key.as_str()) {
        Some(k) => {
            if same_field_list(&t.structs[k].fields, &s.fields) {
                assert(same_struct(t@.structs[k as int], s));
                Ok(())
            } else {
                assert(!same_struct(t@.structs[k as int], s));
                Err(AbiError::ConflictingDefinition(s.path))
            }
        },
        None => {
            let ghost m = t@;
            t.structs.push(s);
            assert(t@ =~= AbiModel { structs: m.structs.push(s), ..m });
            Ok(())
        },
    }
}

fn push_enum(t: &mut TokenizedAbi, e: EnumDecl) -> (r: Result<(), AbiError>)
    requires
        unique_enums(old(t)@.enums),
    ensures
        match r {
            Ok(()) => add_enum(old(t)@, e) == Ok::<AbiModel, AbiError>(final(t)@),
            Err(x) => add_enum(old(t)@, e) == Err::<AbiModel, AbiError>(x),
        },
        unique_enums(final(t)@.enums),
        final(t)@.structs == old(t)@.structs,
{
    let key = decl_key_exec(e.path.as_str());
    if classify(key.as_str()).is_some() {
        return Ok(());
    }
    if find_struct(&t.structs, key.as_str()).is_some() {
        return Err(AbiError::ConflictingDefinition(e.path));
    }
    match find_enum(&t.enums, key.as_str()) {
        Some(k) => {
            if same_variant_list(&t.enums[k].variants, &e.variants) && t.enums[k].is_event == e.is_event {
                assert(same_enum(t@.enums[k as int], e));
                Ok(())
            } else {
                assert(!same_enum(t@.enums[k as int], e));
                Err(AbiError::ConflictingDefinition(e.path))
            }
        },
        None => {
            let ghost m = t@;
            t.enums.push(e);
            assert(t@ =~= AbiModel { enums: m.enums.push(e), ..m });
            Ok(())
        },
    }
}

/// Recognises the mutability word of a function entry.
pub fn recognise_function(f: RawFunction) -> (r: Result<FunctionDecl, AbiError>)
    ensures
        r == recognise(f),
{
    let sm = if str_eq(f.state_mutability.as_str(), "view") {
        StateMutability::View
    } else if str_eq(f.state_mutability.as_str(), "external") {
        StateMutability::External
    } else {
        return Err(AbiError::MalformedSource(f.state_mutability));
    };
    Ok(FunctionDecl { name: f.name, state_mutability: sm, inputs: f.inputs, outputs: f.outputs })
}

fn recognise_functions(fs: Vec<RawFunction>) -> (r: Result<Vec<FunctionDecl>, AbiError>)
    ensures
        match r {
            Ok(v) => recognise_all(fs@) == Ok::<Seq<FunctionDecl>, AbiError>(v@),
            Err(e) => recognise_all(fs@) == Err::<Seq<FunctionDecl>, AbiError>(e),
        },
{
    let ghost all = fs@;
    let n = fs.len();
    let mut rest = fs;
    let mut done: Vec<FunctionDecl> = Vec::new();
    let mut i: usize = 0;
    assert(all.subrange(0, 0) =~= Seq::<RawFunction>::empty());
    while i < n
        invariant
            n == all.len(),
            all == fs@,
            0 <= i <= n,
            rest@ == all.subrange(i as int, n as int),
            recognise_all(all.subrange(0, i as int)) == Ok::<Seq<FunctionDecl>, AbiError>(done@),
        decreases n - i,
    {
        let f = rest.remove(0);
        assert(f == all[i as int]);
        assert(all.subrange(0, i + 1).drop_last() =~= all.subrange(0, i as int));
        assert(all.subrange(0, i + 1).last() == f);
        assert(rest@ =~= all.subrange(i + 1, n as int));
        match recognise_function(f) {
            Ok(g) => {
                done.push(g);
            },
            Err(e) => {
                assert(recognise_all(all.subrange(0, i + 1)) == Err::<Seq<FunctionDecl>, AbiError>(e));
                proof {
                    lemma_recognise_prefix_err(all, i as int + 1);
                }
                return Err(e);
            },
        }
        i = i + 1;
    }
    assert(all.subrange(0, n as int) =~= all);
    Ok(done)
}

proof fn lemma_recognise_prefix_err(fs: Seq<RawFunction>, i: int)
    requires
        0 < i <= fs.len(),
        recognise_all(fs.subrange(0, i)) is Err,
    ensures
        recognise_all(fs) == recognise_all(fs.subrange(0, i)),
    decreases fs.len() - i,
{
    if i < fs.len() {
        assert(fs.subrange(0, i + 1).drop_last() =~= fs.subrange(0, i));
        lemma_recognise_prefix_err(fs, i + 1);
    } else {
        assert(fs.subrange(0, i) =~= fs);
    }
}

proof fn lemma_collect_prefix_err(es: Seq<AbiEntry>, i: int)
    requires
        0 < i <= es.len(),
        collect(es.subrange(0, i)) is Err,
    ensures
        collect(es) == collect(es.subrange(0, i)),
    decreases es.len() - i,
{
    if i < es.len() {
        assert(es.subrange(0, i + 1).drop_last() =~= es.subrange(0, i));
        lemma_collect_prefix_err(es, i + 1);
    } else {
        assert(es.subrange(0, i) =~= es);
    }
}

fn add_entry_exec(t: &mut TokenizedAbi, e: AbiEntry) -> (r: Result<(), AbiError>)
    requires
        unique_structs(old(t)@.structs),
        unique_enums(old(t)@.enums),
    ensures
        match r {
            Ok(()) => add_entry(old(t)@, e) == Ok::<AbiModel, AbiError>(final(t)@),
            Err(x) => add_entry(old(t)@, e) == Err::<AbiModel, AbiError>(x),
        },
        unique_structs(final(t)@.structs),
        unique_enums(final(t)@.enums),
{
    let ghost m = t@;
    match e {
        AbiEntry::Struct(s) => push_struct(t, s),
        AbiEntry::Enum(d) => push_enum(t, d),
        AbiEntry::Function(f) => {
            match recognise_function(f) {
                Ok(g) => {
                    t.functions.push(g);
                    assert(t@ =~= AbiModel { functions: m.functions.push(g), ..m });
                    Ok(())
                },
                Err(x) => Err(x),
            }
        },
        AbiEntry::Interface(i) => {
            match recognise_functions(i.items) {
                Ok(gs) => {
                    let ghost gv = gs@;
                    t.interfaces.push((i.name, gs));
                    assert(t@.interfaces =~= m.interfaces.push((i.name, gv)));
                    assert(t@ =~= AbiModel { interfaces: m.interfaces.push((i.name, gv)), ..m });
                    Ok(())
                },
                Err(x) => Err(x),
            }
        },
    }
}

/// Builds the model that a list of ABI entries declares. Paths stay unique:
/// an identical redeclaration is dropped and a differing one is refused.
pub fn collect_entries(entries: Vec<AbiEntry>) -> (r: Result<TokenizedAbi, AbiError>)
    ensures
        match r {
            Ok(t) => collect(entries@) == Ok::<AbiModel, AbiError>(t@) && unique_structs(t@.structs)
                && unique_enums(t@.enums),
            Err(e) => collect(entries@) == Err::<AbiModel, AbiError>(e),
        },
{
    let ghost all = entries@;
    let n = entries.len();
    let mut rest = entries;
    let mut t = TokenizedAbi {
        structs: Vec::new(),
        enums: Vec::new(),
        functions: Vec::new(),
        interfaces: Vec::new(),
    };
    let mut i: usize = 0;
    assert(all.subrange(0, 0) =~= Seq::<AbiEntry>::empty());
    assert(t@.interfaces =~= Seq::<(String, Seq<FunctionDecl>)>::empty());
    assert(t@ =~= empty_model());
    while i < n
        invariant
            n == all.len(),
            all == entries@,
            0 <= i <= n,
            rest@ == all.subrange(i as int, n as int),
            collect(all.subrange(0, i as int)) == Ok::<AbiModel, AbiError>(t@),
            unique_structs(t@.structs),
            unique_enums(t@.enums),
        decreases n - i,
    {
        let e = rest.remove(0);
        assert(e == all[i as int]);
        assert(all.subrange(0, i + 1).drop_last() =~= all.subrange(0, i as int));
        assert(all.subrange(0, i + 1).last() == e);
        assert(rest@ =~= all.subrange(i + 1, n as int));
        match add_entry_exec(&mut t, e) {
            Ok(()) => {},
            Err(x) => {
                assert(collect(all.subrange(0, i + 1)) == Err::<AbiModel, AbiError>(x));
                proof {
                    lemma_collect_prefix_err(all, i as int + 1);
                }
                return Err(x);
            },
        }
        i = i + 1;
    }
    assert(all.subrange(0, n as int) =~= all);
    Ok(t)
}

} // verus!
