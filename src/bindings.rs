use vstd::prelude::*;
use vstd::string::*;

use crate::abi::{AbiEntry, AbiError, AbiModel, EnumDecl, ExecutionVersion, StructDecl, TokenizedAbi};
use crate::closure::{check_closure, model_closed, reports_bad_reference};
use crate::generate::{bindings_text, bindings_text_exec};
use crate::names::{name_of, path_name};
use crate::text::{decl_key, decl_key_exec, str_eq};
use crate::tokenize::{
    collect, collect_entries, find_enum, find_struct, has_enum, has_struct, unique_enums, unique_structs,
};

verus! {

/// The keys of every declared struct, then of every declared enum.
pub open spec fn decl_paths(m: AbiModel) -> Seq<Seq<char>> {
    m.structs.map_values(|s: StructDecl| decl_key(s.path@)) + m.enums.map_values(
        |e: EnumDecl| decl_key(e.path@),
    )
}

/// No two different declared paths are generated under one identifier.
pub open spec fn names_distinct(m: AbiModel, al: Seq<(String, String)>) -> bool {
    forall|a: int, b: int|
        0 <= a < decl_paths(m).len() && 0 <= b < decl_paths(m).len() && decl_paths(m)[a]
            != decl_paths(m)[b] ==> name_of(decl_paths(m)[a], al) != name_of(decl_paths(m)[b], al)
}

/// Every payload of an event enum is a declared struct or enum.
pub open spec fn events_known(m: AbiModel) -> bool {
    forall|k: int, j: int|
        0 <= k < m.enums.len() && m.enums[k].is_event && 0 <= j < m.enums[k].variants@.len()
            && #[trigger] m.enums[k].variants@[j].ty is Some ==> {
            let t = decl_key(m.enums[k].variants@[j].ty->0@);
            has_struct(m.structs, t) || has_enum(m.enums, t)
        }
}

/// What a failed name check reports: an identifier and two different
/// declared keys that are both generated under it.
pub open spec fn collision_fault(e: AbiError, m: AbiModel, al: Seq<(String, String)>) -> bool {
    match e {
        AbiError::NameCollision(n, a, b) => {
            &&& a@ != b@
            &&& decl_paths(m).contains(a@)
            &&& decl_paths(m).contains(b@)
            &&& name_of(a@, al) == n@
            &&& name_of(b@, al) == n@
        },
        _ => false,
    }
}

/// What a failed event check reports: the payload path of a variant of an
/// event enum, declared as no struct or enum, and that enum's path.
pub open spec fn event_fault(e: AbiError, m: AbiModel) -> bool {
    match e {
        AbiError::UnresolvedReference(p, w) => exists|k: int, j: int|
            0 <= k < m.enums.len() && m.enums[k].is_event && m.enums[k].path == w && 0 <= j
                < m.enums[k].variants@.len() && #[trigger] m.enums[k].variants@[j].ty == Some(p)
                && !has_struct(m.structs, decl_key(p@)) && !has_enum(m.enums, decl_key(p@)),
        _ => false,
    }
}

/// Checks that aliases and final segments keep the generated identifiers apart.
pub fn check_names(t: &TokenizedAbi, al: &Vec<(String, String)>) -> (r: Result<(), AbiError>)
    ensures
        r is Ok <==> names_distinct(t@, al@),
        r matches Err(e) ==> collision_fault(e, t@, al@),
{
    let ghost ps = decl_paths(t@);
    let mut paths: Vec<String> = Vec::new();
    let mut i: usize = 0;
    while i < t.structs.len()
        invariant
            0 <= i <= t.structs@.len(),
            paths@.len() == i,
            forall|k: int| 0 <= k < i ==> (#[trigger] paths@[k])@ == decl_key(t.structs@[k].path@),
        decreases t.structs.len() - i,
    {
        paths.push(decl_key_exec(t.structs[i].path.as_str()));
        i = i + 1;
    }
    let mut i: usize = 0;
    while i < t.enums.len()
        invariant
            0 <= i <= t.enums@.len(),
            paths@.len() == t.structs@.len() + i,
            forall|k: int| 0 <= k < t.structs@.len() ==> (#[trigger] paths@[k])@ == decl_key(t.structs@[k].path@),
            forall|k: int| 0 <= k < i ==> (#[trigger] paths@[t.structs@.len() + k])@ == decl_key(t.enums@[k].path@),
        decreases t.enums.len() - i,
    {
        paths.push(decl_key_exec(t.enums[i].path.as_str()));
        i = i + 1;
    }
    assert forall|k: int| 0 <= k < ps.len() implies (#[trigger] paths@[k])@ == ps[k] by {
        if k >= t.structs@.len() {
            assert(paths@[t.structs@.len() + (k - t.structs@.len())] == paths@[k]);
        }
    }
    let mut names: Vec<String> = Vec::new();
    let mut i: usize = 0;
    while i < paths.len()
        invariant
            0 <= i <= paths@.len(),
            names@.len() == i,
            forall|k: int| 0 <= k < i ==> (#[trigger] names@[k])@ == name_of(paths@[k]@, al@),
        decreases paths.len() - i,
    {
        names.push(path_name(paths[i].as_str(), al));
        i = i + 1;
    }
    let n = paths.len();
    let mut a: usize = 0;
    while a < n
        invariant
            n == paths@.len(),
            n == names@.len(),
            n == ps.len(),
            ps == decl_paths(t@),
            0 <= a <= n,
            forall|k: int| 0 <= k < n ==> (#[trigger] paths@[k])@ == ps[k],
            forall|k: int| 0 <= k < n ==> (#[trigger] names@[k])@ == name_of(paths@[k]@, al@),
            forall|x: int, y: int|
                0 <= x < a && 0 <= y < n && ps[x] != ps[y] ==> name_of(ps[x], al@) != name_of(ps[y], al@),
        decreases n - a,
    {
        let mut b: usize = 0;
        while b < n
            invariant
                n == paths@.len(),
                n == names@.len(),
                n == ps.len(),
                ps == decl_paths(t@),
                0 <= a < n,
                0 <= b <= n,
                forall|k: int| 0 <= k < n ==> (#[trigger] paths@[k])@ == ps[k],
                forall|k: int| 0 <= k < n ==> (#[trigger] names@[k])@ == name_of(paths@[k]@, al@),
                forall|x: int, y: int|
                    0 <= x < a && 0 <= y < n && ps[x] != ps[y] ==> name_of(ps[x], al@) != name_of(ps[y], al@),
                forall|y: int| 0 <= y < b && ps[a as int] != ps[y] ==> name_of(ps[a as int], al@) != name_of(ps[y], al@),
            decreases n - b,
        {
            if !str_eq(paths[a].as_str(), paths[b].as_str()) && str_eq(names[a].as_str(), names[b].as_str()) {
                assert(ps[a as int] != ps[b as int]);
                assert(name_of(ps[a as int], al@) == name_of(ps[b as int], al@));
                return Err(AbiError::NameCollision(names[a].clone(), paths[a].clone(), paths[b].clone()));
            }
            b = b + 1;
        }
        a = a + 1;
    }
    Ok(())
}

/// Checks that every payload of an event enum was declared as a struct or enum.
pub fn check_events(t: &TokenizedAbi) -> (r: Result<(), AbiError>)
    ensures
        r is Ok <==> events_known(t@),
        r matches Err(e) ==> event_fault(e, t@),
{
    let mut k: usize = 0;
    while k < t.enums.len()
        invariant
            0 <= k <= t@.enums.len(),
            forall|x: int, j: int|
                0 <= x < k && t@.enums[x].is_event && 0 <= j < t@.enums[x].variants@.len()
                    && #[trigger] t@.enums[x].variants@[j].ty is Some ==> {
                    let p = decl_key(t@.enums[x].variants@[j].ty->0@);
                    has_struct(t@.structs, p) || has_enum(t@.enums, p)
                },
        decreases t.enums.len() - k,
    {
        let e = &t.enums[k];
        if e.is_event {
            let mut j: usize = 0;
            while j < e.variants.len()
                invariant
                    0 <= k < t@.enums.len(),
                    e == t@.enums[k as int],
                    e.is_event,
                    0 <= j <= e.variants@.len(),
                    forall|x: int, j: int|
                        0 <= x < k && t@.enums[x].is_event && 0 <= j < t@.enums[x].variants@.len()
                            && #[trigger] t@.enums[x].variants@[j].ty is Some ==> {
                            let p = decl_key(t@.enums[x].variants@[j].ty->0@);
                            has_struct(t@.structs, p) || has_enum(t@.enums, p)
                        },
                    forall|y: int|
                        0 <= y < j && #[trigger] e.variants@[y].ty is Some ==> {
                            let p = decl_key(e.variants@[y].ty->0@);
                            has_struct(t@.structs, p) || has_enum(t@.enums, p)
                        },
                decreases e.variants.len() - j,
            {
                match &e.variants[j].ty {
                    Some(p) => {
                        let key = decl_key_exec(p.as_str());
                        if find_struct(&t.structs, key.as_str()).is_none() && find_enum(
                            &t.enums,
                            key.as_str(),
                        ).is_none() {
                            assert(e.variants@[j as int].ty == Some(*p));
                            return Err(AbiError::UnresolvedReference(p.clone(), e.path.clone()));
                        }
                    },
                    None => {},
                }
                j = j + 1;
            }
        }
        k = k + 1;
    }
    Ok(())
}


/// Generated bindings: the contract's name and the generated source.
#[derive(Debug)]
pub struct ContractBindings {
    pub name: String,
    pub tokens: String,
}

/// A failed generation: the structured cause, with the contract and the ABI
/// source it was generated for.
#[derive(Debug)]
pub struct GenerateError {
    pub contract_name: String,
    pub abi_source: String,
    pub error: AbiError,
}

/// The model declared by a list of entries, when it is well formed and closed.
pub open spec fn tokenized(es: Seq<AbiEntry>) -> Option<AbiModel> {
    match collect(es) {
        Ok(m) => if model_closed(m) {
            Some(m)
        } else {
            None
        },
        Err(_) => None,
    }
}

/// Tokenizes ABI entries: builds the model, then checks that every type
/// reference in it resolves.
pub fn tokens_from_entries(entries: Vec<AbiEntry>) -> (r: Result<TokenizedAbi, AbiError>)
    ensures
        r is Ok <==> tokenized(entries@) is Some,
        r matches Ok(t) ==> tokenized(entries@) == Some(t@) && unique_structs(t@.structs)
            && unique_enums(t@.enums),
        r matches Err(e) ==> match collect(entries@) {
            Err(c) => e == c,
            Ok(m) => reports_bad_reference(e, m),
        },
{
    let t = collect_entries(entries)?;
    check_closure(&t)?;
    Ok(t)
}

/// Generates the source of the bindings of a tokenized ABI.
pub fn abi_to_tokenstream(
    contract_name: &str,
    abi_tokens: &TokenizedAbi,
    types_aliases: &Vec<(String, String)>,
    execution_version: ExecutionVersion,
) -> (r: Result<String, AbiError>)
    ensures
        r is Ok <==> names_distinct(abi_tokens@, types_aliases@) && events_known(abi_tokens@),
        r matches Ok(s) ==> s@ == bindings_text(contract_name@, abi_tokens@, types_aliases@, execution_version),
        r matches Err(e) ==> if !names_distinct(abi_tokens@, types_aliases@) {
            collision_fault(e, abi_tokens@, types_aliases@)
        } else {
            event_fault(e, abi_tokens@)
        },
{
    check_names(abi_tokens, types_aliases)?;
    check_events(abi_tokens)?;
    let n = String::from_str(contract_name);
    Ok(bindings_text_exec(&n, abi_tokens, types_aliases, execution_version))
}

/// Settings of one generation: the contract's name, where its ABI came from,
/// the aliases of type paths, and the execution version.
#[derive(Debug)]
pub struct Abigen {
    pub contract_name: String,
    pub abi_source: String,
    /// Pairs of a full path and the identifier to generate for it; where a
    /// path occurs in more than one pair, the first pair wins.
    pub types_aliases: Vec<(String, String)>,
    pub execution_version: ExecutionVersion,
}

impl Abigen {
    /// Settings with no aliases and the fee-bounded execution version.
    pub fn new(contract_name: &str, abi_source: &str) -> (r: Self)
        ensures
            r.contract_name@ == contract_name@,
            r.abi_source@ == abi_source@,
            r.types_aliases@.len() == 0,
            r.execution_version == ExecutionVersion::V1,
    {
        Abigen {
            contract_name: String::from_str(contract_name),
            abi_source: String::from_str(abi_source),
            types_aliases: Vec::new(),
            execution_version: ExecutionVersion::V1,
        }
    }

    /// Replaces the aliases of type paths.
    pub fn with_types_aliases(self, types_aliases: Vec<(String, String)>) -> (r: Self)
        ensures
            r.types_aliases == types_aliases,
            r.contract_name == self.contract_name,
            r.abi_source == self.abi_source,
            r.execution_version == self.execution_version,
    {
        Abigen { types_aliases, ..self }
    }

    /// Replaces the execution version.
    pub fn with_execution_version(self, execution_version: ExecutionVersion) -> (r: Self)
        ensures
            r.execution_version == execution_version,
            r.contract_name == self.contract_name,
            r.abi_source == self.abi_source,
            r.types_aliases == self.types_aliases,
    {
        Abigen { execution_version, ..self }
    }

    /// Generates the bindings of the ABI made of `entries`. It fails with the
    /// first problem met: in the entries, in their closure, in the names, or
    /// in the events.
    pub fn generate(&self, entries: Vec<AbiEntry>) -> (r: Result<ContractBindings, GenerateError>)
        ensures
            r is Ok <==> match tokenized(entries@) {
                Some(m) => names_distinct(m, self.types_aliases@) && events_known(m),
                None => false,
            },
            r matches Ok(b) ==> b.name == self.contract_name && b.tokens@ == bindings_text(
                self.contract_name@,
                tokenized(entries@)->0,
                self.types_aliases@,
                self.execution_version,
            ),
            r matches Err(g) ==> g.contract_name == self.contract_name && g.abi_source == self.abi_source
                && match collect(entries@) {
                Err(c) => g.error == c,
                Ok(m) => if !model_closed(m) {
                    reports_bad_reference(g.error, m)
                } else if !names_distinct(m, self.types_aliases@) {
                    collision_fault(g.error, m, self.types_aliases@)
                } else {
                    event_fault(g.error, m)
                },
            },
    {
        let res = match tokens_from_entries(entries) {
            Ok(t) => abi_to_tokenstream(
                self.contract_name.as_str(),
                &t,
                &self.types_aliases,
                self.execution_version,
            ),
            Err(e) => Err(e),
        };
        match res {
            Ok(tokens) => Ok(ContractBindings { name: self.contract_name.clone(), tokens }),
            Err(error) => Err(
                GenerateError {
                    contract_name: self.contract_name.clone(),
                    abi_source: self.abi_source.clone(),
                    error,
                },
            ),
        }
    }
}

} // verus!
