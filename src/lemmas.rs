use vstd::prelude::*;
use vstd::seq_lib::lemma_concat_associative;

use crate::abi::{
    AbiEntry, AbiModel, EnumDecl, ExecutionVersion, Field, FunctionDecl, StateMutability, StructDecl,
};
use crate::bindings::tokenized;
use crate::category::{builtin, category_of, category_of_bound, lemma_bound_name_round_trip};
use crate::closure::{model_closed, resolved, type_closed, variants_closed};
use crate::generate::{
    arg_decls, bindings_text, contract_decl, enum_decl, enums_text, external_fn, external_item,
    externals_text, field_decl, field_decls, group_externals, group_views, struct_decl, structs_text,
    variant_decls, view_fn, view_item, views_text,
};
use crate::names::{alias_of, name_of, render_from};
use crate::text::{decl_key, is_delim, is_seg_start, path_at, seg_end};
use crate::tokenize::collect;

verus! {

/// Wherever a path occurs in a type reference (a field, a parameter, an
/// output, a generic argument at any depth), it is classified and rendered
/// by its text alone: the rendering at that place is the path's generated
/// name, and two occurrences of one path get one category and one name.
pub proof fn lemma_uniform_classification(
    s: Seq<char>,
    i: int,
    t: Seq<char>,
    j: int,
    al: Seq<(String, String)>,
)
    requires
        0 <= i < s.len(),
        !is_delim(s[i]),
        0 <= j < t.len(),
        !is_delim(t[j]),
        path_at(s, i) == path_at(t, j),
    ensures
        render_from(s, i, al) == name_of(path_at(s, i), al) + render_from(s, seg_end(s, i), al),
        render_from(t, j, al) == name_of(path_at(t, j), al) + render_from(t, seg_end(t, j), al),
        category_of(path_at(s, i)) == category_of(path_at(t, j)),
        name_of(path_at(s, i), al) == name_of(path_at(t, j), al),
{
}

/// Declaring a struct keeps its fields' number and order: the declaration of
/// two fields is the first field's line, then the second's. A catalogued
/// field type is written as the type that the catalogue binds to its path,
/// and reading that generated name back gives the path's category again.
pub proof fn lemma_two_field_declaration(f1: Field, f2: Field, al: Seq<(String, String)>)
    ensures
        field_decls(seq![f1, f2], al) == field_decl(f1, al) + field_decl(f2, al),
        builtin(f1.ty@) matches Some(b) ==> name_of(f1.ty@, al) == b.1,
        builtin(f2.ty@) matches Some(b) ==> name_of(f2.ty@, al) == b.1,
        category_of(f1.ty@) is Some ==> category_of_bound(name_of(f1.ty@, al)) == category_of(f1.ty@),
        category_of(f2.ty@) is Some ==> category_of_bound(name_of(f2.ty@, al)) == category_of(f2.ty@),
{
    lemma_bound_name_round_trip(f1.ty@);
    lemma_bound_name_round_trip(f2.ty@);
    let fs = seq![f1, f2];
    assert(fs.drop_last() =~= seq![f1]);
    assert(seq![f1].drop_last() =~= Seq::<Field>::empty());
    assert(field_decls(Seq::<Field>::empty(), al) == Seq::<char>::empty());
    assert(field_decls(seq![f1], al) == field_decls(Seq::<Field>::empty(), al) + field_decl(f1, al));
    assert(field_decls(seq![f1], al) =~= field_decl(f1, al));
}

/// An enum variant whose payload names a path that is neither catalogued nor
/// declared as a struct or enum makes tokenization fail: the entries have
/// no tokenized model.
pub proof fn lemma_unresolved_payload_fails(es: Seq<AbiEntry>, m: AbiModel, k: int, v: int, i: int)
    requires
        collect(es) == Ok::<AbiModel, crate::abi::AbiError>(m),
        0 <= k < m.enums.len(),
        0 <= v < m.enums[k].variants@.len(),
        m.enums[k].variants@[v].ty is Some,
        is_seg_start(m.enums[k].variants@[v].ty->0@, i),
        !resolved(path_at(m.enums[k].variants@[v].ty->0@, i), m),
    ensures
        !model_closed(m),
        tokenized(es) is None,
{
    let t = m.enums[k].variants@[v].ty->0@;
    assert(!type_closed(t, m));
    assert(!variants_closed(m.enums[k].variants@, m));
}

/// An alias reaches every reference: a non-catalogued path aliased to `b` is
/// generated as `b`, in its own declaration and at every place where a type
/// reference names it.
pub proof fn lemma_alias_everywhere(
    p: Seq<char>,
    b: Seq<char>,
    al: Seq<(String, String)>,
    s: Seq<char>,
    i: int,
)
    requires
        category_of(p) is None,
        alias_of(al, p) == Some(b),
        0 <= i < s.len(),
        !is_delim(s[i]),
        path_at(s, i) == p,
    ensures
        name_of(p, al) == b,
        render_from(s, i, al) == b + render_from(s, seg_end(s, i), al),
{
}

/// A view function is generated on both surfaces, the contract's and the
/// reader's, and never as a state-changing method; an external function is
/// generated once, as a state-changing method of the contract type.
pub proof fn lemma_mutability_partition(f: FunctionDecl, al: Seq<(String, String)>, v: ExecutionVersion)
    ensures
        f.state_mutability == StateMutability::View ==> views_text(seq![f], al, false) == view_fn(
            f,
            al,
            false,
        ) && views_text(seq![f], al, true) == view_fn(f, al, true) && externals_text(
            seq![f],
            al,
            v,
        ) == Seq::<char>::empty(),
        f.state_mutability == StateMutability::External ==> views_text(seq![f], al, false)
            == Seq::<char>::empty() && views_text(seq![f], al, true) == Seq::<char>::empty()
            && externals_text(seq![f], al, v) == external_fn(f, al, v),
{
    assert(seq![f].drop_last() =~= Seq::<FunctionDecl>::empty());
    let e = Seq::<FunctionDecl>::empty();
    assert(views_text(e, al, false) == Seq::<char>::empty());
    assert(views_text(e, al, true) == Seq::<char>::empty());
    assert(externals_text(e, al, v) == Seq::<char>::empty());
    assert(views_text(seq![f], al, false) == views_text(e, al, false) + view_item(f, al, false));
    assert(views_text(seq![f], al, true) == views_text(e, al, true) + view_item(f, al, true));
    assert(externals_text(seq![f], al, v) == externals_text(e, al, v) + external_item(f, al, v));
    assert(views_text(seq![f], al, false) =~= view_item(f, al, false));
    assert(views_text(seq![f], al, true) =~= view_item(f, al, true));
    assert(externals_text(seq![f], al, v) =~= external_item(f, al, v));
}

/// The execution version changes the transaction built by a state-changing
/// method and nothing that a read method holds: read methods take no
/// version, and the two versions give different state-changing methods.
pub proof fn lemma_execution_version(f: FunctionDecl, al: Seq<(String, String)>)
    ensures
        external_fn(f, al, ExecutionVersion::V1) != external_fn(f, al, ExecutionVersion::V3),
{
    let pre = "    pub fn "@ + f.name@ + "(&self"@ + arg_decls(f.inputs@, al) + ") -> starknet::accounts::"@;
    reveal_strlit("ExecutionV1");
    reveal_strlit("ExecutionV3");
    let a = external_fn(f, al, ExecutionVersion::V1);
    let b = external_fn(f, al, ExecutionVersion::V3);
    assert(a[pre.len() + 10int] == '1');
    assert(b[pre.len() + 10int] == '3');
}


/// The source before the state-changing methods: the types, then the
/// contract type's read methods. It takes no execution version.
pub open spec fn text_before_externals(n: Seq<char>, m: AbiModel, al: Seq<(String, String)>) -> Seq<char> {
    ""@ + contract_decl(n) + structs_text(m.structs, al) + enums_text(m.enums, al) + "impl<A: starknet::accounts::ConnectedAccount + Sync> "@ + n
        + "<A> {\n"@ + views_text(m.functions, al, false) + group_views(m.interfaces, al, false)
}

/// The source after the state-changing methods: the reader type's read
/// methods. It takes no execution version.
pub open spec fn text_after_externals(n: Seq<char>, m: AbiModel, al: Seq<(String, String)>) -> Seq<char> {
    "}\n\nimpl<P: starknet::providers::Provider + Sync> "@ + n + "Reader<P> {\n"@ + views_text(m.functions, al, true) + group_views(
        m.interfaces,
        al,
        true,
    ) + "}\n"@
}

/// The execution version reaches only the state-changing methods: the whole
/// source is a part that no version changes, the state-changing methods of
/// every function, and another part that no version changes. Read methods,
/// on both surfaces, lie in the unchanged parts.
pub proof fn lemma_version_reaches_only_externals(
    n: Seq<char>,
    m: AbiModel,
    al: Seq<(String, String)>,
    v: ExecutionVersion,
)
    ensures
        bindings_text(n, m, al, v) == text_before_externals(n, m, al) + externals_text(m.functions, al, v)
            + group_externals(m.interfaces, al, v) + text_after_externals(n, m, al),
{
    let b = text_before_externals(n, m, al);
    let e1 = externals_text(m.functions, al, v);
    let e2 = group_externals(m.interfaces, al, v);
    let r1 = "}\n\nimpl<P: starknet::providers::Provider + Sync> "@;
    let r2 = "Reader<P> {\n"@;
    let r3 = views_text(m.functions, al, true);
    let r4 = group_views(m.interfaces, al, true);
    let r5 = "}\n"@;
    let x = b + e1 + e2;
    assert(bindings_text(n, m, al, v) == x + r1 + n + r2 + r3 + r4 + r5);
    lemma_concat_associative(x, r1, n);
    lemma_concat_associative(x, r1 + n, r2);
    lemma_concat_associative(x, r1 + n + r2, r3);
    lemma_concat_associative(x, r1 + n + r2 + r3, r4);
    lemma_concat_associative(x, r1 + n + r2 + r3 + r4, r5);
}

/// With one top-level function and no interface, a view function gives one
/// read method on the contract type and one on the reader type; an
/// external function gives one state-changing method on the contract type
/// and nothing on the reader type.
pub proof fn lemma_surfaces_of_one_function(
    n: Seq<char>,
    m: AbiModel,
    al: Seq<(String, String)>,
    v: ExecutionVersion,
    f: FunctionDecl,
)
    requires
        m.functions == seq![f],
        m.interfaces.len() == 0,
    ensures
        f.state_mutability == StateMutability::View ==> bindings_text(n, m, al, v) == ""@ + contract_decl(n)
            + structs_text(m.structs, al) + enums_text(m.enums, al) + "impl<A: starknet::accounts::ConnectedAccount + Sync> "@ + n + "<A> {\n"@ + view_fn(
            f,
            al,
            false,
        ) + "}\n\nimpl<P: starknet::providers::Provider + Sync> "@ + n + "Reader<P> {\n"@ + view_fn(f, al, true) + "}\n"@,
        f.state_mutability == StateMutability::External ==> bindings_text(n, m, al, v) == ""@
            + contract_decl(n) + structs_text(m.structs, al) + enums_text(m.enums, al) + "impl<A: starknet::accounts::ConnectedAccount + Sync> "@ + n
            + "<A> {\n"@ + external_fn(f, al, v) + "}\n\nimpl<P: starknet::providers::Provider + Sync> "@ + n + "Reader<P> {\n"@ + "}\n"@,
{
    lemma_mutability_partition(f, al, v);
    assert(m.interfaces =~= Seq::<(String, Seq<FunctionDecl>)>::empty());
    assert(group_views(m.interfaces, al, false) == Seq::<char>::empty());
    assert(group_views(m.interfaces, al, true) == Seq::<char>::empty());
    assert(group_externals(m.interfaces, al, v) == Seq::<char>::empty());
    let c = ""@ + contract_decl(n) + structs_text(m.structs, al) + enums_text(m.enums, al) + "impl<A: starknet::accounts::ConnectedAccount + Sync> "@ + n + "<A> {\n"@;
    let r = "}\n\nimpl<P: starknet::providers::Provider + Sync> "@ + n + "Reader<P> {\n"@;
    let e = Seq::<char>::empty();
    if f.state_mutability == StateMutability::View {
        let a = view_fn(f, al, false);
        let b = view_fn(f, al, true);
        assert(bindings_text(n, m, al, v) == c + a + e + e + e + "}\n\nimpl<P: starknet::providers::Provider + Sync> "@ + n + "Reader<P> {\n"@ + b + e + "}\n"@);
        assert(c + a + e + e + e =~= c + a);
        assert(b + e =~= b);
    } else {
        let x = external_fn(f, al, v);
        assert(bindings_text(n, m, al, v) == c + e + e + x + e + "}\n\nimpl<P: starknet::providers::Provider + Sync> "@ + n + "Reader<P> {\n"@ + e + e + "}\n"@);
        assert(c + e + e + x + e =~= c + x);
        assert(r + e + e =~= r);
    }
}

/// An alias reaches declarations too: a struct or enum whose key is aliased
/// to `b` is declared, and given its wire encoding, under the name `b`.
pub proof fn lemma_alias_in_declarations(p: Seq<char>, b: Seq<char>, al: Seq<(String, String)>, s: StructDecl, e: EnumDecl)
    requires
        category_of(p) is None,
        alias_of(al, p) == Some(b),
    ensures
        decl_key(s.path@) == p ==> struct_decl(s, al) == "#[derive(Debug, PartialEq, PartialOrd, Clone)]\npub struct "@ + b
            + " {\n"@ + field_decls(s.fields@, al) + "}\n\n"@,
        decl_key(e.path@) == p ==> enum_decl(e, al) == "#[derive(Debug, PartialEq, PartialOrd, Clone)]\npub enum "@ + b
            + " {\n"@ + variant_decls(e.variants@, al) + "}\n\n"@,
{
}

} // verus!
