use cainome_rs::category::{classify, Category};
use cainome_rs::names::render_type_exec;
use cainome_rs::text::last_segment_exec;
use cainome_rs::tokenize::recognise_function;
use cainome_rs::{
    abi_to_tokenstream, tokens_from_entries, AbiEntry, AbiError, Abigen, EnumDecl,
    ExecutionVersion, Field, InterfaceDecl, RawFunction, StateMutability, StructDecl, Variant,
};

fn field(name: &str, ty: &str) -> Field {
    Field { name: name.to_string(), ty: ty.to_string() }
}

fn strukt(path: &str, fields: Vec<Field>) -> AbiEntry {
    AbiEntry::Struct(StructDecl { path: path.to_string(), fields })
}

fn func(name: &str, mutability: &str, inputs: Vec<Field>, outputs: Vec<&str>) -> RawFunction {
    RawFunction {
        name: name.to_string(),
        state_mutability: mutability.to_string(),
        inputs,
        outputs: outputs.into_iter().map(|s| s.to_string()).collect(),
    }
}

fn point_entries() -> Vec<AbiEntry> {
    vec![
        strukt(
            "pkg::Point",
            vec![field("x", "core::integer::u32"), field("y", "core::integer::u32")],
        ),
        AbiEntry::Function(func("get_point", "view", vec![], vec!["pkg::Point"])),
    ]
}

fn count(haystack: &str, needle: &str) -> usize {
    haystack.matches(needle).count()
}

#[test]
fn point_scenario_model() {
    let t = tokens_from_entries(point_entries()).unwrap();
    assert_eq!(t.structs.len(), 1);
    let s = &t.structs[0];
    assert_eq!(s.path, "pkg::Point");
    assert_eq!(s.fields.len(), 2);
    assert_eq!(s.fields[0].name, "x");
    assert_eq!(s.fields[1].name, "y");
    assert_eq!(classify(&s.fields[0].ty), Some(Category::Basic));
    assert_eq!(classify(&s.fields[1].ty), Some(Category::Basic));
    assert_eq!(t.functions.len(), 1);
    let f = &t.functions[0];
    assert_eq!(f.name, "get_point");
    assert!(f.inputs.is_empty());
    assert_eq!(f.outputs, vec!["pkg::Point".to_string()]);
    assert_eq!(classify(&f.outputs[0]), None);
    assert_eq!(f.state_mutability, StateMutability::View);
}

#[test]
fn point_scenario_generation() {
    let b = Abigen::new("MyContract", "point.json").generate(point_entries()).unwrap();
    assert_eq!(b.name, "MyContract");
    let code = b.tokens;
    assert!(code.contains("pub struct Point {\n    pub x: u32,\n    pub y: u32,\n}\n"));
    assert!(code.contains("pub struct MyContract<A: starknet::accounts::ConnectedAccount + Sync>"));
    assert!(code.contains("pub struct MyContractReader<P: starknet::providers::Provider + Sync>"));
    assert_eq!(count(&code, "pub fn get_point(&self)"), 2);
    assert!(code.contains("FCall<A::Provider, Point>"));
    assert!(code.contains("FCall<P, Point>"));
    let x = code.find("__rust.x").unwrap();
    let y = code.find("__rust.y").unwrap();
    assert!(x < y);
}

#[test]
fn classification_of_catalogue() {
    assert_eq!(classify("core::felt252"), Some(Category::Basic));
    assert_eq!(classify("core::starknet::contract_address::ContractAddress"), Some(Category::Basic));
    assert_eq!(classify("core::array::Span"), Some(Category::ArraySpan));
    assert_eq!(classify("core::array::Array"), Some(Category::ArraySpan));
    assert_eq!(classify("core::option::Option"), Some(Category::GenericBuiltin));
    assert_eq!(classify("core::internal::bounded_int::BoundedInt"), Some(Category::GenericBuiltin));
    assert_eq!(classify("core::integer::u256"), Some(Category::CompositeBuiltin));
    assert_eq!(classify("core::byte_array::ByteArray"), Some(Category::CompositeBuiltin));
    assert_eq!(classify("pkg::Foo"), None);
}

#[test]
fn classification_is_the_same_everywhere() {
    let al = vec![];
    assert_eq!(render_type_exec("core::integer::u256", &al), "cainome::cairo_serde::U256");
    assert_eq!(
        render_type_exec("core::array::Array::<core::integer::u256>", &al),
        "Vec<cainome::cairo_serde::U256>"
    );
    assert_eq!(
        render_type_exec(
            "core::option::Option::<core::array::Span::<core::option::Option::<core::integer::u256>>>",
            &al
        ),
        "Option<Vec<Option<cainome::cairo_serde::U256>>>"
    );
}

#[test]
fn nested_generics_render() {
    let al = vec![];
    assert_eq!(
        render_type_exec("core::result::Result::<core::integer::u64, core::felt252>", &al),
        "cainome::cairo_serde::Result<u64, starknet::core::types::Felt>"
    );
    assert_eq!(render_type_exec("()", &al), "()");
    assert_eq!(render_type_exec("pkg::inner::Thing", &al), "Thing");
}

#[test]
fn last_segment_of_paths() {
    assert_eq!(last_segment_exec("a::b::Cee"), "Cee");
    assert_eq!(last_segment_exec("Plain"), "Plain");
    assert_eq!(last_segment_exec(""), "");
}

#[test]
fn round_trip_scalar_and_composite_fields() {
    let entries = vec![strukt(
        "pkg::Pair",
        vec![field("a", "core::felt252"), field("b", "core::integer::u256")],
    )];
    let t = tokens_from_entries(entries).unwrap();
    let code = abi_to_tokenstream("C", &t, &vec![], ExecutionVersion::V1).unwrap();
    let decl = "pub struct Pair {\n    pub a: starknet::core::types::Felt,\n    pub b: cainome::cairo_serde::U256,\n}\n";
    assert!(code.contains(decl));
    assert_eq!(classify(&t.structs[0].fields[0].ty), Some(Category::Basic));
    assert_eq!(classify(&t.structs[0].fields[1].ty), Some(Category::CompositeBuiltin));
}

#[test]
fn unresolved_variant_payload() {
    let entries = vec![AbiEntry::Enum(EnumDecl {
        path: "pkg::E".to_string(),
        variants: vec![Variant { name: "A".to_string(), ty: Some("pkg::Missing".to_string()) }],
        is_event: false,
    })];
    match tokens_from_entries(entries) {
        Err(AbiError::UnresolvedReference(p, within)) => {
            assert_eq!(p, "pkg::Missing");
            assert_eq!(within, "pkg::E");
        }
        other => panic!("expected an unresolved reference, got {:?}", other),
    }
}

#[test]
fn unresolved_nested_argument() {
    let entries = vec![AbiEntry::Function(func(
        "f",
        "external",
        vec![field("v", "core::array::Array::<pkg::Nowhere>")],
        vec![],
    ))];
    match tokens_from_entries(entries) {
        Err(AbiError::UnresolvedReference(p, within)) => {
            assert_eq!(p, "pkg::Nowhere");
            assert_eq!(within, "f");
        }
        other => panic!("expected an unresolved reference, got {:?}", other),
    }
}

#[test]
fn event_payload_must_be_declared() {
    let entries = vec![AbiEntry::Enum(EnumDecl {
        path: "pkg::Event".to_string(),
        variants: vec![Variant { name: "Raw".to_string(), ty: Some("core::felt252".to_string()) }],
        is_event: true,
    })];
    let r = Abigen::new("C", "abi.json").generate(entries);
    match r {
        Err(g) => {
            assert_eq!(g.contract_name, "C");
            assert_eq!(g.abi_source, "abi.json");
            match g.error {
                AbiError::UnresolvedReference(p, w) => {
                    assert_eq!(p, "core::felt252");
                    assert_eq!(w, "pkg::Event");
                }
                other => panic!("expected an unresolved reference, got {:?}", other),
            }
        }
        Ok(_) => panic!("expected a failure"),
    }
}

#[test]
fn event_conversion_generated() {
    let entries = vec![
        strukt("pkg::Moved", vec![field("to", "core::felt252")]),
        AbiEntry::Enum(EnumDecl {
            path: "pkg::Event".to_string(),
            variants: vec![Variant { name: "Moved".to_string(), ty: Some("pkg::Moved".to_string()) }],
            is_event: true,
        }),
    ];
    let b = Abigen::new("C", "abi.json").generate(entries).unwrap();
    assert!(b.tokens.contains("impl From<Moved> for Event {"));
    assert!(b.tokens.contains("Event::Moved(__v)"));
}

#[test]
fn alias_reaches_every_reference() {
    let entries = vec![
        strukt("pkg::Foo", vec![field("v", "core::felt252")]),
        strukt("pkg::Holder", vec![field("inner", "core::option::Option::<pkg::Foo>")]),
        AbiEntry::Function(func(
            "take",
            "external",
            vec![field("foo", "core::array::Array::<pkg::Foo>")],
            vec![],
        )),
        AbiEntry::Function(func("give", "view", vec![], vec!["pkg::Foo"])),
    ];
    let aliases = vec![("pkg::Foo".to_string(), "Bar".to_string())];
    let b = Abigen::new("C", "abi.json").with_types_aliases(aliases).generate(entries).unwrap();
    let code = b.tokens;
    assert!(code.contains("pub struct Bar {"));
    assert!(code.contains("pub inner: Option<Bar>,"));
    assert!(code.contains("foo: &Vec<Bar>"));
    assert!(code.contains("FCall<A::Provider, Bar>"));
    assert_eq!(count(&code, "Foo"), 0);
}

#[test]
fn view_twice_external_once() {
    let entries = vec![
        AbiEntry::Function(func("read_it", "view", vec![], vec!["core::felt252"])),
        AbiEntry::Function(func("write_it", "external", vec![field("v", "core::felt252")], vec![])),
    ];
    let code = Abigen::new("C", "abi.json").generate(entries).unwrap().tokens;
    assert_eq!(count(&code, "pub fn read_it("), 2);
    assert_eq!(count(&code, "pub fn write_it("), 1);
    let reader = code.find("impl<P: starknet::providers::Provider + Sync> CReader<P> {\n    pub fn read_it").unwrap();
    assert!(code[reader..].find("write_it").is_none());
}

#[test]
fn execution_version_changes_only_externals() {
    let entries = || {
        vec![
            AbiEntry::Function(func("read_it", "view", vec![], vec!["core::felt252"])),
            AbiEntry::Function(func("write_it", "external", vec![field("v", "core::felt252")], vec![])),
        ]
    };
    let v1 = Abigen::new("C", "a").generate(entries()).unwrap().tokens;
    let v3 = Abigen::new("C", "a")
        .with_execution_version(ExecutionVersion::V3)
        .generate(entries())
        .unwrap()
        .tokens;
    assert_ne!(v1, v3);
    assert!(v1.contains("ExecutionV1<A>") && v1.contains("execute_v1"));
    assert!(v3.contains("ExecutionV3<A>") && v3.contains("execute_v3"));
    let read = |s: &str| {
        let i = s.find("    pub fn read_it").unwrap();
        let j = s[i..].find("\n    }\n").unwrap();
        s[i..i + j].to_string()
    };
    assert_eq!(read(&v1), read(&v3));
}

#[test]
fn interface_functions_are_merged() {
    let entries = vec![AbiEntry::Interface(InterfaceDecl {
        name: "pkg::IThing".to_string(),
        items: vec![func("ping", "external", vec![], vec![]), func("peek", "view", vec![], vec![])],
    })];
    let t = tokens_from_entries(entries).unwrap();
    assert_eq!(t.interfaces.len(), 1);
    assert_eq!(t.interfaces[0].1.len(), 2);
    let code = abi_to_tokenstream("C", &t, &vec![], ExecutionVersion::V1).unwrap();
    assert_eq!(count(&code, "pub fn ping("), 1);
    assert_eq!(count(&code, "pub fn peek("), 2);
    assert!(code.contains("FCall<P, ()>"));
}

#[test]
fn unknown_mutability_is_malformed() {
    match recognise_function(func("f", "pure", vec![], vec![])) {
        Err(AbiError::MalformedSource(w)) => assert_eq!(w, "pure"),
        other => panic!("expected malformed source, got {:?}", other),
    }
    let entries = vec![AbiEntry::Function(func("f", "payable", vec![], vec![]))];
    assert!(matches!(tokens_from_entries(entries), Err(AbiError::MalformedSource(_))));
}

#[test]
fn identical_redeclaration_is_kept_once() {
    let entries = vec![
        strukt("pkg::S", vec![field("a", "core::bool")]),
        strukt("pkg::S", vec![field("a", "core::bool")]),
    ];
    let t = tokens_from_entries(entries).unwrap();
    assert_eq!(t.structs.len(), 1);
}

#[test]
fn conflicting_redeclaration_fails() {
    let entries = vec![
        strukt("pkg::S", vec![field("a", "core::bool")]),
        strukt("pkg::S", vec![field("a", "core::felt252")]),
    ];
    match tokens_from_entries(entries) {
        Err(AbiError::ConflictingDefinition(p)) => assert_eq!(p, "pkg::S"),
        other => panic!("expected a conflict, got {:?}", other),
    }
}

#[test]
fn catalogued_struct_entry_is_not_user_defined() {
    let entries = vec![
        strukt("core::integer::u256", vec![field("low", "core::integer::u128"), field("high", "core::integer::u128")]),
        strukt("pkg::Amount", vec![field("v", "core::integer::u256")]),
    ];
    let t = tokens_from_entries(entries).unwrap();
    assert_eq!(t.structs.len(), 1);
    assert_eq!(t.structs[0].path, "pkg::Amount");
}

#[test]
fn name_collision_is_reported() {
    let entries = vec![
        strukt("a::Thing", vec![field("v", "core::bool")]),
        strukt("b::Thing", vec![field("v", "core::bool")]),
    ];
    let r = Abigen::new("C", "abi.json").generate(entries);
    match r {
        Err(g) => match g.error {
            AbiError::NameCollision(n, a, b) => {
                assert_eq!(n, "Thing");
                assert_eq!(a, "a::Thing");
                assert_eq!(b, "b::Thing");
            }
            other => panic!("expected a collision, got {:?}", other),
        },
        Ok(_) => panic!("expected a failure"),
    }
}

#[test]
fn alias_resolves_collision() {
    let entries = vec![
        strukt("a::Thing", vec![field("v", "core::bool")]),
        strukt("b::Thing", vec![field("v", "core::bool")]),
    ];
    let aliases = vec![("b::Thing".to_string(), "OtherThing".to_string())];
    let code = Abigen::new("C", "abi.json")
        .with_types_aliases(aliases)
        .generate(entries)
        .unwrap()
        .tokens;
    assert!(code.contains("pub struct Thing {"));
    assert!(code.contains("pub struct OtherThing {"));
}

#[test]
fn enum_indices_in_wire_order() {
    let entries = vec![AbiEntry::Enum(EnumDecl {
        path: "pkg::Dir".to_string(),
        variants: (0..12)
            .map(|i| Variant { name: format!("V{}", i), ty: None })
            .collect(),
        is_event: false,
    })];
    let code = Abigen::new("C", "abi.json").generate(entries).unwrap().tokens;
    assert!(code.contains("pub enum Dir {\n    V0,\n    V1,\n"));
    assert!(code.contains("Dir::V11 => {\n                __out.push(starknet::core::types::Felt::from(11usize));"));
    assert!(code.contains("            10 => Ok(Dir::V10),\n"));
}

#[test]
fn builder_settings() {
    let g = Abigen::new("Name", "path/to/abi.json");
    assert_eq!(g.contract_name, "Name");
    assert_eq!(g.abi_source, "path/to/abi.json");
    assert!(g.types_aliases.is_empty());
    assert_eq!(g.execution_version, ExecutionVersion::V1);
    let g = g.with_execution_version(ExecutionVersion::V3);
    assert_eq!(g.execution_version, ExecutionVersion::V3);
    assert_eq!(g.contract_name, "Name");
}

#[test]
fn generic_arity_is_checked() {
    let bad = |ty: &str| {
        vec![AbiEntry::Function(func("f", "view", vec![field("v", ty)], vec![]))]
    };
    for ty in [
        "core::result::Result::<core::felt252>",
        "core::option::Option::<core::felt252, core::bool>",
        "core::array::Array",
        "core::array::Span::<core::felt252",
    ] {
        match tokens_from_entries(bad(ty)) {
            Err(AbiError::MalformedSource(p)) => assert!(p.starts_with("core::")),
            other => panic!("expected malformed source for {}, got {:?}", ty, other),
        }
    }
    let good = "core::result::Result::<core::array::Array::<(core::felt252, core::bool)>, core::felt252>";
    assert!(tokens_from_entries(bad(good)).is_ok());
}

#[test]
fn struct_and_enum_on_one_path_conflict() {
    let entries = vec![
        strukt("pkg::P", vec![]),
        AbiEntry::Enum(EnumDecl { path: "pkg::P".to_string(), variants: vec![], is_event: false }),
    ];
    match tokens_from_entries(entries) {
        Err(AbiError::ConflictingDefinition(p)) => assert_eq!(p, "pkg::P"),
        other => panic!("expected a conflict, got {:?}", other),
    }
    let entries = vec![
        AbiEntry::Enum(EnumDecl { path: "pkg::P".to_string(), variants: vec![], is_event: false }),
        strukt("pkg::P", vec![]),
    ];
    assert!(matches!(tokens_from_entries(entries), Err(AbiError::ConflictingDefinition(_))));
}

#[test]
fn catalogued_generic_declarations_are_skipped() {
    let entries = vec![
        AbiEntry::Enum(EnumDecl {
            path: "core::option::Option::<core::felt252>".to_string(),
            variants: vec![
                Variant { name: "Some".to_string(), ty: Some("core::felt252".to_string()) },
                Variant { name: "None".to_string(), ty: None },
            ],
            is_event: false,
        }),
        strukt("core::array::Span::<core::felt252>", vec![field("snapshot", "@core::array::Array::<core::felt252>")]),
        strukt("pkg::S", vec![field("v", "core::option::Option::<core::felt252>")]),
    ];
    let t = tokens_from_entries(entries).unwrap();
    assert!(t.enums.is_empty());
    assert_eq!(t.structs.len(), 1);
    let code = abi_to_tokenstream("C", &t, &vec![], ExecutionVersion::V1).unwrap();
    assert!(code.contains("pub v: Option<starknet::core::types::Felt>,"));
    assert!(!code.contains("felt252>"));
}

#[test]
fn user_generic_struct_is_resolved_by_its_head() {
    let entries = vec![
        strukt("pkg::W::<core::felt252>", vec![field("v", "core::felt252")]),
        strukt("pkg::Holder", vec![field("w", "pkg::W::<core::felt252>")]),
    ];
    let t = tokens_from_entries(entries).unwrap();
    let code = abi_to_tokenstream("C", &t, &vec![], ExecutionVersion::V1).unwrap();
    assert!(code.contains("pub struct W {"));
    assert!(code.contains("pub w: W<starknet::core::types::Felt>,"));
}
