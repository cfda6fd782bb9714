use vstd::prelude::*;

use crate::text::str_eq;

verus! {

/// The kinds of type that the core library provides and that bindings treat
/// specially rather than as a generated struct or enum.
#[derive(Clone, Copy, Debug, PartialEq, Eq, Structural)]
pub enum Category {
    /// A scalar with no inner structure.
    Basic,
    /// An array or a span: a sequence of one element type.
    ArraySpan,
    /// A container over one or more type arguments.
    GenericBuiltin,
    /// A built-in with inner structure, bound to a ready-made type.
    CompositeBuiltin,
}

/// The catalogue of core-library paths: for a catalogued path, its category
/// and the name of the type that stands for it in generated code. A path
/// that is not catalogued is a struct or an enum of the contract.
pub open spec fn builtin(p: Seq<char>) -> Option<(Category, Seq<char>)> {
    if p == "felt"@ {
        Some((Category::Basic, "starknet::core::types::Felt"@))
    } else if p == "core::felt252"@ {
        Some((Category::Basic, "starknet::core::types::Felt"@))
    } else if p == "core::bool"@ {
        Some((Category::Basic, "bool"@))
    } else if p == "core::integer::u8"@ {
        Some((Category::Basic, "u8"@))
    } else if p == "core::integer::u16"@ {
        Some((Category::Basic, "u16"@))
    } else if p == "core::integer::u32"@ {
        Some((Category::Basic, "u32"@))
    } else if p == "core::integer::u64"@ {
        Some((Category::Basic, "u64"@))
    } else if p == "core::integer::u128"@ {
        Some((Category::Basic, "u128"@))
    } else if p == "core::integer::usize"@ {
        Some((Category::Basic, "u64"@))
    } else if p == "core::integer::i8"@ {
        Some((Category::Basic, "i8"@))
    } else if p == "core::integer::i16"@ {
        Some((Category::Basic, "i16"@))
    } else if p == "core::integer::i32"@ {
        Some((Category::Basic, "i32"@))
    } else if p == "core::integer::i64"@ {
        Some((Category::Basic, "i64"@))
    } else if p == "core::integer::i128"@ {
        Some((Category::Basic, "i128"@))
    } else if p == "core::starknet::contract_address::ContractAddress"@ {
        Some((Category::Basic, "cainome::cairo_serde::ContractAddress"@))
    } else if p == "core::starknet::class_hash::ClassHash"@ {
        Some((Category::Basic, "cainome::cairo_serde::ClassHash"@))
    } else if p == "core::bytes_31::bytes31"@ {
        Some((Category::Basic, "starknet::core::types::Felt"@))
    } else if p == "core::array::Span"@ {
        Some((Category::ArraySpan, "Vec"@))
    } else if p == "core::array::Array"@ {
        Some((Category::ArraySpan, "Vec"@))
    } else if p == "core::option::Option"@ {
        Some((Category::GenericBuiltin, "Option"@))
    } else if p == "core::result::Result"@ {
        Some((Category::GenericBuiltin, "cainome::cairo_serde::Result"@))
    } else if p == "core::zeroable::NonZero"@ {
        Some((Category::GenericBuiltin, "cainome::cairo_serde::NonZero"@))
    } else if p == "core::internal::bounded_int::BoundedInt"@ {
        Some((Category::GenericBuiltin, "cainome::cairo_serde::BoundedInt"@))
    } else if p == "core::byte_array::ByteArray"@ {
        Some((Category::CompositeBuiltin, "cainome::cairo_serde::ByteArray"@))
    } else if p == "core::starknet::eth_address::EthAddress"@ {
        Some((Category::CompositeBuiltin, "cainome::cairo_serde::EthAddress"@))
    } else if p == "core::integer::u256"@ {
        Some((Category::CompositeBuiltin, "cainome::cairo_serde::U256"@))
    } else {
        None
    }
}

/// The category of a path, `None` for a contract-defined struct or enum.
pub open spec fn category_of(p: Seq<char>) -> Option<Category> {
    match builtin(p) {
        Some(b) => Some(b.0),
        None => None,
    }
}

/// The category that a generated type name stands for: the inverse of the
/// catalogue's binding, read on generated code.
pub open spec fn category_of_bound(n: Seq<char>) -> Option<Category> {
    if n == "starknet::core::types::Felt"@
        || n == "bool"@
        || n == "u8"@
        || n == "u16"@
        || n == "u32"@
        || n == "u64"@
        || n == "u128"@
        || n == "i8"@
        || n == "i16"@
        || n == "i32"@
        || n == "i64"@
        || n == "i128"@
        || n == "cainome::cairo_serde::ContractAddress"@
        || n == "cainome::cairo_serde::ClassHash"@ {
        Some(Category::Basic)
    } else if n == "Vec"@ {
        Some(Category::ArraySpan)
    } else if n == "Option"@
        || n == "cainome::cairo_serde::Result"@
        || n == "cainome::cairo_serde::NonZero"@
        || n == "cainome::cairo_serde::BoundedInt"@ {
        Some(Category::GenericBuiltin)
    } else if n == "cainome::cairo_serde::ByteArray"@
        || n == "cainome::cairo_serde::EthAddress"@
        || n == "cainome::cairo_serde::U256"@ {
        Some(Category::CompositeBuiltin)
    } else {
        None
    }
}

/// Reading a generated built-in type name back gives the category of the
/// path it was generated from.
pub proof fn lemma_bound_name_round_trip(p: Seq<char>)
    ensures
        builtin(p) matches Some(b) ==> category_of_bound(b.1) == Some(b.0),
{
    assert("starknet::core::types::Felt"@.len() == 27) by {
        reveal_strlit("starknet::core::types::Felt");
    }
    assert("bool"@.len() == 4) by {
        reveal_strlit("bool");
    }
    assert("u8"@.len() == 2) by {
        reveal_strlit("u8");
    }
    assert("u16"@.len() == 3 && "u16"@[0] == 'u') by {
        reveal_strlit("u16");
    }
    assert("u32"@.len() == 3 && "u32"@[0] == 'u') by {
        reveal_strlit("u32");
    }
    assert("u64"@.len() == 3 && "u64"@[0] == 'u') by {
        reveal_strlit("u64");
    }
    assert("u128"@.len() == 4) by {
        reveal_strlit("u128");
    }
    assert("i8"@.len() == 2) by {
        reveal_strlit("i8");
    }
    assert("i16"@.len() == 3 && "i16"@[0] == 'i') by {
        reveal_strlit("i16");
    }
    assert("i32"@.len() == 3 && "i32"@[0] == 'i') by {
        reveal_strlit("i32");
    }
    assert("i64"@.len() == 3 && "i64"@[0] == 'i') by {
        reveal_strlit("i64");
    }
    assert("i128"@.len() == 4) by {
        reveal_strlit("i128");
    }
    assert("cainome::cairo_serde::ContractAddress"@.len() == 37) by {
        reveal_strlit("cainome::cairo_serde::ContractAddress");
    }
    assert("cainome::cairo_serde::ClassHash"@.len() == 31 && "cainome::cairo_serde::ClassHash"@[22] == 'C') by {
        reveal_strlit("cainome::cairo_serde::ClassHash");
    }
    assert("Vec"@.len() == 3 && "Vec"@[0] == 'V') by {
        reveal_strlit("Vec");
    }
    assert("Option"@.len() == 6) by {
        reveal_strlit("Option");
    }
    assert("cainome::cairo_serde::Result"@.len() == 28) by {
        reveal_strlit("cainome::cairo_serde::Result");
    }
    assert("cainome::cairo_serde::NonZero"@.len() == 29) by {
        reveal_strlit("cainome::cairo_serde::NonZero");
    }
    assert("cainome::cairo_serde::BoundedInt"@.len() == 32 && "cainome::cairo_serde::BoundedInt"@[22] == 'B') by {
        reveal_strlit("cainome::cairo_serde::BoundedInt");
    }
    assert("cainome::cairo_serde::ByteArray"@.len() == 31 && "cainome::cairo_serde::ByteArray"@[22] == 'B') by {
        reveal_strlit("cainome::cairo_serde::ByteArray");
    }
    assert("cainome::cairo_serde::EthAddress"@.len() == 32 && "cainome::cairo_serde::EthAddress"@[22] == 'E') by {
        reveal_strlit("cainome::cairo_serde::EthAddress");
    }
    assert("cainome::cairo_serde::U256"@.len() == 26) by {
        reveal_strlit("cainome::cairo_serde::U256");
    }
}

/// How many type arguments a parametrized catalogued path takes.
pub open spec fn generic_arity(p: Seq<char>) -> Option<nat> {
    if p == "core::array::Span"@ || p == "core::array::Array"@ || p == "core::option::Option"@
        || p == "core::zeroable::NonZero"@ {
        Some(1)
    } else if p == "core::result::Result"@ || p == "core::internal::bounded_int::BoundedInt"@ {
        Some(2)
    } else {
        None
    }
}

/// The number of type arguments that a catalogued path takes, if it takes any.
pub fn generic_arity_exec(p: &str) -> (r: Option<usize>)
    ensures
        match r {
            Some(n) => generic_arity(p@) == Some(n as nat),
            None => generic_arity(p@) is None,
        },
{
    if str_eq(p, "core::array::Span") || str_eq(p, "core::array::Array") || str_eq(
        p,
        "core::option::Option",
    ) || str_eq(p, "core::zeroable::NonZero") {
        Some(1)
    } else if str_eq(p, "core::result::Result") || str_eq(p, "core::internal::bounded_int::BoundedInt") {
        Some(2)
    } else {
        None
    }
}

/// Looks a path up in the catalogue.
pub fn lookup_builtin(p: &str) -> (r: Option<(Category, &'static str)>)
    ensures
        match r {
            Some(b) => builtin(p@) == Some((b.0, b.1@)),
            None => builtin(p@) is None,
        },
{
    if str_eq(p, "felt") {
        Some((Category::Basic, "starknet::core::types::Felt"))
    } else if str_eq(p, "core::felt252") {
        Some((Category::Basic, "starknet::core::types::Felt"))
    } else if str_eq(p, "core::bool") {
        Some((Category::Basic, "bool"))
    } else if str_eq(p, "core::integer::u8") {
        Some((Category::Basic, "u8"))
    } else if str_eq(p, "core::integer::u16") {
        Some((Category::Basic, "u16"))
    } else if str_eq(p, "core::integer::u32") {
        Some((Category::Basic, "u32"))
    } else if str_eq(p, "core::integer::u64") {
        Some((Category::Basic, "u64"))
    } else if str_eq(p, "core::integer::u128") {
        Some((Category::Basic, "u128"))
    } else if str_eq(p, "core::integer::usize") {
        Some((Category::Basic, "u64"))
    } else if str_eq(p, "core::integer::i8") {
        Some((Category::Basic, "i8"))
    } else if str_eq(p, "core::integer::i16") {
        Some((Category::Basic, "i16"))
    } else if str_eq(p, "core::integer::i32") {
        Some((Category::Basic, "i32"))
    } else if str_eq(p, "core::integer::i64") {
        Some((Category::Basic, "i64"))
    } else if str_eq(p, "core::integer::i128") {
        Some((Category::Basic, "i128"))
    } else if str_eq(p, "core::starknet::contract_address::ContractAddress") {
        Some((Category::Basic, "cainome::cairo_serde::ContractAddress"))
    } else if str_eq(p, "core::starknet::class_hash::ClassHash") {
        Some((Category::Basic, "cainome::cairo_serde::ClassHash"))
    } else if str_eq(p, "core::bytes_31::bytes31") {
        Some((Category::Basic, "starknet::core::types::Felt"))
    } else if str_eq(p, "core::array::Span") {
        Some((Category::ArraySpan, "Vec"))
    } else if str_eq(p, "core::array::Array") {
        Some((Category::ArraySpan, "Vec"))
    } else if str_eq(p, "core::option::Option") {
        Some((Category::GenericBuiltin, "Option"))
    } else if str_eq(p, "core::result::Result") {
        Some((Category::GenericBuiltin, "cainome::cairo_serde::Result"))
    } else if str_eq(p, "core::zeroable::NonZero") {
        Some((Category::GenericBuiltin, "cainome::cairo_serde::NonZero"))
    } else if str_eq(p, "core::internal::bounded_int::BoundedInt") {
        Some((Category::GenericBuiltin, "cainome::cairo_serde::BoundedInt"))
    } else if str_eq(p, "core::byte_array::ByteArray") {
        Some((Category::CompositeBuiltin, "cainome::cairo_serde::ByteArray"))
    } else if str_eq(p, "core::starknet::eth_address::EthAddress") {
        Some((Category::CompositeBuiltin, "cainome::cairo_serde::EthAddress"))
    } else if str_eq(p, "core::integer::u256") {
        Some((Category::CompositeBuiltin, "cainome::cairo_serde::U256"))
    } else {
        None
    }
}

/// Classifies a path; `None` stands for a contract-defined struct or enum.
pub fn classify(p: &str) -> (r: Option<Category>)
    ensures
        r == category_of(p@),
{
    match lookup_builtin(p) {
        Some(b) => Some(b.0),
        None => None,
    }
}

} // verus!
