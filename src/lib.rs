//! Typed client bindings for Starknet contracts, generated from their ABI.
//!
//! An ABI is a list of entries (structs, enums, functions, interfaces).
//! Tokenizing it gives a model whose paths are unique and whose type
//! references all resolve; generating walks that model and writes the source
//! of a contract type, a reader type, and one type per struct and enum.
pub mod abi;
pub mod bindings;
pub mod category;
pub mod closure;
pub mod generate;
pub mod lemmas;
pub mod names;
pub mod text;
pub mod tokenize;

pub use abi::{
    AbiEntry, AbiError, EnumDecl, ExecutionVersion, Field, FunctionDecl, InterfaceDecl,
    RawFunction, StateMutability, StructDecl, TokenizedAbi, Variant,
};
pub use bindings::{abi_to_tokenstream, tokens_from_entries, Abigen, ContractBindings, GenerateError};
