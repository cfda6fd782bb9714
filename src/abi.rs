use vstd::prelude::*;

verus! {

/// Whether a contract function only reads state or may change it.
#[derive(Clone, Copy, Debug, PartialEq, Eq, Structural)]
pub enum StateMutability {
    View,
    External,
}

/// The transaction convention used by calls that change state.
#[derive(Clone, Copy, Debug, PartialEq, Eq, Structural)]
pub enum ExecutionVersion {
    /// Fee-bounded transactions.
    V1,
    /// Resource-bounded transactions.
    V3,
}

/// A named member with its type reference, as the ABI writes it.
#[derive(Debug)]
pub struct Field {
    pub name: String,
    pub ty: String,
}

/// An enum variant; `ty` is `None` for a variant without payload.
#[derive(Debug)]
pub struct Variant {
    pub name: String,
    pub ty: Option<String>,
}

/// A struct of the contract: its full path and its fields in wire order.
#[derive(Debug)]
pub struct StructDecl {
    pub path: String,
    pub fields: Vec<Field>,
}

/// An enum of the contract: its full path and its variants in wire order.
/// An event enum also gets a conversion from emitted events.
#[derive(Debug)]
pub struct EnumDecl {
    pub path: String,
    pub variants: Vec<Variant>,
    pub is_event: bool,
}

/// A function entry as the ABI writes it, its mutability still a word.
#[derive(Debug)]
pub struct RawFunction {
    pub name: String,
    pub state_mutability: String,
    pub inputs: Vec<Field>,
    pub outputs: Vec<String>,
}

/// A function with its mutability recognised.
#[derive(Debug)]
pub struct FunctionDecl {
    pub name: String,
    pub state_mutability: StateMutability,
    pub inputs: Vec<Field>,
    pub outputs: Vec<String>,
}

/// A group of functions declared under an interface name.
#[derive(Debug)]
pub struct InterfaceDecl {
    pub name: String,
    pub items: Vec<RawFunction>,
}

/// One entry of an ABI.
#[derive(Debug)]
pub enum AbiEntry {
    Struct(StructDecl),
    Enum(EnumDecl),
    Function(RawFunction),
    Interface(InterfaceDecl),
}

/// A tokenized ABI: structs and enums keyed by path, top-level functions,
/// and the functions of each interface.
#[derive(Debug)]
pub struct TokenizedAbi {
    pub structs: Vec<StructDecl>,
    pub enums: Vec<EnumDecl>,
    pub functions: Vec<FunctionDecl>,
    pub interfaces: Vec<(String, Vec<FunctionDecl>)>,
}

/// Why an ABI could not be turned into bindings.
#[derive(Debug)]
pub enum AbiError {
    /// The source does not have an accepted shape; holds what was wrong.
    MalformedSource(String),
    /// A path declared twice with different shapes.
    ConflictingDefinition(String),
    /// A path used but never declared, and the entity that uses it.
    UnresolvedReference(String, String),
    /// An identifier that two different declared paths would both be
    /// generated as: the identifier, then the two paths.
    NameCollision(String, String, String),
}

/// A tokenized ABI as sequences.
pub ghost struct AbiModel {
    pub structs: Seq<StructDecl>,
    pub enums: Seq<EnumDecl>,
    pub functions: Seq<FunctionDecl>,
    pub interfaces: Seq<(String, Seq<FunctionDecl>)>,
}

impl TokenizedAbi {
    pub open spec fn view(&self) -> AbiModel {
        AbiModel {
            structs: self.structs@,
            enums: self.enums@,
            functions: self.functions@,
            interfaces: self.interfaces@.map_values(|g: (String, Vec<FunctionDecl>)| (g.0, g.1@)),
        }
    }
}

pub open spec fn field_shape(f: Field) -> (Seq<char>, Seq<char>) {
    (f.name@, f.ty@)
}

pub open spec fn variant_shape(v: Variant) -> (Seq<char>, Option<Seq<char>>) {
    (
        v.name@,
        match v.ty {
            Some(t) => Some(t@),
            None => None,
        },
    )
}

/// Two struct declarations with the same fields, in the same order.
pub open spec fn same_struct(a: StructDecl, b: StructDecl) -> bool {
    a.fields@.map_values(|f: Field| field_shape(f)) == b.fields@.map_values(|f: Field| field_shape(f))
}

/// Two enum declarations with the same variants, in the same order.
pub open spec fn same_enum(a: EnumDecl, b: EnumDecl) -> bool {
    a.variants@.map_values(|v: Variant| variant_shape(v)) == b.variants@.map_values(
        |v: Variant| variant_shape(v),
    ) && a.is_event == b.is_event
}

} // verus!
