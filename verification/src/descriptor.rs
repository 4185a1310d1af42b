//! Compile-time descriptions: what the generator reads of a structure
//! definition, and what it produces.

use vstd::prelude::*;

verus! {

/// The payload of a delegate-naming directive attached to a structure.
#[derive(Debug, Clone, PartialEq, Eq)]
pub enum DirectivePayload {
    /// The directive carried exactly one string literal: the name of the
    /// field to forward to.
    StringLiteral(String),
    /// The directive carried anything else; generation must fail.
    Malformed,
}

/// One attribute attached to the structure, reduced to what generation reads.
#[derive(Debug, Clone, PartialEq, Eq)]
pub enum StructAttr {
    /// A delegate-naming directive with its payload.
    Directive(DirectivePayload),
    /// Any other attribute; generation ignores it.
    Other,
}

/// The field list of a structure definition.
#[derive(Debug, Clone, PartialEq, Eq)]
pub enum FieldList {
    /// Record-like: every field is named. Holds the field names in
    /// declaration order; names are unique within one structure.
    Named(Vec<String>),
    /// Tuple-like: the fields are positional.
    Unnamed,
    /// No fields at all.
    Unit,
}

/// The shape of the item the generation directive was attached to.
#[derive(Debug, Clone, PartialEq, Eq)]
pub enum DataShape {
    /// A structure with the given field list.
    Struct(FieldList),
    /// An enumeration.
    Enum,
    /// A union.
    Union,
}

/// Everything the generator reads of one structure definition.
#[derive(Debug, Clone, PartialEq, Eq)]
pub struct StructInput {
    /// The structure's identifier.
    pub ident: String,
    /// The generic parameter list, one entry per parameter, each as written
    /// in the definition (empty for a non-generic structure).
    pub generics: Vec<String>,
    /// The attributes attached to the definition, in source order.
    pub attrs: Vec<StructAttr>,
    /// The shape of the item.
    pub data: DataShape,
}

/// The five fixed operations of the mock-component interface.
#[derive(Debug, Clone, Copy, PartialEq, Eq, Structural)]
pub enum Operation {
    /// Render into a drawing surface: takes a surface handle and an area.
    View,
    /// Query an attribute: takes a key, returns an optional value.
    Query,
    /// Set an attribute: takes a key and a value.
    Attr,
    /// Report the component's state.
    State,
    /// Perform a command, returning its result.
    Perform,
}

/// One generated method: `op`, forwarded to the same-named operation on the
/// field `delegate`, passing every argument through unchanged and returning
/// the callee's result unchanged.
#[derive(Debug, Clone, PartialEq, Eq)]
pub struct ForwardingMethod {
    /// Which of the five operations this method implements.
    pub op: Operation,
    /// The name of the field the call is forwarded to.
    pub delegate: String,
}

/// The generated implementation block: the five forwarding methods, scoped
/// to the structure's identifier and its original generic parameter list.
#[derive(Debug, Clone, PartialEq, Eq)]
pub struct ImplBlock {
    /// The identifier of the structure the block is for.
    pub struct_ident: String,
    /// The structure's generic parameter list, reproduced unchanged.
    pub generics: Vec<String>,
    /// The five forwarding methods, in the interface's fixed order.
    pub methods: Vec<ForwardingMethod>,
}

} // verus!
