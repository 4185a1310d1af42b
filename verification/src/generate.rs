//! The generator: resolve the delegate field name, validate the structure's
//! shape, and assemble the forwarding implementation block.

use vstd::prelude::*;
use crate::descriptor::{
    DataShape, DirectivePayload, FieldList, ForwardingMethod, ImplBlock, Operation, StructAttr,
    StructInput,
};

verus! {

/// A fatal validation error: generation aborts with no partial output.
#[derive(Debug, Clone, PartialEq, Eq)]
pub enum GenError {
    /// A delegate-naming directive's payload was not a single string literal.
    InvalidDirective,
    /// The item the directive was attached to is not a structure at all.
    NotAStruct {
        /// The offending item's identifier.
        ident: String,
    },
    /// The structure's fields are not named (tuple-like or unit shape).
    NoNamedFields {
        /// The offending structure's identifier.
        ident: String,
    },
    /// No field of the structure carries the resolved delegate name.
    FieldNotFound {
        /// The structure's identifier.
        ident: String,
        /// The delegate name that matched no field.
        field: String,
    },
}

/// The delegate field name used when no naming directive is attached.
pub open spec fn default_delegate_name() -> Seq<char> {
    "component"@
}

/// Delegate-name resolution over the attributes still to be scanned, given
/// the name resolved so far: each well-formed directive replaces the name,
/// the first malformed directive aborts resolution, other attributes are
/// ignored.
pub open spec fn resolve_from(attrs: Seq<StructAttr>, current: Seq<char>) -> Option<Seq<char>>
    decreases attrs.len(),
{
    if attrs.len() == 0 {
        Some(current)
    } else {
        match attrs[0] {
            StructAttr::Directive(DirectivePayload::StringLiteral(s)) => resolve_from(
                attrs.skip(1),
                s@,
            ),
            StructAttr::Directive(DirectivePayload::Malformed) => None,
            StructAttr::Other => resolve_from(attrs.skip(1), current),
        }
    }
}

/// The delegate field name the attribute list resolves to: the value of the
/// last well-formed directive, or the default name when no directive is
/// present; `None` when some directive is malformed.
pub open spec fn spec_resolved_delegate(attrs: Seq<StructAttr>) -> Option<Seq<char>> {
    resolve_from(attrs, default_delegate_name())
}

/// Whether some field in `fields` is named `name`.
pub open spec fn has_field(fields: Seq<String>, name: Seq<char>) -> bool {
    exists|i: int| 0 <= i < fields.len() && fields[i]@ == name
}

/// Whether generation succeeds on `input`: the delegate name resolves, the
/// item is a record-shaped structure, and some field carries the resolved
/// name.
pub open spec fn generation_ok(input: StructInput) -> bool {
    &&& spec_resolved_delegate(input.attrs@) is Some
    &&& input.data matches DataShape::Struct(FieldList::Named(fields)) && has_field(
        fields@,
        spec_resolved_delegate(input.attrs@).unwrap(),
    )
}

/// The interface's five operations in their fixed order.
pub open spec fn operation_order() -> Seq<Operation> {
    seq![
        Operation::View,
        Operation::Query,
        Operation::Attr,
        Operation::State,
        Operation::Perform,
    ]
}

/// Whether `ib` is the implementation block generation owes for `input`:
/// scoped to the structure's identifier, its generic parameter list
/// reproduced unchanged, and one forwarding method per operation, in order,
/// each targeting the resolved delegate field.
pub open spec fn impl_matches(input: StructInput, ib: ImplBlock) -> bool {
    &&& ib.struct_ident@ == input.ident@
    &&& ib.generics@ == input.generics@
    &&& ib.methods@.len() == operation_order().len()
    &&& forall|i: int|
        0 <= i < ib.methods@.len() ==> (#[trigger] ib.methods@[i]).op == operation_order()[i]
    &&& forall|i: int|
        0 <= i < ib.methods@.len() ==> (#[trigger] ib.methods@[i]).delegate@
            == spec_resolved_delegate(input.attrs@).unwrap()
}

/// Whether `e` is the error generation owes for a failing `input`: a
/// malformed directive is reported first, then a non-structure shape, then a
/// structure without named fields, then a missing delegate field; the shape
/// and field errors name the structure.
pub open spec fn error_matches(input: StructInput, e: GenError) -> bool {
    if spec_resolved_delegate(input.attrs@) is None {
        e == GenError::InvalidDirective
    } else {
        match input.data {
            DataShape::Struct(FieldList::Named(fields)) => e matches GenError::FieldNotFound {
                ident,
                field,
            } && ident@ == input.ident@ && field@ == spec_resolved_delegate(
                input.attrs@,
            ).unwrap(),
            DataShape::Struct(_) => e matches GenError::NoNamedFields { ident } && ident@
                == input.ident@,
            _ => e matches GenError::NotAStruct { ident } && ident@ == input.ident@,
        }
    }
}

/// Resolve the delegate field name from the attribute list: the last
/// well-formed directive wins, the default name stands when no directive is
/// present, and any malformed directive is a fatal error.
pub fn resolve_delegate_name(attrs: &Vec<StructAttr>) -> (r: Result<String, GenError>)
    ensures
        match r {
            Ok(name) => spec_resolved_delegate(attrs@) == Some(name@),
            Err(e) => spec_resolved_delegate(attrs@) is None && e == GenError::InvalidDirective,
        },
{
    let mut name: String = "component".to_owned();
    let mut i: usize = 0;
    proof {
        assert(attrs@.skip(0) =~= attrs@);
    }
    while i < attrs.len()
        invariant
            i <= attrs@.len(),
            spec_resolved_delegate(attrs@) == resolve_from(attrs@.skip(i as int), name@),
        decreases attrs@.len() - i,
    {
        proof {
            assert(attrs@.skip(i as int)[0] == attrs@[i as int]);
            assert(attrs@.skip(i as int).skip(1) =~= attrs@.skip(i as int + 1));
        }
        match &attrs[i] {
            StructAttr::Directive(payload) => match payload {
                DirectivePayload::StringLiteral(s) => {
                    name = s.clone();
                },
                DirectivePayload::Malformed => {
                    return Err(GenError::InvalidDirective);
                },
            },
            StructAttr::Other => {},
        }
        i = i + 1;
    }
    proof {
        assert(attrs@.skip(i as int) =~= Seq::<StructAttr>::empty());
    }
    Ok(name)
}

/// Find the position of the field named `name`, scanning in declaration
/// order.
fn field_position(fields: &Vec<String>, name: &String) -> (r: Option<usize>)
    ensures
        match r {
            Some(i) => i < fields@.len() && fields@[i as int]@ == name@,
            None => !has_field(fields@, name@),
        },
{
    let mut i: usize = 0;
    while i < fields.len()
        invariant
            i <= fields@.len(),
            forall|j: int| 0 <= j < i ==> (#[trigger] fields@[j])@ != name@,
        decreases fields@.len() - i,
    {
        if fields[i] == *name {
            return Some(i);
        }
        i = i + 1;
    }
    None
}

/// Copy the generic parameter list unchanged.
fn copy_generics(generics: &Vec<String>) -> (r: Vec<String>)
    ensures
        r@ == generics@,
{
    let mut out: Vec<String> = Vec::new();
    let mut i: usize = 0;
    while i < generics.len()
        invariant
            i <= generics@.len(),
            out@ =~= generics@.subrange(0, i as int),
        decreases generics@.len() - i,
    {
        out.push(generics[i].clone());
        i = i + 1;
    }
    proof {
        assert(out@ =~= generics@);
    }
    out
}

/// Build the five forwarding methods, in the interface's fixed order, each
/// targeting the field named `delegate`.
fn build_methods(delegate: &String) -> (ms: Vec<ForwardingMethod>)
    ensures
        ms@.len() == operation_order().len(),
        forall|i: int| 0 <= i < ms@.len() ==> (#[trigger] ms@[i]).op == operation_order()[i],
        forall|i: int| 0 <= i < ms@.len() ==> (#[trigger] ms@[i]).delegate@ == delegate@,
{
    let mut ms: Vec<ForwardingMethod> = Vec::new();
    ms.push(ForwardingMethod { op: Operation::View, delegate: delegate.clone() });
    ms.push(ForwardingMethod { op: Operation::Query, delegate: delegate.clone() });
    ms.push(ForwardingMethod { op: Operation::Attr, delegate: delegate.clone() });
    ms.push(ForwardingMethod { op: Operation::State, delegate: delegate.clone() });
    ms.push(ForwardingMethod { op: Operation::Perform, delegate: delegate.clone() });
    ms
}

/// Generate the forwarding implementation block for one structure
/// definition, or fail fatally with the first validation error: a malformed
/// directive, a non-structure item, a structure without named fields, or a
/// missing delegate field. No partial output is ever produced.
pub fn generate(input: &StructInput) -> (r: Result<ImplBlock, GenError>)
    ensures
        match r {
            Ok(ib) => generation_ok(*input) && impl_matches(*input, ib),
            Err(e) => !generation_ok(*input) && error_matches(*input, e),
        },
{
    let name = match resolve_delegate_name(&input.attrs) {
        Ok(name) => name,
        Err(e) => {
            return Err(e);
        },
    };
    match &input.data {
        DataShape::Struct(fields) => match fields {
            FieldList::Named(field_names) => match field_position(field_names, &name) {
                Some(_) => Ok(
                    ImplBlock {
                        struct_ident: input.ident.clone(),
                        generics: copy_generics(&input.generics),
                        methods: build_methods(&name),
                    },
                ),
                None => Err(
                    GenError::FieldNotFound { ident: input.ident.clone(), field: name },
                ),
            },
            _ => Err(GenError::NoNamedFields { ident: input.ident.clone() }),
        },
        _ => Err(GenError::NotAStruct { ident: input.ident.clone() }),
    }
}

} // verus!
