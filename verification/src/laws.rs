//! The generator's laws: what holds of every generation request, stated and
//! proved over the specification functions the contracts use.

use vstd::prelude::*;
use crate::descriptor::{DataShape, FieldList, ImplBlock, StructAttr, StructInput};
use crate::generate::{
    default_delegate_name, error_matches, generation_ok, has_field, impl_matches, resolve_from,
    spec_resolved_delegate, GenError,
};
use crate::render::generics_text;

verus! {

/// With no directive among the attributes still to be scanned, resolution
/// keeps the name it started from.
proof fn lemma_resolve_no_directive(attrs: Seq<StructAttr>, current: Seq<char>)
    requires
        forall|i: int|
            0 <= i < attrs.len() ==> !((#[trigger] attrs[i]) matches StructAttr::Directive(_)),
    ensures
        resolve_from(attrs, current) == Some(current),
    decreases attrs.len(),
{
    if attrs.len() > 0 {
        assert forall|i: int|
            0 <= i < attrs.skip(1).len() implies !((#[trigger] attrs.skip(
            1,
        )[i]) matches StructAttr::Directive(_)) by {
            assert(attrs.skip(1)[i] == attrs[i + 1]);
        }
        lemma_resolve_no_directive(attrs.skip(1), current);
    }
}

/// For every record-shaped structure carrying no naming directive whose
/// field list holds the default delegate name, generation succeeds, and
/// every method of an implementation block it owes forwards to the
/// default-named field.
pub proof fn lemma_default_delegate_generates(input: StructInput)
    requires
        forall|i: int|
            0 <= i < input.attrs@.len() ==> !((#[trigger] input.attrs@[i])
                matches StructAttr::Directive(_)),
        input.data matches DataShape::Struct(FieldList::Named(fields)) && has_field(
            fields@,
            default_delegate_name(),
        ),
    ensures
        generation_ok(input),
        spec_resolved_delegate(input.attrs@) == Some(default_delegate_name()),
        forall|ib: ImplBlock, i: int|
            impl_matches(input, ib) && 0 <= i < ib.methods@.len() ==> (#[trigger] ib.methods@[i]).delegate@
                == default_delegate_name(),
{
    lemma_resolve_no_directive(input.attrs@, default_delegate_name());
}

/// For every record-shaped structure whose attributes resolve the delegate
/// name to `name` and whose field list holds that name, generation succeeds
/// and every owed method targets that field — whether or not a field of the
/// default name also exists.
pub proof fn lemma_directive_selects_field(input: StructInput, name: Seq<char>)
    requires
        spec_resolved_delegate(input.attrs@) == Some(name),
        input.data matches DataShape::Struct(FieldList::Named(fields)) && has_field(fields@, name),
    ensures
        generation_ok(input),
        forall|ib: ImplBlock, i: int|
            impl_matches(input, ib) && 0 <= i < ib.methods@.len() ==> (#[trigger] ib.methods@[i]).delegate@
                == name,
{
}

/// For every record-shaped structure lacking a field of the resolved
/// delegate name, generation fails: no implementation block is owed, and
/// the owed error names both the structure and the missing field.
pub proof fn lemma_missing_field_fails(input: StructInput, name: Seq<char>)
    requires
        spec_resolved_delegate(input.attrs@) == Some(name),
        input.data matches DataShape::Struct(FieldList::Named(fields)) && !has_field(
            fields@,
            name,
        ),
    ensures
        !generation_ok(input),
        forall|e: GenError|
            #[trigger] error_matches(input, e) ==> (e matches GenError::FieldNotFound {
                ident,
                field,
            } && ident@ == input.ident@ && field@ == name),
{
}

/// For every item that is not a record-shaped structure, generation fails,
/// whatever directives are attached.
pub proof fn lemma_non_record_fails(input: StructInput)
    requires
        !(input.data matches DataShape::Struct(FieldList::Named(_))),
    ensures
        !generation_ok(input),
{
}

/// Every implementation block generation owes reproduces the structure's
/// generic parameter list unchanged, down to the rendered text.
pub proof fn lemma_generics_preserved(input: StructInput, ib: ImplBlock)
    requires
        impl_matches(input, ib),
    ensures
        ib.generics@ == input.generics@,
        generics_text(ib.generics@) == generics_text(input.generics@),
{
}

} // verus!
