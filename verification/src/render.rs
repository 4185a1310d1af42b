//! Rendering an implementation block as Rust source text.
//!
//! The text places the block inside an anonymous constant so the interface
//! names it needs are brought into scope only there, without polluting the
//! caller's surrounding scope.

use vstd::prelude::*;
use vstd::string::StringExecFns;
use crate::descriptor::{ForwardingMethod, ImplBlock, Operation};

verus! {

/// The opening text of a forwarding method, up to the delegate field name.
pub open spec fn method_open(op: Operation) -> Seq<char> {
    match op {
        Operation::View => "fn view(&mut self, frame: &mut Frame, area: Rect) { self."@,
        Operation::Query => "fn query(&self, attr: Attribute) -> Option<AttrValue> { self."@,
        Operation::Attr => "fn attr(&mut self, query: Attribute, attr: AttrValue) { self."@,
        Operation::State => "fn state(&self) -> State { self."@,
        Operation::Perform => "fn perform(&mut self, cmd: Cmd) -> CmdResult { self."@,
    }
}

/// The closing text of a forwarding method: the forwarded call on the
/// delegate field, with the method's own arguments passed through unchanged.
pub open spec fn method_close(op: Operation) -> Seq<char> {
    match op {
        Operation::View => ".view(frame, area); }"@,
        Operation::Query => ".query(attr) }"@,
        Operation::Attr => ".attr(query, attr) }"@,
        Operation::State => ".state() }"@,
        Operation::Perform => ".perform(cmd) }"@,
    }
}

/// The full text of one forwarding method.
pub open spec fn method_text(m: ForwardingMethod) -> Seq<char> {
    method_open(m.op) + m.delegate@ + method_close(m.op)
}

/// The method texts in order, each followed by one space.
pub open spec fn methods_text(ms: Seq<ForwardingMethod>) -> Seq<char>
    decreases ms.len(),
{
    if ms.len() == 0 {
        Seq::empty()
    } else {
        methods_text(ms.drop_last()) + method_text(ms.last()) + " "@
    }
}

/// The generic parameter texts joined by comma and space.
pub open spec fn joined_params(params: Seq<String>) -> Seq<char>
    decreases params.len(),
{
    if params.len() == 0 {
        Seq::empty()
    } else if params.len() == 1 {
        params[0]@
    } else {
        joined_params(params.drop_last()) + ", "@ + params.last()@
    }
}

/// The generic parameter list in angle brackets, or nothing when the list is
/// empty.
pub open spec fn generics_text(params: Seq<String>) -> Seq<char> {
    if params.len() == 0 {
        Seq::empty()
    } else {
        "<"@ + joined_params(params) + ">"@
    }
}

/// The text that opens the anonymous constant and brings the interface names
/// into scope, up to the `impl` keyword.
pub open spec fn preamble_text() -> Seq<char> {
    "const _: () = { use ::tuirealm::command::{Cmd, CmdResult}; use ::tuirealm::ratatui::layout::Rect; use ::tuirealm::{Attribute, AttrValue, Frame, MockComponent, State}; impl"@
}

/// The full source text of a rendered implementation block: the scoped
/// imports, then the implementation of the interface for the structure with
/// its generic parameter list reproduced in both positions, then the five
/// forwarding methods.
pub open spec fn impl_text(ib: ImplBlock) -> Seq<char> {
    preamble_text() + generics_text(ib.generics@) + " MockComponent for "@ + ib.struct_ident@
        + generics_text(ib.generics@) + " { "@ + methods_text(ib.methods@) + "} };"@
}

/// Render one forwarding method as source text.
pub fn render_method(m: &ForwardingMethod) -> (r: String)
    ensures
        r@ == method_text(*m),
{
    let mut s: String = match m.op {
        Operation::View => "fn view(&mut self, frame: &mut Frame, area: Rect) { self.".to_owned(),
        Operation::Query => "fn query(&self, attr: Attribute) -> Option<AttrValue> { self.".to_owned(),
        Operation::Attr => "fn attr(&mut self, query: Attribute, attr: AttrValue) { self.".to_owned(),
        Operation::State => "fn state(&self) -> State { self.".to_owned(),
        Operation::Perform => "fn perform(&mut self, cmd: Cmd) -> CmdResult { self.".to_owned(),
    };
    s.append(m.delegate.as_str());
    match m.op {
        Operation::View => s.append(".view(frame, area); }"),
        Operation::Query => s.append(".query(attr) }"),
        Operation::Attr => s.append(".attr(query, attr) }"),
        Operation::State => s.append(".state() }"),
        Operation::Perform => s.append(".perform(cmd) }"),
    }
    s
}

/// Render the generic parameter list, or the empty string when there are no
/// parameters.
pub fn render_generics(params: &Vec<String>) -> (r: String)
    ensures
        r@ == generics_text(params@),
{
    if params.len() == 0 {
        return String::new();
    }
    let mut s: String = "<".to_owned();
    let mut i: usize = 0;
    while i < params.len()
        invariant
            0 < params@.len(),
            i <= params@.len(),
            s@ == "<"@ + joined_params(params@.subrange(0, i as int)),
        decreases params@.len() - i,
    {
        if i > 0 {
            s.append(", ");
        }
        s.append(params[i].as_str());
        proof {
            let prefix = params@.subrange(0, i as int);
            let extended = params@.subrange(0, i as int + 1);
            assert(extended.drop_last() =~= prefix);
            assert(extended.last() == params@[i as int]);
            if i == 0 {
                assert(joined_params(extended) == params@[0]@);
            }
        }
        i = i + 1;
    }
    proof {
        assert(params@.subrange(0, params@.len() as int) =~= params@);
    }
    s.append(">");
    s
}

/// Render a full implementation block as source text.
pub fn render_impl(ib: &ImplBlock) -> (r: String)
    ensures
        r@ == impl_text(*ib),
{
    let mut s: String =
        "const _: () = { use ::tuirealm::command::{Cmd, CmdResult}; use ::tuirealm::ratatui::layout::Rect; use ::tuirealm::{Attribute, AttrValue, Frame, MockComponent, State}; impl".to_owned();
    let generics = render_generics(&ib.generics);
    s.append(generics.as_str());
    s.append(" MockComponent for ");
    s.append(ib.struct_ident.as_str());
    s.append(generics.as_str());
    s.append(" { ");
    let mut i: usize = 0;
    while i < ib.methods.len()
        invariant
            i <= ib.methods@.len(),
            s@ == preamble_text() + generics_text(ib.generics@) + " MockComponent for "@
                + ib.struct_ident@ + generics_text(ib.generics@) + " { "@ + methods_text(
                ib.methods@.subrange(0, i as int),
            ),
        decreases ib.methods@.len() - i,
    {
        let m = render_method(&ib.methods[i]);
        s.append(m.as_str());
        s.append(" ");
        proof {
            let prefix = ib.methods@.subrange(0, i as int);
            let extended = ib.methods@.subrange(0, i as int + 1);
            assert(extended.drop_last() =~= prefix);
            assert(extended.last() == ib.methods@[i as int]);
        }
        i = i + 1;
    }
    proof {
        assert(ib.methods@.subrange(0, ib.methods@.len() as int) =~= ib.methods@);
    }
    s.append("} };");
    s
}

} // verus!
