use tuirealm_derive::descriptor::{
    DataShape, FieldList, ForwardingMethod, ImplBlock, Operation, StructInput,
};
use tuirealm_derive::generate::generate;
use tuirealm_derive::render::{render_generics, render_impl, render_method};

const PREAMBLE: &str = "const _: () = { use ::tuirealm::command::{Cmd, CmdResult}; use ::tuirealm::ratatui::layout::Rect; use ::tuirealm::{Attribute, AttrValue, Frame, MockComponent, State}; impl";

#[test]
fn ip_address_input_view_forwards_to_component() {
    let input = StructInput {
        ident: "IpAddressInput".to_string(),
        generics: Vec::new(),
        attrs: Vec::new(),
        data: DataShape::Struct(FieldList::Named(vec!["component".to_string()])),
    };
    let ib = generate(&input).expect("generation should succeed");
    assert_eq!(ib.methods[0].op, Operation::View);
    assert_eq!(
        render_method(&ib.methods[0]),
        "fn view(&mut self, frame: &mut Frame, area: Rect) { self.component.view(frame, area); }"
    );
}

#[test]
fn each_operation_renders_a_forwarding_body() {
    let cases = [
        (
            Operation::View,
            "fn view(&mut self, frame: &mut Frame, area: Rect) { self.component.view(frame, area); }",
        ),
        (
            Operation::Query,
            "fn query(&self, attr: Attribute) -> Option<AttrValue> { self.component.query(attr) }",
        ),
        (
            Operation::Attr,
            "fn attr(&mut self, query: Attribute, attr: AttrValue) { self.component.attr(query, attr) }",
        ),
        (Operation::State, "fn state(&self) -> State { self.component.state() }"),
        (
            Operation::Perform,
            "fn perform(&mut self, cmd: Cmd) -> CmdResult { self.component.perform(cmd) }",
        ),
    ];
    for (op, expected) in cases {
        let m = ForwardingMethod { op, delegate: "component".to_string() };
        assert_eq!(render_method(&m), expected);
    }
}

#[test]
fn delegate_name_appears_in_rendered_body() {
    let m = ForwardingMethod { op: Operation::State, delegate: "inner".to_string() };
    assert_eq!(render_method(&m), "fn state(&self) -> State { self.inner.state() }");
}

#[test]
fn empty_generics_render_as_nothing() {
    assert_eq!(render_generics(&Vec::new()), "");
}

#[test]
fn generics_render_in_angle_brackets() {
    let params = vec!["'a".to_string(), "T: Clone".to_string(), "U".to_string()];
    assert_eq!(render_generics(&params), "<'a, T: Clone, U>");
}

#[test]
fn single_generic_renders_without_separator() {
    assert_eq!(render_generics(&vec!["T".to_string()]), "<T>");
}

#[test]
fn full_impl_text_for_plain_struct() {
    let input = StructInput {
        ident: "IpAddressInput".to_string(),
        generics: Vec::new(),
        attrs: Vec::new(),
        data: DataShape::Struct(FieldList::Named(vec!["component".to_string()])),
    };
    let ib = generate(&input).expect("generation should succeed");
    let expected = format!(
        "{} MockComponent for IpAddressInput {{ \
         fn view(&mut self, frame: &mut Frame, area: Rect) {{ self.component.view(frame, area); }} \
         fn query(&self, attr: Attribute) -> Option<AttrValue> {{ self.component.query(attr) }} \
         fn attr(&mut self, query: Attribute, attr: AttrValue) {{ self.component.attr(query, attr) }} \
         fn state(&self) -> State {{ self.component.state() }} \
         fn perform(&mut self, cmd: Cmd) -> CmdResult {{ self.component.perform(cmd) }} \
         }} }};",
        PREAMBLE
    );
    assert_eq!(render_impl(&ib), expected);
}

#[test]
fn full_impl_text_repeats_generics_in_both_positions() {
    let ib = ImplBlock {
        struct_ident: "Gauge".to_string(),
        generics: vec!["T".to_string()],
        methods: vec![ForwardingMethod { op: Operation::State, delegate: "component".to_string() }],
    };
    let expected = format!(
        "{}<T> MockComponent for Gauge<T> {{ fn state(&self) -> State {{ self.component.state() }} }} }};",
        PREAMBLE
    );
    assert_eq!(render_impl(&ib), expected);
}
