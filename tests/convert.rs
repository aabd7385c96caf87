use std::cell::RefCell;

use vue_ir_convert::ast::{AstNode, AstRoot, Directive, Element, ErrorHandler};
use vue_ir_convert::converter::{extract_structural, BuiltinConverter, NodeConverter};
use vue_ir_convert::directive::{
    convert_directive, no_op_directive_convert, DirectiveConvert, DirectiveConvertResult,
    NoOpConverter,
};
use vue_ir_convert::ir::{IRNode, IRRoot, JsExpression};
use vue_ir_convert::outline::{shape, Outline, OutlineConverter, Shape, TextPart};

fn show(s: &Shape) -> String {
    match s {
        Shape::Text(TextPart::Text) => String::from("Text"),
        Shape::Text(TextPart::Interpolation) => String::from("Interpolation"),
        Shape::If(inner) => format!("If({})", show(inner)),
        Shape::For(inner) => format!("For({})", show(inner)),
        Shape::VNode(e) => format!("VNode({},{})", e.tag_name, e.directives.len()),
        Shape::RenderSlot => String::from("Slot"),
        Shape::VSlot(_) => String::from("VSlot"),
        Shape::Expression => String::from("Expr"),
    }
}

fn outline(n: IRNode<Outline>) -> String {
    show(&shape(n))
}

fn dirs(names: &[&str]) -> Vec<Directive> {
    names.iter().map(|n| Directive::new(n)).collect()
}

fn div(names: &[&str]) -> Element {
    Element::new("div", dirs(names))
}

struct Diagnostics {
    messages: RefCell<Vec<String>>,
}

impl ErrorHandler for Diagnostics {
    fn on_error(&self, message: String) {
        self.messages.borrow_mut().push(message);
    }
}

fn diagnostics() -> Diagnostics {
    Diagnostics { messages: RefCell::new(vec![]) }
}

enum Registered {
    Bind,
    Complain,
}

impl DirectiveConvert for Registered {
    fn converted<'a>(&self, _dir: Directive, _e: Element, r: DirectiveConvertResult<'a>) -> bool {
        match self {
            Registered::Bind => matches!(r, DirectiveConvertResult::Converted { .. }),
            Registered::Complain => matches!(r, DirectiveConvertResult::Dropped),
        }
    }

    fn convert<'a, H: ErrorHandler + ?Sized>(
        &self,
        dir: Directive,
        _e: &Element,
        eh: &H,
    ) -> DirectiveConvertResult<'a> {
        match self {
            Registered::Bind => DirectiveConvertResult::Converted {
                value: JsExpression::Props(vec![(JsExpression::Lit("key"), JsExpression::Simple("value"))]),
                need_runtime: false,
            },
            Registered::Complain => {
                eh.on_error(format!("v-{} is not allowed here", dir.name));
                DirectiveConvertResult::Dropped
            }
        }
    }
}

#[test]
fn if_alone_wraps_the_element() {
    let ir = OutlineConverter.convert_structural_dir(div(&["if"]));
    assert_eq!(outline(ir), "If(VNode(div,0))");
}

#[test]
fn for_then_if_nests_loop_outside() {
    let ir = OutlineConverter.convert_structural_dir(div(&["for", "if"]));
    assert_eq!(outline(ir), "For(If(VNode(div,0)))");
}

#[test]
fn if_then_for_still_nests_loop_outside() {
    let ir = OutlineConverter.convert_structural_dir(div(&["if", "for"]));
    assert_eq!(outline(ir), "For(If(VNode(div,0)))");
}

#[test]
fn every_loop_wraps_every_conditional() {
    let ir = OutlineConverter.convert_structural_dir(div(&["else", "bind", "for", "if", "for"]));
    assert_eq!(outline(ir), "For(For(If(If(VNode(div,1)))))");
}

#[test]
fn structural_directives_leave_the_others_to_the_element() {
    let ir = extract_structural(&OutlineConverter, div(&["bind", "else-if", "on", "for", "model"]));
    assert_eq!(outline(ir), "For(If(VNode(div,3)))");
    let ir = OutlineConverter.convert_structural_dir(div(&["else"]));
    assert_eq!(outline(ir), "If(VNode(div,0))");
}

#[test]
fn element_without_structural_directive_converts_as_itself() {
    let through_search = outline(OutlineConverter.convert_structural_dir(div(&["bind", "on"])));
    let direct = outline(OutlineConverter.convert_element(div(&["bind", "on"])));
    assert_eq!(through_search, direct);
    assert_eq!(direct, "VNode(div,2)");
}

#[test]
fn root_keeps_count_and_order_of_top_level_nodes() {
    let ast = AstRoot {
        children: vec![
            AstNode::Text(String::from("hello")),
            AstNode::Plain(div(&["for", "if", "on"])),
            AstNode::Comment(String::from("note")),
            AstNode::Interpolation(String::from("msg")),
            AstNode::SlotOutlet(Element::new("slot", vec![])),
            AstNode::Component(Element::new("my-comp", dirs(&["else"]))),
            AstNode::Template(Element::new("template", dirs(&["for"]))),
        ],
    };
    let root: IRRoot<Outline> = OutlineConverter.convert_ir(ast);
    let shapes: Vec<String> = root.body.into_iter().map(outline).collect();
    assert_eq!(
        shapes,
        vec![
            "Text",
            "For(If(VNode(div,1)))",
            "Expr",
            "Interpolation",
            "Slot",
            "If(VNode(my-comp,0))",
            "For(VNode(template,0))",
        ]
    );
}

#[test]
fn empty_root_converts_to_empty_body() {
    let root = OutlineConverter.convert_ir(AstRoot { children: vec![] });
    assert!(root.body.is_empty());
}

#[test]
fn dispatch_routes_each_kind() {
    let c = OutlineConverter;
    assert_eq!(outline(c.dispatch_ast(AstNode::Text(String::from("t")))), "Text");
    assert_eq!(outline(c.dispatch_ast(AstNode::Plain(div(&["if"])))), "If(VNode(div,0))");
    assert_eq!(outline(c.dispatch_ast(AstNode::Comment(String::new()))), "Expr");
    assert_eq!(outline(c.dispatch_ast(AstNode::Interpolation(String::new()))), "Interpolation");
    let slot = AstNode::SlotOutlet(Element::new("slot", dirs(&["if"])));
    assert_eq!(outline(c.dispatch_ast(slot)), "Slot");
}

#[test]
fn unregistered_directive_is_dropped_without_diagnostic() {
    let eh = diagnostics();
    let table = vec![("bind", Registered::Bind)];
    let e = div(&["custom-mod"]);
    let r = convert_directive(&table, Directive::new("custom-mod"), &e, &eh);
    assert!(matches!(r, DirectiveConvertResult::Dropped));
    assert!(eh.messages.borrow().is_empty());
    let ir = OutlineConverter.convert_structural_dir(e);
    assert_eq!(outline(ir), "VNode(div,1)");
}

#[test]
fn registered_directive_is_converted() {
    let eh = diagnostics();
    let table = vec![("on", Registered::Complain), ("bind", Registered::Bind)];
    let e = div(&["bind"]);
    let r = convert_directive(&table, Directive::new("bind"), &e, &eh);
    assert!(matches!(r, DirectiveConvertResult::Converted { need_runtime: false, .. }));
    assert!(eh.messages.borrow().is_empty());
}

#[test]
fn reporting_converter_drops_and_leaves_a_diagnostic() {
    let eh = diagnostics();
    let table = vec![("bind", Registered::Bind), ("on", Registered::Complain)];
    let e = div(&["on"]);
    let r = convert_directive(&table, Directive::new("on"), &e, &eh);
    assert!(matches!(r, DirectiveConvertResult::Dropped));
    assert_eq!(eh.messages.borrow().len(), 1);
    assert_eq!(eh.messages.borrow()[0], "v-on is not allowed here");
    let ir = OutlineConverter.convert_structural_dir(e);
    assert_eq!(outline(ir), "VNode(div,1)");
}

#[test]
fn no_op_converter_drops() {
    let eh = diagnostics();
    let e = div(&[]);
    let r = no_op_directive_convert(Directive::new("cloak"), &e, &eh);
    assert!(matches!(r, DirectiveConvertResult::Dropped));
    assert!(eh.messages.borrow().is_empty());
}

#[test]
fn first_registered_converter_wins() {
    let eh = diagnostics();
    let table = vec![("on", Registered::Bind), ("on", Registered::Complain)];
    let e = div(&["on"]);
    let r = convert_directive(&table, Directive::new("on"), &e, &eh);
    assert!(matches!(r, DirectiveConvertResult::Converted { .. }));
    assert!(eh.messages.borrow().is_empty());
}

#[test]
fn registered_no_op_converter_drops() {
    let eh = diagnostics();
    let table = vec![("cloak", NoOpConverter), ("once", NoOpConverter)];
    let e = div(&["once"]);
    let r = convert_directive(&table, Directive::new("once"), &e, &eh);
    assert!(matches!(r, DirectiveConvertResult::Dropped));
    assert!(eh.messages.borrow().is_empty());
}
