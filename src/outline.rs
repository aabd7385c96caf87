use vstd::prelude::*;

use crate::ast::Element;
use crate::converter::{BuiltinConverter, NodeConverter};
use crate::ir::{ConvertInfo, IRNode, VSlotExpr};

verus! {

/// Which kind of text a text node came from.
pub enum TextPart {
    Text,
    Interpolation,
}

/// The shape of a converted node, as the outline backend records it.
pub enum Shape {
    Text(TextPart),
    If(Box<Shape>),
    For(Box<Shape>),
    VNode(Element),
    RenderSlot,
    VSlot(VSlotExpr),
    Expression,
}

/// A backend that keeps the shape of the converted template and little else:
/// conditional and loop nodes hold the shape of the node they wrap, element
/// nodes hold the element with the directives that are left on it.
pub struct Outline;

/// The shape of one node of the outline backend.
pub open spec fn spec_shape(n: IRNode<Outline>) -> Shape {
    match n {
        IRNode::TextCall(t) => Shape::Text(t),
        IRNode::If(s) => Shape::If(s),
        IRNode::For(s) => Shape::For(s),
        IRNode::VNodeCall(e) => Shape::VNode(e),
        IRNode::RenderSlotCall(_) => Shape::RenderSlot,
        IRNode::VSlotExpression(v) => Shape::VSlot(v),
        IRNode::GenericExpression(_) => Shape::Expression,
    }
}

/// The shape of one node of the outline backend.
pub fn shape(n: IRNode<Outline>) -> (r: Shape)
    ensures
        r == spec_shape(n),
{
    match n {
        IRNode::TextCall(t) => Shape::Text(t),
        IRNode::If(s) => Shape::If(s),
        IRNode::For(s) => Shape::For(s),
        IRNode::VNodeCall(e) => Shape::VNode(e),
        IRNode::RenderSlotCall(_) => Shape::RenderSlot,
        IRNode::VSlotExpression(v) => Shape::VSlot(v),
        IRNode::GenericExpression(_) => Shape::Expression,
    }
}

impl ConvertInfo for Outline {
    type TextType = TextPart;
    type IfType = Box<Shape>;
    type ForType = Box<Shape>;
    type VNodeType = Element;
    type RenderSlotType = ();
    type VSlotType = VSlotExpr;
    type GenericJSType = ();
}

/// The converter of the outline backend.
pub struct OutlineConverter;

impl NodeConverter<Outline> for OutlineConverter {
    open spec fn if_node(&self, inner: IRNode<Outline>) -> IRNode<Outline> {
        IRNode::If(Box::new(spec_shape(inner)))
    }

    open spec fn for_node(&self, inner: IRNode<Outline>) -> IRNode<Outline> {
        IRNode::For(Box::new(spec_shape(inner)))
    }

    open spec fn element_node(&self, e: Element) -> IRNode<Outline> {
        IRNode::VNodeCall(e)
    }

    open spec fn text_node(&self) -> IRNode<Outline> {
        IRNode::TextCall(TextPart::Text)
    }

    open spec fn slot_outlet_node(&self) -> IRNode<Outline> {
        IRNode::RenderSlotCall(())
    }

    open spec fn comment_node(&self) -> IRNode<Outline> {
        IRNode::GenericExpression(())
    }

    open spec fn interpolation_node(&self) -> IRNode<Outline> {
        IRNode::TextCall(TextPart::Interpolation)
    }

    fn convert_directive(&self) -> IRNode<Outline> {
        IRNode::GenericExpression(())
    }

    fn convert_if(&self, n: IRNode<Outline>) -> (r: IRNode<Outline>) {
        IRNode::If(Box::new(shape(n)))
    }

    fn convert_for(&self, n: IRNode<Outline>) -> (r: IRNode<Outline>) {
        IRNode::For(Box::new(shape(n)))
    }

    fn convert_slot_outlet(&self) -> (r: IRNode<Outline>) {
        IRNode::RenderSlotCall(())
    }

    fn convert_element(&self, e: Element) -> (r: IRNode<Outline>) {
        IRNode::VNodeCall(e)
    }

    fn convert_text(&self) -> (r: IRNode<Outline>) {
        IRNode::TextCall(TextPart::Text)
    }

    fn convert_interpolation(&self) -> (r: IRNode<Outline>) {
        IRNode::TextCall(TextPart::Interpolation)
    }

    fn convert_template(&self, e: Element) -> IRNode<Outline> {
        IRNode::VNodeCall(e)
    }

    fn convert_comment(&self) -> (r: IRNode<Outline>) {
        IRNode::GenericExpression(())
    }
}

impl BuiltinConverter<Outline> for OutlineConverter {

}

} // verus!
