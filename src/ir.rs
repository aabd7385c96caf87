use vstd::prelude::*;

verus! {

/// Chooses, for one backend, the payload that each kind of IR node carries.
pub trait ConvertInfo {
    type TextType;
    type IfType;
    type ForType;
    type VNodeType;
    type RenderSlotType;
    type VSlotType;
    type GenericJSType;
}

pub enum VSlotExpr {
    /// slots declared statically in the template
    StableSlotObject,
    /// slots declared by a `v-slot` template under `v-if` or `v-for`
    DynamicSlotCall,
}

/// One node of the intermediate representation, with a payload chosen by `T`.
pub enum IRNode<T: ConvertInfo> {
    /// interpolation or text node
    TextCall(T::TextType),
    /// v-if, else-if, else
    If(T::IfType),
    /// v-for
    For(T::ForType),
    /// plain element or component
    VNodeCall(T::VNodeType),
    /// <slot> slot outlet
    RenderSlotCall(T::RenderSlotType),
    /// v-slot on component or template
    VSlotExpression(T::VSlotType),
    /// generic JS expression
    GenericExpression(T::GenericJSType),
}

/// A key and a value of a property list.
pub type Prop<'a> = (JsExpression<'a>, JsExpression<'a>);

/// The expression fragments that directive converters hand back.
pub enum JsExpression<'a> {
    Lit(&'a str),
    Simple(&'a str),
    Compound(Vec<JsExpression<'a>>),
    Props(Vec<Prop<'a>>),
    Call(&'static str, Vec<JsExpression<'a>>),
}

/// How a name used in the template was bound in the script.
pub enum BindingTypes {
    /// returned from data()
    Data,
    /// declared as a prop
    Props,
    /// a let binding (may or may not be a ref)
    SetupLet,
    /// a const binding that can never be a ref;
    /// such bindings need no `unref()` call in inlined template expressions
    SetupConst,
    /// a const binding that may be a ref
    SetupMaybeRef,
    /// bindings that are guaranteed to be refs
    SetupRef,
    /// declared by other options, e.g. computed, inject
    Options,
}

/// The converted template: its top-level IR nodes in source order.
pub struct IRRoot<T: ConvertInfo> {
    pub body: Vec<IRNode<T>>,
}

} // verus!
