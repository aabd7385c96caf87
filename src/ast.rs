use vstd::prelude::*;

verus! {

/// The markup namespace an element belongs to.
#[derive(Clone, Copy, Debug, PartialEq, Eq)]
pub enum Namespace {
    Html,
    Svg,
    MathMl,
}

/// A plain `name="value"` attribute of an element.
pub struct Attribute {
    pub name: String,
    pub value: Option<String>,
}

/// A named modifier attached to an element, such as `v-if="x"`,
/// stored without its `v-` prefix.
pub struct Directive {
    pub name: String,
    pub argument: Option<String>,
    pub expression: Option<String>,
    pub modifiers: Vec<String>,
}

impl Directive {
    /// A directive with the given name and no argument, value or modifiers.
    pub fn new(name: &str) -> (r: Directive)
        ensures
            r.name@ == name@,
            r.argument is None,
            r.expression is None,
            r.modifiers@.len() == 0,
    {
        Directive { name: name.to_owned(), argument: None, expression: None, modifiers: Vec::new() }
    }
}

/// An element of the template: a tag with attributes, directives and children.
pub struct Element {
    pub tag_name: String,
    pub namespace: Namespace,
    pub attributes: Vec<Attribute>,
    pub directives: Vec<Directive>,
    pub children: Vec<AstNode>,
}

impl Element {
    /// An HTML element with the given tag and directives, and nothing else.
    pub fn new(tag_name: &str, directives: Vec<Directive>) -> (r: Element)
        ensures
            r.tag_name@ == tag_name@,
            r.namespace == Namespace::Html,
            r.attributes@.len() == 0,
            r.directives == directives,
            r.children@.len() == 0,
    {
        Element {
            tag_name: tag_name.to_owned(),
            namespace: Namespace::Html,
            attributes: Vec::new(),
            directives,
            children: Vec::new(),
        }
    }
}

/// A node of the parsed template.
pub enum AstNode {
    Text(String),
    Plain(Element),
    Component(Element),
    SlotOutlet(Element),
    Comment(String),
    Interpolation(String),
    Template(Element),
}

/// The parsed template: its top-level nodes in source order.
pub struct AstRoot {
    pub children: Vec<AstNode>,
}

/// A sink for diagnostics that converters report without stopping the conversion.
pub trait ErrorHandler {
    fn on_error(&self, message: String);
}

} // verus!
