//! Node identity: the kind tags and the lightweight reference that carries one.
use vstd::prelude::*;

verus! {

/// The kind of an element node.
///
/// `Element` is an element without a more specific kind and `HTMLElement` an
/// HTML element without one. The set grows over time; a kind that the
/// behaviour table does not list resolves through the table's fallback.
#[derive(Clone, Copy, Debug, PartialEq, Eq, Structural)]
pub enum ElementTypeId {
    Element,
    HTMLElement,
    HTMLAnchorElement,
    HTMLBodyElement,
    HTMLDivElement,
    HTMLFormElement,
    HTMLHeadElement,
    HTMLIFrameElement,
    HTMLImageElement,
    HTMLInputElement,
    HTMLObjectElement,
    HTMLOutputElement,
    HTMLScriptElement,
    HTMLSpanElement,
    HTMLStyleElement,
    HTMLUnknownElement,
}

/// The kind tag of a node. It is fixed when the node is made.
#[derive(Clone, Copy, Debug, PartialEq, Eq, Structural)]
pub enum NodeTypeId {
    Comment,
    Doctype,
    DocumentFragment,
    Document,
    Element(ElementTypeId),
    ProcessingInstruction,
    Text,
}

impl NodeTypeId {
    /// Whether the tag is that of an element.
    pub open spec fn spec_is_element(self) -> bool {
        self is Element
    }

    /// Whether the tag is that of an element.
    #[verifier::when_used_as_spec(spec_is_element)]
    pub fn is_element(self) -> (b: bool)
        ensures
            b == self.spec_is_element(),
    {
        match self {
            NodeTypeId::Element(_) => true,
            _ => false,
        }
    }
}

/// A lightweight reference to a live node: its identity and its kind tag.
///
/// Two references denote the same node exactly when their `id`s are equal.
/// The reference owns nothing of the node and is copied freely.
#[derive(Clone, Copy, Debug, PartialEq, Eq, Structural)]
pub struct NodeRef {
    pub id: usize,
    pub type_id: NodeTypeId,
}

impl NodeRef {
    /// A reference to the node `id` of kind `type_id`.
    pub fn new(id: usize, type_id: NodeTypeId) -> (r: NodeRef)
        ensures
            r == (NodeRef { id, type_id }),
    {
        NodeRef { id, type_id }
    }
}

} // verus!
