//! The fixed hierarchy of behaviours and the handles that walk it.
use vstd::prelude::*;
use crate::identity::{ElementTypeId, NodeRef, NodeTypeId};

verus! {

/// The behaviour that a handle carries: one level of the hierarchy.
///
/// Every level but `Node` has exactly one level above it, so the hierarchy is
/// a tree of depth three whose root is `Node`, and the way up from any level
/// is a single line.
#[derive(Clone, Copy, Debug, PartialEq, Eq, Structural)]
pub enum HandleType {
    Node,
    Element,
    HTMLElement,
    HTMLIFrameElement,
    HTMLImageElement,
    HTMLObjectElement,
    HTMLStyleElement,
}

impl HandleType {
    /// The level directly above this one, none above `Node`.
    pub open spec fn spec_super_type(self) -> Option<HandleType> {
        match self {
            HandleType::Node => None,
            HandleType::Element => Some(HandleType::Node),
            HandleType::HTMLElement => Some(HandleType::Element),
            HandleType::HTMLIFrameElement => Some(HandleType::HTMLElement),
            HandleType::HTMLImageElement => Some(HandleType::HTMLElement),
            HandleType::HTMLObjectElement => Some(HandleType::HTMLElement),
            HandleType::HTMLStyleElement => Some(HandleType::HTMLElement),
        }
    }

    /// The number of levels above this one.
    pub open spec fn depth(self) -> nat {
        match self {
            HandleType::Node => 0,
            HandleType::Element => 1,
            HandleType::HTMLElement => 2,
            HandleType::HTMLIFrameElement => 3,
            HandleType::HTMLImageElement => 3,
            HandleType::HTMLObjectElement => 3,
            HandleType::HTMLStyleElement => 3,
        }
    }

    /// The override chain of this level: the level itself, then each level
    /// above it in turn, up to `Node`.
    pub open spec fn chain(self) -> Seq<HandleType>
        decreases self.depth(),
    {
        match self.spec_super_type() {
            None => seq![self],
            Some(above) => seq![self] + above.chain(),
        }
    }

    /// The level that answers for a node of kind `type_id`.
    ///
    /// The four listed HTML kinds and the plain element have a level of their
    /// own. Every other element kind falls to `HTMLElement` and every other
    /// node kind to `Node`, so no tag is left without a level.
    pub open spec fn spec_for_type(type_id: NodeTypeId) -> HandleType {
        match type_id {
            NodeTypeId::Element(ElementTypeId::HTMLImageElement) => HandleType::HTMLImageElement,
            NodeTypeId::Element(ElementTypeId::HTMLIFrameElement) => HandleType::HTMLIFrameElement,
            NodeTypeId::Element(ElementTypeId::HTMLObjectElement) => HandleType::HTMLObjectElement,
            NodeTypeId::Element(ElementTypeId::HTMLStyleElement) => HandleType::HTMLStyleElement,
            NodeTypeId::Element(ElementTypeId::Element) => HandleType::Element,
            NodeTypeId::Element(_) => HandleType::HTMLElement,
            _ => HandleType::Node,
        }
    }

    /// The level directly above this one, none above `Node`.
    #[verifier::when_used_as_spec(spec_super_type)]
    pub fn super_type(self) -> (above: Option<HandleType>)
        ensures
            above == self.spec_super_type(),
    {
        match self {
            HandleType::Node => None,
            HandleType::Element => Some(HandleType::Node),
            HandleType::HTMLElement => Some(HandleType::Element),
            HandleType::HTMLIFrameElement
            | HandleType::HTMLImageElement
            | HandleType::HTMLObjectElement
            | HandleType::HTMLStyleElement => Some(HandleType::HTMLElement),
        }
    }

    /// The level that answers for a node of kind `type_id`.
    #[verifier::when_used_as_spec(spec_for_type)]
    pub fn for_type(type_id: NodeTypeId) -> (level: HandleType)
        ensures
            level == HandleType::spec_for_type(type_id),
    {
        match type_id {
            NodeTypeId::Element(ElementTypeId::HTMLImageElement) => HandleType::HTMLImageElement,
            NodeTypeId::Element(ElementTypeId::HTMLIFrameElement) => HandleType::HTMLIFrameElement,
            NodeTypeId::Element(ElementTypeId::HTMLObjectElement) => HandleType::HTMLObjectElement,
            NodeTypeId::Element(ElementTypeId::HTMLStyleElement) => HandleType::HTMLStyleElement,
            NodeTypeId::Element(ElementTypeId::Element) => HandleType::Element,
            NodeTypeId::Element(_) => HandleType::HTMLElement,
            _ => HandleType::Node,
        }
    }
}

/// A behaviour handle: one level of the hierarchy bound to one node.
///
/// A handle is made for one dispatch and dropped with it. It holds a reference
/// to the node, never the node, so nothing of the node lives or dies with it.
#[derive(Clone, Copy, Debug, PartialEq, Eq, Structural)]
pub struct Handle {
    pub level: HandleType,
    pub node: NodeRef,
}

impl Handle {
    /// The next handle up the chain: the level above, bound to the same node.
    pub open spec fn spec_super_type(&self) -> Option<Handle> {
        match self.level.spec_super_type() {
            None => None,
            Some(above) => Some(Handle { level: above, node: self.node }),
        }
    }

    /// The override chain of this handle: the chain of its level, each level
    /// bound to this handle's node.
    pub open spec fn chain(self) -> Seq<Handle> {
        Seq::new(self.level.chain().len(), |i: int| Handle { level: self.level.chain()[i], node: self.node })
    }

    /// Whether the handle's level is one that a node of its node's kind passes
    /// through: the level that the kind resolves to, or one above that level.
    pub open spec fn fits(self) -> bool {
        HandleType::spec_for_type(self.node.type_id).chain().contains(self.level)
    }

    /// The next handle up the chain, none at the generic node behaviour.
    #[verifier::when_used_as_spec(spec_super_type)]
    pub fn super_type(&self) -> (above: Option<Handle>)
        ensures
            above == self.spec_super_type(),
    {
        match self.level.super_type() {
            None => None,
            Some(above) => Some(Handle { level: above, node: self.node }),
        }
    }
}

} // verus!
