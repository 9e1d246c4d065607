//! What the element and event types need of their surroundings: references
//! to the window and the document that own them, and the error of a setter.
use vstd::prelude::*;
use crate::identity::NodeTypeId;

verus! {

/// A reference to a window, known by its identity.
#[derive(Clone, Copy, Debug, PartialEq, Eq, Structural)]
pub struct WindowRef {
    pub id: usize,
}

/// A reference to a document, known by its identity, with the window that
/// shows it.
#[derive(Clone, Copy, Debug, PartialEq, Eq, Structural)]
pub struct DocumentRef {
    pub id: usize,
    pub window: WindowRef,
}

/// Why an operation on the tree was refused.
#[derive(Clone, Copy, Debug, PartialEq, Eq, Structural)]
pub enum Error {
    FailureUnknown,
    NotFound,
    HierarchyRequest,
    InvalidCharacter,
    NotSupported,
    InvalidState,
}

/// The kind of a target of events: a node of some kind, or a window.
#[derive(Clone, Copy, Debug, PartialEq, Eq, Structural)]
pub enum EventTargetTypeId {
    Window,
    Node(NodeTypeId),
}

/// Something that events can be sent to.
#[derive(Clone, Copy, Debug, PartialEq, Eq, Structural)]
pub struct EventTarget {
    pub type_id: EventTargetTypeId,
}

impl EventTarget {
    /// An event target of kind `type_id`.
    pub fn new_inherited(type_id: EventTargetTypeId) -> (target: EventTarget)
        ensures
            target.type_id == type_id,
    {
        EventTarget { type_id }
    }
}

} // verus!
