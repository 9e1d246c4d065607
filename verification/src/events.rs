//! The lifecycle events and what a behaviour answers to one.
use vstd::prelude::*;
use crate::identity::NodeRef;

verus! {

/// The five lifecycle operations, without their arguments.
#[derive(Clone, Copy, Debug, PartialEq, Eq, Structural)]
pub enum Operation {
    AfterSetAttr,
    BeforeRemoveAttr,
    BindToTree,
    UnbindFromTree,
    ChildInserted,
}

/// What a behaviour decides once it has reacted to an event.
///
/// `Forward` hands the event to the level above. `Suppress` ends the walk at
/// this level; it is a choice that an override makes, never a default.
#[derive(Clone, Copy, Debug, PartialEq, Eq, Structural)]
pub enum Propagation {
    Forward,
    Suppress,
}

/// A lifecycle event with its arguments, as contracts speak of it.
pub enum EventView {
    /// An attribute was set; `value` is the value now held.
    AfterSetAttr { name: Seq<char>, value: Seq<char> },
    /// An attribute is about to go; `value` is the value still held.
    BeforeRemoveAttr { name: Seq<char>, value: Seq<char> },
    /// The node became part of a tree that hangs under a document.
    BindToTree,
    /// The node left a tree that hangs under a document.
    UnbindFromTree,
    /// `child` was appended to the node's child list.
    ChildInserted { child: NodeRef },
}

impl EventView {
    /// The operation that the event asks for.
    pub open spec fn operation(self) -> Operation {
        match self {
            EventView::AfterSetAttr { .. } => Operation::AfterSetAttr,
            EventView::BeforeRemoveAttr { .. } => Operation::BeforeRemoveAttr,
            EventView::BindToTree => Operation::BindToTree,
            EventView::UnbindFromTree => Operation::UnbindFromTree,
            EventView::ChildInserted { .. } => Operation::ChildInserted,
        }
    }
}

/// A lifecycle event with its arguments.
#[derive(Clone, Debug, PartialEq, Eq)]
pub enum LifecycleEvent {
    /// An attribute was set; `value` is the value now held.
    AfterSetAttr { name: String, value: String },
    /// An attribute is about to go; `value` is the value still held.
    BeforeRemoveAttr { name: String, value: String },
    /// The node became part of a tree that hangs under a document.
    BindToTree,
    /// The node left a tree that hangs under a document.
    UnbindFromTree,
    /// `child` was appended to the node's child list.
    ChildInserted { child: NodeRef },
}

impl View for LifecycleEvent {
    type V = EventView;

    open spec fn view(&self) -> EventView {
        match *self {
            LifecycleEvent::AfterSetAttr { name, value } => EventView::AfterSetAttr { name: name@, value: value@ },
            LifecycleEvent::BeforeRemoveAttr { name, value } => EventView::BeforeRemoveAttr {
                name: name@,
                value: value@,
            },
            LifecycleEvent::BindToTree => EventView::BindToTree,
            LifecycleEvent::UnbindFromTree => EventView::UnbindFromTree,
            LifecycleEvent::ChildInserted { child } => EventView::ChildInserted { child },
        }
    }
}

impl LifecycleEvent {
    /// The operation that the event asks for.
    pub fn operation(&self) -> (op: Operation)
        ensures
            op == self@.operation(),
    {
        match self {
            LifecycleEvent::AfterSetAttr { .. } => Operation::AfterSetAttr,
            LifecycleEvent::BeforeRemoveAttr { .. } => Operation::BeforeRemoveAttr,
            LifecycleEvent::BindToTree => Operation::BindToTree,
            LifecycleEvent::UnbindFromTree => Operation::UnbindFromTree,
            LifecycleEvent::ChildInserted { .. } => Operation::ChildInserted,
        }
    }
}

} // verus!
