//! The capability set of a behaviour, the walk up the override chain, and the
//! dispatcher that resolves a node and starts the walk.
use vstd::prelude::*;
use crate::events::{EventView, LifecycleEvent, Propagation};
use crate::hierarchy::{Handle, HandleType};
use crate::identity::NodeRef;

verus! {

/// Lets node kinds opt in to overriding, or adding to, the common behaviours.
///
/// An implementor is a set of overrides: for every level of the hierarchy and
/// every lifecycle operation it says what happens there. Each method is the
/// local reaction of the level `at.level` for the node `at.node`; its result
/// says whether the event goes on to the level above. The walk itself is not
/// the implementor's business: the operations of [`Handle`] do it.
///
/// A level that does not override an operation leaves the implementor as it
/// was and answers `Forward`. A reaction is handed the handle and the event's
/// arguments as values and holds no borrow of the tree, so whatever it does to
/// the tree by its own means cannot pull the node from under the walk.
///
/// Contracts speak of an implementor through its view. `reacted` gives the
/// view after the reaction at one level and `forwards` the answer given there;
/// both may depend on the view before the reaction, so an override can keep
/// state and change its mind from one call to the next.
pub trait VirtualMethods: View + Sized {
    /// The implementor's view once the level `at` has reacted to `event`.
    spec fn reacted(state: Self::V, at: Handle, event: EventView) -> Self::V;

    /// Whether the level `at`, reacting to `event` in `state`, forwards it.
    spec fn forwards(state: Self::V, at: Handle, event: EventView) -> bool;

    /// Called when an attribute is changed or added, after its value has been
    /// updated.
    fn after_set_attr(&mut self, at: &Handle, name: &str, value: &str) -> (p: Propagation)
        ensures
            final(self)@ == Self::reacted(
                old(self)@,
                *at,
                EventView::AfterSetAttr { name: name@, value: value@ },
            ),
            (p == Propagation::Forward) == Self::forwards(
                old(self)@,
                *at,
                EventView::AfterSetAttr { name: name@, value: value@ },
            ),
    ;

    /// Called when an attribute is changed or removed, before anything has
    /// been modified.
    fn before_remove_attr(&mut self, at: &Handle, name: &str, value: &str) -> (p: Propagation)
        ensures
            final(self)@ == Self::reacted(
                old(self)@,
                *at,
                EventView::BeforeRemoveAttr { name: name@, value: value@ },
            ),
            (p == Propagation::Forward) == Self::forwards(
                old(self)@,
                *at,
                EventView::BeforeRemoveAttr { name: name@, value: value@ },
            ),
    ;

    /// Called when the node is appended to a tree that is part of a document.
    fn bind_to_tree(&mut self, at: &Handle) -> (p: Propagation)
        ensures
            final(self)@ == Self::reacted(old(self)@, *at, EventView::BindToTree),
            (p == Propagation::Forward) == Self::forwards(old(self)@, *at, EventView::BindToTree),
    ;

    /// Called when the node is removed from a tree that is part of a document.
    fn unbind_from_tree(&mut self, at: &Handle) -> (p: Propagation)
        ensures
            final(self)@ == Self::reacted(old(self)@, *at, EventView::UnbindFromTree),
            (p == Propagation::Forward) == Self::forwards(old(self)@, *at, EventView::UnbindFromTree),
    ;

    /// Called on the parent when a node is added to its child list.
    fn child_inserted(&mut self, at: &Handle, child: &NodeRef) -> (p: Propagation)
        ensures
            final(self)@ == Self::reacted(old(self)@, *at, EventView::ChildInserted { child: *child }),
            (p == Propagation::Forward) == Self::forwards(
                old(self)@,
                *at,
                EventView::ChildInserted { child: *child },
            ),
    ;
}

/// The walk that `event` takes when it is delivered at `at` to overrides in
/// `state`: the handles invoked, in order, and the overrides' view afterwards.
///
/// The level `at` reacts first. If it forwards and a level stands above it,
/// the walk goes on there with the same event; else it ends.
pub open spec fn walk_of<V: VirtualMethods>(state: V::V, at: Handle, event: EventView) -> (Seq<Handle>, V::V)
    decreases at.level.depth(),
{
    let after = V::reacted(state, at, event);
    match at.spec_super_type() {
        Some(above) if V::forwards(state, at, event) => {
            let rest = walk_of::<V>(after, above, event);
            (seq![at] + rest.0, rest.1)
        },
        _ => (seq![at], after),
    }
}

/// Obtains the behaviour handle for a node.
///
/// The handle's level is the one that the node's kind tag resolves to and the
/// handle is bound to `node` itself. Every tag resolves: a kind without a level
/// of its own gets the nearest general one.
pub fn vtable_for(node: &NodeRef) -> (handle: Handle)
    ensures
        handle == spec_vtable_for(*node),
{
    Handle { level: HandleType::for_type(node.type_id), node: *node }
}

/// The behaviour handle that a node resolves to.
pub open spec fn spec_vtable_for(node: NodeRef) -> Handle {
    Handle { level: HandleType::spec_for_type(node.type_id), node }
}

/// Lets the level `at` react to `event`.
fn invoke<V: VirtualMethods>(overrides: &mut V, at: &Handle, event: &LifecycleEvent) -> (p: Propagation)
    ensures
        final(overrides)@ == V::reacted(old(overrides)@, *at, event@),
        (p == Propagation::Forward) == V::forwards(old(overrides)@, *at, event@),
{
    match event {
        LifecycleEvent::AfterSetAttr { name, value } => overrides.after_set_attr(
            at,
            name.as_str(),
            value.as_str(),
        ),
        LifecycleEvent::BeforeRemoveAttr { name, value } => overrides.before_remove_attr(
            at,
            name.as_str(),
            value.as_str(),
        ),
        LifecycleEvent::BindToTree => overrides.bind_to_tree(at),
        LifecycleEvent::UnbindFromTree => overrides.unbind_from_tree(at),
        LifecycleEvent::ChildInserted { child } => overrides.child_inserted(at, child),
    }
}

impl Handle {
    /// Delivers `event` to this handle and lets it travel up the chain.
    ///
    /// Returns the handles invoked, in order.
    pub fn deliver<V: VirtualMethods>(&self, overrides: &mut V, event: &LifecycleEvent) -> (visited: Vec<Handle>)
        ensures
            (visited@, final(overrides)@) == walk_of::<V>(old(overrides)@, *self, event@),
        decreases self.level.depth(),
    {
        let answer = invoke(overrides, self, event);
        let mut visited: Vec<Handle> = Vec::new();
        visited.push(*self);
        if answer == Propagation::Forward {
            match self.super_type() {
                Some(above) => {
                    let mut rest = above.deliver(overrides, event);
                    visited.append(&mut rest);
                },
                None => {},
            }
        }
        visited
    }

    /// Tells the node's behaviours that the attribute `name` now holds `value`.
    ///
    /// Returns the handles invoked, in order.
    pub fn after_set_attr<V: VirtualMethods>(&self, overrides: &mut V, name: String, value: String) -> (visited:
        Vec<Handle>)
        ensures
            (visited@, final(overrides)@) == walk_of::<V>(
                old(overrides)@,
                *self,
                EventView::AfterSetAttr { name: name@, value: value@ },
            ),
    {
        self.deliver(overrides, &LifecycleEvent::AfterSetAttr { name, value })
    }

    /// Tells the node's behaviours that the attribute `name`, which holds
    /// `value`, is about to be removed or replaced.
    ///
    /// Returns the handles invoked, in order.
    pub fn before_remove_attr<V: VirtualMethods>(&self, overrides: &mut V, name: String, value: String) -> (visited:
        Vec<Handle>)
        ensures
            (visited@, final(overrides)@) == walk_of::<V>(
                old(overrides)@,
                *self,
                EventView::BeforeRemoveAttr { name: name@, value: value@ },
            ),
    {
        self.deliver(overrides, &LifecycleEvent::BeforeRemoveAttr { name, value })
    }

    /// Tells the node's behaviours that the node has joined a tree that is
    /// part of a document.
    ///
    /// Returns the handles invoked, in order.
    pub fn bind_to_tree<V: VirtualMethods>(&self, overrides: &mut V) -> (visited: Vec<Handle>)
        ensures
            (visited@, final(overrides)@) == walk_of::<V>(old(overrides)@, *self, EventView::BindToTree),
    {
        self.deliver(overrides, &LifecycleEvent::BindToTree)
    }

    /// Tells the node's behaviours that the node has left a tree that is part
    /// of a document.
    ///
    /// Returns the handles invoked, in order.
    pub fn unbind_from_tree<V: VirtualMethods>(&self, overrides: &mut V) -> (visited: Vec<Handle>)
        ensures
            (visited@, final(overrides)@) == walk_of::<V>(old(overrides)@, *self, EventView::UnbindFromTree),
    {
        self.deliver(overrides, &LifecycleEvent::UnbindFromTree)
    }

    /// Tells the behaviours of the node, a parent, that `child` has been added
    /// to its child list.
    ///
    /// Returns the handles invoked, in order.
    pub fn child_inserted<V: VirtualMethods>(&self, overrides: &mut V, child: &NodeRef) -> (visited: Vec<Handle>)
        ensures
            (visited@, final(overrides)@) == walk_of::<V>(
                old(overrides)@,
                *self,
                EventView::ChildInserted { child: *child },
            ),
    {
        self.deliver(overrides, &LifecycleEvent::ChildInserted { child: *child })
    }
}

/// Resolves the behaviour handle of `node` and delivers `event` to it.
///
/// This is the one entry point for code that changes the tree. It changes
/// nothing itself: all that happens is what the levels invoked along the
/// chain do. Returns the handles invoked, in order.
pub fn dispatch<V: VirtualMethods>(node: &NodeRef, event: &LifecycleEvent, overrides: &mut V) -> (visited: Vec<
    Handle,
>)
    ensures
        (visited@, final(overrides)@) == walk_of::<V>(old(overrides)@, spec_vtable_for(*node), event@),
{
    let handle = vtable_for(node);
    handle.deliver(overrides, event)
}

} // verus!
