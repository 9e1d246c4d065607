//! A node and the routines that change it, each of which tells the node's
//! behaviours at the point that the event calls for.
use vstd::prelude::*;
use crate::events::{EventView, LifecycleEvent};
use crate::identity::{NodeRef, NodeTypeId};
use crate::virtualmethods::{dispatch, spec_vtable_for, walk_of, VirtualMethods};

verus! {

/// One attribute of a node.
struct Attr {
    name: String,
    value: String,
}

/// What contracts see of a [`Node`].
pub struct NodeView {
    /// The node's identity and kind tag.
    pub node: NodeRef,
    /// The node's children, in order.
    pub children: Seq<NodeRef>,
    /// The node's attributes: the value held under each name.
    pub attributes: Map<Seq<char>, Seq<char>>,
    /// Whether the node is part of a tree that hangs under a document.
    pub in_document: bool,
}

/// One participant of a tree: a kind tag that never changes, an ordered
/// list of children, attributes and a mark that says whether the node is
/// connected to a document.
pub struct Node {
    node: NodeRef,
    children: Vec<NodeRef>,
    attrs: Vec<Attr>,
    in_document: bool,
}

/// The events that setting the attribute `name` of `node` to `value` raises,
/// in order. Where the node holds a value under `name`, the behaviours first
/// hear that this value is about to go; in either case they then hear of the
/// new value.
pub open spec fn set_attribute_events(node: NodeView, name: Seq<char>, value: Seq<char>) -> Seq<EventView> {
    if node.attributes.contains_key(name) {
        seq![
            EventView::BeforeRemoveAttr { name, value: node.attributes[name] },
            EventView::AfterSetAttr { name, value },
        ]
    } else {
        seq![EventView::AfterSetAttr { name, value }]
    }
}

/// The events that removing the attribute `name` of `node` raises: one, with
/// the value held, where there is such an attribute, else none.
pub open spec fn remove_attribute_events(node: NodeView, name: Seq<char>) -> Seq<EventView> {
    if node.attributes.contains_key(name) {
        seq![EventView::BeforeRemoveAttr { name, value: node.attributes[name] }]
    } else {
        seq![]
    }
}

/// The overrides' view once each of `events` has been dispatched to `node`,
/// one after the other.
pub open spec fn dispatched<V: VirtualMethods>(state: V::V, node: NodeRef, events: Seq<EventView>) -> V::V
    decreases events.len(),
{
    if events.len() == 0 {
        state
    } else {
        walk_of::<V>(
            dispatched::<V>(state, node, events.drop_last()),
            spec_vtable_for(node),
            events.last(),
        ).1
    }
}

impl View for Node {
    type V = NodeView;

    closed spec fn view(&self) -> NodeView {
        NodeView {
            node: self.node,
            children: self.children@,
            attributes: Map::new(
                |name: Seq<char>| self.holds(name),
                |name: Seq<char>| self.attrs@[self.position(name)].value@,
            ),
            in_document: self.in_document,
        }
    }
}

impl Node {
    /// The node is well formed: no two of its attributes have the same name.
    pub closed spec fn wf(&self) -> bool {
        forall|i: int, j: int|
            0 <= i < j < self.attrs@.len() ==> (#[trigger] self.attrs@[i]).name@ != (#[trigger] self.attrs@[j]).name@
    }

    /// Whether an attribute is held under `name`.
    spec fn holds(self, name: Seq<char>) -> bool {
        exists|i: int| 0 <= i < self.attrs@.len() && (#[trigger] self.attrs@[i]).name@ == name
    }

    /// A place at which an attribute is held under `name`.
    spec fn position(self, name: Seq<char>) -> int {
        choose|i: int| 0 <= i < self.attrs@.len() && (#[trigger] self.attrs@[i]).name@ == name
    }

    /// A node of identity and kind `node`, with no child and no attribute,
    /// outside any document.
    pub fn new(node: NodeRef) -> (r: Node)
        ensures
            r.wf(),
            r@ == (NodeView { node, children: Seq::empty(), attributes: Map::empty(), in_document: false }),
    {
        let r = Node { node, children: Vec::new(), attrs: Vec::new(), in_document: false };
        assert(r@.attributes =~= Map::<Seq<char>, Seq<char>>::empty());
        r
    }

    /// The reference by which the node is known.
    pub fn node_ref(&self) -> (r: NodeRef)
        ensures
            r == self@.node,
    {
        self.node
    }

    /// The node's kind tag.
    pub fn type_id(&self) -> (t: NodeTypeId)
        ensures
            t == self@.node.type_id,
    {
        self.node.type_id
    }

    /// Whether the node is part of a tree that hangs under a document.
    pub fn is_in_document(&self) -> (b: bool)
        ensures
            b == self@.in_document,
    {
        self.in_document
    }

    /// The node's children, in order.
    pub fn children(&self) -> (c: &Vec<NodeRef>)
        ensures
            c@ == self@.children,
    {
        &self.children
    }

    /// The place of the attribute `name`, if there is one.
    fn find(&self, name: &String) -> (at: Option<usize>)
        requires
            self.wf(),
        ensures
            at matches Some(i) ==> i < self.attrs@.len() && self.attrs@[i as int].name@ == name@ && self.holds(name@)
                && self.position(name@) == i,
            at is None ==> !self.holds(name@),
    {
        let mut i: usize = 0;
        while i < self.attrs.len()
            invariant
                self.wf(),
                i <= self.attrs@.len(),
                forall|j: int| 0 <= j < i ==> (#[trigger] self.attrs@[j]).name@ != name@,
            decreases self.attrs@.len() - i,
        {
            if self.attrs[i].name == *name {
                proof {
                    assert(self.attrs@[i as int].name@ == name@);
                    let j = self.position(name@);
                    assert(self.attrs@[j].name@ == name@);
                }
                return Some(i);
            }
            i += 1;
        }
        None
    }

    /// The value held under `name`, if there is one.
    pub fn get_attribute(&self, name: &str) -> (value: Option<String>)
        requires
            self.wf(),
        ensures
            value is Some == self@.attributes.contains_key(name@),
            value matches Some(v) ==> v@ == self@.attributes[name@],
    {
        let key = name.to_owned();
        match self.find(&key) {
            Some(i) => Some(self.attrs[i].value.clone()),
            None => None,
        }
    }

    /// Sets the attribute `name` to `value` and tells the node's behaviours.
    ///
    /// Where the node holds a value under `name`, the behaviours are told of
    /// that value while the node still holds it. Then the new value is put in
    /// place, and only then are they told of it.
    pub fn set_attribute<V: VirtualMethods>(&mut self, overrides: &mut V, name: &str, value: &str)
        requires
            old(self).wf(),
        ensures
            final(self).wf(),
            final(self)@ == (NodeView {
                attributes: old(self)@.attributes.insert(name@, value@),
                ..old(self)@
            }),
            final(overrides)@ == dispatched::<V>(
                old(overrides)@,
                old(self)@.node,
                set_attribute_events(old(self)@, name@, value@),
            ),
    {
        let key = name.to_owned();
        let ghost start = overrides@;
        let ghost events = set_attribute_events(self@, name@, value@);
        match self.find(&key) {
            Some(i) => {
                let held = self.attrs[i].value.clone();
                let leaving = LifecycleEvent::BeforeRemoveAttr { name: name.to_owned(), value: held };
                dispatch(&self.node, &leaving, overrides);
                self.attrs.set(i, Attr { name: key, value: value.to_owned() });
                proof {
                    assert(events.drop_last() =~= seq![leaving@]);
                    assert(events.drop_last().drop_last() =~= Seq::<EventView>::empty());
                    assert(dispatched::<V>(start, self.node, events.drop_last().drop_last()) == start);
                    assert(dispatched::<V>(start, self.node, events.drop_last()) == overrides@);
                    assert forall|n: Seq<char>| self.holds(n) == old(self).holds(n) by {
                        if old(self).holds(n) {
                            let j = old(self).position(n);
                            assert(self.attrs@[j].name@ == n);
                        }
                        if self.holds(n) {
                            let j = self.position(n);
                            assert(old(self).attrs@[j].name@ == n);
                        }
                    }
                    assert forall|n: Seq<char>| self.holds(n) implies #[trigger] self.attrs@[self.position(n)].value@
                        == old(self)@.attributes.insert(name@, value@)[n] by {
                        let j = self.position(n);
                        assert(old(self).attrs@[j].name@ == n);
                        if n != name@ {
                            let k = old(self).position(n);
                            assert(j == k);
                        }
                    }
                    assert(self@.attributes =~= old(self)@.attributes.insert(name@, value@));
                }
            },
            None => {
                self.attrs.push(Attr { name: key, value: value.to_owned() });
                proof {
                    assert(events.drop_last() =~= Seq::<EventView>::empty());
                    assert(dispatched::<V>(start, self.node, events.drop_last()) == start);
                    let last = old(self).attrs@.len() as int;
                    assert(self.attrs@[last].name@ == name@);
                    assert forall|n: Seq<char>| self.holds(n) == (old(self).holds(n) || n == name@) by {
                        if old(self).holds(n) {
                            let j = old(self).position(n);
                            assert(self.attrs@[j].name@ == n);
                        }
                        if self.holds(n) {
                            let j = self.position(n);
                            if j < last {
                                assert(old(self).attrs@[j].name@ == n);
                            }
                        }
                    }
                    assert forall|n: Seq<char>| self.holds(n) implies #[trigger] self.attrs@[self.position(n)].value@
                        == old(self)@.attributes.insert(name@, value@)[n] by {
                        let j = self.position(n);
                        if n != name@ {
                            assert(j < last);
                            assert(old(self).attrs@[j].name@ == n);
                            let k = old(self).position(n);
                            assert(j == k);
                        } else {
                            assert(j == last);
                        }
                    }
                    assert(self@.attributes =~= old(self)@.attributes.insert(name@, value@));
                }
            },
        }
        let set = LifecycleEvent::AfterSetAttr { name: name.to_owned(), value: value.to_owned() };
        dispatch(&self.node, &set, overrides);
    }

    /// Removes the attribute `name`, if the node has it, and tells the node's
    /// behaviours beforehand.
    ///
    /// The behaviours are told of the value held while the node still holds
    /// it; only then is the attribute taken away. Where the node has no such
    /// attribute nothing happens and nobody is told.
    pub fn remove_attribute<V: VirtualMethods>(&mut self, overrides: &mut V, name: &str)
        requires
            old(self).wf(),
        ensures
            final(self).wf(),
            final(self)@ == (NodeView { attributes: old(self)@.attributes.remove(name@), ..old(self)@ }),
            final(overrides)@ == dispatched::<V>(
                old(overrides)@,
                old(self)@.node,
                remove_attribute_events(old(self)@, name@),
            ),
    {
        let key = name.to_owned();
        let ghost start = overrides@;
        let ghost events = remove_attribute_events(self@, name@);
        match self.find(&key) {
            Some(i) => {
                let held = self.attrs[i].value.clone();
                let leaving = LifecycleEvent::BeforeRemoveAttr { name: key, value: held };
                dispatch(&self.node, &leaving, overrides);
                self.attrs.remove(i);
                proof {
                    assert(events.drop_last() =~= Seq::<EventView>::empty());
                    assert(dispatched::<V>(start, self.node, events.drop_last()) == start);
                    let before = old(self).attrs@;
                    assert forall|j: int| 0 <= j < self.attrs@.len() implies (#[trigger] self.attrs@[j])
                        == before[if j < i { j } else { j + 1 }] by {}
                    assert(self.wf());
                    assert forall|n: Seq<char>| self.holds(n) == (old(self).holds(n) && n != name@) by {
                        if old(self).holds(n) && n != name@ {
                            let j = old(self).position(n);
                            let k = if j < i { j } else { j - 1 };
                            assert(self.attrs@[k].name@ == n);
                        }
                        if self.holds(n) {
                            let j = self.position(n);
                            let k = if j < i { j } else { j + 1 };
                            assert(before[k].name@ == n);
                        }
                    }
                    assert forall|n: Seq<char>| self.holds(n) implies #[trigger] self.attrs@[self.position(n)].value@
                        == old(self)@.attributes[n] by {
                        let j = self.position(n);
                        let k = if j < i { j } else { j + 1 };
                        assert(before[k].name@ == n);
                        let m = old(self).position(n);
                        assert(k == m);
                    }
                    assert(self@.attributes =~= old(self)@.attributes.remove(name@));
                }
            },
            None => {
                proof {
                    assert(self@.attributes =~= old(self)@.attributes.remove(name@));
                }
            },
        }
    }

    /// Appends `child` to the node's child list and then tells the node's
    /// behaviours that it was inserted.
    pub fn append_child<V: VirtualMethods>(&mut self, overrides: &mut V, child: &NodeRef)
        ensures
            final(self).wf() == old(self).wf(),
            final(self)@ == (NodeView { children: old(self)@.children.push(*child), ..old(self)@ }),
            final(overrides)@ == walk_of::<V>(
                old(overrides)@,
                spec_vtable_for(old(self)@.node),
                EventView::ChildInserted { child: *child },
            ).1,
    {
        self.children.push(*child);
        assert(self@.attributes =~= old(self)@.attributes);
        dispatch(&self.node, &LifecycleEvent::ChildInserted { child: *child }, overrides);
    }

    /// Marks the node as part of a tree that hangs under a document and then
    /// tells the node's behaviours that it was bound.
    pub fn bind_to_tree<V: VirtualMethods>(&mut self, overrides: &mut V)
        ensures
            final(self).wf() == old(self).wf(),
            final(self)@ == (NodeView { in_document: true, ..old(self)@ }),
            final(overrides)@ == walk_of::<V>(
                old(overrides)@,
                spec_vtable_for(old(self)@.node),
                EventView::BindToTree,
            ).1,
    {
        self.in_document = true;
        assert(self@.attributes =~= old(self)@.attributes);
        dispatch(&self.node, &LifecycleEvent::BindToTree, overrides);
    }

    /// Marks the node as outside any document and then tells the node's
    /// behaviours that it was unbound.
    pub fn unbind_from_tree<V: VirtualMethods>(&mut self, overrides: &mut V)
        ensures
            final(self).wf() == old(self).wf(),
            final(self)@ == (NodeView { in_document: false, ..old(self)@ }),
            final(overrides)@ == walk_of::<V>(
                old(overrides)@,
                spec_vtable_for(old(self)@.node),
                EventView::UnbindFromTree,
            ).1,
    {
        self.in_document = false;
        assert(self@.attributes =~= old(self)@.attributes);
        dispatch(&self.node, &LifecycleEvent::UnbindFromTree, overrides);
    }
}

} // verus!
