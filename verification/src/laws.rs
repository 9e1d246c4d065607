//! What holds of the hierarchy and of every walk, whatever the overrides.
use vstd::prelude::*;
use crate::events::EventView;
use crate::hierarchy::{Handle, HandleType};
use crate::identity::NodeRef;
use crate::node::{dispatched, remove_attribute_events, set_attribute_events, NodeView};
use crate::overrides::{Inherited, Recorder, RecorderView};
use crate::virtualmethods::{spec_vtable_for, walk_of, VirtualMethods};

verus! {

/// The chain of a level starts at the level, climbs one level per step and
/// ends at `Node`, the only level with none above it. It holds a level for
/// each depth from the level's own down to zero, so at most four, and no
/// level twice.
pub proof fn lemma_chain_is_linear(level: HandleType)
    ensures
        level.chain().len() == level.depth() + 1,
        level.chain().len() <= 4,
        level.chain()[0] == level,
        level.chain().last() == HandleType::Node,
        forall|i: int| 0 <= i < level.chain().len() ==> (#[trigger] level.chain()[i]).depth() == level.depth() - i,
        forall|i: int|
            0 <= i < level.chain().len() - 1 ==> (#[trigger] level.chain()[i]).spec_super_type() == Some(
                level.chain()[i + 1],
            ),
        forall|i: int, j: int| 0 <= i < j < level.chain().len() ==> level.chain()[i] != level.chain()[j],
    decreases level.depth(),
{
    match level.spec_super_type() {
        None => {},
        Some(above) => {
            lemma_chain_is_linear(above);
            assert(level.chain() =~= seq![level] + above.chain());
            assert forall|i: int| 0 <= i < level.chain().len() implies (#[trigger] level.chain()[i]).depth()
                == level.depth() - i by {
                if i > 0 {
                    assert(level.chain()[i] == above.chain()[i - 1]);
                }
            }
            assert forall|i: int| 0 <= i < level.chain().len() - 1 implies (#[trigger] level.chain()[i])
                .spec_super_type() == Some(level.chain()[i + 1]) by {
                assert(level.chain()[i + 1] == above.chain()[i]);
                if i > 0 {
                    assert(level.chain()[i] == above.chain()[i - 1]);
                }
            }
        },
    }
}

/// The chain of a handle is the handle itself where nothing stands above it,
/// else the handle followed by the chain of the handle above.
pub proof fn lemma_handle_chain_unfolds(at: Handle)
    ensures
        at.chain() == match at.spec_super_type() {
            None => seq![at],
            Some(above) => seq![at] + above.chain(),
        },
        at.chain().len() == at.level.depth() + 1,
        forall|i: int| 0 <= i < at.chain().len() ==> (#[trigger] at.chain()[i]).node == at.node,
{
    lemma_chain_is_linear(at.level);
    match at.spec_super_type() {
        None => {
            assert(at.chain() =~= seq![at]);
        },
        Some(above) => {
            assert(at.level.chain() =~= seq![at.level] + above.level.chain());
            assert(at.chain() =~= seq![at] + above.chain());
        },
    }
}

/// Resolution never fails: every node, whatever its kind tag, resolves to a
/// handle that is bound to that node, and the handle's chain ends at the
/// generic node behaviour after at most four levels.
pub proof fn lemma_every_kind_resolves(node: NodeRef)
    ensures
        spec_vtable_for(node).node == node,
        spec_vtable_for(node).level == HandleType::spec_for_type(node.type_id),
        1 <= spec_vtable_for(node).chain().len() <= 4,
        spec_vtable_for(node).chain()[0] == spec_vtable_for(node),
        spec_vtable_for(node).chain().last() == (Handle { level: HandleType::Node, node }),
{
    let handle = spec_vtable_for(node);
    lemma_chain_is_linear(handle.level);
    lemma_handle_chain_unfolds(handle);
}

/// A node that is no element resolves to the generic node behaviour; an
/// element resolves to a level at or below `Element`.
pub proof fn lemma_resolution_respects_kind(node: NodeRef)
    ensures
        !node.type_id.spec_is_element() <==> spec_vtable_for(node).level == HandleType::Node,
        node.type_id.spec_is_element() ==> spec_vtable_for(node).level.depth() >= 1,
{
}

/// The handle that a node resolves to fits the node, and so does every handle
/// of its chain: no walk that starts at a resolved handle invokes a level
/// that the node's kind does not pass through.
pub proof fn lemma_resolved_chain_fits(node: NodeRef, i: int)
    requires
        0 <= i < spec_vtable_for(node).chain().len(),
    ensures
        spec_vtable_for(node).fits(),
        spec_vtable_for(node).chain()[i].fits(),
        spec_vtable_for(node).chain()[i].node == node,
{
    let top = spec_vtable_for(node);
    lemma_chain_is_linear(top.level);
    lemma_handle_chain_unfolds(top);
    assert(top.level.chain()[0] == top.level);
    assert(top.level.chain()[i] == top.chain()[i].level);
}

/// A walk follows the chain: the handles invoked are the first handles of
/// the chain of the handle at which the event was delivered, at least one of
/// them, in chain order; all of them are bound to the same node.
pub proof fn lemma_walk_follows_chain<V: VirtualMethods>(state: V::V, at: Handle, event: EventView)
    ensures
        1 <= walk_of::<V>(state, at, event).0.len() <= at.chain().len(),
        walk_of::<V>(state, at, event).0 == at.chain().take(walk_of::<V>(state, at, event).0.len() as int),
        forall|i: int|
            0 <= i < walk_of::<V>(state, at, event).0.len() ==> (#[trigger] walk_of::<V>(state, at, event).0[i]).node
                == at.node,
    decreases at.level.depth(),
{
    lemma_handle_chain_unfolds(at);
    let walk = walk_of::<V>(state, at, event).0;
    match at.spec_super_type() {
        Some(above) if V::forwards(state, at, event) => {
            let after = V::reacted(state, at, event);
            lemma_walk_follows_chain::<V>(after, above, event);
            lemma_handle_chain_unfolds(above);
            let rest = walk_of::<V>(after, above, event).0;
            assert(walk == seq![at] + rest);
            assert(walk =~= at.chain().take(walk.len() as int));
            assert forall|i: int| 0 <= i < walk.len() implies (#[trigger] walk[i]).node == at.node by {
                if i > 0 {
                    assert(walk[i] == rest[i - 1]);
                }
            }
        },
        _ => {
            assert(walk =~= at.chain().take(1));
        },
    }
}

/// The overrides' view once the handles `handles` have reacted to `event`, one
/// after the other.
pub open spec fn reacted_along<V: VirtualMethods>(state: V::V, handles: Seq<Handle>, event: EventView) -> V::V
    decreases handles.len(),
{
    if handles.len() == 0 {
        state
    } else {
        V::reacted(reacted_along::<V>(state, handles.drop_last(), event), handles.last(), event)
    }
}

/// Whether the `i`-th handle of the chain of `at` forwards `event`, given that
/// the handles before it have reacted to it.
pub open spec fn forwards_at<V: VirtualMethods>(state: V::V, at: Handle, event: EventView, i: int) -> bool {
    V::forwards(reacted_along::<V>(state, at.chain().take(i), event), at.chain()[i], event)
}

proof fn lemma_reacted_along_first<V: VirtualMethods>(state: V::V, first: Handle, rest: Seq<Handle>, event: EventView)
    ensures
        reacted_along::<V>(state, seq![first] + rest, event) == reacted_along::<V>(
            V::reacted(state, first, event),
            rest,
            event,
        ),
    decreases rest.len(),
{
    let all = seq![first] + rest;
    if rest.len() == 0 {
        assert(all.drop_last() =~= Seq::<Handle>::empty());
        assert(reacted_along::<V>(state, all.drop_last(), event) == state);
    } else {
        lemma_reacted_along_first::<V>(state, first, rest.drop_last(), event);
        assert(all.drop_last() =~= seq![first] + rest.drop_last());
        assert(all.last() == rest.last());
    }
}

/// Every level invoked is given the very event that was delivered, once and
/// in chain order: the overrides end in the state that the reactions of the
/// handles invoked, each to that event, lead to.
pub proof fn lemma_event_is_forwarded_unchanged<V: VirtualMethods>(state: V::V, at: Handle, event: EventView)
    ensures
        walk_of::<V>(state, at, event).1 == reacted_along::<V>(state, walk_of::<V>(state, at, event).0, event),
    decreases at.level.depth(),
{
    let after = V::reacted(state, at, event);
    match at.spec_super_type() {
        Some(above) if V::forwards(state, at, event) => {
            lemma_event_is_forwarded_unchanged::<V>(after, above, event);
            lemma_reacted_along_first::<V>(state, at, walk_of::<V>(after, above, event).0, event);
        },
        _ => {
            assert(seq![at].drop_last() =~= Seq::<Handle>::empty());
            assert(reacted_along::<V>(state, seq![at].drop_last(), event) == state);
        },
    }
}

/// A walk ends at the first level that does not forward, or at the end of the
/// chain where every level forwards: if each of the first `i` handles of the
/// chain forwards the event and the next one either suppresses it or is the
/// last of the chain, exactly the first `i + 1` handles are invoked.
pub proof fn lemma_walk_ends_at_first_suppression<V: VirtualMethods>(
    state: V::V,
    at: Handle,
    event: EventView,
    i: int,
)
    requires
        0 <= i < at.chain().len(),
        forall|j: int| 0 <= j < i ==> forwards_at::<V>(state, at, event, j),
        i == at.chain().len() - 1 || !forwards_at::<V>(state, at, event, i),
    ensures
        walk_of::<V>(state, at, event).0 == at.chain().take(i + 1),
        walk_of::<V>(state, at, event).1 == reacted_along::<V>(state, at.chain().take(i + 1), event),
    decreases at.level.depth(),
{
    lemma_handle_chain_unfolds(at);
    lemma_event_is_forwarded_unchanged::<V>(state, at, event);
    assert(at.chain().take(0) =~= Seq::<Handle>::empty());
    assert(reacted_along::<V>(state, at.chain().take(0), event) == state);
    assert(at.chain()[0] == at);
    if i == 0 {
        assert(walk_of::<V>(state, at, event).0 =~= at.chain().take(1));
    } else {
        assert(forwards_at::<V>(state, at, event, 0));
        let above = at.spec_super_type().unwrap();
        let after = V::reacted(state, at, event);
        lemma_handle_chain_unfolds(above);
        assert forall|j: int| 0 <= j < i implies reacted_along::<V>(state, at.chain().take(j + 1), event)
            == reacted_along::<V>(after, above.chain().take(j), event) by {
            assert(at.chain().take(j + 1) =~= seq![at] + above.chain().take(j));
            lemma_reacted_along_first::<V>(state, at, above.chain().take(j), event);
        }
        assert forall|j: int| 0 <= j < i - 1 implies forwards_at::<V>(after, above, event, j) by {
            assert(forwards_at::<V>(state, at, event, j + 1));
            assert(at.chain()[j + 1] == above.chain()[j]);
        }
        assert(at.chain()[i] == above.chain()[i - 1]);
        lemma_walk_ends_at_first_suppression::<V>(after, above, event, i - 1);
        assert(at.chain().take(i + 1) =~= seq![at] + above.chain().take(i));
    }
}

/// Where no level of the chain overrides the operation, so that each leaves
/// the overrides as they are and forwards, the event reaches every level of
/// the chain once, in chain order, down to the generic node behaviour, and
/// nothing has changed when the walk ends.
pub proof fn lemma_default_walk_is_whole_chain<V: VirtualMethods>(state: V::V, at: Handle, event: EventView)
    requires
        forall|i: int|
            0 <= i < at.chain().len() ==> V::forwards(state, #[trigger] at.chain()[i], event) && V::reacted(
                state,
                at.chain()[i],
                event,
            ) == state,
    ensures
        walk_of::<V>(state, at, event) == (at.chain(), state),
    decreases at.level.depth(),
{
    lemma_handle_chain_unfolds(at);
    assert(at.chain()[0] == at);
    match at.spec_super_type() {
        None => {},
        Some(above) => {
            lemma_handle_chain_unfolds(above);
            assert forall|i: int| 0 <= i < above.chain().len() implies V::forwards(
                state,
                #[trigger] above.chain()[i],
                event,
            ) && V::reacted(state, above.chain()[i], event) == state by {
                assert(at.chain()[i + 1] == above.chain()[i]);
            }
            lemma_default_walk_is_whole_chain::<V>(state, above, event);
        },
    }
}

/// With nothing overridden, every event walks the whole chain.
pub proof fn lemma_inherited_walk_is_whole_chain(at: Handle, event: EventView)
    ensures
        walk_of::<Inherited>((), at, event) == (at.chain(), ()),
{
    lemma_default_walk_is_whole_chain::<Inherited>((), at, event);
}

/// An override that suppresses forwarding ends the walk: no level above it is
/// invoked.
pub proof fn lemma_suppression_at_top_ends_walk<V: VirtualMethods>(state: V::V, at: Handle, event: EventView)
    requires
        !V::forwards(state, at, event),
    ensures
        walk_of::<V>(state, at, event) == (seq![at], V::reacted(state, at, event)),
{
}

/// Where the answer of a level to an event does not depend on the overrides'
/// state, the walk has the same shape from every state.
pub proof fn lemma_steady_walk_has_one_shape<V: VirtualMethods>(
    first: V::V,
    second: V::V,
    at: Handle,
    event: EventView,
)
    requires
        forall|a: V::V, b: V::V, h: Handle| #[trigger]
            V::forwards(a, h, event) == #[trigger] V::forwards(b, h, event),
    ensures
        walk_of::<V>(first, at, event).0 == walk_of::<V>(second, at, event).0,
    decreases at.level.depth(),
{
    assert(V::forwards(first, at, event) == V::forwards(second, at, event));
    match at.spec_super_type() {
        None => {},
        Some(above) => {
            lemma_steady_walk_has_one_shape::<V>(
                V::reacted(first, at, event),
                V::reacted(second, at, event),
                above,
                event,
            );
        },
    }
}

/// Delivering the same event twice in a row walks the same handles both
/// times, provided that the answer of a level to the event does not depend on
/// the overrides' state. The state itself may differ after the second walk.
pub proof fn lemma_repeated_walk_has_same_shape<V: VirtualMethods>(state: V::V, at: Handle, event: EventView)
    requires
        forall|a: V::V, b: V::V, h: Handle| #[trigger]
            V::forwards(a, h, event) == #[trigger] V::forwards(b, h, event),
    ensures
        walk_of::<V>(walk_of::<V>(state, at, event).1, at, event).0 == walk_of::<V>(state, at, event).0,
{
    lemma_steady_walk_has_one_shape::<V>(walk_of::<V>(state, at, event).1, state, at, event);
}

/// Whatever the overrides do, two walks from the same handle run along the
/// same chain: the shorter is the beginning of the longer.
pub proof fn lemma_walks_from_one_handle_agree<V: VirtualMethods>(
    first: V::V,
    second: V::V,
    at: Handle,
    event: EventView,
    other: EventView,
    i: int,
)
    requires
        0 <= i < walk_of::<V>(first, at, event).0.len(),
        i < walk_of::<V>(second, at, other).0.len(),
    ensures
        walk_of::<V>(first, at, event).0[i] == walk_of::<V>(second, at, other).0[i],
{
    lemma_walk_follows_chain::<V>(first, at, event);
    lemma_walk_follows_chain::<V>(second, at, other);
}

/// A recorder's journal grows by one entry for each handle invoked, in the
/// order of the walk, and each entry holds the event that was delivered.
pub proof fn lemma_recorder_journals_the_walk(state: RecorderView, at: Handle, event: EventView)
    ensures
        walk_of::<Recorder>(state, at, event).1.suppressed == state.suppressed,
        walk_of::<Recorder>(state, at, event).1.journal == state.journal + walk_of::<Recorder>(
            state,
            at,
            event,
        ).0.map_values(|h: Handle| (h, event)),
    decreases at.level.depth(),
{
    let after = Recorder::reacted(state, at, event);
    let walk = walk_of::<Recorder>(state, at, event);
    match at.spec_super_type() {
        Some(above) if Recorder::forwards(state, at, event) => {
            lemma_recorder_journals_the_walk(after, above, event);
            let rest = walk_of::<Recorder>(after, above, event);
            assert(walk.0 == seq![at] + rest.0);
            assert(walk.1.journal =~= state.journal + walk.0.map_values(|h: Handle| (h, event)));
        },
        _ => {
            assert(walk.1.journal =~= state.journal + walk.0.map_values(|h: Handle| (h, event)));
        },
    }
}

/// The behaviours hear of an attribute's value at the right side of the
/// change. What they are told is about to go is the value that the node holds
/// before the change, never the new one; what they are told was set is the
/// value that the node holds after it. Where both are told, the old value
/// comes first.
pub proof fn lemma_attribute_events_carry_held_values(node: NodeView, name: Seq<char>, value: Seq<char>)
    ensures
        set_attribute_events(node, name, value).last() == (EventView::AfterSetAttr {
            name,
            value: node.attributes.insert(name, value)[name],
        }),
        node.attributes.contains_key(name) ==> set_attribute_events(node, name, value) == seq![
            EventView::BeforeRemoveAttr { name, value: node.attributes[name] },
            EventView::AfterSetAttr { name, value },
        ],
        !node.attributes.contains_key(name) ==> set_attribute_events(node, name, value).len() == 1,
        forall|i: int|
            0 <= i < remove_attribute_events(node, name).len() ==> #[trigger] remove_attribute_events(node, name)[i]
                == (EventView::BeforeRemoveAttr { name, value: node.attributes[name] }),
        remove_attribute_events(node, name).len() == (if node.attributes.contains_key(name) {
            1nat
        } else {
            0nat
        }),
{
}

/// Dispatching two events in a row is dispatching the first and then, from
/// the state that this leaves, the second; dispatching none changes nothing.
pub proof fn lemma_dispatched_in_order<V: VirtualMethods>(
    state: V::V,
    node: NodeRef,
    first: EventView,
    second: EventView,
)
    ensures
        dispatched::<V>(state, node, seq![]) == state,
        dispatched::<V>(state, node, seq![first]) == walk_of::<V>(state, spec_vtable_for(node), first).1,
        dispatched::<V>(state, node, seq![first, second]) == walk_of::<V>(
            walk_of::<V>(state, spec_vtable_for(node), first).1,
            spec_vtable_for(node),
            second,
        ).1,
{
    let one = seq![first];
    let two = seq![first, second];
    assert(one.drop_last() =~= Seq::<EventView>::empty());
    assert(two.drop_last() =~= one);
    assert(dispatched::<V>(state, node, one.drop_last()) == state);
    assert(dispatched::<V>(state, node, one) == walk_of::<V>(state, spec_vtable_for(node), first).1);
    assert(dispatched::<V>(state, node, two) == walk_of::<V>(
        dispatched::<V>(state, node, two.drop_last()),
        spec_vtable_for(node),
        two.last(),
    ).1);
}

} // verus!
