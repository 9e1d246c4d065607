//! Two sets of overrides: one that overrides nothing and one that keeps a
//! journal of what it was asked.
use vstd::prelude::*;
use crate::events::{EventView, LifecycleEvent, Operation, Propagation};
use crate::hierarchy::{Handle, HandleType};
use crate::identity::NodeRef;
use crate::virtualmethods::VirtualMethods;

verus! {

/// The set of overrides that overrides nothing.
///
/// At every level every operation has its default behaviour: nothing happens
/// there and the event goes on to the level above.
#[derive(Clone, Copy, Debug, PartialEq, Eq)]
pub struct Inherited;

impl View for Inherited {
    type V = ();

    open spec fn view(&self) -> () {
        ()
    }
}

impl VirtualMethods for Inherited {
    open spec fn reacted(state: (), at: Handle, event: EventView) -> () {
        ()
    }

    open spec fn forwards(state: (), at: Handle, event: EventView) -> bool {
        true
    }

    fn after_set_attr(&mut self, at: &Handle, name: &str, value: &str) -> (p: Propagation) {
        Propagation::Forward
    }

    fn before_remove_attr(&mut self, at: &Handle, name: &str, value: &str) -> (p: Propagation) {
        Propagation::Forward
    }

    fn bind_to_tree(&mut self, at: &Handle) -> (p: Propagation) {
        Propagation::Forward
    }

    fn unbind_from_tree(&mut self, at: &Handle) -> (p: Propagation) {
        Propagation::Forward
    }

    fn child_inserted(&mut self, at: &Handle, child: &NodeRef) -> (p: Propagation) {
        Propagation::Forward
    }
}

/// One invocation: the handle that was invoked and the event it was given.
#[derive(Clone, Debug, PartialEq, Eq)]
pub struct Invocation {
    pub at: Handle,
    pub event: LifecycleEvent,
}

impl View for Invocation {
    type V = (Handle, EventView);

    open spec fn view(&self) -> (Handle, EventView) {
        (self.at, self.event@)
    }
}

/// What contracts see of a [`Recorder`].
pub struct RecorderView {
    /// Every invocation so far, oldest first.
    pub journal: Seq<(Handle, EventView)>,
    /// The levels and operations at which the recorder suppresses forwarding.
    pub suppressed: Seq<(HandleType, Operation)>,
}

/// A set of overrides that overrides every operation at every level: its local
/// work is to enter the invocation in a journal.
///
/// It forwards every event, except at the levels and operations that it was
/// told to suppress.
pub struct Recorder {
    journal: Vec<Invocation>,
    suppressed: Vec<(HandleType, Operation)>,
}

impl View for Recorder {
    type V = RecorderView;

    closed spec fn view(&self) -> RecorderView {
        RecorderView { journal: self.journal@.map_values(|i: Invocation| i@), suppressed: self.suppressed@ }
    }
}

impl Recorder {
    /// A recorder with an empty journal that suppresses nothing.
    pub fn new() -> (r: Recorder)
        ensures
            r@.journal == Seq::<(Handle, EventView)>::empty(),
            r@.suppressed == Seq::<(HandleType, Operation)>::empty(),
    {
        let r = Recorder { journal: Vec::new(), suppressed: Vec::new() };
        assert(r@.journal =~= Seq::<(Handle, EventView)>::empty());
        r
    }

    /// From now on the level `level` does not forward the operation
    /// `operation`.
    pub fn suppress(&mut self, level: HandleType, operation: Operation)
        ensures
            final(self)@.journal == old(self)@.journal,
            final(self)@.suppressed == old(self)@.suppressed.push((level, operation)),
    {
        self.suppressed.push((level, operation));
    }

    /// Whether the level `level` suppresses the operation `operation`.
    pub fn suppresses(&self, level: HandleType, operation: Operation) -> (b: bool)
        ensures
            b == self@.suppressed.contains((level, operation)),
    {
        let mut i: usize = 0;
        while i < self.suppressed.len()
            invariant
                i <= self.suppressed.len(),
                forall|j: int| 0 <= j < i ==> self.suppressed@[j] != (level, operation),
            decreases self.suppressed.len() - i,
        {
            let entry = self.suppressed[i];
            if entry.0 == level && entry.1 == operation {
                return true;
            }
            i += 1;
        }
        false
    }

    /// The journal: every invocation so far, oldest first.
    pub fn journal(&self) -> (entries: &Vec<Invocation>)
        ensures
            entries@.map_values(|i: Invocation| i@) == self@.journal,
    {
        &self.journal
    }

    /// The number of invocations so far.
    pub fn len(&self) -> (n: usize)
        ensures
            n == self@.journal.len(),
    {
        self.journal.len()
    }

    /// Forgets every invocation; what is suppressed stays.
    pub fn clear(&mut self)
        ensures
            final(self)@.journal == Seq::<(Handle, EventView)>::empty(),
            final(self)@.suppressed == old(self)@.suppressed,
    {
        self.journal.clear();
        assert(self@.journal =~= Seq::<(Handle, EventView)>::empty());
    }

    /// Enters an invocation and answers for it.
    fn record(&mut self, at: &Handle, event: LifecycleEvent) -> (p: Propagation)
        ensures
            final(self)@ == Recorder::reacted(old(self)@, *at, event@),
            (p == Propagation::Forward) == Recorder::forwards(old(self)@, *at, event@),
    {
        let stop = self.suppresses(at.level, event.operation());
        self.journal.push(Invocation { at: *at, event });
        assert(self@.journal =~= old(self)@.journal.push((*at, event@)));
        if stop {
            Propagation::Suppress
        } else {
            Propagation::Forward
        }
    }
}

impl VirtualMethods for Recorder {
    open spec fn reacted(state: RecorderView, at: Handle, event: EventView) -> RecorderView {
        RecorderView { journal: state.journal.push((at, event)), suppressed: state.suppressed }
    }

    open spec fn forwards(state: RecorderView, at: Handle, event: EventView) -> bool {
        !state.suppressed.contains((at.level, event.operation()))
    }

    fn after_set_attr(&mut self, at: &Handle, name: &str, value: &str) -> (p: Propagation) {
        self.record(at, LifecycleEvent::AfterSetAttr { name: name.to_owned(), value: value.to_owned() })
    }

    fn before_remove_attr(&mut self, at: &Handle, name: &str, value: &str) -> (p: Propagation) {
        self.record(at, LifecycleEvent::BeforeRemoveAttr { name: name.to_owned(), value: value.to_owned() })
    }

    fn bind_to_tree(&mut self, at: &Handle) -> (p: Propagation) {
        self.record(at, LifecycleEvent::BindToTree)
    }

    fn unbind_from_tree(&mut self, at: &Handle) -> (p: Propagation) {
        self.record(at, LifecycleEvent::UnbindFromTree)
    }

    fn child_inserted(&mut self, at: &Handle, child: &NodeRef) -> (p: Propagation) {
        self.record(at, LifecycleEvent::ChildInserted { child: *child })
    }
}

} // verus!
