//! The user-interface event: an event with the window it was raised in and a
//! number that says more about it.
use vstd::prelude::*;
use crate::bindings::{Error, WindowRef};
use crate::identity::NodeRef;

verus! {

/// The kind of an event.
#[derive(Clone, Copy, Debug, PartialEq, Eq, Structural)]
pub enum EventTypeId {
    HTMLEvent,
    KeyEvent,
    MouseEvent,
    UIEvent,
}

/// The part that every event has: its kind, its name and whether it bubbles
/// and can be cancelled.
#[derive(Debug, PartialEq, Eq)]
pub struct Event {
    pub type_id: EventTypeId,
    pub type_: String,
    pub bubbles: bool,
    pub cancelable: bool,
}

#[allow(non_snake_case)]
impl Event {
    /// An event of kind `type_id` that has no name yet and neither bubbles nor
    /// can be cancelled.
    pub fn new_inherited(type_id: EventTypeId) -> (event: Event)
        ensures
            event.type_id == type_id,
            event.type_@ == Seq::<char>::empty(),
            !event.bubbles,
            !event.cancelable,
    {
        Event { type_id, type_: String::new(), bubbles: false, cancelable: false }
    }

    /// Gives the event its name and says whether it bubbles and can be
    /// cancelled. The kind stays.
    pub fn InitEvent(&mut self, type_: String, bubbles: bool, cancelable: bool)
        ensures
            final(self).type_id == old(self).type_id,
            final(self).type_ == type_,
            final(self).bubbles == bubbles,
            final(self).cancelable == cancelable,
    {
        self.type_ = type_;
        self.bubbles = bubbles;
        self.cancelable = cancelable;
    }

    /// Whether the event is a user-interface event.
    pub open spec fn spec_is_uievent(&self) -> bool {
        self.type_id == EventTypeId::UIEvent
    }

    /// Whether the event is a user-interface event.
    #[verifier::when_used_as_spec(spec_is_uievent)]
    pub fn is_uievent(&self) -> (b: bool)
        ensures
            b == self.spec_is_uievent(),
    {
        self.type_id == EventTypeId::UIEvent
    }
}

/// What a new event is made from.
#[derive(Clone, Copy, Debug, PartialEq, Eq, Structural)]
pub struct EventInit {
    pub bubbles: bool,
    pub cancelable: bool,
}

/// What a new user-interface event is made from.
#[derive(Clone, Copy, Debug, PartialEq, Eq, Structural)]
pub struct UIEventInit {
    pub parent: EventInit,
    pub view: Option<WindowRef>,
    pub detail: i32,
}

/// A user-interface event.
#[derive(Debug, PartialEq, Eq)]
pub struct UIEvent {
    pub event: Event,
    pub view: Option<WindowRef>,
    pub detail: i32,
}

#[allow(non_snake_case)]
impl UIEvent {
    /// A user-interface event of kind `type_id`, not yet initialised: it has
    /// no name, no window and the detail 0.
    pub fn new_inherited(type_id: EventTypeId) -> (ev: UIEvent)
        ensures
            ev.event.type_id == type_id,
            ev.event.type_@ == Seq::<char>::empty(),
            !ev.event.bubbles,
            !ev.event.cancelable,
            ev.view is None,
            ev.detail == 0,
    {
        UIEvent { event: Event::new_inherited(type_id), view: None, detail: 0 }
    }

    /// A user-interface event of the plain kind, not yet initialised. The
    /// window that asks for it leaves no mark on it.
    pub fn new(_window: &WindowRef) -> (ev: UIEvent)
        ensures
            ev.event.type_id == EventTypeId::UIEvent,
            ev.event.type_@ == Seq::<char>::empty(),
            !ev.event.bubbles,
            !ev.event.cancelable,
            ev.view is None,
            ev.detail == 0,
    {
        UIEvent::new_inherited(EventTypeId::UIEvent)
    }

    /// Makes a user-interface event named `type_` from `init`. It never
    /// fails.
    pub fn Constructor(owner: &WindowRef, type_: String, init: &UIEventInit) -> (r: Result<UIEvent, Error>)
        ensures
            r matches Ok(ev) && ev.event.type_id == EventTypeId::UIEvent && ev.event.type_ == type_
                && ev.event.bubbles == init.parent.bubbles && ev.event.cancelable == init.parent.cancelable
                && ev.view == init.view && ev.detail == init.detail,
    {
        let mut ev = UIEvent::new(owner);
        ev.InitUIEvent(type_, init.parent.bubbles, init.parent.cancelable, init.view, init.detail);
        Ok(ev)
    }

    /// The window in which the event was raised, if it has one.
    pub fn GetView(&self) -> (view: Option<WindowRef>)
        ensures
            view == self.view,
    {
        self.view
    }

    /// The number that says more about the event.
    pub fn Detail(&self) -> (detail: i32)
        ensures
            detail == self.detail,
    {
        self.detail
    }

    /// Initialises the event: its name, whether it bubbles and can be
    /// cancelled, its window and its detail. The kind stays.
    pub fn InitUIEvent(&mut self, type_: String, can_bubble: bool, cancelable: bool, view: Option<WindowRef>, detail: i32)
        ensures
            final(self).event.type_id == old(self).event.type_id,
            final(self).event.type_ == type_,
            final(self).event.bubbles == can_bubble,
            final(self).event.cancelable == cancelable,
            final(self).view == view,
            final(self).detail == detail,
    {
        self.event.InitEvent(type_, can_bubble, cancelable);
        self.view = view;
        self.detail = detail;
    }

    /// The horizontal place of the event in its layer: always 0.
    pub fn LayerX(&self) -> (x: i32)
        ensures
            x == 0,
    {
        0
    }

    /// The vertical place of the event in its layer: always 0.
    pub fn LayerY(&self) -> (y: i32)
        ensures
            y == 0,
    {
        0
    }

    /// The horizontal place of the event on its page: always 0.
    pub fn PageX(&self) -> (x: i32)
        ensures
            x == 0,
    {
        0
    }

    /// The vertical place of the event on its page: always 0.
    pub fn PageY(&self) -> (y: i32)
        ensures
            y == 0,
    {
        0
    }

    /// The key or button of the event: always 0.
    pub fn Which(&self) -> (which: u32)
        ensures
            which == 0,
    {
        0
    }

    /// The node in which the event's range starts: there is never one.
    pub fn GetRangeParent(&self) -> (parent: Option<NodeRef>)
        ensures
            parent is None,
    {
        None
    }

    /// The offset at which the event's range starts: always 0.
    pub fn RangeOffset(&self) -> (offset: i32)
        ensures
            offset == 0,
    {
        0
    }

    /// Whether the event's bubbling was cancelled: never.
    pub fn CancelBubble(&self) -> (b: bool)
        ensures
            !b,
    {
        false
    }

    /// Accepts either answer and keeps none.
    pub fn SetCancelBubble(&mut self, _val: bool)
        ensures
            *final(self) == *old(self),
    {
    }

    /// Whether the event stands for a character: never.
    pub fn IsChar(&self) -> (b: bool)
        ensures
            !b,
    {
        false
    }
}

} // verus!
