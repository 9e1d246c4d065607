use virtual_methods::{Event, EventInit, EventTypeId, UIEvent, UIEventInit, WindowRef};

#[test]
fn new_inherited_event_is_blank() {
    let event = Event::new_inherited(EventTypeId::MouseEvent);
    assert_eq!(event.type_id, EventTypeId::MouseEvent);
    assert_eq!(event.type_, "");
    assert!(!event.bubbles);
    assert!(!event.cancelable);
}

#[test]
fn init_event_sets_name_and_flags() {
    let mut event = Event::new_inherited(EventTypeId::HTMLEvent);
    event.InitEvent("load".to_string(), true, false);
    assert_eq!(event.type_id, EventTypeId::HTMLEvent);
    assert_eq!(event.type_, "load");
    assert!(event.bubbles);
    assert!(!event.cancelable);
    event.InitEvent("unload".to_string(), false, true);
    assert_eq!(event.type_, "unload");
    assert!(!event.bubbles);
    assert!(event.cancelable);
}

#[test]
fn only_ui_events_are_ui_events() {
    assert!(Event::new_inherited(EventTypeId::UIEvent).is_uievent());
    assert!(!Event::new_inherited(EventTypeId::HTMLEvent).is_uievent());
    assert!(!Event::new_inherited(EventTypeId::KeyEvent).is_uievent());
    assert!(!Event::new_inherited(EventTypeId::MouseEvent).is_uievent());
}

#[test]
fn new_inherited_ui_event_has_no_view_and_no_detail() {
    let ev = UIEvent::new_inherited(EventTypeId::MouseEvent);
    assert_eq!(ev.event.type_id, EventTypeId::MouseEvent);
    assert_eq!(ev.event.type_, "");
    assert_eq!(ev.view, None);
    assert_eq!(ev.detail, 0);
    assert_eq!(ev.GetView(), None);
    assert_eq!(ev.Detail(), 0);
}

#[test]
fn new_ui_event_is_of_the_plain_kind() {
    let ev = UIEvent::new(&WindowRef { id: 5 });
    assert_eq!(ev, UIEvent::new_inherited(EventTypeId::UIEvent));
    assert!(ev.event.is_uievent());
    assert_eq!(ev.GetView(), None);
}

#[test]
fn constructor_takes_everything_from_init() {
    let init = UIEventInit {
        parent: EventInit { bubbles: true, cancelable: false },
        view: Some(WindowRef { id: 9 }),
        detail: -3,
    };
    let ev = UIEvent::Constructor(&WindowRef { id: 5 }, "click".to_string(), &init).unwrap();
    assert_eq!(ev.event.type_id, EventTypeId::UIEvent);
    assert_eq!(ev.event.type_, "click");
    assert!(ev.event.bubbles);
    assert!(!ev.event.cancelable);
    assert_eq!(ev.GetView(), Some(WindowRef { id: 9 }));
    assert_eq!(ev.Detail(), -3);
}

#[test]
fn constructor_without_view() {
    let init = UIEventInit { parent: EventInit { bubbles: false, cancelable: true }, view: None, detail: i32::MAX };
    let ev = UIEvent::Constructor(&WindowRef { id: 5 }, String::new(), &init).unwrap();
    assert_eq!(ev.event.type_, "");
    assert!(!ev.event.bubbles);
    assert!(ev.event.cancelable);
    assert_eq!(ev.GetView(), None);
    assert_eq!(ev.Detail(), i32::MAX);
}

#[test]
fn init_ui_event_replaces_what_was_there() {
    let mut ev = UIEvent::new_inherited(EventTypeId::KeyEvent);
    ev.InitUIEvent("keydown".to_string(), true, true, Some(WindowRef { id: 1 }), 7);
    assert_eq!(ev.event.type_id, EventTypeId::KeyEvent);
    assert_eq!(ev.event.type_, "keydown");
    assert_eq!(ev.GetView(), Some(WindowRef { id: 1 }));
    assert_eq!(ev.Detail(), 7);
    ev.InitUIEvent("keyup".to_string(), false, false, None, i32::MIN);
    assert_eq!(ev.event.type_, "keyup");
    assert!(!ev.event.bubbles);
    assert!(!ev.event.cancelable);
    assert_eq!(ev.GetView(), None);
    assert_eq!(ev.Detail(), i32::MIN);
}

#[test]
fn ui_event_places_are_fixed() {
    let mut ev = UIEvent::new(&WindowRef { id: 5 });
    ev.InitUIEvent("click".to_string(), true, true, Some(WindowRef { id: 5 }), 2);
    assert_eq!(ev.LayerX(), 0);
    assert_eq!(ev.LayerY(), 0);
    assert_eq!(ev.PageX(), 0);
    assert_eq!(ev.PageY(), 0);
    assert_eq!(ev.Which(), 0);
    assert_eq!(ev.GetRangeParent(), None);
    assert_eq!(ev.RangeOffset(), 0);
    assert!(!ev.CancelBubble());
    assert!(!ev.IsChar());
}

#[test]
fn set_cancel_bubble_keeps_nothing() {
    let mut ev = UIEvent::new(&WindowRef { id: 5 });
    ev.InitUIEvent("click".to_string(), true, true, None, 2);
    ev.SetCancelBubble(true);
    assert!(!ev.CancelBubble());
    assert_eq!(ev.Detail(), 2);
    assert_eq!(ev.event.type_, "click");
    assert!(ev.event.bubbles);
}
