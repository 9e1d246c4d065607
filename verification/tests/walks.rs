use virtual_methods::{
    dispatch, vtable_for, ElementTypeId, Handle, HandleType, Inherited, Invocation, LifecycleEvent, NodeRef,
    NodeTypeId, Operation, Recorder,
};

fn element(id: usize, kind: ElementTypeId) -> NodeRef {
    NodeRef::new(id, NodeTypeId::Element(kind))
}

fn levels(visited: &[Handle]) -> Vec<HandleType> {
    visited.iter().map(|h| h.level).collect()
}

fn image_chain() -> Vec<HandleType> {
    vec![HandleType::HTMLImageElement, HandleType::HTMLElement, HandleType::Element, HandleType::Node]
}

#[test]
fn bind_to_tree_on_image_visits_four_levels() {
    let node = element(1, ElementTypeId::HTMLImageElement);
    let mut overrides = Inherited;
    let visited = vtable_for(&node).bind_to_tree(&mut overrides);
    assert_eq!(visited.len(), 4);
    assert_eq!(levels(&visited), image_chain());
    assert!(visited.iter().all(|h| h.node == node));
    assert_eq!(overrides, Inherited);
}

#[test]
fn every_default_operation_walks_the_whole_chain() {
    let node = element(1, ElementTypeId::HTMLImageElement);
    let child = NodeRef::new(2, NodeTypeId::Text);
    let handle = vtable_for(&node);
    let mut overrides = Inherited;
    assert_eq!(levels(&handle.after_set_attr(&mut overrides, "src".to_string(), "a.png".to_string())), image_chain());
    assert_eq!(
        levels(&handle.before_remove_attr(&mut overrides, "src".to_string(), "a.png".to_string())),
        image_chain()
    );
    assert_eq!(levels(&handle.bind_to_tree(&mut overrides)), image_chain());
    assert_eq!(levels(&handle.unbind_from_tree(&mut overrides)), image_chain());
    assert_eq!(levels(&handle.child_inserted(&mut overrides, &child)), image_chain());
}

#[test]
fn default_walk_ends_at_the_root_for_every_kind() {
    let kinds = [
        (NodeTypeId::Text, 1),
        (NodeTypeId::Document, 1),
        (NodeTypeId::Element(ElementTypeId::Element), 2),
        (NodeTypeId::Element(ElementTypeId::HTMLElement), 3),
        (NodeTypeId::Element(ElementTypeId::HTMLOutputElement), 3),
        (NodeTypeId::Element(ElementTypeId::HTMLIFrameElement), 4),
        (NodeTypeId::Element(ElementTypeId::HTMLImageElement), 4),
        (NodeTypeId::Element(ElementTypeId::HTMLObjectElement), 4),
        (NodeTypeId::Element(ElementTypeId::HTMLStyleElement), 4),
    ];
    for (kind, length) in kinds.iter() {
        let node = NodeRef::new(5, *kind);
        let visited = dispatch(&node, &LifecycleEvent::BindToTree, &mut Inherited);
        assert_eq!(visited.len(), *length);
        assert_eq!(visited[0], vtable_for(&node));
        assert_eq!(visited[visited.len() - 1], Handle { level: HandleType::Node, node });
    }
}

#[test]
fn recorder_sees_each_level_once_in_chain_order() {
    let node = element(1, ElementTypeId::HTMLImageElement);
    let mut recorder = Recorder::new();
    let visited = vtable_for(&node).bind_to_tree(&mut recorder);
    assert_eq!(levels(&visited), image_chain());
    assert_eq!(recorder.len(), 4);
    let journal = recorder.journal();
    for (i, level) in image_chain().iter().enumerate() {
        assert_eq!(journal[i], Invocation { at: Handle { level: *level, node }, event: LifecycleEvent::BindToTree });
    }
}

#[test]
fn suppression_ends_the_walk() {
    let node = element(1, ElementTypeId::HTMLImageElement);
    let mut recorder = Recorder::new();
    recorder.suppress(HandleType::HTMLElement, Operation::BindToTree);
    let visited = vtable_for(&node).bind_to_tree(&mut recorder);
    assert_eq!(levels(&visited), vec![HandleType::HTMLImageElement, HandleType::HTMLElement]);
    assert_eq!(recorder.len(), 2);
    assert_eq!(recorder.journal()[1].at.level, HandleType::HTMLElement);
}

#[test]
fn suppression_at_the_top_invokes_one_level() {
    let node = element(1, ElementTypeId::HTMLObjectElement);
    let mut recorder = Recorder::new();
    recorder.suppress(HandleType::HTMLObjectElement, Operation::AfterSetAttr);
    let visited = vtable_for(&node).after_set_attr(&mut recorder, "data".to_string(), "x".to_string());
    assert_eq!(levels(&visited), vec![HandleType::HTMLObjectElement]);
    assert_eq!(recorder.len(), 1);
}

#[test]
fn suppression_at_the_root_changes_nothing() {
    let node = element(1, ElementTypeId::Element);
    let mut recorder = Recorder::new();
    recorder.suppress(HandleType::Node, Operation::UnbindFromTree);
    let visited = vtable_for(&node).unbind_from_tree(&mut recorder);
    assert_eq!(levels(&visited), vec![HandleType::Element, HandleType::Node]);
}

#[test]
fn suppression_is_per_operation_and_per_level() {
    let node = element(1, ElementTypeId::HTMLImageElement);
    let mut recorder = Recorder::new();
    recorder.suppress(HandleType::HTMLElement, Operation::BindToTree);
    recorder.suppress(HandleType::HTMLStyleElement, Operation::UnbindFromTree);
    assert!(recorder.suppresses(HandleType::HTMLElement, Operation::BindToTree));
    assert!(!recorder.suppresses(HandleType::HTMLElement, Operation::UnbindFromTree));
    assert!(!recorder.suppresses(HandleType::Element, Operation::BindToTree));
    let visited = vtable_for(&node).unbind_from_tree(&mut recorder);
    assert_eq!(levels(&visited), image_chain());
    let visited = vtable_for(&node).bind_to_tree(&mut recorder);
    assert_eq!(visited.len(), 2);
}

#[test]
fn child_reference_reaches_the_root_unchanged() {
    let parent = element(10, ElementTypeId::HTMLObjectElement);
    let child = element(11, ElementTypeId::HTMLDivElement);
    let mut recorder = Recorder::new();
    let visited = vtable_for(&parent).child_inserted(&mut recorder, &child);
    assert_eq!(
        levels(&visited),
        vec![HandleType::HTMLObjectElement, HandleType::HTMLElement, HandleType::Element, HandleType::Node]
    );
    let journal = recorder.journal();
    assert_eq!(journal.len(), 4);
    assert_eq!(journal[0].at.level, HandleType::HTMLObjectElement);
    assert_eq!(journal[3].at, Handle { level: HandleType::Node, node: parent });
    for entry in journal.iter() {
        assert_eq!(entry.event, LifecycleEvent::ChildInserted { child });
    }
    match &journal[3].event {
        LifecycleEvent::ChildInserted { child: seen } => assert_eq!(seen.id, 11),
        other => panic!("unexpected event {:?}", other),
    }
}

#[test]
fn attribute_arguments_reach_every_level_unchanged() {
    let node = element(1, ElementTypeId::HTMLIFrameElement);
    let mut recorder = Recorder::new();
    vtable_for(&node).after_set_attr(&mut recorder, "srcdoc".to_string(), "<p>hello</p>".to_string());
    vtable_for(&node).before_remove_attr(&mut recorder, "srcdoc".to_string(), "<p>hello</p>".to_string());
    let journal = recorder.journal();
    assert_eq!(journal.len(), 8);
    for entry in &journal[..4] {
        assert_eq!(
            entry.event,
            LifecycleEvent::AfterSetAttr { name: "srcdoc".to_string(), value: "<p>hello</p>".to_string() }
        );
    }
    for entry in &journal[4..] {
        assert_eq!(
            entry.event,
            LifecycleEvent::BeforeRemoveAttr { name: "srcdoc".to_string(), value: "<p>hello</p>".to_string() }
        );
    }
}

#[test]
fn unbinding_twice_walks_the_same_chain() {
    let node = element(1, ElementTypeId::HTMLStyleElement);
    let mut overrides = Inherited;
    let first = vtable_for(&node).unbind_from_tree(&mut overrides);
    let second = vtable_for(&node).unbind_from_tree(&mut overrides);
    assert_eq!(first, second);
    assert_eq!(first.len(), 4);

    let mut recorder = Recorder::new();
    recorder.suppress(HandleType::Element, Operation::UnbindFromTree);
    let first = vtable_for(&node).unbind_from_tree(&mut recorder);
    let second = vtable_for(&node).unbind_from_tree(&mut recorder);
    assert_eq!(first, second);
    assert_eq!(first.len(), 3);
    assert_eq!(recorder.len(), 6);
}

#[test]
fn dispatch_resolves_and_delivers() {
    let node = element(3, ElementTypeId::HTMLOutputElement);
    let mut recorder = Recorder::new();
    let visited = dispatch(&node, &LifecycleEvent::UnbindFromTree, &mut recorder);
    assert_eq!(levels(&visited), vec![HandleType::HTMLElement, HandleType::Element, HandleType::Node]);
    assert_eq!(recorder.journal()[0].at, vtable_for(&node));
    assert_eq!(recorder.journal()[0].event.operation(), Operation::UnbindFromTree);
}

#[test]
fn deliver_from_a_level_in_the_middle() {
    let node = element(3, ElementTypeId::HTMLImageElement);
    let middle = Handle { level: HandleType::Element, node };
    let visited = middle.deliver(&mut Inherited, &LifecycleEvent::BindToTree);
    assert_eq!(levels(&visited), vec![HandleType::Element, HandleType::Node]);
}

#[test]
fn operation_of_each_event() {
    let child = NodeRef::new(0, NodeTypeId::Comment);
    let name = "id".to_string();
    let value = "main".to_string();
    assert_eq!(
        LifecycleEvent::AfterSetAttr { name: name.clone(), value: value.clone() }.operation(),
        Operation::AfterSetAttr
    );
    assert_eq!(LifecycleEvent::BeforeRemoveAttr { name, value }.operation(), Operation::BeforeRemoveAttr);
    assert_eq!(LifecycleEvent::BindToTree.operation(), Operation::BindToTree);
    assert_eq!(LifecycleEvent::UnbindFromTree.operation(), Operation::UnbindFromTree);
    assert_eq!(LifecycleEvent::ChildInserted { child }.operation(), Operation::ChildInserted);
}

#[test]
fn clearing_the_journal_keeps_what_is_suppressed() {
    let node = element(1, ElementTypeId::HTMLImageElement);
    let mut recorder = Recorder::new();
    recorder.suppress(HandleType::Element, Operation::BindToTree);
    vtable_for(&node).bind_to_tree(&mut recorder);
    assert_eq!(recorder.len(), 3);
    recorder.clear();
    assert_eq!(recorder.len(), 0);
    assert!(recorder.journal().is_empty());
    assert!(recorder.suppresses(HandleType::Element, Operation::BindToTree));
}
