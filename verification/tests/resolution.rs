use virtual_methods::{vtable_for, ElementTypeId, Handle, HandleType, NodeRef, NodeTypeId};

fn element(id: usize, kind: ElementTypeId) -> NodeRef {
    NodeRef::new(id, NodeTypeId::Element(kind))
}

fn chain_of(node: &NodeRef) -> Vec<HandleType> {
    let mut levels = Vec::new();
    let mut next = Some(vtable_for(node));
    while let Some(handle) = next {
        assert_eq!(handle.node, *node);
        levels.push(handle.level);
        next = handle.super_type();
    }
    levels
}

#[test]
fn listed_kinds_resolve_to_their_own_level() {
    assert_eq!(vtable_for(&element(1, ElementTypeId::HTMLImageElement)).level, HandleType::HTMLImageElement);
    assert_eq!(vtable_for(&element(2, ElementTypeId::HTMLIFrameElement)).level, HandleType::HTMLIFrameElement);
    assert_eq!(vtable_for(&element(3, ElementTypeId::HTMLObjectElement)).level, HandleType::HTMLObjectElement);
    assert_eq!(vtable_for(&element(4, ElementTypeId::HTMLStyleElement)).level, HandleType::HTMLStyleElement);
    assert_eq!(vtable_for(&element(5, ElementTypeId::Element)).level, HandleType::Element);
    assert_eq!(vtable_for(&element(6, ElementTypeId::HTMLElement)).level, HandleType::HTMLElement);
}

#[test]
fn unlisted_element_kinds_fall_back_to_html_element() {
    let unlisted = [
        ElementTypeId::HTMLAnchorElement,
        ElementTypeId::HTMLBodyElement,
        ElementTypeId::HTMLDivElement,
        ElementTypeId::HTMLFormElement,
        ElementTypeId::HTMLHeadElement,
        ElementTypeId::HTMLInputElement,
        ElementTypeId::HTMLOutputElement,
        ElementTypeId::HTMLScriptElement,
        ElementTypeId::HTMLSpanElement,
        ElementTypeId::HTMLUnknownElement,
    ];
    for (i, kind) in unlisted.iter().enumerate() {
        let node = element(i, *kind);
        assert_eq!(vtable_for(&node), Handle { level: HandleType::HTMLElement, node });
    }
}

#[test]
fn nodes_that_are_no_elements_fall_back_to_node() {
    let kinds = [
        NodeTypeId::Comment,
        NodeTypeId::Doctype,
        NodeTypeId::DocumentFragment,
        NodeTypeId::Document,
        NodeTypeId::ProcessingInstruction,
        NodeTypeId::Text,
    ];
    for (i, kind) in kinds.iter().enumerate() {
        let node = NodeRef::new(i, *kind);
        assert!(!kind.is_element());
        assert_eq!(vtable_for(&node), Handle { level: HandleType::Node, node });
        assert_eq!(vtable_for(&node).super_type(), None);
    }
}

#[test]
fn handle_is_bound_to_the_node_it_was_resolved_for() {
    let node = element(77, ElementTypeId::HTMLImageElement);
    let handle = vtable_for(&node);
    assert_eq!(handle.node.id, 77);
    assert_eq!(handle.node.type_id, NodeTypeId::Element(ElementTypeId::HTMLImageElement));
}

#[test]
fn image_chain_has_four_levels() {
    let node = element(1, ElementTypeId::HTMLImageElement);
    assert_eq!(
        chain_of(&node),
        vec![HandleType::HTMLImageElement, HandleType::HTMLElement, HandleType::Element, HandleType::Node]
    );
}

#[test]
fn chains_of_the_other_levels() {
    assert_eq!(
        chain_of(&element(1, ElementTypeId::HTMLIFrameElement)),
        vec![HandleType::HTMLIFrameElement, HandleType::HTMLElement, HandleType::Element, HandleType::Node]
    );
    assert_eq!(
        chain_of(&element(1, ElementTypeId::HTMLObjectElement)),
        vec![HandleType::HTMLObjectElement, HandleType::HTMLElement, HandleType::Element, HandleType::Node]
    );
    assert_eq!(
        chain_of(&element(1, ElementTypeId::HTMLStyleElement)),
        vec![HandleType::HTMLStyleElement, HandleType::HTMLElement, HandleType::Element, HandleType::Node]
    );
    assert_eq!(
        chain_of(&element(1, ElementTypeId::HTMLDivElement)),
        vec![HandleType::HTMLElement, HandleType::Element, HandleType::Node]
    );
    assert_eq!(chain_of(&element(1, ElementTypeId::Element)), vec![HandleType::Element, HandleType::Node]);
    assert_eq!(chain_of(&NodeRef::new(1, NodeTypeId::Text)), vec![HandleType::Node]);
}

#[test]
fn super_type_of_each_level() {
    assert_eq!(HandleType::Node.super_type(), None);
    assert_eq!(HandleType::Element.super_type(), Some(HandleType::Node));
    assert_eq!(HandleType::HTMLElement.super_type(), Some(HandleType::Element));
    assert_eq!(HandleType::HTMLIFrameElement.super_type(), Some(HandleType::HTMLElement));
    assert_eq!(HandleType::HTMLImageElement.super_type(), Some(HandleType::HTMLElement));
    assert_eq!(HandleType::HTMLObjectElement.super_type(), Some(HandleType::HTMLElement));
    assert_eq!(HandleType::HTMLStyleElement.super_type(), Some(HandleType::HTMLElement));
}

#[test]
fn super_type_keeps_the_node() {
    let node = element(9, ElementTypeId::HTMLStyleElement);
    let above = vtable_for(&node).super_type();
    assert_eq!(above, Some(Handle { level: HandleType::HTMLElement, node }));
}

#[test]
fn for_type_agrees_with_vtable_for() {
    let kind = NodeTypeId::Element(ElementTypeId::HTMLObjectElement);
    assert_eq!(HandleType::for_type(kind), vtable_for(&NodeRef::new(0, kind)).level);
    assert!(kind.is_element());
}
