//! The output element: an HTML element kind without behaviour of its own.
use vstd::prelude::*;
use crate::bindings::{DocumentRef, Error, EventTarget, EventTargetTypeId, WindowRef};
use crate::identity::{ElementTypeId, NodeRef, NodeTypeId};

verus! {

/// The part that every HTML element has: its kind, the name of its tag and
/// the document that owns it.
#[derive(Debug, PartialEq, Eq)]
pub struct HTMLElement {
    pub type_id: ElementTypeId,
    pub local_name: String,
    pub owner_doc: DocumentRef,
}

impl HTMLElement {
    /// The common part of an HTML element of kind `type_id` with the tag name
    /// `localName`, owned by `document`.
    #[allow(non_snake_case)]
    pub fn new_inherited(type_id: ElementTypeId, localName: String, document: DocumentRef) -> (element: HTMLElement)
        ensures
            element.type_id == type_id,
            element.local_name == localName,
            element.owner_doc == document,
    {
        HTMLElement { type_id, local_name: localName, owner_doc: document }
    }

    /// The kind tag of the node that this element is.
    pub open spec fn spec_node_type_id(&self) -> NodeTypeId {
        NodeTypeId::Element(self.type_id)
    }

    /// The kind tag of the node that this element is.
    #[verifier::when_used_as_spec(spec_node_type_id)]
    pub fn node_type_id(&self) -> (type_id: NodeTypeId)
        ensures
            type_id == self.spec_node_type_id(),
    {
        NodeTypeId::Element(self.type_id)
    }
}

/// The validity of a form control's value, as the window `window` reports it.
#[derive(Clone, Copy, Debug, PartialEq, Eq, Structural)]
pub struct ValidityState {
    pub window: WindowRef,
}

impl ValidityState {
    /// A validity state that belongs to `window`.
    pub fn new(window: &WindowRef) -> (state: ValidityState)
        ensures
            state.window == *window,
    {
        ValidityState { window: *window }
    }
}

/// An `output` element. It keeps no state beyond what every HTML element has;
/// its getters give fixed values and its setters accept every value and keep
/// none.
#[derive(Debug, PartialEq, Eq)]
pub struct HTMLOutputElement {
    pub htmlelement: HTMLElement,
}

impl EventTarget {
    /// Whether the target is a node whose kind is that of an output element.
    pub open spec fn spec_is_htmloutputelement(&self) -> bool {
        self.type_id == EventTargetTypeId::Node(NodeTypeId::Element(ElementTypeId::HTMLOutputElement))
    }

    /// Whether the target is a node whose kind is that of an output element.
    #[verifier::when_used_as_spec(spec_is_htmloutputelement)]
    pub fn is_htmloutputelement(&self) -> (b: bool)
        ensures
            b == self.spec_is_htmloutputelement(),
    {
        match self.type_id {
            EventTargetTypeId::Node(NodeTypeId::Element(ElementTypeId::HTMLOutputElement)) => true,
            _ => false,
        }
    }
}

#[allow(non_snake_case)]
impl HTMLOutputElement {
    /// An output element with the tag name `localName`, owned by `document`.
    pub fn new_inherited(localName: String, document: DocumentRef) -> (element: HTMLOutputElement)
        ensures
            element.htmlelement.type_id == ElementTypeId::HTMLOutputElement,
            element.htmlelement.local_name == localName,
            element.htmlelement.owner_doc == document,
    {
        HTMLOutputElement {
            htmlelement: HTMLElement::new_inherited(ElementTypeId::HTMLOutputElement, localName, document),
        }
    }

    /// An output element with the tag name `localName`, owned by `document`.
    pub fn new(localName: String, document: &DocumentRef) -> (element: HTMLOutputElement)
        ensures
            element.htmlelement.type_id == ElementTypeId::HTMLOutputElement,
            element.htmlelement.local_name == localName,
            element.htmlelement.owner_doc == *document,
    {
        HTMLOutputElement::new_inherited(localName, *document)
    }

    /// The form that owns the element: there is never one.
    pub fn GetForm(&self) -> (form: Option<NodeRef>)
        ensures
            form is None,
    {
        None
    }

    /// The element's name: always empty.
    pub fn Name(&self) -> (name: String)
        ensures
            name@ == Seq::<char>::empty(),
    {
        String::new()
    }

    /// Accepts every name and keeps none.
    pub fn SetName(&mut self, _name: String) -> (r: Result<(), Error>)
        ensures
            r is Ok,
            *final(self) == *old(self),
    {
        Ok(())
    }

    /// The element's type: always empty.
    pub fn Type(&self) -> (kind: String)
        ensures
            kind@ == Seq::<char>::empty(),
    {
        String::new()
    }

    /// The element's default value: always empty.
    pub fn DefaultValue(&self) -> (value: String)
        ensures
            value@ == Seq::<char>::empty(),
    {
        String::new()
    }

    /// Accepts every default value and keeps none.
    pub fn SetDefaultValue(&mut self, _value: String) -> (r: Result<(), Error>)
        ensures
            r is Ok,
            *final(self) == *old(self),
    {
        Ok(())
    }

    /// The element's value: always empty.
    pub fn Value(&self) -> (value: String)
        ensures
            value@ == Seq::<char>::empty(),
    {
        String::new()
    }

    /// Accepts every value and keeps none.
    pub fn SetValue(&mut self, _value: String) -> (r: Result<(), Error>)
        ensures
            r is Ok,
            *final(self) == *old(self),
    {
        Ok(())
    }

    /// Whether the element takes part in validation: never.
    pub fn WillValidate(&self) -> (b: bool)
        ensures
            !b,
    {
        false
    }

    /// Accepts either answer and keeps none.
    pub fn SetWillValidate(&mut self, _will_validate: bool)
        ensures
            *final(self) == *old(self),
    {
    }

    /// A fresh validity state that belongs to the window of the document that
    /// owns the element.
    pub fn Validity(&self) -> (state: ValidityState)
        ensures
            state.window == self.htmlelement.owner_doc.window,
    {
        let window = self.htmlelement.owner_doc.window;
        ValidityState::new(&window)
    }

    /// Accepts every validity state and keeps none.
    pub fn SetValidity(&mut self, _validity: ValidityState)
        ensures
            *final(self) == *old(self),
    {
    }

    /// The element's validation message: always empty.
    pub fn ValidationMessage(&self) -> (message: String)
        ensures
            message@ == Seq::<char>::empty(),
    {
        String::new()
    }

    /// Accepts every validation message and keeps none.
    pub fn SetValidationMessage(&mut self, _message: String) -> (r: Result<(), Error>)
        ensures
            r is Ok,
            *final(self) == *old(self),
    {
        Ok(())
    }

    /// Whether the element's value is valid: always.
    pub fn CheckValidity(&self) -> (b: bool)
        ensures
            b,
    {
        true
    }

    /// Accepts every custom validity message and keeps none.
    pub fn SetCustomValidity(&mut self, _error: String)
        ensures
            *final(self) == *old(self),
    {
    }
}

} // verus!
