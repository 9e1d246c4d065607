//! Virtual dispatch of lifecycle events over a fixed hierarchy of node kinds.
//!
//! A node carries an immutable kind tag. From the tag the library resolves a
//! transient [`Handle`], the top of a strictly linear override chain that ends
//! at the generic node behaviour. A lifecycle event is delivered to the top of
//! that chain and travels one level per forward until a level suppresses it or
//! the chain ends.
pub mod bindings;
pub mod events;
pub mod hierarchy;
pub mod htmloutputelement;
pub mod identity;
pub mod laws;
pub mod node;
pub mod overrides;
pub mod uievent;
pub mod virtualmethods;

pub use bindings::{DocumentRef, Error, EventTarget, EventTargetTypeId, WindowRef};
pub use events::{EventView, LifecycleEvent, Operation, Propagation};
pub use hierarchy::{Handle, HandleType};
pub use htmloutputelement::{HTMLElement, HTMLOutputElement, ValidityState};
pub use identity::{ElementTypeId, NodeRef, NodeTypeId};
pub use node::{Node, NodeView};
pub use overrides::{Inherited, Invocation, Recorder, RecorderView};
pub use uievent::{Event, EventInit, EventTypeId, UIEvent, UIEventInit};
pub use virtualmethods::{dispatch, spec_vtable_for, vtable_for, walk_of, VirtualMethods};
