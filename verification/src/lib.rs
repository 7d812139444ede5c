//! An in-process, cross-thread event bus.
//!
//! Producers publish typed events; independently registered handlers react to
//! events of a matching type. An event travels as a [`DispatchedEvent`]: a
//! type-erased envelope holding the event-type token and the encoded payload.
//! The [`Registry`] maps each event-type token to its handlers, in
//! registration order. Fanning one envelope out to every matching handler is
//! planned by [`fan_out`]; an executor then runs each planned invocation as an
//! independent task.

pub mod dispatched_event;
pub mod event_dispatcher;
pub mod registry;

pub use dispatched_event::DispatchedEvent;
pub use dispatched_event::EnvelopeModel;
pub use event_dispatcher::fan_out;
pub use event_dispatcher::planned_invocations;
pub use event_dispatcher::EventDispatcher;
pub use event_dispatcher::Invocation;
pub use event_dispatcher::InvocationModel;
pub use registry::registers;
pub use registry::Registry;
