//! Per-tick aggregation of input-like signals into a single action value,
//! with lifecycle transition tracking.
//!
//! Any number of producers pour values for an abstract action into a
//! [`InputActionDrain`]; once per tick the drain is resolved into a durable
//! [`InputActionState`] (`Active` or `Idle`), consecutive resolved values are
//! compared, and a transition event ([`InputActionUpdated`]) is appended to a
//! bounded, multi-cursor event queue ([`InputActionEvents`]). Independent
//! [`InputActionReader`] cursors each observe every event exactly once.
//!
//! One [`InputActionPlugin`] instance owns the whole pipeline for one action
//! kind; distinct kinds are fully isolated. The host drives the pipeline once
//! per tick, in this order: queue maintenance, producer pours, resolve,
//! track, reads.

pub mod action;
pub mod conditions;
pub mod drain;
pub mod events;
pub mod laws;
pub mod pipeline;
pub mod state;

pub use action::InputAction;
pub use conditions::{
    input_action_active, input_action_started, input_action_stopped, input_action_updated,
};
pub use drain::InputActionDrain;
pub use events::{
    write_input_action_events, InputActionEvents, InputActionReader, InputActionStatus,
    InputActionUpdated,
};
pub use pipeline::{InputActionPlugin, InputActionSystem};
pub use state::{update_input_action_state, InputActionState};
