//! The actions of the user, each as a short conversation with the
//! network-management service.
//!
//! An action is a state machine like a status pass: `Dispatcher::begin` hands
//! out the first question, `Dispatcher::step` takes each answer and hands out
//! the next question, or the change to make, or ends the action.
//!
//! - `rules`: the decisions of an access-point change on what was read;
//! - `model`: the actions as a function from state and answer to state and
//!   step;
//! - `machine`: the actions as they run, step for step as the model says;
//! - `laws` and `toggle_laws`: what holds of the actions, whatever the
//!   service answers;
//! - `snapshot`: what each action does to a service held in memory, said by
//!   what the service holds;
//! - `snapshot_laws`: the proof that an action does just that.

pub mod laws;
pub mod machine;
pub mod model;
pub mod rules;
pub mod snapshot;
pub mod snapshot_laws;
pub mod toggle_laws;
