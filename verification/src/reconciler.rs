//! The status pass: one walk through the state of the network-management
//! service, from which the tray's icon and panels come.
//!
//! A pass is a state machine. It starts with `Reconciler::begin`, which hands
//! out the first question; each answer goes to `Reconciler::step`, which hands
//! out the next question or ends the pass. What to show comes out on the way,
//! as effects of the steps.
//!
//! - `rules`: what one answer means for the tray;
//! - `model`: the pass as a function from state and answer to state and step;
//! - `machine`: the pass as it runs, step for step as the model says;
//! - `laws`: what holds of every pass, whatever the service answers;
//! - `snapshot`: what a pass shows for a service that stands still, said by
//!   what the service holds;
//! - `snapshot_laws`: the proof that a pass shows just that;
//! - `service_status`: what the tray holds in the end, and the proof of that.

pub mod laws;
pub mod machine;
pub mod model;
pub mod rules;
pub mod snapshot;
pub mod snapshot_laws;
pub mod service_status;
