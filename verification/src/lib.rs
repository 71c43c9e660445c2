//! Status reconciliation and action dispatch for a network-status tray agent.
//!
//! The agent mirrors the state of the network-management service in the
//! system tray, and carries what the user picks in the tray back to the
//! service. This crate holds its decisions, verified, and none of its input
//! and output:
//!
//! - `reconciler`: the status pass, a state machine that asks the service one
//!   question at a time and says what the tray is to show;
//! - `dispatcher`: the actions of the user, each a short conversation of the
//!   same kind;
//! - `engine`: the event loop, which says when a pass is due and which
//!   listeners run;
//! - `service`: the requests and answers that pass between the machines and
//!   the service;
//! - `network`: the objects of the service as plain values, and the service
//!   held in memory;
//! - `status` and `tray`: what the tray shows.
//!
//! The caller owns the bus connection, the queues and the tasks. It carries
//! each request to the service and hands back the answer.

pub mod dispatcher;
pub mod engine;
pub mod event;
pub mod lists;
pub mod network;
pub mod reconciler;
pub mod service;
pub mod status;
pub mod text;
pub mod tray;
