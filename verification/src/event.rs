//! What the agent is told: that something changed, or what the user wants.

use crate::status::{WifiConnection, WifiConnectionView};
use vstd::prelude::*;

verus! {

/// A turn of the agent's life.
#[derive(Debug, Clone, Copy, PartialEq, Eq, Structural)]
pub enum Event {
    /// The agent has started: show the status for the first time.
    Init,
    /// Something changed in the network: read the status again.
    Update,
    /// The agent is to stop.
    Shutdown,
}

/// Something the user asked for in the tray.
#[derive(Debug, Clone, PartialEq, Eq)]
pub enum Action {
    ChangeAccessPoint(WifiConnection),
    ToggleWifi,
    ToggleWired,
    ToggleAirplaneMode,
    ToggleVPN(String),
}

pub enum ActionView {
    ChangeAccessPoint(WifiConnectionView),
    ToggleWifi,
    ToggleWired,
    ToggleAirplaneMode,
    ToggleVPN(Seq<char>),
}

impl View for Action {
    type V = ActionView;

    open spec fn view(&self) -> ActionView {
        match self {
            Action::ChangeAccessPoint(target) => ActionView::ChangeAccessPoint(target@),
            Action::ToggleWifi => ActionView::ToggleWifi,
            Action::ToggleWired => ActionView::ToggleWired,
            Action::ToggleAirplaneMode => ActionView::ToggleAirplaneMode,
            Action::ToggleVPN(name) => ActionView::ToggleVPN(name@),
        }
    }
}

impl DeepView for Action {
    type V = ActionView;

    open spec fn deep_view(&self) -> ActionView {
        self@
    }
}

} // verus!
