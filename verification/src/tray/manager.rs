//! Which trays there are, and what each is told.

use crate::lists::copy_vpn_lines;
use crate::status::{TrayUpdate, TrayUpdateView, VPNState};
use crate::tray::network::{
    AirplaneModeTray, NetworkTray, NetworkTrayView, VpnTray, VpnTrayView,
};
use vstd::prelude::*;

verus! {

/// What the caller is to do with the trays on screen.
#[derive(Debug, Clone, Copy, PartialEq, Eq, Structural)]
pub enum TrayCommand {
    /// Put the network tray on screen.
    CreateNetworkTray,
    /// Draw the network tray again.
    RefreshNetworkTray,
    /// Put the VPN tray on screen.
    CreateVpnTray,
    /// Draw the VPN tray again.
    RefreshVpnTray,
    /// Take the VPN tray off screen.
    ShutdownVpnTray,
    /// Put the airplane-mode tray on screen.
    CreateAirplaneModeTray,
    /// Take the airplane-mode tray off screen.
    ShutdownAirplaneModeTray,
}

pub struct TrayManagerView {
    pub network: Option<NetworkTrayView>,
    pub vpn: Option<VpnTrayView>,
    /// Whether the airplane-mode tray is there.
    pub airplane_mode: bool,
}

/// The network tray as it is, or a fresh one.
pub open spec fn network_or_new(m: TrayManagerView) -> NetworkTrayView {
    match m.network {
        Some(tray) => tray,
        None => NetworkTrayView {
            icon: None,
            wifi_state: None,
            wired_state: None,
            vpn_state: None,
            airplane_mode_state: None,
        },
    }
}

/// The network tray after an update.
pub open spec fn spec_network_after(tray: NetworkTrayView, update: TrayUpdateView) -> NetworkTrayView {
    match update {
        TrayUpdateView::Icon(icon) => NetworkTrayView { icon: Some(icon), ..tray },
        TrayUpdateView::Wireless(state) => NetworkTrayView { wifi_state: state, ..tray },
        TrayUpdateView::Wired(state) => NetworkTrayView { wired_state: state, ..tray },
        TrayUpdateView::Vpn(state) => NetworkTrayView { vpn_state: state, ..tray },
        TrayUpdateView::AirplaneMode(state) => NetworkTrayView {
            airplane_mode_state: state,
            ..tray
        },
    }
}

/// What to do for the network tray: create it if it is not there, and
/// draw it.
pub open spec fn spec_network_commands(m: TrayManagerView) -> Seq<TrayCommand> {
    if m.network is None {
        Seq::empty().push(TrayCommand::CreateNetworkTray).push(TrayCommand::RefreshNetworkTray)
    } else {
        Seq::empty().push(TrayCommand::RefreshNetworkTray)
    }
}

/// The trays after an update, and what to do on screen. Every update goes to
/// the network tray, which is created with the first. The VPN tray is there
/// while there is a VPN panel, and the airplane-mode tray while airplane
/// mode is on.
pub open spec fn spec_update(m: TrayManagerView, update: TrayUpdateView) -> (
    TrayManagerView,
    Seq<TrayCommand>,
) {
    let network = Some(spec_network_after(network_or_new(m), update));
    let first = spec_network_commands(m);
    match update {
        TrayUpdateView::Vpn(None) => if m.vpn is Some {
            (
                TrayManagerView { network, vpn: None, ..m },
                first.push(TrayCommand::ShutdownVpnTray),
            )
        } else {
            (TrayManagerView { network, ..m }, first)
        },
        TrayUpdateView::Vpn(Some(state)) => (
            TrayManagerView { network, vpn: Some(VpnTrayView { state: Some(state) }), ..m },
            if m.vpn is None {
                first.push(TrayCommand::CreateVpnTray).push(TrayCommand::RefreshVpnTray)
            } else {
                first.push(TrayCommand::RefreshVpnTray)
            },
        ),
        TrayUpdateView::AirplaneMode(state) => if state matches Some(panel) && panel.on {
            (
                TrayManagerView { network, airplane_mode: true, ..m },
                if m.airplane_mode {
                    first
                } else {
                    first.push(TrayCommand::CreateAirplaneModeTray)
                },
            )
        } else {
            (
                TrayManagerView { network, airplane_mode: false, ..m },
                if m.airplane_mode {
                    first.push(TrayCommand::ShutdownAirplaneModeTray)
                } else {
                    first
                },
            )
        },
        _ => (TrayManagerView { network, ..m }, first),
    }
}

/// The trays of the agent.
#[derive(Debug, Clone, PartialEq, Eq)]
pub struct TrayManager {
    network: Option<NetworkTray>,
    vpn: Option<VpnTray>,
    airplane_mode: Option<AirplaneModeTray>,
}

impl View for TrayManager {
    type V = TrayManagerView;

    closed spec fn view(&self) -> TrayManagerView {
        TrayManagerView {
            network: match self.network {
                Some(tray) => Some(tray@),
                None => None,
            },
            vpn: match self.vpn {
                Some(tray) => Some(tray@),
                None => None,
            },
            airplane_mode: self.airplane_mode is Some,
        }
    }
}

impl TrayManager {
    /// No tray yet.
    pub fn new() -> (r: TrayManager)
        ensures
            r@ == (TrayManagerView { network: None, vpn: None, airplane_mode: false }),
    {
        TrayManager { network: None, vpn: None, airplane_mode: None }
    }

    /// The network tray, once it is there.
    pub fn network_tray(&self) -> (r: Option<&NetworkTray>)
        ensures
            match r {
                Some(tray) => self@.network == Some(tray@),
                None => self@.network is None,
            },
    {
        self.network.as_ref()
    }

    /// The VPN tray, while it is there.
    pub fn vpn_tray(&self) -> (r: Option<&VpnTray>)
        ensures
            match r {
                Some(tray) => self@.vpn == Some(tray@),
                None => self@.vpn is None,
            },
    {
        self.vpn.as_ref()
    }

    /// The airplane-mode tray, while it is there.
    pub fn airplane_mode_tray(&self) -> (r: Option<AirplaneModeTray>)
        ensures
            r is Some == self@.airplane_mode,
    {
        self.airplane_mode
    }

    /// Takes an update, and says what to do on screen.
    pub fn update(&mut self, state: TrayUpdate) -> (r: Vec<TrayCommand>)
        ensures
            (final(self)@, r@) == spec_update(old(self)@, state@),
            final(self)@.network is Some,
    {
        let mut commands: Vec<TrayCommand> = Vec::new();
        let mut network = match self.network.take() {
            Some(tray) => tray,
            None => {
                commands.push(TrayCommand::CreateNetworkTray);
                NetworkTray::new()
            },
        };
        commands.push(TrayCommand::RefreshNetworkTray);
        assert(commands@ =~= spec_network_commands(old(self)@));
        match state {
            TrayUpdate::Icon(icon) => {
                network.set_icon(icon);
            },
            TrayUpdate::Wireless(state) => {
                network.set_wifi_state(state);
            },
            TrayUpdate::Wired(state) => {
                network.set_wired_state(state);
            },
            TrayUpdate::Vpn(None) => {
                network.set_vpn_state(None);
                if self.vpn.is_some() {
                    commands.push(TrayCommand::ShutdownVpnTray);
                    self.vpn = None;
                }
            },
            TrayUpdate::Vpn(Some(state)) => {
                let copy = VPNState { connections: copy_vpn_lines(&state.connections) };
                network.set_vpn_state(Some(copy));
                let mut tray = match self.vpn.take() {
                    Some(tray) => tray,
                    None => {
                        commands.push(TrayCommand::CreateVpnTray);
                        VpnTray::new()
                    },
                };
                commands.push(TrayCommand::RefreshVpnTray);
                tray.set_state(Some(state));
                self.vpn = Some(tray);
            },
            TrayUpdate::AirplaneMode(state) => {
                network.set_airplane_mode_state(state);
                let on = match state {
                    Some(panel) => panel.on,
                    None => false,
                };
                if on {
                    if self.airplane_mode.is_none() {
                        commands.push(TrayCommand::CreateAirplaneModeTray);
                        self.airplane_mode = Some(AirplaneModeTray::new());
                    }
                } else {
                    if self.airplane_mode.is_some() {
                        commands.push(TrayCommand::ShutdownAirplaneModeTray);
                        self.airplane_mode = None;
                    }
                }
            },
        }
        self.network = Some(network);
        assert(commands@ =~= spec_update(old(self)@, state@).1);
        commands
    }
}

/// The trays after a row of updates.
pub open spec fn spec_update_all(m: TrayManagerView, updates: Seq<TrayUpdateView>) -> TrayManagerView
    decreases updates.len(),
{
    if updates.len() == 0 {
        m
    } else {
        spec_update(spec_update_all(m, updates.drop_last()), updates.last()).0
    }
}

/// The four updates with which every status pass begins.
pub open spec fn clearing_updates() -> Seq<TrayUpdateView> {
    Seq::empty().push(TrayUpdateView::Wireless(None)).push(TrayUpdateView::Wired(None)).push(
        TrayUpdateView::Vpn(None),
    ).push(TrayUpdateView::AirplaneMode(None))
}

/// A status pass replaces what the pass before it showed, whatever that was:
/// once the trays have had the four updates with which a pass begins, the
/// network tray has no panel and keeps nothing but its icon, and neither the
/// VPN tray nor the airplane-mode tray is there.
pub proof fn law_pass_replaces_panels(m: TrayManagerView)
    ensures
        spec_update_all(m, clearing_updates()) == (TrayManagerView {
            network: Some(
                NetworkTrayView {
                    icon: network_or_new(m).icon,
                    wifi_state: None,
                    wired_state: None,
                    vpn_state: None,
                    airplane_mode_state: None,
                },
            ),
            vpn: None,
            airplane_mode: false,
        }),
{
    let none = Seq::<TrayUpdateView>::empty();
    let one = none.push(TrayUpdateView::Wireless(None));
    let two = one.push(TrayUpdateView::Wired(None));
    let three = two.push(TrayUpdateView::Vpn(None));
    let four = three.push(TrayUpdateView::AirplaneMode(None));
    assert(one.drop_last() =~= none);
    assert(two.drop_last() =~= one);
    assert(three.drop_last() =~= two);
    assert(four.drop_last() =~= three);
    assert(spec_update_all(m, none) == m);
    assert(spec_update_all(m, one) == spec_update(m, TrayUpdateView::Wireless(None)).0);
    assert(spec_update_all(m, two) == spec_update(
        spec_update_all(m, one),
        TrayUpdateView::Wired(None),
    ).0);
    assert(spec_update_all(m, three) == spec_update(
        spec_update_all(m, two),
        TrayUpdateView::Vpn(None),
    ).0);
}

} // verus!
