//! What the tray shows: the icon and the four panels.

use vstd::prelude::*;

verus! {

/// The icon that sums up the state of networking.
#[derive(Debug, Clone, Copy, PartialEq, Eq, Structural)]
pub enum Icon {
    Unknown,
    Off,
    Busy,
    Disconnected,
    Limited,
    Tun,
    Ethernet,
    /// Connected over wifi; the number is the signal strength in percent.
    Wifi(u8),
}

/// The five pictures that stand for a wifi signal.
#[derive(Debug, Clone, Copy, PartialEq, Eq, Structural)]
pub enum SignalLevel {
    Level0,
    Level25,
    Level50,
    Level75,
    Level100,
}

/// The picture for a signal strength: below 20 the empty one, below 40 one
/// quarter, below 50 one half, below 80 three quarters, and from 80 on the
/// full one.
pub open spec fn spec_signal_level(strength: u8) -> SignalLevel {
    if strength < 20 {
        SignalLevel::Level0
    } else if strength < 40 {
        SignalLevel::Level25
    } else if strength < 50 {
        SignalLevel::Level50
    } else if strength < 80 {
        SignalLevel::Level75
    } else {
        SignalLevel::Level100
    }
}

#[verifier::when_used_as_spec(spec_signal_level)]
pub fn signal_level(strength: u8) -> (r: SignalLevel)
    ensures
        r == spec_signal_level(strength),
{
    match strength {
        0..=19 => SignalLevel::Level0,
        20..=39 => SignalLevel::Level25,
        40..=49 => SignalLevel::Level50,
        50..=79 => SignalLevel::Level75,
        _ => SignalLevel::Level100,
    }
}

/// A wifi network as the tray lists it: its name and the hardware address of
/// the access point. The two together identify it; the name alone does not.
#[derive(Debug, Clone, PartialEq, Eq)]
pub struct WifiConnection {
    pub ssid: String,
    pub hw_address: String,
}

pub struct WifiConnectionView {
    pub ssid: Seq<char>,
    pub hw_address: Seq<char>,
}

impl View for WifiConnection {
    type V = WifiConnectionView;

    open spec fn view(&self) -> WifiConnectionView {
        WifiConnectionView { ssid: self.ssid@, hw_address: self.hw_address@ }
    }
}

impl DeepView for WifiConnection {
    type V = WifiConnectionView;

    open spec fn deep_view(&self) -> WifiConnectionView {
        self@
    }
}

impl WifiConnection {
    /// A copy with the same name and address.
    pub fn duplicate(&self) -> (r: WifiConnection)
        ensures
            r@ == self@,
    {
        WifiConnection { ssid: self.ssid.clone(), hw_address: self.hw_address.clone() }
    }

    /// Whether both name and address agree.
    pub fn same_as(&self, other: &WifiConnection) -> (r: bool)
        ensures
            r == (self@ == other@),
    {
        self.ssid == other.ssid && self.hw_address == other.hw_address
    }
}

/// The wifi panel.
#[derive(Debug, Clone, PartialEq, Eq)]
pub struct WifiState {
    pub on: bool,
    pub known_connections: Vec<WifiConnection>,
    pub available_connections: Vec<WifiConnection>,
}

pub struct WifiStateView {
    pub on: bool,
    pub known_connections: Seq<WifiConnectionView>,
    pub available_connections: Seq<WifiConnectionView>,
}

impl View for WifiState {
    type V = WifiStateView;

    open spec fn view(&self) -> WifiStateView {
        WifiStateView {
            on: self.on,
            known_connections: self.known_connections.deep_view(),
            available_connections: self.available_connections.deep_view(),
        }
    }
}

impl DeepView for WifiState {
    type V = WifiStateView;

    open spec fn deep_view(&self) -> WifiStateView {
        self@
    }
}

/// The wired panel.
#[derive(Debug, Clone, Copy, PartialEq, Eq, Structural)]
pub struct WiredState {
    pub on: bool,
}

/// One line of the VPN panel.
#[derive(Debug, Clone, PartialEq, Eq)]
pub struct VPNConnection {
    pub name: String,
    pub on: bool,
}

pub struct VPNConnectionView {
    pub name: Seq<char>,
    pub on: bool,
}

impl View for VPNConnection {
    type V = VPNConnectionView;

    open spec fn view(&self) -> VPNConnectionView {
        VPNConnectionView { name: self.name@, on: self.on }
    }
}

impl DeepView for VPNConnection {
    type V = VPNConnectionView;

    open spec fn deep_view(&self) -> VPNConnectionView {
        self@
    }
}

/// The VPN panel.
#[derive(Debug, Clone, PartialEq, Eq)]
pub struct VPNState {
    pub connections: Vec<VPNConnection>,
}

pub struct VPNStateView {
    pub connections: Seq<VPNConnectionView>,
}

impl View for VPNState {
    type V = VPNStateView;

    open spec fn view(&self) -> VPNStateView {
        VPNStateView { connections: self.connections.deep_view() }
    }
}

impl DeepView for VPNState {
    type V = VPNStateView;

    open spec fn deep_view(&self) -> VPNStateView {
        self@
    }
}

/// The airplane-mode panel.
#[derive(Debug, Clone, Copy, PartialEq, Eq, Structural)]
pub struct AirplaneModeState {
    pub on: bool,
}

/// One change to what the tray shows. A panel set to `None` is taken away.
#[derive(Debug, Clone, PartialEq, Eq)]
pub enum TrayUpdate {
    Icon(Icon),
    Wireless(Option<WifiState>),
    Wired(Option<WiredState>),
    Vpn(Option<VPNState>),
    AirplaneMode(Option<AirplaneModeState>),
}

pub enum TrayUpdateView {
    Icon(Icon),
    Wireless(Option<WifiStateView>),
    Wired(Option<WiredState>),
    Vpn(Option<VPNStateView>),
    AirplaneMode(Option<AirplaneModeState>),
}

impl View for TrayUpdate {
    type V = TrayUpdateView;

    open spec fn view(&self) -> TrayUpdateView {
        match self {
            TrayUpdate::Icon(icon) => TrayUpdateView::Icon(*icon),
            TrayUpdate::Wireless(state) => TrayUpdateView::Wireless(state.deep_view()),
            TrayUpdate::Wired(state) => TrayUpdateView::Wired(*state),
            TrayUpdate::Vpn(state) => TrayUpdateView::Vpn(state.deep_view()),
            TrayUpdate::AirplaneMode(state) => TrayUpdateView::AirplaneMode(*state),
        }
    }
}

impl DeepView for TrayUpdate {
    type V = TrayUpdateView;

    open spec fn deep_view(&self) -> TrayUpdateView {
        self@
    }
}

} // verus!
