//! The state codes that the network-management service reports, decoded.

use crate::text::is_text;
use vstd::prelude::*;

verus! {

/// The overall state of networking.
#[derive(Debug, Clone, Copy, PartialEq, Eq, Structural)]
pub enum NmState {
    Asleep,
    Disconnected,
    Disconnecting,
    Connecting,
    ConnectedLocal,
    ConnectedSite,
    ConnectedGlobal,
    Unknown,
}

impl NmState {
    /// The state that a wire code stands for; codes outside the table are `Unknown`.
    pub open spec fn of_code(code: u32) -> NmState {
        if code == 10 {
            NmState::Asleep
        } else if code == 20 {
            NmState::Disconnected
        } else if code == 30 {
            NmState::Disconnecting
        } else if code == 40 {
            NmState::Connecting
        } else if code == 50 {
            NmState::ConnectedLocal
        } else if code == 60 {
            NmState::ConnectedSite
        } else if code == 70 {
            NmState::ConnectedGlobal
        } else {
            NmState::Unknown
        }
    }

    /// Whether the state is one of the three connected ones.
    pub open spec fn spec_is_connected(self) -> bool {
        self == NmState::ConnectedLocal || self == NmState::ConnectedSite || self
            == NmState::ConnectedGlobal
    }

    #[verifier::when_used_as_spec(spec_is_connected)]
    pub fn is_connected(self) -> (r: bool)
        ensures
            r == self.spec_is_connected(),
    {
        match self {
            NmState::ConnectedLocal | NmState::ConnectedSite | NmState::ConnectedGlobal => true,
            _ => false,
        }
    }
}

impl From<u32> for NmState {
    fn from(state: u32) -> (r: NmState) {
        match state {
            10 => NmState::Asleep,
            20 => NmState::Disconnected,
            30 => NmState::Disconnecting,
            40 => NmState::Connecting,
            50 => NmState::ConnectedLocal,
            60 => NmState::ConnectedSite,
            70 => NmState::ConnectedGlobal,
            _ => NmState::Unknown,
        }
    }
}

impl vstd::std_specs::convert::FromSpecImpl<u32> for NmState {
    open spec fn obeys_from_spec() -> bool {
        true
    }

    open spec fn from_spec(state: u32) -> NmState {
        NmState::of_code(state)
    }
}

impl Default for NmState {
    fn default() -> (r: NmState)
        ensures
            r == NmState::Unknown,
    {
        NmState::Unknown
    }
}

/// How far the network reaches, as the service last measured it.
#[derive(Debug, Clone, Copy, PartialEq, Eq, Structural)]
pub enum NmConnectivityState {
    NoConnectivity,
    Portal,
    Loss,
    Full,
    Unknown,
}

impl NmConnectivityState {
    /// The connectivity that a wire code stands for; codes outside the table are `Unknown`.
    pub open spec fn of_code(code: u32) -> NmConnectivityState {
        if code == 1 {
            NmConnectivityState::NoConnectivity
        } else if code == 2 {
            NmConnectivityState::Portal
        } else if code == 3 {
            NmConnectivityState::Loss
        } else if code == 4 {
            NmConnectivityState::Full
        } else {
            NmConnectivityState::Unknown
        }
    }
}

impl From<u32> for NmConnectivityState {
    fn from(state: u32) -> (r: NmConnectivityState) {
        match state {
            1 => NmConnectivityState::NoConnectivity,
            2 => NmConnectivityState::Portal,
            3 => NmConnectivityState::Loss,
            4 => NmConnectivityState::Full,
            _ => NmConnectivityState::Unknown,
        }
    }
}

impl vstd::std_specs::convert::FromSpecImpl<u32> for NmConnectivityState {
    open spec fn obeys_from_spec() -> bool {
        true
    }

    open spec fn from_spec(state: u32) -> NmConnectivityState {
        NmConnectivityState::of_code(state)
    }
}

impl Default for NmConnectivityState {
    fn default() -> (r: NmConnectivityState)
        ensures
            r == NmConnectivityState::Unknown,
    {
        NmConnectivityState::Unknown
    }
}

/// The kind of a network device.
#[derive(Debug, Clone, Copy, PartialEq, Eq, Structural)]
pub enum DeviceType {
    Ethernet,
    Wifi,
    Bluetooth,
    Modem,
    TunTap,
    WireGuard,
    Generic,
    Other,
    Unknown,
}

impl DeviceType {
    /// The kind that a wire code stands for. Codes from 3 to 32 without a kind
    /// of their own are `Other`; anything else is `Unknown`.
    pub open spec fn of_code(code: u32) -> DeviceType {
        if code == 1 {
            DeviceType::Ethernet
        } else if code == 2 {
            DeviceType::Wifi
        } else if code == 5 {
            DeviceType::Bluetooth
        } else if code == 8 {
            DeviceType::Modem
        } else if code == 14 {
            DeviceType::Generic
        } else if code == 16 {
            DeviceType::TunTap
        } else if code == 29 {
            DeviceType::WireGuard
        } else if 3 <= code <= 32 {
            DeviceType::Other
        } else {
            DeviceType::Unknown
        }
    }

    /// The kind that a connection-type name stands for; other names are `Unknown`.
    pub open spec fn of_name(name: Seq<char>) -> DeviceType {
        if name == "802-3-ethernet"@ {
            DeviceType::Ethernet
        } else if name == "802-11-wireless"@ {
            DeviceType::Wifi
        } else if name == "bluetooth"@ {
            DeviceType::Bluetooth
        } else if name == "modem"@ {
            DeviceType::Modem
        } else if name == "generic"@ {
            DeviceType::Generic
        } else if name == "tun"@ {
            DeviceType::TunTap
        } else if name == "wireguard"@ {
            DeviceType::WireGuard
        } else {
            DeviceType::Unknown
        }
    }
}

impl From<u32> for DeviceType {
    fn from(device_type: u32) -> (r: DeviceType) {
        match device_type {
            1 => DeviceType::Ethernet,
            2 => DeviceType::Wifi,
            5 => DeviceType::Bluetooth,
            8 => DeviceType::Modem,
            14 => DeviceType::Generic,
            16 => DeviceType::TunTap,
            29 => DeviceType::WireGuard,
            3..=32 => DeviceType::Other,
            _ => DeviceType::Unknown,
        }
    }
}

impl vstd::std_specs::convert::FromSpecImpl<u32> for DeviceType {
    open spec fn obeys_from_spec() -> bool {
        true
    }

    open spec fn from_spec(device_type: u32) -> DeviceType {
        DeviceType::of_code(device_type)
    }
}

impl From<String> for DeviceType {
    fn from(device_type: String) -> (r: DeviceType) {
        if is_text(&device_type, "802-3-ethernet") {
            DeviceType::Ethernet
        } else if is_text(&device_type, "802-11-wireless") {
            DeviceType::Wifi
        } else if is_text(&device_type, "bluetooth") {
            DeviceType::Bluetooth
        } else if is_text(&device_type, "modem") {
            DeviceType::Modem
        } else if is_text(&device_type, "generic") {
            DeviceType::Generic
        } else if is_text(&device_type, "tun") {
            DeviceType::TunTap
        } else if is_text(&device_type, "wireguard") {
            DeviceType::WireGuard
        } else {
            DeviceType::Unknown
        }
    }
}

impl vstd::std_specs::convert::FromSpecImpl<String> for DeviceType {
    open spec fn obeys_from_spec() -> bool {
        true
    }

    open spec fn from_spec(device_type: String) -> DeviceType {
        DeviceType::of_name(device_type@)
    }
}

impl Default for DeviceType {
    fn default() -> (r: DeviceType)
        ensures
            r == DeviceType::Unknown,
    {
        DeviceType::Unknown
    }
}

/// Where a device stands in its activation cycle.
#[derive(Debug, Clone, Copy, PartialEq, Eq, Structural)]
pub enum DeviceState {
    Unmanaged,
    Unavailable,
    Disconnected,
    Prepare,
    Config,
    NeedAuth,
    IpConfig,
    IpCheck,
    Secondaries,
    Activated,
    Deactivating,
    Failed,
    Unknown,
}

impl DeviceState {
    /// The state that a wire code stands for; codes outside the table are `Unknown`.
    pub open spec fn of_code(code: u32) -> DeviceState {
        if code == 10 {
            DeviceState::Unmanaged
        } else if code == 20 {
            DeviceState::Unavailable
        } else if code == 30 {
            DeviceState::Disconnected
        } else if code == 40 {
            DeviceState::Prepare
        } else if code == 50 {
            DeviceState::Config
        } else if code == 60 {
            DeviceState::NeedAuth
        } else if code == 70 {
            DeviceState::IpConfig
        } else if code == 80 {
            DeviceState::IpCheck
        } else if code == 90 {
            DeviceState::Secondaries
        } else if code == 100 {
            DeviceState::Activated
        } else if code == 110 {
            DeviceState::Deactivating
        } else if code == 120 {
            DeviceState::Failed
        } else {
            DeviceState::Unknown
        }
    }
}

impl From<u32> for DeviceState {
    fn from(device_state: u32) -> (r: DeviceState) {
        match device_state {
            10 => DeviceState::Unmanaged,
            20 => DeviceState::Unavailable,
            30 => DeviceState::Disconnected,
            40 => DeviceState::Prepare,
            50 => DeviceState::Config,
            60 => DeviceState::NeedAuth,
            70 => DeviceState::IpConfig,
            80 => DeviceState::IpCheck,
            90 => DeviceState::Secondaries,
            100 => DeviceState::Activated,
            110 => DeviceState::Deactivating,
            120 => DeviceState::Failed,
            _ => DeviceState::Unknown,
        }
    }
}

impl vstd::std_specs::convert::FromSpecImpl<u32> for DeviceState {
    open spec fn obeys_from_spec() -> bool {
        true
    }

    open spec fn from_spec(device_state: u32) -> DeviceState {
        DeviceState::of_code(device_state)
    }
}

impl Default for DeviceState {
    fn default() -> (r: DeviceState)
        ensures
            r == DeviceState::Unknown,
    {
        DeviceState::Unknown
    }
}

/// Where an active connection stands in its life.
#[derive(Debug, Clone, Copy, PartialEq, Eq, Structural)]
pub enum ActiveConnectionState {
    Unknown,
    Activating,
    Activated,
    Deactivating,
    Deactivated,
}

impl ActiveConnectionState {
    /// The state that a wire code stands for; codes outside the table are `Unknown`.
    pub open spec fn of_code(code: u32) -> ActiveConnectionState {
        if code == 1 {
            ActiveConnectionState::Activating
        } else if code == 2 {
            ActiveConnectionState::Activated
        } else if code == 3 {
            ActiveConnectionState::Deactivating
        } else if code == 4 {
            ActiveConnectionState::Deactivated
        } else {
            ActiveConnectionState::Unknown
        }
    }
}

impl From<u32> for ActiveConnectionState {
    fn from(state: u32) -> (r: ActiveConnectionState) {
        match state {
            1 => ActiveConnectionState::Activating,
            2 => ActiveConnectionState::Activated,
            3 => ActiveConnectionState::Deactivating,
            4 => ActiveConnectionState::Deactivated,
            _ => ActiveConnectionState::Unknown,
        }
    }
}

impl vstd::std_specs::convert::FromSpecImpl<u32> for ActiveConnectionState {
    open spec fn obeys_from_spec() -> bool {
        true
    }

    open spec fn from_spec(state: u32) -> ActiveConnectionState {
        ActiveConnectionState::of_code(state)
    }
}

impl Default for ActiveConnectionState {
    fn default() -> (r: ActiveConnectionState)
        ensures
            r == ActiveConnectionState::Unknown,
    {
        ActiveConnectionState::Unknown
    }
}

} // verus!
