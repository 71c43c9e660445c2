//! The status pass as a function: from a state and an answer to the next
//! state and what to do.

use crate::event::Event;
use crate::network::network_manager::NetworkManagerView;
use crate::network::enums::{
    ActiveConnectionState, DeviceState, DeviceType, NmConnectivityState, NmState,
};
use crate::reconciler::rules::{
    spec_airplane_mode, spec_device_icon, spec_known_connections, spec_quiet_icon,
    spec_wired_panel, ACTIVATION_TIMEOUT_SECS, MAX_ACTIVATION_ATTEMPTS, RECHECK_DELAY_SECS,
};
use crate::service::{
    spec_resolve, AccessPointProperty, ConnectionProperty, DeviceProperty, EffectView, Failure,
    ManagerProperty, NextView, Outcome, RequestView, ResponseView, StepView, TranscriptView,
};
use crate::status::{
    AirplaneModeState, Icon, TrayUpdateView, VPNConnectionView, VPNStateView, WifiConnectionView,
    WifiStateView, WiredState,
};
use crate::text::lossy_text;
use vstd::prelude::*;

verus! {

/// Which answer a pass is waiting for.
#[derive(Debug, Clone, Copy, PartialEq, Eq, Structural)]
pub enum Phase {
    /// No pass is under way.
    Idle,
    WirelessEnabled,
    BluetoothEnabled,
    NetworkState,
    Connectivity,
    PrimaryConnection,
    PrimaryDevices,
    PrimaryDeviceType,
    PrimaryAccessPoint,
    PrimaryStrength,
    Devices,
    DeviceType,
    WifiState,
    WifiProfiles,
    WifiProfileId,
    WifiAccessPoints,
    WifiSsid,
    WifiHwAddress,
    WifiActiveConnection,
    WifiConnectionState,
    WifiRadio,
    WifiWatch,
    WifiActivation,
    WiredState,
    VpnConnection,
    VpnName,
    VpnState,
}

/// What a pass remembers between two answers.
pub struct ReconcilerView {
    pub phase: Phase,
    /// Whether the wifi radio was enabled when the pass began.
    pub wifi_enabled: bool,
    /// The icon that the pass showed last, if it has shown one.
    pub icon: Option<Icon>,
    /// The devices still to be looked at.
    pub devices: Seq<Seq<char>>,
    /// The device that is looked at.
    pub device: Seq<char>,
    /// The configured connections, or the access points, still to be read.
    pub items: Seq<Seq<char>>,
    /// The one that is read.
    pub item: Seq<char>,
    /// The names of the configured connections of the wifi device.
    pub known_ids: Seq<Seq<char>>,
    /// The networks that the wifi device sees.
    pub visible: Seq<WifiConnectionView>,
    /// A name that waits for what belongs to it.
    pub pending: Seq<char>,
    /// The lines of the VPN panel so far.
    pub vpn: Seq<VPNConnectionView>,
    /// How many waits for the wifi device have begun.
    pub attempts: u32,
}

pub open spec fn show_icon(icon: Icon) -> EffectView {
    EffectView::Show(TrayUpdateView::Icon(icon))
}

pub open spec fn show_wifi(panel: WifiStateView) -> EffectView {
    EffectView::Show(TrayUpdateView::Wireless(Some(panel)))
}

/// A wifi panel without networks.
pub open spec fn bare_panel(on: bool) -> WifiStateView {
    WifiStateView { on, known_connections: Seq::empty(), available_connections: Seq::empty() }
}

/// The wifi panel of an activated device, from what the pass has gathered.
pub open spec fn full_panel(s: ReconcilerView, on: bool) -> WifiStateView {
    WifiStateView {
        on,
        known_connections: spec_known_connections(s.known_ids, s.visible),
        available_connections: s.visible,
    }
}

/// The four updates that take every panel away.
pub open spec fn clear_panels() -> Seq<EffectView> {
    Seq::empty().push(EffectView::Show(TrayUpdateView::Wireless(None))).push(
        EffectView::Show(TrayUpdateView::Wired(None)),
    ).push(EffectView::Show(TrayUpdateView::Vpn(None))).push(
        EffectView::Show(TrayUpdateView::AirplaneMode(None)),
    )
}

/// The state in which a pass begins.
pub open spec fn initial() -> ReconcilerView {
    ReconcilerView {
        phase: Phase::WirelessEnabled,
        wifi_enabled: false,
        icon: None,
        devices: Seq::empty(),
        device: Seq::empty(),
        items: Seq::empty(),
        item: Seq::empty(),
        known_ids: Seq::empty(),
        visible: Seq::empty(),
        pending: Seq::empty(),
        vpn: Seq::empty(),
        attempts: 0,
    }
}

/// The first move of a pass: every panel is taken away, and the pass asks
/// whether the wifi radio is enabled.
pub open spec fn first_step() -> StepView {
    StepView {
        effects: clear_panels(),
        next: NextView::Ask(RequestView::Manager(ManagerProperty::WirelessEnabled)),
    }
}

/// Go on with a question.
pub open spec fn ask(s: ReconcilerView, phase: Phase, effects: Seq<EffectView>, request: RequestView) -> (
    ReconcilerView,
    StepView,
) {
    (ReconcilerView { phase, ..s }, StepView { effects, next: NextView::Ask(request) })
}

/// End the pass in good order.
pub open spec fn finish(s: ReconcilerView, effects: Seq<EffectView>) -> (ReconcilerView, StepView) {
    (
        ReconcilerView { phase: Phase::Idle, ..s },
        StepView { effects, next: NextView::Finished(Outcome::Completed) },
    )
}

/// End the pass because an answer is missing.
pub open spec fn abort(s: ReconcilerView) -> (ReconcilerView, StepView) {
    (
        ReconcilerView { phase: Phase::Idle, ..s },
        StepView { effects: Seq::empty(), next: NextView::Finished(Outcome::Failed(Failure::Read)) },
    )
}

/// Show an icon and remember it.
pub open spec fn with_icon(s: ReconcilerView, icon: Icon) -> ReconcilerView {
    ReconcilerView { icon: Some(icon), ..s }
}

/// Turn to the next device of the primary connection. When none is left,
/// the icon is settled (`Unknown` if no device gave one) and the pass turns
/// to the panels.
pub open spec fn next_primary_device(s: ReconcilerView, effects: Seq<EffectView>) -> (
    ReconcilerView,
    StepView,
) {
    if s.devices.len() > 0 {
        ask(
            ReconcilerView { device: s.devices[0], devices: s.devices.drop_first(), ..s },
            Phase::PrimaryDeviceType,
            effects,
            RequestView::Device(s.devices[0], DeviceProperty::DeviceType),
        )
    } else if s.icon is None {
        ask(
            with_icon(s, Icon::Unknown),
            Phase::Devices,
            effects.push(show_icon(Icon::Unknown)),
            RequestView::Manager(ManagerProperty::Devices),
        )
    } else {
        ask(s, Phase::Devices, effects, RequestView::Manager(ManagerProperty::Devices))
    }
}

/// Turn to the next device for the panels. When none is left, the VPN panel
/// is shown if it has a line, and the pass is over.
pub open spec fn next_device(s: ReconcilerView, effects: Seq<EffectView>) -> (
    ReconcilerView,
    StepView,
) {
    if s.devices.len() > 0 {
        ask(
            ReconcilerView { device: s.devices[0], devices: s.devices.drop_first(), ..s },
            Phase::DeviceType,
            effects,
            RequestView::Device(s.devices[0], DeviceProperty::DeviceType),
        )
    } else if s.vpn.len() > 0 {
        finish(
            s,
            effects.push(
                EffectView::Show(TrayUpdateView::Vpn(Some(VPNStateView { connections: s.vpn }))),
            ),
        )
    } else {
        finish(s, effects)
    }
}

/// Read the name of the next configured connection; after the last, list the
/// access points.
pub open spec fn next_profile(s: ReconcilerView) -> (ReconcilerView, StepView) {
    if s.items.len() > 0 {
        ask(
            ReconcilerView { item: s.items[0], items: s.items.drop_first(), ..s },
            Phase::WifiProfileId,
            Seq::empty(),
            RequestView::ProfileId(s.items[0]),
        )
    } else {
        ask(
            s,
            Phase::WifiAccessPoints,
            Seq::empty(),
            RequestView::Device(s.device, DeviceProperty::AccessPoints),
        )
    }
}

/// Read the next access point; after the last, look at the connection of the
/// device.
pub open spec fn next_access_point(s: ReconcilerView) -> (ReconcilerView, StepView) {
    if s.items.len() > 0 {
        ask(
            ReconcilerView { item: s.items[0], items: s.items.drop_first(), ..s },
            Phase::WifiSsid,
            Seq::empty(),
            RequestView::AccessPoint(s.items[0], AccessPointProperty::Ssid),
        )
    } else {
        ask(
            s,
            Phase::WifiActiveConnection,
            Seq::empty(),
            RequestView::Device(s.device, DeviceProperty::ActiveConnection),
        )
    }
}

/// The question for the next state change of the device that is looked at.
pub open spec fn await_activation(s: ReconcilerView) -> RequestView {
    RequestView::NextDeviceState { device: s.device, timeout_secs: ACTIVATION_TIMEOUT_SECS }
}

/// Wait once more for the wifi device, unless the attempts are used up.
pub open spec fn wait_again(s: ReconcilerView) -> (ReconcilerView, StepView) {
    if s.attempts < MAX_ACTIVATION_ATTEMPTS {
        ask(
            ReconcilerView { attempts: (s.attempts + 1) as u32, ..s },
            Phase::WifiActivation,
            Seq::empty(),
            await_activation(s),
        )
    } else {
        next_device(s, Seq::empty())
    }
}

/// One move of a pass: from the state and the answer to the question that
/// was open, to the next state and what to do.
///
/// A pass goes through these stages, and ends as soon as one settles it:
///
/// 1. The two radios, which give the airplane-mode panel.
/// 2. The state of networking. Asleep, disconnected, connecting,
///    disconnecting and unknown have an icon of their own and end the pass.
/// 3. The connectivity. None, portal and unknown have an icon of their own
///    and end the pass; lost connectivity shows `Limited`, asks for another
///    pass after a delay, and skips the next stage.
/// 4. With full connectivity, the devices of the primary connection: each
///    gives an icon, a wifi device that of its signal strength, and the last
///    one stays.
/// 5. All devices, for the panels: a wifi device gives the wifi panel, an
///    ethernet device the wired panel, a WireGuard device a line of the VPN
///    panel.
///
/// An answer that is missing, or of the wrong form, ends the pass early,
/// but for the kind of a device: a device that does not tell its kind is
/// passed over.
#[verifier::opaque]
pub open spec fn step(s: ReconcilerView, response: ResponseView) -> (ReconcilerView, StepView) {
    match s.phase {
        Phase::Idle => (
            s,
            StepView {
                effects: Seq::empty(),
                next: NextView::Finished(Outcome::Failed(Failure::NotRunning)),
            },
        ),
        Phase::WirelessEnabled => match response {
            ResponseView::Flag(on) => ask(
                ReconcilerView { wifi_enabled: on, ..s },
                Phase::BluetoothEnabled,
                Seq::empty(),
                RequestView::Manager(ManagerProperty::BluetoothEnabled),
            ),
            _ => abort(s),
        },
        Phase::BluetoothEnabled => match response {
            ResponseView::Flag(on) => ask(
                s,
                Phase::NetworkState,
                seq![
                    EffectView::Show(
                        TrayUpdateView::AirplaneMode(
                            Some(AirplaneModeState { on: spec_airplane_mode(s.wifi_enabled, on) }),
                        ),
                    ),
                ],
                RequestView::Manager(ManagerProperty::State),
            ),
            _ => abort(s),
        },
        Phase::NetworkState => match response {
            ResponseView::Code(code) => match spec_quiet_icon(NmState::of_code(code)) {
                Some(icon) => finish(with_icon(s, icon), seq![show_icon(icon)]),
                None => ask(
                    s,
                    Phase::Connectivity,
                    Seq::empty(),
                    RequestView::Manager(ManagerProperty::Connectivity),
                ),
            },
            _ => abort(s),
        },
        Phase::Connectivity => match response {
            ResponseView::Code(code) => match NmConnectivityState::of_code(code) {
                NmConnectivityState::Full => ask(
                    s,
                    Phase::PrimaryConnection,
                    Seq::empty(),
                    RequestView::Manager(ManagerProperty::PrimaryConnection),
                ),
                NmConnectivityState::Loss => ask(
                    with_icon(s, Icon::Limited),
                    Phase::Devices,
                    seq![show_icon(Icon::Limited)].push(
                        EffectView::Recheck { delay_secs: RECHECK_DELAY_SECS },
                    ),
                    RequestView::Manager(ManagerProperty::Devices),
                ),
                NmConnectivityState::NoConnectivity => finish(
                    with_icon(s, Icon::Disconnected),
                    seq![show_icon(Icon::Disconnected)],
                ),
                NmConnectivityState::Portal | NmConnectivityState::Unknown => finish(
                    with_icon(s, Icon::Unknown),
                    seq![show_icon(Icon::Unknown)],
                ),
            },
            _ => abort(s),
        },
        Phase::PrimaryConnection => match response {
            ResponseView::Path(path) => match spec_resolve(path) {
                Some(connection) => ask(
                    s,
                    Phase::PrimaryDevices,
                    Seq::empty(),
                    RequestView::Connection(connection, ConnectionProperty::Devices),
                ),
                None => ask(
                    with_icon(s, Icon::Unknown),
                    Phase::Devices,
                    seq![show_icon(Icon::Unknown)],
                    RequestView::Manager(ManagerProperty::Devices),
                ),
            },
            _ => abort(s),
        },
        Phase::PrimaryDevices => match response {
            ResponseView::Paths(devices) => next_primary_device(
                ReconcilerView { devices, ..s },
                Seq::empty(),
            ),
            _ => abort(s),
        },
        Phase::PrimaryDeviceType => match response {
            ResponseView::Code(code) => if DeviceType::of_code(code) == DeviceType::Wifi {
                ask(
                    s,
                    Phase::PrimaryAccessPoint,
                    Seq::empty(),
                    RequestView::Device(s.device, DeviceProperty::ActiveAccessPoint),
                )
            } else {
                let icon = spec_device_icon(DeviceType::of_code(code));
                next_primary_device(with_icon(s, icon), seq![show_icon(icon)])
            },
            _ => next_primary_device(s, Seq::empty()),
        },
        Phase::PrimaryAccessPoint => match response {
            ResponseView::Path(path) => match spec_resolve(path) {
                Some(access_point) => ask(
                    s,
                    Phase::PrimaryStrength,
                    Seq::empty(),
                    RequestView::AccessPoint(access_point, AccessPointProperty::Strength),
                ),
                None => next_primary_device(
                    with_icon(s, Icon::Unknown),
                    seq![show_icon(Icon::Unknown)],
                ),
            },
            _ => abort(s),
        },
        Phase::PrimaryStrength => match response {
            ResponseView::Level(strength) => next_primary_device(
                with_icon(s, Icon::Wifi(strength)),
                seq![show_icon(Icon::Wifi(strength))],
            ),
            _ => abort(s),
        },
        Phase::Devices => match response {
            ResponseView::Paths(devices) => next_device(
                ReconcilerView { devices, ..s },
                Seq::empty(),
            ),
            _ => abort(s),
        },
        Phase::DeviceType => match response {
            ResponseView::Code(code) => match DeviceType::of_code(code) {
                DeviceType::Wifi => ask(
                    s,
                    Phase::WifiState,
                    Seq::empty(),
                    RequestView::Device(s.device, DeviceProperty::State),
                ),
                DeviceType::Ethernet => ask(
                    s,
                    Phase::WiredState,
                    Seq::empty(),
                    RequestView::Device(s.device, DeviceProperty::State),
                ),
                DeviceType::WireGuard => ask(
                    s,
                    Phase::VpnConnection,
                    Seq::empty(),
                    RequestView::Device(s.device, DeviceProperty::ActiveConnection),
                ),
                _ => next_device(s, Seq::empty()),
            },
            _ => next_device(s, Seq::empty()),
        },
        Phase::WifiState => match response {
            ResponseView::Code(code) => match DeviceState::of_code(code) {
                DeviceState::Activated => ask(
                    s,
                    Phase::WifiProfiles,
                    Seq::empty(),
                    RequestView::Device(s.device, DeviceProperty::AvailableConnections),
                ),
                DeviceState::Disconnected => ask(
                    s,
                    Phase::WifiRadio,
                    Seq::empty(),
                    RequestView::Manager(ManagerProperty::WirelessEnabled),
                ),
                DeviceState::Unavailable => next_device(s, seq![show_wifi(bare_panel(false))]),
                _ => next_device(s, Seq::empty()),
            },
            _ => abort(s),
        },
        Phase::WifiProfiles => match response {
            ResponseView::Paths(profiles) => next_profile(
                ReconcilerView { items: profiles, known_ids: Seq::empty(), ..s },
            ),
            _ => abort(s),
        },
        Phase::WifiProfileId => match response {
            ResponseView::Text(id) => next_profile(
                ReconcilerView { known_ids: s.known_ids.push(id), ..s },
            ),
            _ => abort(s),
        },
        Phase::WifiAccessPoints => match response {
            ResponseView::Paths(access_points) => next_access_point(
                ReconcilerView { items: access_points, visible: Seq::empty(), ..s },
            ),
            _ => abort(s),
        },
        Phase::WifiSsid => match response {
            ResponseView::Bytes(ssid) => ask(
                ReconcilerView { pending: lossy_text(ssid), ..s },
                Phase::WifiHwAddress,
                Seq::empty(),
                RequestView::AccessPoint(s.item, AccessPointProperty::HwAddress),
            ),
            _ => abort(s),
        },
        Phase::WifiHwAddress => match response {
            ResponseView::Text(hw_address) => next_access_point(
                ReconcilerView {
                    visible: s.visible.push(WifiConnectionView { ssid: s.pending, hw_address }),
                    ..s
                },
            ),
            _ => abort(s),
        },
        Phase::WifiActiveConnection => match response {
            ResponseView::Path(path) => match spec_resolve(path) {
                Some(connection) => ask(
                    s,
                    Phase::WifiConnectionState,
                    Seq::empty(),
                    RequestView::Connection(connection, ConnectionProperty::State),
                ),
                None => next_device(s, seq![show_wifi(full_panel(s, false))]),
            },
            _ => abort(s),
        },
        Phase::WifiConnectionState => match response {
            ResponseView::Code(code) => next_device(
                s,
                seq![
                    show_wifi(
                        full_panel(
                            s,
                            ActiveConnectionState::of_code(code) == ActiveConnectionState::Activated,
                        ),
                    ),
                ],
            ),
            _ => abort(s),
        },
        Phase::WifiRadio => match response {
            ResponseView::Flag(on) => if on {
                ask(
                    s,
                    Phase::WifiWatch,
                    seq![show_wifi(bare_panel(true))],
                    RequestView::WatchDeviceState(s.device),
                )
            } else {
                next_device(s, seq![show_wifi(bare_panel(false))])
            },
            _ => abort(s),
        },
        Phase::WifiWatch => match response {
            ResponseView::Done => ask(
                ReconcilerView { attempts: 1, ..s },
                Phase::WifiActivation,
                Seq::empty(),
                await_activation(s),
            ),
            _ => abort(s),
        },
        Phase::WifiActivation => match response {
            ResponseView::Code(code) => if DeviceState::of_code(code) == DeviceState::Activated {
                next_device(s, seq![EffectView::Notify(Event::Update)])
            } else {
                wait_again(s)
            },
            ResponseView::TimedOut => wait_again(s),
            _ => next_device(s, Seq::empty()),
        },
        Phase::WiredState => match response {
            ResponseView::Code(code) => match spec_wired_panel(DeviceState::of_code(code)) {
                Some(panel) => next_device(
                    s,
                    seq![EffectView::Show(TrayUpdateView::Wired(Some(panel)))],
                ),
                None => next_device(s, Seq::empty()),
            },
            _ => abort(s),
        },
        Phase::VpnConnection => match response {
            ResponseView::Path(path) => match spec_resolve(path) {
                Some(connection) => ask(
                    s,
                    Phase::VpnName,
                    Seq::empty(),
                    RequestView::Connection(connection, ConnectionProperty::Id),
                ),
                None => next_device(s, Seq::empty()),
            },
            _ => abort(s),
        },
        Phase::VpnName => match response {
            ResponseView::Text(name) => ask(
                ReconcilerView { pending: name, ..s },
                Phase::VpnState,
                Seq::empty(),
                RequestView::Device(s.device, DeviceProperty::State),
            ),
            _ => abort(s),
        },
        Phase::VpnState => match response {
            ResponseView::Code(code) => next_device(
                ReconcilerView {
                    vpn: s.vpn.push(
                        VPNConnectionView {
                            name: s.pending,
                            on: DeviceState::of_code(code) == DeviceState::Activated,
                        },
                    ),
                    ..s
                },
                Seq::empty(),
            ),
            _ => abort(s),
        },
    }
}

/// A pass from a state on: `last` is the move just made, `responses` are the
/// answers still to come. The pass runs until it ends or the answers run out.
pub open spec fn run_from(s: ReconcilerView, last: StepView, responses: Seq<ResponseView>) -> TranscriptView
    decreases responses.len(),
{
    match last.next {
        NextView::Finished(outcome) => TranscriptView {
            requests: Seq::empty(),
            effects: last.effects,
            outcome: Some(outcome),
        },
        NextView::Ask(request) => if responses.len() == 0 {
            TranscriptView { requests: seq![request], effects: last.effects, outcome: None }
        } else {
            let (s2, next) = step(s, responses[0]);
            run_from(s2, next, responses.drop_first()).after(seq![request], last.effects)
        },
    }
}

/// A whole pass against the given answers.
pub open spec fn run(responses: Seq<ResponseView>) -> TranscriptView {
    run_from(initial(), first_step(), responses)
}

/// A pass from a state on, against a service that stands still: `last` is
/// the move just made, and the pass may ask up to `patience` questions more.
pub open spec fn run_against_from(
    s: ReconcilerView,
    last: StepView,
    service: NetworkManagerView,
    patience: nat,
) -> TranscriptView
    decreases patience,
{
    match last.next {
        NextView::Finished(outcome) => TranscriptView {
            requests: Seq::empty(),
            effects: last.effects,
            outcome: Some(outcome),
        },
        NextView::Ask(request) => if patience == 0 {
            TranscriptView { requests: seq![request], effects: last.effects, outcome: None }
        } else {
            let (s2, next) = step(s, service.answer(request));
            run_against_from(s2, next, service, (patience - 1) as nat).after(
                seq![request],
                last.effects,
            )
        },
    }
}

/// A whole pass against a service that stands still, with patience for
/// `patience` answers.
pub open spec fn run_against(service: NetworkManagerView, patience: nat) -> TranscriptView {
    run_against_from(initial(), first_step(), service, patience)
}

} // verus!
