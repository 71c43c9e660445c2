//! The actions as a function: from a state and an answer to the next state
//! and what to do.

use crate::dispatcher::rules::{spec_find_access_point, spec_in_use, SeenAccessPointView};
use crate::event::{ActionView, Event};
use crate::network::network_manager::NetworkManagerView;
use crate::network::enums::{ActiveConnectionState, DeviceState, DeviceType};
use crate::reconciler::rules::spec_airplane_mode;
use crate::service::{
    null_path, spec_resolve, AccessPointProperty, ConnectionProperty, DeviceProperty, EffectView,
    Failure, ManagerProperty, NextView, Outcome, RequestView, ResponseView, StepView,
    TranscriptView,
};
use crate::status::WifiConnectionView;
use crate::text::lossy_text;
use vstd::prelude::*;

verus! {

/// Which answer an action is waiting for.
#[derive(Debug, Clone, Copy, PartialEq, Eq, Structural)]
pub enum Stage {
    /// No action is under way.
    Idle,
    RadioRead,
    RadioWrite,
    AirplaneWifi,
    AirplaneBluetooth,
    AirplaneWrite,
    WiredDevices,
    WiredDeviceType,
    WiredConnection,
    WiredConnectionState,
    WiredDeactivate,
    WiredProfiles,
    WiredActivate,
    VpnConnections,
    VpnType,
    VpnName,
    VpnState,
    VpnDeactivate,
    VpnObject,
    VpnActivate,
    ApDevices,
    ApDeviceType,
    ApDeviceState,
    ApAccessPoints,
    ApSsid,
    ApHwAddress,
    ApConnections,
    ApConnectionId,
    ApConnectionState,
    ApProfiles,
    ApProfileId,
    ApActivate,
}

/// What an action remembers between two answers.
pub struct DispatcherView {
    pub stage: Stage,
    /// The network to change to.
    pub target: WifiConnectionView,
    /// The name of the VPN to toggle.
    pub name: Seq<char>,
    /// The wifi radio as it was read.
    pub flag: bool,
    /// Whether the service has refused a change on the way.
    pub refused: bool,
    /// The devices, or the active connections, still to be looked at.
    pub queue: Seq<Seq<char>>,
    /// The one that is looked at.
    pub current: Seq<char>,
    /// The activated wifi device.
    pub device: Seq<char>,
    /// The configured connections, or the access points, still to be read.
    pub items: Seq<Seq<char>>,
    /// The one that is read.
    pub item: Seq<char>,
    /// A name that waits for what belongs to it.
    pub pending: Seq<char>,
    /// The access points that the wifi device sees.
    pub seen: Seq<SeenAccessPointView>,
    /// The access point to change to.
    pub chosen: SeenAccessPointView,
}

/// The state before any action.
pub open spec fn idle() -> DispatcherView {
    DispatcherView {
        stage: Stage::Idle,
        target: WifiConnectionView { ssid: Seq::empty(), hw_address: Seq::empty() },
        name: Seq::empty(),
        flag: false,
        refused: false,
        queue: Seq::empty(),
        current: Seq::empty(),
        device: Seq::empty(),
        items: Seq::empty(),
        item: Seq::empty(),
        pending: Seq::empty(),
        seen: Seq::empty(),
        chosen: SeenAccessPointView {
            path: Seq::empty(),
            network: WifiConnectionView { ssid: Seq::empty(), hw_address: Seq::empty() },
        },
    }
}

/// Go on with a question or a change.
pub open spec fn ask(s: DispatcherView, stage: Stage, request: RequestView) -> (
    DispatcherView,
    StepView,
) {
    (DispatcherView { stage, ..s }, StepView { effects: Seq::empty(), next: NextView::Ask(request) })
}

/// End the action with the given outcome.
pub open spec fn end(s: DispatcherView, effects: Seq<EffectView>, outcome: Outcome) -> (
    DispatcherView,
    StepView,
) {
    (
        DispatcherView { stage: Stage::Idle, ..s },
        StepView { effects, next: NextView::Finished(outcome) },
    )
}

/// End the action in good order.
pub open spec fn finish(s: DispatcherView) -> (DispatcherView, StepView) {
    end(s, Seq::empty(), Outcome::Completed)
}

/// End the action early.
pub open spec fn fail(s: DispatcherView, failure: Failure) -> (DispatcherView, StepView) {
    end(s, Seq::empty(), Outcome::Failed(failure))
}

/// The effect by which an action asks for a fresh status pass.
pub open spec fn ask_for_pass() -> Seq<EffectView> {
    seq![EffectView::Notify(Event::Update)]
}

/// The first move of an action.
pub open spec fn begin(action: ActionView) -> (DispatcherView, StepView) {
    match action {
        ActionView::ToggleWifi => ask(
            idle(),
            Stage::RadioRead,
            RequestView::Manager(ManagerProperty::WirelessEnabled),
        ),
        ActionView::ToggleAirplaneMode => ask(
            idle(),
            Stage::AirplaneWifi,
            RequestView::Manager(ManagerProperty::WirelessEnabled),
        ),
        ActionView::ToggleWired => ask(
            idle(),
            Stage::WiredDevices,
            RequestView::Manager(ManagerProperty::Devices),
        ),
        ActionView::ToggleVPN(name) => ask(
            DispatcherView { name, ..idle() },
            Stage::VpnConnections,
            RequestView::Manager(ManagerProperty::ActiveConnections),
        ),
        ActionView::ChangeAccessPoint(target) => ask(
            DispatcherView { target, ..idle() },
            Stage::ApDevices,
            RequestView::Manager(ManagerProperty::Devices),
        ),
    }
}

/// Toggle wired: turn to the next device. After the last the action is over;
/// it has failed if the service refused a change on the way.
pub open spec fn next_wired_device(s: DispatcherView) -> (DispatcherView, StepView) {
    if s.queue.len() > 0 {
        ask(
            DispatcherView { current: s.queue[0], queue: s.queue.drop_first(), ..s },
            Stage::WiredDeviceType,
            RequestView::Device(s.queue[0], DeviceProperty::DeviceType),
        )
    } else if s.refused {
        fail(s, Failure::Write)
    } else {
        finish(s)
    }
}

/// Toggle wired: list the configured connections of the device.
pub open spec fn list_wired_profiles(s: DispatcherView) -> (DispatcherView, StepView) {
    ask(
        s,
        Stage::WiredProfiles,
        RequestView::Device(s.current, DeviceProperty::AvailableConnections),
    )
}

/// Toggle wired: activate the next configured connection on the device;
/// after the last, turn to the next device.
pub open spec fn next_wired_profile(s: DispatcherView) -> (DispatcherView, StepView) {
    if s.items.len() > 0 {
        ask(
            DispatcherView { item: s.items[0], items: s.items.drop_first(), ..s },
            Stage::WiredActivate,
            RequestView::Activate {
                connection: s.items[0],
                device: s.current,
                specific_object: null_path(),
            },
        )
    } else {
        next_wired_device(s)
    }
}

/// Toggle VPN: turn to the next active connection; after the last the action
/// is over.
pub open spec fn next_vpn(s: DispatcherView) -> (DispatcherView, StepView) {
    if s.queue.len() > 0 {
        ask(
            DispatcherView { current: s.queue[0], queue: s.queue.drop_first(), ..s },
            Stage::VpnType,
            RequestView::Connection(s.queue[0], ConnectionProperty::ConnectionType),
        )
    } else {
        finish(s)
    }
}

/// Change access point: turn to the next device in search of an activated
/// wifi device; without one the action fails.
pub open spec fn next_wifi_candidate(s: DispatcherView) -> (DispatcherView, StepView) {
    if s.queue.len() > 0 {
        ask(
            DispatcherView { current: s.queue[0], queue: s.queue.drop_first(), ..s },
            Stage::ApDeviceType,
            RequestView::Device(s.queue[0], DeviceProperty::DeviceType),
        )
    } else {
        fail(s, Failure::NoActiveWifiDevice)
    }
}

/// Change access point: read the next access point; after the last, list the
/// active connections.
pub open spec fn next_seen(s: DispatcherView) -> (DispatcherView, StepView) {
    if s.items.len() > 0 {
        ask(
            DispatcherView { item: s.items[0], items: s.items.drop_first(), ..s },
            Stage::ApSsid,
            RequestView::AccessPoint(s.items[0], AccessPointProperty::Ssid),
        )
    } else {
        ask(s, Stage::ApConnections, RequestView::Manager(ManagerProperty::ActiveConnections))
    }
}

/// Change access point: note an access point with its hardware address.
pub open spec fn note_seen(s: DispatcherView, hw_address: Seq<char>) -> DispatcherView {
    DispatcherView {
        seen: s.seen.push(
            SeenAccessPointView {
                path: s.item,
                network: WifiConnectionView { ssid: s.pending, hw_address },
            },
        ),
        ..s
    }
}

/// Change access point: once the target is found not to be in use, pick
/// the access point that offers it, and list the configured
/// connections of the device. Without such an access point the action fails.
pub open spec fn choose_access_point(s: DispatcherView) -> (DispatcherView, StepView) {
    match spec_find_access_point(s.seen, s.target) {
        Some(found) => ask(
            DispatcherView { chosen: found, ..s },
            Stage::ApProfiles,
            RequestView::Device(s.device, DeviceProperty::AvailableConnections),
        ),
        None => fail(s, Failure::AccessPointNotFound),
    }
}

/// Change access point: turn to the next active connection; after the last,
/// choose the access point.
pub open spec fn next_active(s: DispatcherView) -> (DispatcherView, StepView) {
    if s.queue.len() > 0 {
        ask(
            DispatcherView { current: s.queue[0], queue: s.queue.drop_first(), ..s },
            Stage::ApConnectionId,
            RequestView::Connection(s.queue[0], ConnectionProperty::Id),
        )
    } else {
        choose_access_point(s)
    }
}

/// Change access point: read the name of the next configured connection;
/// when none carries the name of the access point the action fails.
pub open spec fn next_candidate_profile(s: DispatcherView) -> (DispatcherView, StepView) {
    if s.items.len() > 0 {
        ask(
            DispatcherView { item: s.items[0], items: s.items.drop_first(), ..s },
            Stage::ApProfileId,
            RequestView::ProfileId(s.items[0]),
        )
    } else {
        fail(s, Failure::ConfiguredConnectionNotFound)
    }
}

/// The answer to a machine that has no question open.
pub open spec fn not_running(s: DispatcherView) -> (DispatcherView, StepView) {
    (
        s,
        StepView {
            effects: Seq::empty(),
            next: NextView::Finished(Outcome::Failed(Failure::NotRunning)),
        },
    )
}

/// The moves of the two radio toggles: read the radio, or both radios, and
/// write the wifi radio. However the write goes, a fresh status pass is asked
/// for.
pub open spec fn radio_step(s: DispatcherView, response: ResponseView) -> (DispatcherView, StepView) {
    match s.stage {
        Stage::RadioRead => match response {
            ResponseView::Flag(on) => ask(
                DispatcherView { flag: on, ..s },
                Stage::RadioWrite,
                RequestView::SetWirelessEnabled(!on),
            ),
            _ => fail(s, Failure::Read),
        },
        Stage::RadioWrite | Stage::AirplaneWrite => match response {
            ResponseView::Done => end(s, ask_for_pass(), Outcome::Completed),
            _ => end(s, ask_for_pass(), Outcome::Failed(Failure::Write)),
        },
        Stage::AirplaneWifi => match response {
            ResponseView::Flag(on) => ask(
                DispatcherView { flag: on, ..s },
                Stage::AirplaneBluetooth,
                RequestView::Manager(ManagerProperty::BluetoothEnabled),
            ),
            _ => fail(s, Failure::Read),
        },
        Stage::AirplaneBluetooth => match response {
            ResponseView::Flag(on) => ask(
                s,
                Stage::AirplaneWrite,
                RequestView::SetWirelessEnabled(spec_airplane_mode(s.flag, on)),
            ),
            _ => fail(s, Failure::Read),
        },
        _ => not_running(s),
    }
}

/// The moves of the wired toggle: for every ethernet device, deactivate its
/// connection if that is activated, and else activate every configured
/// connection on it.
pub open spec fn wired_step(s: DispatcherView, response: ResponseView) -> (DispatcherView, StepView) {
    match s.stage {
        Stage::WiredDevices => match response {
            ResponseView::Paths(devices) => next_wired_device(
                DispatcherView { queue: devices, ..s },
            ),
            _ => fail(s, Failure::Read),
        },
        Stage::WiredDeviceType => match response {
            ResponseView::Code(code) => if DeviceType::of_code(code) == DeviceType::Ethernet {
                ask(
                    s,
                    Stage::WiredConnection,
                    RequestView::Device(s.current, DeviceProperty::ActiveConnection),
                )
            } else {
                next_wired_device(s)
            },
            _ => fail(s, Failure::Read),
        },
        Stage::WiredConnection => match response {
            ResponseView::Path(path) => match spec_resolve(path) {
                Some(connection) => ask(
                    DispatcherView { item: connection, ..s },
                    Stage::WiredConnectionState,
                    RequestView::Connection(connection, ConnectionProperty::State),
                ),
                None => list_wired_profiles(s),
            },
            _ => fail(s, Failure::Read),
        },
        Stage::WiredConnectionState => match response {
            ResponseView::Code(code) => if ActiveConnectionState::of_code(code)
                == ActiveConnectionState::Activated {
                ask(s, Stage::WiredDeactivate, RequestView::Deactivate(s.item))
            } else {
                list_wired_profiles(s)
            },
            _ => fail(s, Failure::Read),
        },
        Stage::WiredDeactivate => match response {
            ResponseView::Done => next_wired_device(s),
            _ => next_wired_device(DispatcherView { refused: true, ..s }),
        },
        Stage::WiredProfiles => match response {
            ResponseView::Paths(profiles) => next_wired_profile(
                DispatcherView { items: profiles, ..s },
            ),
            _ => fail(s, Failure::Read),
        },
        Stage::WiredActivate => match response {
            ResponseView::Done => next_wired_profile(s),
            _ => next_wired_profile(DispatcherView { refused: true, ..s }),
        },
        _ => not_running(s),
    }
}

/// The moves of the VPN toggle: for every active WireGuard connection of the
/// given name, deactivate it if it is activated, and else activate the object
/// it is bound to.
pub open spec fn vpn_step(s: DispatcherView, response: ResponseView) -> (DispatcherView, StepView) {
    match s.stage {
        Stage::VpnConnections => match response {
            ResponseView::Paths(connections) => next_vpn(
                DispatcherView { queue: connections, ..s },
            ),
            _ => fail(s, Failure::Read),
        },
        Stage::VpnType => match response {
            ResponseView::Text(name) => if DeviceType::of_name(name) == DeviceType::WireGuard {
                ask(s, Stage::VpnName, RequestView::Connection(s.current, ConnectionProperty::Id))
            } else {
                next_vpn(s)
            },
            _ => fail(s, Failure::Read),
        },
        Stage::VpnName => match response {
            ResponseView::Text(id) => if id == s.name {
                ask(
                    s,
                    Stage::VpnState,
                    RequestView::Connection(s.current, ConnectionProperty::State),
                )
            } else {
                next_vpn(s)
            },
            _ => fail(s, Failure::Read),
        },
        Stage::VpnState => match response {
            ResponseView::Code(code) => if ActiveConnectionState::of_code(code)
                == ActiveConnectionState::Activated {
                ask(s, Stage::VpnDeactivate, RequestView::Deactivate(s.current))
            } else {
                ask(
                    s,
                    Stage::VpnObject,
                    RequestView::Connection(s.current, ConnectionProperty::SpecificObject),
                )
            },
            _ => fail(s, Failure::Read),
        },
        Stage::VpnDeactivate | Stage::VpnActivate => match response {
            ResponseView::Done => next_vpn(s),
            _ => fail(s, Failure::Write),
        },
        Stage::VpnObject => match response {
            ResponseView::Path(path) => match spec_resolve(path) {
                Some(object) => ask(
                    s,
                    Stage::VpnActivate,
                    RequestView::Activate {
                        connection: null_path(),
                        device: null_path(),
                        specific_object: object,
                    },
                ),
                None => next_vpn(s),
            },
            _ => fail(s, Failure::Read),
        },
        _ => not_running(s),
    }
}

/// The moves of the access-point change: find the activated wifi device,
/// read what it sees, end at once if the target is in use already (an
/// activated connection carries its name, and an access point in sight
/// offers it by name and hardware address), and else activate the configured
/// connection that carries the name of the target on the access point that
/// offers it.
pub open spec fn access_point_step(s: DispatcherView, response: ResponseView) -> (DispatcherView, StepView) {
    match s.stage {
        Stage::ApDevices => match response {
            ResponseView::Paths(devices) => next_wifi_candidate(
                DispatcherView { queue: devices, ..s },
            ),
            _ => fail(s, Failure::Read),
        },
        Stage::ApDeviceType => match response {
            ResponseView::Code(code) => if DeviceType::of_code(code) == DeviceType::Wifi {
                ask(s, Stage::ApDeviceState, RequestView::Device(s.current, DeviceProperty::State))
            } else {
                next_wifi_candidate(s)
            },
            _ => fail(s, Failure::Read),
        },
        Stage::ApDeviceState => match response {
            ResponseView::Code(code) => if DeviceState::of_code(code) == DeviceState::Activated {
                ask(
                    DispatcherView { device: s.current, ..s },
                    Stage::ApAccessPoints,
                    RequestView::Device(s.current, DeviceProperty::AccessPoints),
                )
            } else {
                next_wifi_candidate(s)
            },
            _ => fail(s, Failure::Read),
        },
        Stage::ApAccessPoints => match response {
            ResponseView::Paths(access_points) => next_seen(
                DispatcherView { items: access_points, seen: Seq::empty(), ..s },
            ),
            _ => next_seen(DispatcherView { items: Seq::empty(), seen: Seq::empty(), ..s }),
        },
        Stage::ApSsid => match response {
            ResponseView::Bytes(ssid) => ask(
                DispatcherView { pending: lossy_text(ssid), ..s },
                Stage::ApHwAddress,
                RequestView::AccessPoint(s.item, AccessPointProperty::HwAddress),
            ),
            _ => fail(s, Failure::Read),
        },
        Stage::ApHwAddress => match response {
            ResponseView::Text(hw_address) => next_seen(note_seen(s, hw_address)),
            _ => next_seen(note_seen(s, Seq::empty())),
        },
        Stage::ApConnections => match response {
            ResponseView::Paths(connections) => next_active(
                DispatcherView { queue: connections, ..s },
            ),
            _ => next_active(DispatcherView { queue: Seq::empty(), ..s }),
        },
        Stage::ApConnectionId => match response {
            ResponseView::Text(id) => ask(
                DispatcherView { pending: id, ..s },
                Stage::ApConnectionState,
                RequestView::Connection(s.current, ConnectionProperty::State),
            ),
            _ => fail(s, Failure::Read),
        },
        Stage::ApConnectionState => match response {
            ResponseView::Code(code) => if spec_in_use(
                s.seen,
                s.target,
                s.pending,
                ActiveConnectionState::of_code(code),
            ) {
                finish(s)
            } else {
                next_active(s)
            },
            _ => fail(s, Failure::Read),
        },
        Stage::ApProfiles => match response {
            ResponseView::Paths(profiles) => next_candidate_profile(
                DispatcherView { items: profiles, ..s },
            ),
            _ => next_candidate_profile(DispatcherView { items: Seq::empty(), ..s }),
        },
        Stage::ApProfileId => match response {
            ResponseView::Text(id) => if id == s.chosen.network.ssid {
                ask(
                    s,
                    Stage::ApActivate,
                    RequestView::Activate {
                        connection: s.item,
                        device: s.device,
                        specific_object: s.chosen.path,
                    },
                )
            } else {
                next_candidate_profile(s)
            },
            _ => fail(s, Failure::Read),
        },
        Stage::ApActivate => match response {
            ResponseView::Done => finish(s),
            _ => fail(s, Failure::Write),
        },
        _ => not_running(s),
    }
}

/// One move of an action: from the state and the answer to the question
/// that was open, to the next state and what to do.
#[verifier::opaque]
pub open spec fn step(s: DispatcherView, response: ResponseView) -> (DispatcherView, StepView) {
    match s.stage {
        Stage::Idle => not_running(s),
        Stage::RadioRead
        | Stage::RadioWrite
        | Stage::AirplaneWifi
        | Stage::AirplaneBluetooth
        | Stage::AirplaneWrite => radio_step(s, response),
        Stage::WiredDevices
        | Stage::WiredDeviceType
        | Stage::WiredConnection
        | Stage::WiredConnectionState
        | Stage::WiredDeactivate
        | Stage::WiredProfiles
        | Stage::WiredActivate => wired_step(s, response),
        Stage::VpnConnections
        | Stage::VpnType
        | Stage::VpnName
        | Stage::VpnState
        | Stage::VpnDeactivate
        | Stage::VpnObject
        | Stage::VpnActivate => vpn_step(s, response),
        Stage::ApDevices
        | Stage::ApDeviceType
        | Stage::ApDeviceState
        | Stage::ApAccessPoints
        | Stage::ApSsid
        | Stage::ApHwAddress
        | Stage::ApConnections
        | Stage::ApConnectionId
        | Stage::ApConnectionState
        | Stage::ApProfiles
        | Stage::ApProfileId
        | Stage::ApActivate => access_point_step(s, response),
    }
}

/// An action from a state on: `last` is the move just made, `responses` are
/// the answers still to come. The action runs until it ends or the answers
/// run out.
pub open spec fn run_from(s: DispatcherView, last: StepView, responses: Seq<ResponseView>) -> TranscriptView
    decreases responses.len(),
{
    match last.next {
        NextView::Finished(outcome) => TranscriptView {
            requests: Seq::empty(),
            effects: last.effects,
            outcome: Some(outcome),
        },
        NextView::Ask(request) => if responses.len() == 0 {
            TranscriptView { requests: seq![request], effects: last.effects, outcome: None }
        } else {
            let (s2, next) = step(s, responses[0]);
            run_from(s2, next, responses.drop_first()).after(seq![request], last.effects)
        },
    }
}

/// A whole action against the given answers.
pub open spec fn run(action: ActionView, responses: Seq<ResponseView>) -> TranscriptView {
    run_from(begin(action).0, begin(action).1, responses)
}

/// An action from a state on, against a service held in memory: `last` is
/// the move just made, and the action may ask up to `patience` questions
/// more. The service carries out what it is asked as far as it can.
pub open spec fn run_against_from(
    s: DispatcherView,
    last: StepView,
    service: NetworkManagerView,
    patience: nat,
) -> (TranscriptView, NetworkManagerView)
    decreases patience,
{
    match last.next {
        NextView::Finished(outcome) => (
            TranscriptView { requests: Seq::empty(), effects: last.effects, outcome: Some(outcome) },
            service,
        ),
        NextView::Ask(request) => if patience == 0 {
            (
                TranscriptView { requests: seq![request], effects: last.effects, outcome: None },
                service,
            )
        } else {
            let (s2, next) = step(s, service.answer(request));
            let (rest, left) = run_against_from(
                s2,
                next,
                service.after(request),
                (patience - 1) as nat,
            );
            (rest.after(seq![request], last.effects), left)
        },
    }
}

/// A whole action against a service held in memory, with patience for
/// `patience` answers: what was asked and done, and the service afterwards.
pub open spec fn run_against(action: ActionView, service: NetworkManagerView, patience: nat) -> (
    TranscriptView,
    NetworkManagerView,
) {
    run_against_from(begin(action).0, begin(action).1, service, patience)
}

} // verus!
