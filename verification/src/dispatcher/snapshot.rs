//! What an access-point change does to a service held in memory, said
//! without the action: by what the service holds.

use crate::dispatcher::rules::{spec_find_access_point, spec_in_use, SeenAccessPointView};
use crate::event::ActionView;
use crate::network::device::DeviceView;
use crate::network::enums::{ActiveConnectionState, DeviceState, DeviceType};
use crate::network::network_manager::{
    spec_find_connection, spec_find_device, NetworkManagerView,
};
use crate::network::queries::{
    access_point_known, connection_is_activated, connection_known, network_at, setting_ids,
    setting_named,
};
use crate::reconciler::rules::spec_airplane_mode;
use crate::service::{null_path, spec_resolve, Failure, Outcome, RequestView};
use crate::status::WifiConnectionView;
use vstd::prelude::*;

verus! {

/// Whether the device is a wifi device and activated.
pub open spec fn is_activated_wifi(device: DeviceView) -> bool {
    DeviceType::of_code(device.device_type) == DeviceType::Wifi && DeviceState::of_code(
        device.state,
    ) == DeviceState::Activated
}

/// The first of the paths at which the service has an activated wifi
/// device.
pub open spec fn first_activated_wifi(w: NetworkManagerView, paths: Seq<Seq<char>>) -> Option<
    Seq<char>,
>
    decreases paths.len(),
{
    if paths.len() == 0 {
        None
    } else {
        match spec_find_device(w.devices, paths[0]) {
            Some(device) => if is_activated_wifi(device) {
                Some(paths[0])
            } else {
                first_activated_wifi(w, paths.drop_first())
            },
            None => None,
        }
    }
}

/// The access points at the paths as the action notes them.
pub open spec fn seen_at(w: NetworkManagerView, paths: Seq<Seq<char>>) -> Seq<SeenAccessPointView> {
    Seq::new(
        paths.len(),
        |i: int| SeenAccessPointView { path: paths[i], network: network_at(w, paths[i]) },
    )
}

/// Whether the connection at the path is the target in use: it is
/// activated and carries the name of the target, and an access point in
/// sight offers the target by name and hardware address.
pub open spec fn is_target_connection(
    w: NetworkManagerView,
    seen: Seq<SeenAccessPointView>,
    target: WifiConnectionView,
    path: Seq<char>,
) -> bool {
    match spec_find_connection(w.active_connections, path) {
        Some(connection) => spec_in_use(
            seen,
            target,
            connection.id,
            ActiveConnectionState::of_code(connection.state),
        ),
        None => false,
    }
}

/// Whether one of the connections at the paths is the target in use.
pub open spec fn target_in_use(
    w: NetworkManagerView,
    seen: Seq<SeenAccessPointView>,
    target: WifiConnectionView,
    paths: Seq<Seq<char>>,
) -> bool
    decreases paths.len(),
{
    if paths.len() == 0 {
        false
    } else {
        is_target_connection(w, seen, target, paths[0]) || target_in_use(
            w,
            seen,
            target,
            paths.drop_first(),
        )
    }
}

/// What an action comes to: how it ends, and what it asks the service to
/// change.
pub struct Plan {
    pub outcome: Outcome,
    pub writes: Seq<RequestView>,
}

/// The end of an action that changes nothing.
pub open spec fn no_change(outcome: Outcome) -> Plan {
    Plan { outcome, writes: Seq::empty() }
}

/// The plan once the access point is chosen: activate the first of the
/// configured connections at the paths that carries the name of the access
/// point, on the device and bound to the access point; fail where none does.
pub open spec fn profile_plan(
    w: NetworkManagerView,
    profiles: Seq<Seq<char>>,
    device: Seq<char>,
    chosen: SeenAccessPointView,
) -> Plan
    decreases profiles.len(),
{
    if profiles.len() == 0 {
        no_change(Outcome::Failed(Failure::ConfiguredConnectionNotFound))
    } else if setting_ids(w, profiles)[0] == chosen.network.ssid {
        Plan {
            outcome: Outcome::Completed,
            writes: seq![
                RequestView::Activate {
                    connection: profiles[0],
                    device,
                    specific_object: chosen.path,
                },
            ],
        }
    } else {
        profile_plan(w, profiles.drop_first(), device, chosen)
    }
}

/// The plan once the target is found not to be in use: choose the
/// first access point in sight that offers the target by name and hardware
/// address, and go by the configured connections; fail where no access point
/// offers it.
pub open spec fn choice_plan(
    w: NetworkManagerView,
    target: WifiConnectionView,
    device: Seq<char>,
    seen: Seq<SeenAccessPointView>,
) -> Plan {
    match spec_find_access_point(seen, target) {
        Some(chosen) => match spec_find_device(w.devices, device) {
            Some(found) => profile_plan(w, found.available_connections, device, chosen),
            None => no_change(Outcome::Failed(Failure::Read)),
        },
        None => no_change(Outcome::Failed(Failure::AccessPointNotFound)),
    }
}

/// The plan once the access points of the device are noted: nothing to do
/// where the target is in use already, and else the choice of an access
/// point.
pub open spec fn survey_plan(
    w: NetworkManagerView,
    target: WifiConnectionView,
    device: Seq<char>,
    seen: Seq<SeenAccessPointView>,
    connections: Seq<Seq<char>>,
) -> Plan {
    if target_in_use(w, seen, target, connections) {
        no_change(Outcome::Completed)
    } else {
        choice_plan(w, target, device, seen)
    }
}

/// The plan of a change whose search for an activated wifi device stands
/// before the devices at the paths.
pub open spec fn plan_from(
    w: NetworkManagerView,
    target: WifiConnectionView,
    paths: Seq<Seq<char>>,
) -> Plan {
    match first_activated_wifi(w, paths) {
        Some(device) => match spec_find_device(w.devices, device) {
            Some(found) => survey_plan(
                w,
                target,
                device,
                seen_at(w, found.access_points),
                w.connection_paths(),
            ),
            None => no_change(Outcome::Failed(Failure::Read)),
        },
        None => no_change(Outcome::Failed(Failure::NoActiveWifiDevice)),
    }
}

/// Whether the service can answer what a change asks of the first
/// activated wifi device among those at the paths.
pub open spec fn legible_from(w: NetworkManagerView, paths: Seq<Seq<char>>) -> bool {
    match first_activated_wifi(w, paths) {
        Some(device) => match spec_find_device(w.devices, device) {
            Some(found) => {
                &&& forall|i: int|
                    0 <= i < found.access_points.len() ==> access_point_known(
                        w,
                        #[trigger] found.access_points[i],
                    )
                &&& forall|i: int|
                    0 <= i < found.available_connections.len() ==> setting_named(
                        w,
                        #[trigger] found.available_connections[i],
                    )
            },
            None => true,
        },
        None => true,
    }
}

/// The patience that the first activated wifi device among those at the
/// paths asks for its access points and configured connections.
pub open spec fn change_reading(w: NetworkManagerView, paths: Seq<Seq<char>>) -> nat {
    match first_activated_wifi(w, paths) {
        Some(device) => match spec_find_device(w.devices, device) {
            Some(found) => 2 * found.access_points.len() + found.available_connections.len(),
            None => 0,
        },
        None => 0,
    }
}

/// What a change to the target comes to in the service: it fails without
/// an activated wifi device, and else goes by what the first such device
/// sees, the active connections, and the configured connections of the
/// device.
pub open spec fn change_plan(w: NetworkManagerView, target: WifiConnectionView) -> Plan {
    plan_from(w, target, w.device_paths())
}

/// Whether the service can answer everything that an access-point change
/// asks: of the first activated wifi device it knows the access points, and
/// the configured connections with their names.
pub open spec fn legible_for_change(w: NetworkManagerView) -> bool {
    legible_from(w, w.device_paths())
}

/// Enough patience for an access-point change.
pub open spec fn change_cost(w: NetworkManagerView) -> nat {
    10 + 2 * w.devices.len() + 2 * w.active_connections.len() + change_reading(
        w,
        w.device_paths(),
    )
}

/// The change that toggling the VPN of the given name asks for the active
/// connection at the path: none unless it is a WireGuard connection of that
/// name; to deactivate it when it is activated; and else to activate the
/// object it is bound to, if it is bound to one.
pub open spec fn vpn_writes_at(w: NetworkManagerView, name: Seq<char>, path: Seq<char>) -> Seq<
    RequestView,
> {
    match spec_find_connection(w.active_connections, path) {
        Some(connection) => if DeviceType::of_name(connection.connection_type)
            == DeviceType::WireGuard && connection.id == name {
            if ActiveConnectionState::of_code(connection.state)
                == ActiveConnectionState::Activated {
                seq![RequestView::Deactivate(path)]
            } else {
                match spec_resolve(connection.specific_object) {
                    Some(object) => seq![
                        RequestView::Activate {
                            connection: null_path(),
                            device: null_path(),
                            specific_object: object,
                        },
                    ],
                    None => Seq::empty(),
                }
            }
        } else {
            Seq::empty()
        },
        None => Seq::empty(),
    }
}

/// The changes that toggling the VPN of the given name asks for the active
/// connections at the paths, in order.
pub open spec fn vpn_writes(w: NetworkManagerView, name: Seq<char>, paths: Seq<Seq<char>>) -> Seq<
    RequestView,
>
    decreases paths.len(),
{
    if paths.len() == 0 {
        Seq::empty()
    } else {
        vpn_writes_at(w, name, paths[0]) + vpn_writes(w, name, paths.drop_first())
    }
}

/// The requests to activate each of the configured connections on the
/// device, bound to no object.
pub open spec fn activations_on(profiles: Seq<Seq<char>>, device: Seq<char>) -> Seq<RequestView> {
    Seq::new(
        profiles.len(),
        |i: int|
            RequestView::Activate {
                connection: profiles[i],
                device,
                specific_object: null_path(),
            },
    )
}

/// The changes that toggling the wired device asks for the device at the
/// path: none unless it is an ethernet device; to deactivate its connection
/// when that is activated; and else to activate each of its configured
/// connections in turn.
pub open spec fn wired_writes_at(w: NetworkManagerView, path: Seq<char>) -> Seq<RequestView> {
    match spec_find_device(w.devices, path) {
        Some(device) => if DeviceType::of_code(device.device_type) == DeviceType::Ethernet {
            if connection_is_activated(w, device.active_connection) {
                seq![RequestView::Deactivate(device.active_connection)]
            } else {
                activations_on(device.available_connections, path)
            }
        } else {
            Seq::empty()
        },
        None => Seq::empty(),
    }
}

/// The changes that toggling the wired device asks for the devices at the
/// paths, in order.
pub open spec fn wired_writes(w: NetworkManagerView, paths: Seq<Seq<char>>) -> Seq<RequestView>
    decreases paths.len(),
{
    if paths.len() == 0 {
        Seq::empty()
    } else {
        wired_writes_at(w, paths[0]) + wired_writes(w, paths.drop_first())
    }
}

/// Whether the service knows the connection of the ethernet device at the
/// path, if the path names an ethernet device with a connection.
pub open spec fn wired_legible_at(w: NetworkManagerView, path: Seq<char>) -> bool {
    match spec_find_device(w.devices, path) {
        Some(device) => DeviceType::of_code(device.device_type) == DeviceType::Ethernet
            ==> connection_known(w, device.active_connection),
        None => true,
    }
}

/// Whether the service can answer everything that toggling the wired
/// device asks: it knows the connection of each ethernet device.
pub open spec fn legible_for_wired(w: NetworkManagerView) -> bool {
    forall|i: int|
        0 <= i < w.device_paths().len() ==> wired_legible_at(w, #[trigger] w.device_paths()[i])
}

/// Enough patience for the device at the path when the wired device is
/// toggled.
pub open spec fn wired_cost_at(w: NetworkManagerView, path: Seq<char>) -> nat {
    match spec_find_device(w.devices, path) {
        Some(device) => 5 + device.available_connections.len(),
        None => 1,
    }
}

/// Enough patience for the devices at the paths when the wired device is
/// toggled.
pub open spec fn wired_cost(w: NetworkManagerView, paths: Seq<Seq<char>>) -> nat
    decreases paths.len(),
{
    if paths.len() == 0 {
        0
    } else {
        wired_cost_at(w, paths[0]) + wired_cost(w, paths.drop_first())
    }
}

/// What an action comes to in the service: how it ends and the changes it
/// asks for. A wifi toggle writes the opposite of the radio; an
/// airplane-mode toggle switches the wifi radio on where no radio is on, and
/// off else.
pub open spec fn action_plan(w: NetworkManagerView, action: ActionView) -> Plan {
    match action {
        ActionView::ToggleWifi => Plan {
            outcome: Outcome::Completed,
            writes: seq![RequestView::SetWirelessEnabled(!w.wireless_enabled)],
        },
        ActionView::ToggleAirplaneMode => Plan {
            outcome: Outcome::Completed,
            writes: seq![
                RequestView::SetWirelessEnabled(
                    spec_airplane_mode(w.wireless_enabled, w.bluetooth_enabled),
                ),
            ],
        },
        ActionView::ToggleWired => Plan {
            outcome: Outcome::Completed,
            writes: wired_writes(w, w.device_paths()),
        },
        ActionView::ToggleVPN(name) => Plan {
            outcome: Outcome::Completed,
            writes: vpn_writes(w, name, w.connection_paths()),
        },
        ActionView::ChangeAccessPoint(target) => change_plan(w, target),
    }
}

/// The service held in memory after an action: the two radio toggles
/// switch the wifi radio, and nothing else changes anything.
pub open spec fn service_after(w: NetworkManagerView, action: ActionView) -> NetworkManagerView {
    match action {
        ActionView::ToggleWifi => NetworkManagerView {
            wireless_enabled: !w.wireless_enabled,
            ..w
        },
        ActionView::ToggleAirplaneMode => NetworkManagerView {
            wireless_enabled: spec_airplane_mode(w.wireless_enabled, w.bluetooth_enabled),
            ..w
        },
        _ => w,
    }
}

/// Whether the service can answer everything that the action asks.
pub open spec fn legible_for(w: NetworkManagerView, action: ActionView) -> bool {
    match action {
        ActionView::ToggleWired => legible_for_wired(w),
        ActionView::ChangeAccessPoint(_) => legible_for_change(w),
        _ => true,
    }
}

/// Enough patience for the action.
pub open spec fn action_cost(w: NetworkManagerView, action: ActionView) -> nat {
    match action {
        ActionView::ToggleWifi => 2,
        ActionView::ToggleAirplaneMode => 3,
        ActionView::ToggleWired => 1 + wired_cost(w, w.device_paths()),
        ActionView::ToggleVPN(_) => 1 + 5 * w.active_connections.len(),
        ActionView::ChangeAccessPoint(_) => change_cost(w),
    }
}

} // verus!
