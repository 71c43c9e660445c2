//! What a status pass shows for a service that stands still, said without
//! the pass: by what the service holds, device by device.

use crate::network::device::DeviceView;
use crate::network::enums::{DeviceState, DeviceType, NmConnectivityState, NmState};
use crate::network::network_manager::{
    spec_find_access_point, spec_find_connection, spec_find_device, NetworkManagerView,
};
use crate::network::queries::{
    access_point_known, connection_is_activated, connection_known, networks_at, setting_ids,
    setting_named,
};
use crate::reconciler::model::{bare_panel, clear_panels, show_icon, show_wifi};
use crate::reconciler::rules::{
    spec_airplane_mode, spec_device_icon, spec_known_connections, spec_quiet_icon,
    spec_wired_panel, RECHECK_DELAY_SECS,
};
use crate::service::{spec_resolve, EffectView};
use crate::status::{
    AirplaneModeState, Icon, TrayUpdateView, VPNConnectionView, VPNStateView, WifiStateView,
};
use vstd::prelude::*;

verus! {

/// The wifi panel of a wifi device: with its networks when it is
/// activated, bare and as the radio stands when it is disconnected, bare and
/// off when it is unavailable, and none in any other state.
pub open spec fn wifi_panel_of(w: NetworkManagerView, device: DeviceView) -> Option<WifiStateView> {
    match DeviceState::of_code(device.state) {
        DeviceState::Activated => Some(
            WifiStateView {
                on: connection_is_activated(w, device.active_connection),
                known_connections: spec_known_connections(
                    setting_ids(w, device.available_connections),
                    networks_at(w, device.access_points),
                ),
                available_connections: networks_at(w, device.access_points),
            },
        ),
        DeviceState::Disconnected => Some(bare_panel(w.wireless_enabled)),
        DeviceState::Unavailable => Some(bare_panel(false)),
        _ => None,
    }
}

/// What the device at the path makes the pass show: a wifi device its wifi
/// panel, an ethernet device the wired panel, and any other nothing.
pub open spec fn device_effects(w: NetworkManagerView, path: Seq<char>) -> Seq<EffectView> {
    match spec_find_device(w.devices, path) {
        Some(device) => match DeviceType::of_code(device.device_type) {
            DeviceType::Wifi => match wifi_panel_of(w, device) {
                Some(panel) => seq![show_wifi(panel)],
                None => Seq::empty(),
            },
            DeviceType::Ethernet => match spec_wired_panel(DeviceState::of_code(device.state)) {
                Some(panel) => seq![EffectView::Show(TrayUpdateView::Wired(Some(panel)))],
                None => Seq::empty(),
            },
            _ => Seq::empty(),
        },
        None => Seq::empty(),
    }
}

/// The line that the device at the path adds to the VPN panel: for a
/// WireGuard device with a connection the name of the connection, on when the
/// device is activated.
pub open spec fn vpn_line_of(w: NetworkManagerView, path: Seq<char>) -> Option<VPNConnectionView> {
    match spec_find_device(w.devices, path) {
        Some(device) => if DeviceType::of_code(device.device_type) == DeviceType::WireGuard {
            match spec_resolve(device.active_connection) {
                Some(connection) => match spec_find_connection(w.active_connections, connection) {
                    Some(found) => Some(
                        VPNConnectionView {
                            name: found.id,
                            on: DeviceState::of_code(device.state) == DeviceState::Activated,
                        },
                    ),
                    None => None,
                },
                None => None,
            }
        } else {
            None
        },
        None => None,
    }
}

/// What the devices at the paths make the pass show, one after the other,
/// and at the end the VPN panel if it has a line. `lines` are the lines of
/// the VPN panel from the devices before.
pub open spec fn panel_effects(
    w: NetworkManagerView,
    paths: Seq<Seq<char>>,
    lines: Seq<VPNConnectionView>,
) -> Seq<EffectView>
    decreases paths.len(),
{
    if paths.len() == 0 {
        if lines.len() > 0 {
            seq![EffectView::Show(TrayUpdateView::Vpn(Some(VPNStateView { connections: lines })))]
        } else {
            Seq::empty()
        }
    } else {
        device_effects(w, paths[0]) + panel_effects(
            w,
            paths.drop_first(),
            match vpn_line_of(w, paths[0]) {
                Some(line) => lines.push(line),
                None => lines,
            },
        )
    }
}

/// The icon that the device at the path gives as a device of the primary
/// connection: a wifi device that of the signal strength of its access
/// point, or `Unknown` without one; any other device that of its kind; and
/// none where the service knows no device at the path.
pub open spec fn primary_icon_of(w: NetworkManagerView, path: Seq<char>) -> Option<Icon> {
    match spec_find_device(w.devices, path) {
        Some(device) => if DeviceType::of_code(device.device_type) == DeviceType::Wifi {
            match spec_resolve(device.active_access_point) {
                Some(access_point) => match spec_find_access_point(w.access_points, access_point) {
                    Some(found) => Some(Icon::Wifi(found.strength)),
                    None => None,
                },
                None => Some(Icon::Unknown),
            }
        } else {
            Some(spec_device_icon(DeviceType::of_code(device.device_type)))
        },
        None => None,
    }
}

/// The icons that the devices of the primary connection make the pass
/// show, one after the other, and `Unknown` at the end if no device gave
/// one. `decided` says whether an icon was shown before.
pub open spec fn primary_effects(w: NetworkManagerView, paths: Seq<Seq<char>>, decided: bool) -> Seq<
    EffectView,
>
    decreases paths.len(),
{
    if paths.len() == 0 {
        if decided {
            Seq::empty()
        } else {
            seq![show_icon(Icon::Unknown)]
        }
    } else {
        match primary_icon_of(w, paths[0]) {
            Some(icon) => seq![show_icon(icon)] + primary_effects(w, paths.drop_first(), true),
            None => primary_effects(w, paths.drop_first(), decided),
        }
    }
}

/// What a pass shows once the radios are read.
pub open spec fn status_effects(w: NetworkManagerView) -> Seq<EffectView> {
    match spec_quiet_icon(NmState::of_code(w.state)) {
        Some(icon) => seq![show_icon(icon)],
        None => match NmConnectivityState::of_code(w.connectivity) {
            NmConnectivityState::Full => match spec_resolve(w.primary_connection) {
                Some(primary) => match spec_find_connection(w.active_connections, primary) {
                    Some(connection) => primary_effects(w, connection.devices, false)
                        + panel_effects(w, w.device_paths(), Seq::empty()),
                    None => Seq::empty(),
                },
                None => seq![show_icon(Icon::Unknown)] + panel_effects(
                    w,
                    w.device_paths(),
                    Seq::empty(),
                ),
            },
            NmConnectivityState::Loss => seq![show_icon(Icon::Limited)].push(
                EffectView::Recheck { delay_secs: RECHECK_DELAY_SECS },
            ) + panel_effects(w, w.device_paths(), Seq::empty()),
            NmConnectivityState::NoConnectivity => seq![show_icon(Icon::Disconnected)],
            _ => seq![show_icon(Icon::Unknown)],
        },
    }
}

/// Everything that a pass over the service shows and does, in order: every
/// panel is taken away, the airplane-mode panel is shown, and then the icon
/// and the panels as the service stands.
pub open spec fn pass_effects(w: NetworkManagerView) -> Seq<EffectView> {
    clear_panels().push(
        EffectView::Show(
            TrayUpdateView::AirplaneMode(
                Some(
                    AirplaneModeState {
                        on: spec_airplane_mode(w.wireless_enabled, w.bluetooth_enabled),
                    },
                ),
            ),
        ),
    ) + status_effects(w)
}

/// Whether the service can answer everything that a pass asks about the
/// device at the path for the panels: of an activated wifi device it knows
/// the configured connections with their names, the access points, and the
/// connection; of a WireGuard device the connection.
pub open spec fn device_legible(w: NetworkManagerView, path: Seq<char>) -> bool {
    match spec_find_device(w.devices, path) {
        Some(device) => match DeviceType::of_code(device.device_type) {
            DeviceType::Wifi => DeviceState::of_code(device.state) == DeviceState::Activated ==> {
                &&& forall|i: int|
                    0 <= i < device.available_connections.len() ==> setting_named(
                        w,
                        #[trigger] device.available_connections[i],
                    )
                &&& forall|i: int|
                    0 <= i < device.access_points.len() ==> access_point_known(
                        w,
                        #[trigger] device.access_points[i],
                    )
                &&& connection_known(w, device.active_connection)
            },
            DeviceType::WireGuard => connection_known(w, device.active_connection),
            _ => true,
        },
        None => true,
    }
}

/// Whether the service can answer everything that a pass asks about the
/// device at the path as a device of the primary connection: of a wifi device
/// it knows the access point that the device is bound to.
pub open spec fn primary_device_legible(w: NetworkManagerView, path: Seq<char>) -> bool {
    match spec_find_device(w.devices, path) {
        Some(device) => DeviceType::of_code(device.device_type) == DeviceType::Wifi ==> (
        spec_resolve(device.active_access_point) matches Some(access_point)
            ==> access_point_known(w, access_point)),
        None => true,
    }
}

/// Whether the service can answer everything that a pass asks: it knows
/// the primary connection if it names one, and what the pass asks about the
/// devices of that connection and about all devices.
pub open spec fn legible(w: NetworkManagerView) -> bool {
    &&& connection_known(w, w.primary_connection)
    &&& spec_resolve(w.primary_connection) matches Some(primary) ==> (spec_find_connection(
        w.active_connections,
        primary,
    ) matches Some(connection) ==> forall|i: int|
        0 <= i < connection.devices.len() ==> primary_device_legible(
            w,
            #[trigger] connection.devices[i],
        ))
    &&& forall|i: int|
        0 <= i < w.device_paths().len() ==> device_legible(w, #[trigger] w.device_paths()[i])
}

/// Enough patience for the device at the path.
pub open spec fn device_cost(w: NetworkManagerView, path: Seq<char>) -> nat {
    match spec_find_device(w.devices, path) {
        Some(device) => 30 + device.available_connections.len() + 2 * device.access_points.len(),
        None => 1,
    }
}

/// Enough patience for the devices at the paths.
pub open spec fn devices_cost(w: NetworkManagerView, paths: Seq<Seq<char>>) -> nat
    decreases paths.len(),
{
    if paths.len() == 0 {
        0
    } else {
        device_cost(w, paths[0]) + devices_cost(w, paths.drop_first())
    }
}

/// Enough patience for a whole pass over the service.
pub open spec fn pass_cost(w: NetworkManagerView) -> nat {
    10 + devices_cost(w, w.device_paths()) + match spec_resolve(w.primary_connection) {
        Some(primary) => match spec_find_connection(w.active_connections, primary) {
            Some(connection) => 3 * connection.devices.len(),
            None => 0,
        },
        None => 0,
    }
}

} // verus!
