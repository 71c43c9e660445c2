//! The status of a service that stands still: what the network tray holds
//! once a pass over the service has been shown.

use crate::network::enums::{DeviceState, DeviceType, NmConnectivityState, NmState};
use crate::network::network_manager::{
    spec_find_connection, spec_find_device, NetworkManagerView,
};
use crate::reconciler::model::{clear_panels, run_against, show_icon};
use crate::reconciler::rules::{
    spec_airplane_mode, spec_quiet_icon, spec_wired_panel, RECHECK_DELAY_SECS,
};
use crate::reconciler::snapshot::{
    device_effects, legible, panel_effects, pass_cost, pass_effects, primary_effects,
    primary_icon_of, status_effects, vpn_line_of, wifi_panel_of,
};
use crate::reconciler::snapshot_laws::law_observed_pass_shows_the_service;
use crate::lists::{copy_networks, copy_vpn_lines};
use crate::service::{spec_resolve, Effect, EffectView};
use crate::status::{
    AirplaneModeState, Icon, TrayUpdate, TrayUpdateView, VPNConnectionView, VPNState,
    VPNStateView, WifiState, WifiStateView, WiredState,
};
use crate::tray::manager::spec_network_after;
use crate::tray::network::{NetworkTray, NetworkTrayView};
use vstd::prelude::*;

verus! {

/// The network tray once the effects have been carried out in order.
pub open spec fn status_after(status: NetworkTrayView, effects: Seq<EffectView>) -> NetworkTrayView
    decreases effects.len(),
{
    if effects.len() == 0 {
        status
    } else {
        status_after(
            match effects[0] {
                EffectView::Show(update) => spec_network_after(status, update),
                _ => status,
            },
            effects.drop_first(),
        )
    }
}

/// A network tray that shows nothing.
pub open spec fn nothing_shown() -> NetworkTrayView {
    NetworkTrayView {
        icon: None,
        wifi_state: None,
        wired_state: None,
        vpn_state: None,
        airplane_mode_state: None,
    }
}

/// The wifi panel of the device at the path, if it is a wifi device with
/// a panel.
pub open spec fn wifi_panel_at(w: NetworkManagerView, path: Seq<char>) -> Option<WifiStateView> {
    match spec_find_device(w.devices, path) {
        Some(device) => if DeviceType::of_code(device.device_type) == DeviceType::Wifi {
            wifi_panel_of(w, device)
        } else {
            None
        },
        None => None,
    }
}

/// The wired panel of the device at the path, if it is an ethernet device
/// with a panel.
pub open spec fn wired_panel_at(w: NetworkManagerView, path: Seq<char>) -> Option<WiredState> {
    match spec_find_device(w.devices, path) {
        Some(device) => if DeviceType::of_code(device.device_type) == DeviceType::Ethernet {
            spec_wired_panel(DeviceState::of_code(device.state))
        } else {
            None
        },
        None => None,
    }
}

/// The wifi panel that stays: that of the last device at the paths that
/// has one, and `before` where none has.
pub open spec fn last_wifi_panel(
    w: NetworkManagerView,
    paths: Seq<Seq<char>>,
    before: Option<WifiStateView>,
) -> Option<WifiStateView>
    decreases paths.len(),
{
    if paths.len() == 0 {
        before
    } else {
        last_wifi_panel(
            w,
            paths.drop_first(),
            match wifi_panel_at(w, paths[0]) {
                Some(panel) => Some(panel),
                None => before,
            },
        )
    }
}

/// The wired panel that stays: that of the last device at the paths that
/// has one, and `before` where none has.
pub open spec fn last_wired_panel(
    w: NetworkManagerView,
    paths: Seq<Seq<char>>,
    before: Option<WiredState>,
) -> Option<WiredState>
    decreases paths.len(),
{
    if paths.len() == 0 {
        before
    } else {
        last_wired_panel(
            w,
            paths.drop_first(),
            match wired_panel_at(w, paths[0]) {
                Some(panel) => Some(panel),
                None => before,
            },
        )
    }
}

/// The lines of the VPN panel: after `lines`, the line of each device at
/// the paths that has one, in order.
pub open spec fn vpn_lines(
    w: NetworkManagerView,
    paths: Seq<Seq<char>>,
    lines: Seq<VPNConnectionView>,
) -> Seq<VPNConnectionView>
    decreases paths.len(),
{
    if paths.len() == 0 {
        lines
    } else {
        vpn_lines(
            w,
            paths.drop_first(),
            match vpn_line_of(w, paths[0]) {
                Some(line) => lines.push(line),
                None => lines,
            },
        )
    }
}

/// The icon that stays from the devices of the primary connection: that
/// of the last device at the paths that gives one, and `before` where none
/// does.
pub open spec fn last_primary_icon(
    w: NetworkManagerView,
    paths: Seq<Seq<char>>,
    before: Option<Icon>,
) -> Option<Icon>
    decreases paths.len(),
{
    if paths.len() == 0 {
        before
    } else {
        last_primary_icon(
            w,
            paths.drop_first(),
            match primary_icon_of(w, paths[0]) {
                Some(icon) => Some(icon),
                None => before,
            },
        )
    }
}

/// The status with the panels of all devices.
pub open spec fn with_panels(w: NetworkManagerView, status: NetworkTrayView) -> NetworkTrayView {
    NetworkTrayView {
        wifi_state: last_wifi_panel(w, w.device_paths(), None),
        wired_state: last_wired_panel(w, w.device_paths(), None),
        vpn_state: if vpn_lines(w, w.device_paths(), Seq::empty()).len() > 0 {
            Some(VPNStateView { connections: vpn_lines(w, w.device_paths(), Seq::empty()) })
        } else {
            None
        },
        ..status
    }
}

/// The status of the service: the airplane-mode panel as the radios stand;
/// the icon of the state of networking, of the connectivity, or of the last
/// device of the primary connection; and, where networking is connected and
/// the connectivity is full or lost, the panels of the devices.
pub open spec fn status_of(w: NetworkManagerView) -> NetworkTrayView {
    let bare = NetworkTrayView {
        airplane_mode_state: Some(
            AirplaneModeState { on: spec_airplane_mode(w.wireless_enabled, w.bluetooth_enabled) },
        ),
        ..nothing_shown()
    };
    match spec_quiet_icon(NmState::of_code(w.state)) {
        Some(icon) => NetworkTrayView { icon: Some(icon), ..bare },
        None => match NmConnectivityState::of_code(w.connectivity) {
            NmConnectivityState::Full => match spec_resolve(w.primary_connection) {
                Some(primary) => match spec_find_connection(w.active_connections, primary) {
                    Some(connection) => with_panels(
                        w,
                        NetworkTrayView {
                            icon: match last_primary_icon(w, connection.devices, None) {
                                Some(icon) => Some(icon),
                                None => Some(Icon::Unknown),
                            },
                            ..bare
                        },
                    ),
                    None => bare,
                },
                None => with_panels(w, NetworkTrayView { icon: Some(Icon::Unknown), ..bare }),
            },
            NmConnectivityState::Loss => with_panels(
                w,
                NetworkTrayView { icon: Some(Icon::Limited), ..bare },
            ),
            NmConnectivityState::NoConnectivity => NetworkTrayView {
                icon: Some(Icon::Disconnected),
                ..bare
            },
            _ => NetworkTrayView { icon: Some(Icon::Unknown), ..bare },
        },
    }
}

proof fn lemma_status_after_concat(
    status: NetworkTrayView,
    first: Seq<EffectView>,
    second: Seq<EffectView>,
)
    ensures
        status_after(status, first + second) == status_after(status_after(status, first), second),
    decreases first.len(),
{
    if first.len() == 0 {
        assert(first + second =~= second);
    } else {
        assert((first + second).drop_first() =~= first.drop_first() + second);
        lemma_status_after_concat(
            match first[0] {
                EffectView::Show(update) => spec_network_after(status, update),
                _ => status,
            },
            first.drop_first(),
            second,
        );
    }
}

proof fn lemma_status_after_one(status: NetworkTrayView, effect: EffectView)
    ensures
        status_after(status, seq![effect]) == (match effect {
            EffectView::Show(update) => spec_network_after(status, update),
            _ => status,
        }),
{
    let next = match effect {
        EffectView::Show(update) => spec_network_after(status, update),
        _ => status,
    };
    assert(seq![effect].drop_first() =~= Seq::<EffectView>::empty());
    assert(status_after(next, Seq::<EffectView>::empty()) == next);
}

/// The status after the panels of the devices at the paths.
proof fn lemma_status_after_panels(
    w: NetworkManagerView,
    paths: Seq<Seq<char>>,
    lines: Seq<VPNConnectionView>,
    status: NetworkTrayView,
)
    ensures
        status_after(status, panel_effects(w, paths, lines)) == (NetworkTrayView {
            wifi_state: last_wifi_panel(w, paths, status.wifi_state),
            wired_state: last_wired_panel(w, paths, status.wired_state),
            vpn_state: if vpn_lines(w, paths, lines).len() > 0 {
                Some(VPNStateView { connections: vpn_lines(w, paths, lines) })
            } else {
                status.vpn_state
            },
            ..status
        }),
    decreases paths.len(),
{
    if paths.len() == 0 {
        if lines.len() > 0 {
            lemma_status_after_one(
                status,
                EffectView::Show(TrayUpdateView::Vpn(Some(VPNStateView { connections: lines }))),
            );
        }
    } else {
        let here = device_effects(w, paths[0]);
        let more = match vpn_line_of(w, paths[0]) {
            Some(line) => lines.push(line),
            None => lines,
        };
        lemma_status_after_concat(status, here, panel_effects(w, paths.drop_first(), more));
        if here.len() > 0 {
            assert(here =~= seq![here[0]]);
            lemma_status_after_one(status, here[0]);
        }
        lemma_status_after_panels(w, paths.drop_first(), more, status_after(status, here));
    }
}

/// The status after the icons of the devices of the primary connection.
proof fn lemma_status_after_primary(
    w: NetworkManagerView,
    paths: Seq<Seq<char>>,
    decided: bool,
    status: NetworkTrayView,
)
    ensures
        status_after(status, primary_effects(w, paths, decided)) == (NetworkTrayView {
            icon: match last_primary_icon(w, paths, None) {
                Some(icon) => Some(icon),
                None => if decided {
                    status.icon
                } else {
                    Some(Icon::Unknown)
                },
            },
            ..status
        }),
    decreases paths.len(),
{
    if paths.len() == 0 {
        if !decided {
            lemma_status_after_one(status, show_icon(Icon::Unknown));
        }
    } else {
        lemma_last_primary_icon_keeps(w, paths.drop_first(), primary_icon_of(w, paths[0]));
        match primary_icon_of(w, paths[0]) {
            Some(icon) => {
                lemma_status_after_concat(
                    status,
                    seq![show_icon(icon)],
                    primary_effects(w, paths.drop_first(), true),
                );
                lemma_status_after_one(status, show_icon(icon));
                lemma_status_after_primary(
                    w,
                    paths.drop_first(),
                    true,
                    NetworkTrayView { icon: Some(icon), ..status },
                );
            },
            None => {
                lemma_status_after_primary(w, paths.drop_first(), decided, status);
            },
        }
    }
}

/// The icon that stays is that of the last device that gives one, whatever
/// stood before; it is what stood before only where no device gives one.
proof fn lemma_last_primary_icon_keeps(
    w: NetworkManagerView,
    paths: Seq<Seq<char>>,
    before: Option<Icon>,
)
    ensures
        last_primary_icon(w, paths, before) == (match last_primary_icon(w, paths, None) {
            Some(icon) => Some(icon),
            None => before,
        }),
    decreases paths.len(),
{
    if paths.len() > 0 {
        match primary_icon_of(w, paths[0]) {
            Some(icon) => {
                lemma_last_primary_icon_keeps(w, paths.drop_first(), Some(icon));
            },
            None => {
                lemma_last_primary_icon_keeps(w, paths.drop_first(), before);
                lemma_last_primary_icon_keeps(w, paths.drop_first(), None);
            },
        }
    }
}

/// The status after everything that a pass over the service shows is the
/// status of the service.
pub proof fn lemma_status_after_pass(w: NetworkManagerView, before: NetworkTrayView)
    requires
        spec_resolve(w.primary_connection) matches Some(primary) ==> spec_find_connection(
            w.active_connections,
            primary,
        ) is Some,
    ensures
        status_after(before, pass_effects(w)) == (NetworkTrayView {
            icon: match status_of(w).icon {
                Some(icon) => Some(icon),
                None => before.icon,
            },
            ..status_of(w)
        }),
{
    let airplane = EffectView::Show(
        TrayUpdateView::AirplaneMode(
            Some(
                AirplaneModeState {
                    on: spec_airplane_mode(w.wireless_enabled, w.bluetooth_enabled),
                },
            ),
        ),
    );
    let opening = clear_panels().push(airplane);
    let c0 = Seq::<EffectView>::empty();
    let c1 = c0.push(EffectView::Show(TrayUpdateView::Wireless(None)));
    let c2 = c1.push(EffectView::Show(TrayUpdateView::Wired(None)));
    let c3 = c2.push(EffectView::Show(TrayUpdateView::Vpn(None)));
    let c4 = c3.push(EffectView::Show(TrayUpdateView::AirplaneMode(None)));
    assert(opening =~= c1 + seq![c2[1]] + seq![c3[2]] + seq![c4[3]] + seq![airplane]);
    assert(c1 =~= seq![c1[0]]);
    lemma_status_after_one(before, c1[0]);
    let b1 = status_after(before, c1);
    lemma_status_after_concat(before, c1, seq![c2[1]]);
    lemma_status_after_one(b1, c2[1]);
    let b2 = status_after(before, c1 + seq![c2[1]]);
    lemma_status_after_concat(before, c1 + seq![c2[1]], seq![c3[2]]);
    lemma_status_after_one(b2, c3[2]);
    let b3 = status_after(before, c1 + seq![c2[1]] + seq![c3[2]]);
    lemma_status_after_concat(before, c1 + seq![c2[1]] + seq![c3[2]], seq![c4[3]]);
    lemma_status_after_one(b3, c4[3]);
    let b4 = status_after(before, c1 + seq![c2[1]] + seq![c3[2]] + seq![c4[3]]);
    lemma_status_after_concat(
        before,
        c1 + seq![c2[1]] + seq![c3[2]] + seq![c4[3]],
        seq![airplane],
    );
    lemma_status_after_one(b4, airplane);
    let opened = status_after(before, opening);
    assert(opened == NetworkTrayView {
        icon: before.icon,
        airplane_mode_state: Some(
            AirplaneModeState { on: spec_airplane_mode(w.wireless_enabled, w.bluetooth_enabled) },
        ),
        ..nothing_shown()
    });
    lemma_status_after_concat(before, opening, status_effects(w));
    let panels = panel_effects(w, w.device_paths(), Seq::empty());
    match spec_quiet_icon(NmState::of_code(w.state)) {
        Some(icon) => {
            lemma_status_after_one(opened, show_icon(icon));
        },
        None => match NmConnectivityState::of_code(w.connectivity) {
            NmConnectivityState::Full => match spec_resolve(w.primary_connection) {
                Some(primary) => {
                    let connection = spec_find_connection(w.active_connections, primary)->0;
                    let icons = primary_effects(w, connection.devices, false);
                    lemma_status_after_concat(opened, icons, panels);
                    lemma_status_after_primary(w, connection.devices, false, opened);
                    lemma_status_after_panels(
                        w,
                        w.device_paths(),
                        Seq::empty(),
                        status_after(opened, icons),
                    );
                },
                None => {
                    lemma_status_after_concat(opened, seq![show_icon(Icon::Unknown)], panels);
                    lemma_status_after_one(opened, show_icon(Icon::Unknown));
                    lemma_status_after_panels(
                        w,
                        w.device_paths(),
                        Seq::empty(),
                        status_after(opened, seq![show_icon(Icon::Unknown)]),
                    );
                },
            },
            NmConnectivityState::Loss => {
                let limited = show_icon(Icon::Limited);
                let recheck = EffectView::Recheck { delay_secs: RECHECK_DELAY_SECS };
                let head = seq![limited].push(recheck);
                assert(head =~= seq![limited] + seq![recheck]);
                lemma_status_after_concat(opened, head, panels);
                lemma_status_after_concat(opened, seq![limited], seq![recheck]);
                lemma_status_after_one(opened, limited);
                lemma_status_after_one(status_after(opened, seq![limited]), recheck);
                lemma_status_after_panels(
                    w,
                    w.device_paths(),
                    Seq::empty(),
                    status_after(opened, head),
                );
            },
            NmConnectivityState::NoConnectivity => {
                lemma_status_after_one(opened, show_icon(Icon::Disconnected));
            },
            _ => {
                lemma_status_after_one(opened, show_icon(Icon::Unknown));
            },
        },
    }
}

/// A pass over a service that stands still leaves the status of the
/// service on the tray. Where the service can answer everything that the
/// pass asks, and the pass has patience enough, then whatever the tray
/// showed before, once the effects of the pass are carried out it shows the
/// status of the service, and nothing of what it showed before.
pub proof fn law_observed_pass_leaves_the_status(
    w: NetworkManagerView,
    patience: nat,
    before: NetworkTrayView,
)
    requires
        legible(w),
        patience >= pass_cost(w),
    ensures
        status_after(before, run_against(w, patience).effects) == status_of(w),
        status_of(w).icon is Some,
        status_of(w).airplane_mode_state is Some,
{
    law_observed_pass_shows_the_service(w, patience);
    lemma_status_after_pass(w, before);
}

fn copy_wifi_state(state: &Option<WifiState>) -> (r: Option<WifiState>)
    ensures
        r.deep_view() == state.deep_view(),
{
    match state {
        Some(panel) => Some(
            WifiState {
                on: panel.on,
                known_connections: copy_networks(&panel.known_connections),
                available_connections: copy_networks(&panel.available_connections),
            },
        ),
        None => None,
    }
}

fn copy_vpn_state(state: &Option<VPNState>) -> (r: Option<VPNState>)
    ensures
        r.deep_view() == state.deep_view(),
{
    match state {
        Some(panel) => Some(VPNState { connections: copy_vpn_lines(&panel.connections) }),
        None => None,
    }
}

/// Carries one update out on the network tray.
pub fn show(tray: &mut NetworkTray, update: &TrayUpdate)
    ensures
        final(tray)@ == spec_network_after(old(tray)@, update@),
{
    match update {
        TrayUpdate::Icon(icon) => tray.set_icon(*icon),
        TrayUpdate::Wireless(state) => tray.set_wifi_state(copy_wifi_state(state)),
        TrayUpdate::Wired(state) => tray.set_wired_state(*state),
        TrayUpdate::Vpn(state) => tray.set_vpn_state(copy_vpn_state(state)),
        TrayUpdate::AirplaneMode(state) => tray.set_airplane_mode_state(*state),
    }
}

/// The network tray once the effects have been carried out in order on a
/// tray that showed nothing.
pub fn status_shown(effects: &Vec<Effect>) -> (r: NetworkTray)
    ensures
        r@ == status_after(nothing_shown(), effects.deep_view()),
{
    let mut tray = NetworkTray::new();
    let mut i: usize = 0;
    assert(effects.deep_view().skip(0) =~= effects.deep_view());
    while i < effects.len()
        invariant
            i <= effects.len(),
            status_after(tray@, effects.deep_view().skip(i as int)) == status_after(
                nothing_shown(),
                effects.deep_view(),
            ),
        decreases effects.len() - i,
    {
        let ghost rest = effects.deep_view().skip(i as int);
        assert(rest[0] == effects[i as int]@);
        assert(rest.drop_first() =~= effects.deep_view().skip(i + 1));
        match &effects[i] {
            Effect::Show(update) => {
                show(&mut tray, update);
            },
            _ => {},
        }
        i += 1;
    }
    assert(effects.deep_view().skip(i as int).len() == 0);
    tray
}

} // verus!
