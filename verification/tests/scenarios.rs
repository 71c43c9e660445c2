use networkless::dispatcher::machine::perform;
use networkless::event::{Action, Event};
use networkless::network::access_point::AccessPoint;
use networkless::network::active_connection::ActiveConnection;
use networkless::network::device::Device;
use networkless::network::network_manager::NetworkManager;
use networkless::network::settings::{ConnectionSetting, Section, Setting};
use networkless::reconciler::machine::observe;
use networkless::reconciler::service_status::{show, status_shown};
use networkless::service::{Effect, Failure, Outcome, Request};
use networkless::status::{
    signal_level, AirplaneModeState, Icon, SignalLevel, TrayUpdate, VPNConnection, VPNState,
    WifiConnection, WifiState, WiredState,
};
use networkless::tray::manager::TrayManager;
use networkless::tray::network::{picture, NetworkTray, Picture};

fn scene_text(text: &str) -> String {
    text.to_string()
}

fn scene_setting(path: &str, id: &str) -> ConnectionSetting {
    ConnectionSetting::new(
        scene_text(path),
        vec![Section {
            name: scene_text("connection"),
            settings: vec![Setting { key: scene_text("id"), value: scene_text(id) }],
        }],
    )
}

/// A laptop on the wifi of a cafe, with a cable plugged in but idle and a
/// VPN up. `vpn_state` is the state of the WireGuard device.
fn scene_cafe(strength: u8, vpn_state: u32) -> NetworkManager {
    let mut service = NetworkManager::new(70, 4, true, true, scene_text("/ac/1"));
    service.add_device(Device::new(
        scene_text("/dev/lo"),
        32,
        10,
        scene_text("/"),
        vec![],
        vec![],
        scene_text("/"),
    ));
    service.add_device(Device::new(
        scene_text("/dev/wifi"),
        2,
        100,
        scene_text("/ac/1"),
        vec![scene_text("/set/1"), scene_text("/set/2"), scene_text("/set/3")],
        vec![scene_text("/ap/1"), scene_text("/ap/2"), scene_text("/ap/3")],
        scene_text("/ap/1"),
    ));
    service.add_device(Device::new(
        scene_text("/dev/eth"),
        1,
        30,
        scene_text("/"),
        vec![scene_text("/set/4")],
        vec![],
        scene_text("/"),
    ));
    service.add_device(Device::new(
        scene_text("/dev/wg0"),
        29,
        vpn_state,
        scene_text("/ac/7"),
        vec![],
        vec![],
        scene_text("/"),
    ));
    service.add_active_connection(ActiveConnection::new(
        scene_text("/ac/1"),
        scene_text("CafeWifi"),
        2,
        scene_text("802-11-wireless"),
        scene_text("/set/1"),
        scene_text("/ap/1"),
        vec![scene_text("/dev/wifi")],
    ));
    service.add_active_connection(ActiveConnection::new(
        scene_text("/ac/7"),
        scene_text("home-vpn"),
        if vpn_state == 100 { 2 } else { 4 },
        scene_text("wireguard"),
        scene_text("/set/9"),
        scene_text("/set/9"),
        vec![scene_text("/dev/wg0")],
    ));
    service.add_access_point(AccessPoint::new(
        scene_text("/ap/1"),
        b"CafeWifi".to_vec(),
        scene_text("AA:BB:CC:DD:EE:FF"),
        strength,
        1,
        0x188,
        0,
    ));
    service.add_access_point(AccessPoint::new(
        scene_text("/ap/2"),
        b"Hidden".to_vec(),
        scene_text(""),
        30,
        0,
        0,
        0,
    ));
    service.add_access_point(AccessPoint::new(
        scene_text("/ap/3"),
        b"Library".to_vec(),
        scene_text("11:22:33:44:55:66"),
        80,
        0,
        0,
        0,
    ));
    service.add_setting(scene_setting("/set/1", "CafeWifi"));
    service.add_setting(scene_setting("/set/2", "Hidden"));
    service.add_setting(scene_setting("/set/3", "Home"));
    service.add_setting(scene_setting("/set/4", "Wired connection 1"));
    service
}

fn scene_network(ssid: &str, hw_address: &str) -> WifiConnection {
    WifiConnection { ssid: ssid.to_string(), hw_address: hw_address.to_string() }
}

#[test]
fn wifi_with_strength_45_shows_the_half_signal_picture() {
    let transcript = observe(&scene_cafe(45, 100), 1000);
    assert_eq!(transcript.outcome, Some(Outcome::Completed));
    let icons: Vec<&Effect> = transcript
        .effects
        .iter()
        .filter(|e| matches!(e, Effect::Show(TrayUpdate::Icon(_))))
        .collect();
    assert_eq!(icons, vec![&Effect::Show(TrayUpdate::Icon(Icon::Wifi(45)))]);
    assert_eq!(signal_level(45), SignalLevel::Level50);
    assert_eq!(picture(Icon::Wifi(45)), Picture::Wifi50);
}

#[test]
fn whole_pass_over_a_service_in_memory() {
    let transcript = observe(&scene_cafe(45, 100), 1000);
    assert_eq!(
        transcript.effects,
        vec![
            Effect::Show(TrayUpdate::Wireless(None)),
            Effect::Show(TrayUpdate::Wired(None)),
            Effect::Show(TrayUpdate::Vpn(None)),
            Effect::Show(TrayUpdate::AirplaneMode(None)),
            Effect::Show(TrayUpdate::AirplaneMode(Some(AirplaneModeState { on: false }))),
            Effect::Show(TrayUpdate::Icon(Icon::Wifi(45))),
            Effect::Show(TrayUpdate::Wireless(Some(WifiState {
                on: true,
                known_connections: vec![scene_network("CafeWifi", "AA:BB:CC:DD:EE:FF")],
                available_connections: vec![
                    scene_network("CafeWifi", "AA:BB:CC:DD:EE:FF"),
                    scene_network("Hidden", ""),
                    scene_network("Library", "11:22:33:44:55:66"),
                ],
            }))),
            Effect::Show(TrayUpdate::Wired(Some(WiredState { on: false }))),
            Effect::Show(TrayUpdate::Vpn(Some(VPNState {
                connections: vec![VPNConnection { name: scene_text("home-vpn"), on: true }],
            }))),
        ]
    );
    assert_eq!(transcript.outcome, Some(Outcome::Completed));
    assert_eq!(transcript.requests.len(), 32);
}

#[test]
fn pass_shown_on_the_trays() {
    let transcript = observe(&scene_cafe(85, 100), 1000);
    let mut trays = TrayManager::new();
    for effect in transcript.effects {
        if let Effect::Show(update) = effect {
            trays.update(update);
        }
    }
    let network = trays.network_tray().unwrap();
    assert_eq!(network.title(), "Wifi");
    assert_eq!(network.icon_pixmap(), Some(Picture::Wifi100));
    assert_eq!(network.menu().len(), 4);
    assert_eq!(trays.vpn_tray().map(|t| t.title()), Some(scene_text("VPN: home-vpn")));
    assert_eq!(trays.airplane_mode_tray(), None);
}

#[test]
fn toggled_vpn_shows_as_off_in_the_next_pass() {
    let mut service = scene_cafe(45, 100);
    let action = perform(Action::ToggleVPN(scene_text("home-vpn")), &mut service, 1000);
    assert_eq!(action.outcome, Some(Outcome::Completed));
    let writes: Vec<&Request> = action
        .requests
        .iter()
        .filter(|r| matches!(r, Request::Activate { .. } | Request::Deactivate(_)))
        .collect();
    assert_eq!(writes, vec![&Request::Deactivate(scene_text("/ac/7"))]);
    let after = observe(&scene_cafe(45, 30), 1000);
    assert_eq!(
        after.effects.last(),
        Some(&Effect::Show(TrayUpdate::Vpn(Some(VPNState {
            connections: vec![VPNConnection { name: scene_text("home-vpn"), on: false }],
        }))))
    );
}

#[test]
fn idle_vpn_is_activated_by_its_object() {
    let mut service = scene_cafe(45, 30);
    let action = perform(Action::ToggleVPN(scene_text("home-vpn")), &mut service, 1000);
    assert_eq!(action.outcome, Some(Outcome::Completed));
    assert_eq!(
        action.requests.last(),
        Some(&Request::Activate {
            connection: scene_text("/"),
            device: scene_text("/"),
            specific_object: scene_text("/set/9"),
        })
    );
    let other = perform(Action::ToggleVPN(scene_text("work-vpn")), &mut service, 1000);
    assert_eq!(other.outcome, Some(Outcome::Completed));
    assert!(!other.requests.iter().any(|r| matches!(r, Request::Activate { .. } | Request::Deactivate(_))));
}

#[test]
fn change_to_a_network_without_configured_connection_fails() {
    let mut service = scene_cafe(45, 100);
    let target = scene_network("Library", "11:22:33:44:55:66");
    let action = perform(Action::ChangeAccessPoint(target), &mut service, 1000);
    assert_eq!(action.outcome, Some(Outcome::Failed(Failure::ConfiguredConnectionNotFound)));
    assert_eq!(Failure::ConfiguredConnectionNotFound.message(), "Configured connection not found");
    assert!(!action.requests.iter().any(|r| matches!(r, Request::Activate { .. })));
}

#[test]
fn change_to_the_network_in_use_activates_nothing() {
    let mut service = scene_cafe(45, 100);
    let target = scene_network("CafeWifi", "AA:BB:CC:DD:EE:FF");
    let action = perform(Action::ChangeAccessPoint(target), &mut service, 1000);
    assert_eq!(action.outcome, Some(Outcome::Completed));
    assert!(!action.requests.iter().any(|r| matches!(r, Request::Activate { .. })));
    assert_eq!(action.effects, vec![]);
}

#[test]
fn toggle_wired_activates_the_profiles_of_the_idle_cable() {
    let mut service = scene_cafe(45, 100);
    let action = perform(Action::ToggleWired, &mut service, 1000);
    assert_eq!(action.outcome, Some(Outcome::Completed));
    let writes: Vec<&Request> = action
        .requests
        .iter()
        .filter(|r| matches!(r, Request::Activate { .. } | Request::Deactivate(_)))
        .collect();
    assert_eq!(
        writes,
        vec![&Request::Activate {
            connection: scene_text("/set/4"),
            device: scene_text("/dev/eth"),
            specific_object: scene_text("/"),
        }]
    );
}

#[test]
fn airplane_mode_toggle_switches_the_wifi_radio_off_and_on() {
    let mut service = NetworkManager::new(70, 4, true, false, scene_text("/"));
    let first = perform(Action::ToggleAirplaneMode, &mut service, 1000);
    assert_eq!(first.outcome, Some(Outcome::Completed));
    assert_eq!(first.effects, vec![Effect::Notify(Event::Update)]);
    assert!(!service.wifi_enabled());
    assert!(service.airplane_mode_enabled());
    let second = perform(Action::ToggleAirplaneMode, &mut service, 1000);
    assert_eq!(second.outcome, Some(Outcome::Completed));
    assert!(service.wifi_enabled());
    assert!(!service.airplane_mode_enabled());
}

#[test]
fn disconnected_wifi_device_is_waited_for_twenty_times_in_a_still_service() {
    let mut service = NetworkManager::new(60, 3, true, true, scene_text("/"));
    service.add_device(Device::new(
        scene_text("/dev/wifi"),
        2,
        30,
        scene_text("/"),
        vec![],
        vec![],
        scene_text("/"),
    ));
    let transcript = observe(&service, 1000);
    assert_eq!(transcript.outcome, Some(Outcome::Completed));
    let waits = transcript
        .requests
        .iter()
        .filter(|r| matches!(r, Request::NextDeviceState { timeout_secs: 20, .. }))
        .count();
    assert_eq!(waits, 20);
    assert!(transcript.effects.contains(&Effect::Recheck { delay_secs: 5 }));
    assert!(!transcript.effects.contains(&Effect::Notify(Event::Update)));
}

#[test]
fn pass_over_a_service_with_missing_objects_ends_early() {
    let mut service = NetworkManager::new(70, 4, true, true, scene_text("/ac/404"));
    let missing_primary = observe(&service, 1000);
    assert_eq!(missing_primary.outcome, Some(Outcome::Failed(Failure::Read)));
    service = NetworkManager::new(70, 3, true, true, scene_text("/"));
    service.add_device(Device::new(
        scene_text("/dev/wifi"),
        2,
        100,
        scene_text("/"),
        vec![scene_text("/set/404")],
        vec![],
        scene_text("/"),
    ));
    let missing_profile = observe(&service, 1000);
    assert_eq!(missing_profile.outcome, Some(Outcome::Failed(Failure::Read)));
}

#[test]
fn status_after_a_pass_is_the_status_of_the_service() {
    let transcript = observe(&scene_cafe(45, 100), 1000);
    let status = status_shown(&transcript.effects);
    let mut expected = NetworkTray::new();
    expected.set_icon(Icon::Wifi(45));
    expected.set_airplane_mode_state(Some(AirplaneModeState { on: false }));
    expected.set_wifi_state(Some(WifiState {
        on: true,
        known_connections: vec![scene_network("CafeWifi", "AA:BB:CC:DD:EE:FF")],
        available_connections: vec![
            scene_network("CafeWifi", "AA:BB:CC:DD:EE:FF"),
            scene_network("Hidden", ""),
            scene_network("Library", "11:22:33:44:55:66"),
        ],
    }));
    expected.set_wired_state(Some(WiredState { on: false }));
    expected.set_vpn_state(Some(VPNState {
        connections: vec![VPNConnection { name: scene_text("home-vpn"), on: true }],
    }));
    assert_eq!(status, expected);
    let mut trays = TrayManager::new();
    for effect in transcript.effects {
        if let Effect::Show(update) = effect {
            trays.update(update);
        }
    }
    assert_eq!(trays.network_tray(), Some(&expected));
}

#[test]
fn status_of_a_sleeping_service_has_icon_and_airplane_panel_only() {
    let service = NetworkManager::new(10, 0, false, false, scene_text("/"));
    let status = status_shown(&observe(&service, 1000).effects);
    let mut expected = NetworkTray::new();
    expected.set_icon(Icon::Off);
    expected.set_airplane_mode_state(Some(AirplaneModeState { on: true }));
    assert_eq!(status, expected);
    assert_eq!(status_shown(&vec![]), NetworkTray::new());
    let mut one = NetworkTray::new();
    show(&mut one, &TrayUpdate::Wired(Some(WiredState { on: true })));
    let mut wired = NetworkTray::new();
    wired.set_wired_state(Some(WiredState { on: true }));
    assert_eq!(one, wired);
}
