use networkless::event::Event;
use networkless::network::network_manager::NetworkManager;
use networkless::reconciler::machine::{observe, replay, Reconciler};
use networkless::reconciler::model::Phase;
use networkless::service::{
    AccessPointProperty, ConnectionProperty, DeviceProperty, Effect, Failure, ManagerProperty, Next,
    Outcome, Request, Response,
};
use networkless::status::{
    AirplaneModeState, Icon, TrayUpdate, VPNConnection, VPNState, WifiConnection, WifiState,
    WiredState,
};

fn pass_clears() -> Vec<Effect> {
    vec![
        Effect::Show(TrayUpdate::Wireless(None)),
        Effect::Show(TrayUpdate::Wired(None)),
        Effect::Show(TrayUpdate::Vpn(None)),
        Effect::Show(TrayUpdate::AirplaneMode(None)),
    ]
}

fn pass_airplane(on: bool) -> Effect {
    Effect::Show(TrayUpdate::AirplaneMode(Some(AirplaneModeState { on })))
}

fn pass_icon(icon: Icon) -> Effect {
    Effect::Show(TrayUpdate::Icon(icon))
}

fn pass_text(text: &str) -> String {
    text.to_string()
}

fn pass_network(ssid: &str, hw_address: &str) -> WifiConnection {
    WifiConnection { ssid: ssid.to_string(), hw_address: hw_address.to_string() }
}

/// The three questions with which every pass begins.
fn pass_opening() -> Vec<Request> {
    vec![
        Request::Manager(ManagerProperty::WirelessEnabled),
        Request::Manager(ManagerProperty::BluetoothEnabled),
        Request::Manager(ManagerProperty::State),
    ]
}

#[test]
fn pass_begins_by_clearing_every_panel() {
    let (machine, first) = Reconciler::begin();
    assert_eq!(machine.phase(), Phase::WirelessEnabled);
    assert_eq!(machine.icon(), None);
    assert_eq!(first.effects, pass_clears());
    assert_eq!(first.next, Next::Ask(Request::Manager(ManagerProperty::WirelessEnabled)));
}

#[test]
fn quiet_states_end_the_pass_without_a_look_at_devices() {
    let table = [
        (10, Icon::Off),
        (20, Icon::Disconnected),
        (40, Icon::Busy),
        (30, Icon::Busy),
        (0, Icon::Unknown),
    ];
    for (code, icon) in table {
        let transcript = replay(vec![
            Response::Flag(true),
            Response::Flag(true),
            Response::Code(code),
            Response::Paths(vec![pass_text("/never/asked")]),
        ]);
        assert_eq!(transcript.requests, pass_opening());
        let mut effects = pass_clears();
        effects.push(pass_airplane(false));
        effects.push(pass_icon(icon));
        assert_eq!(transcript.effects, effects);
        assert_eq!(transcript.outcome, Some(Outcome::Completed));
    }
}

#[test]
fn airplane_mode_is_on_when_both_radios_are_off() {
    for (wifi, bluetooth, on) in
        [(false, false, true), (true, false, false), (false, true, false), (true, true, false)]
    {
        let transcript = replay(vec![Response::Flag(wifi), Response::Flag(bluetooth)]);
        assert_eq!(transcript.effects[4], pass_airplane(on));
        assert_eq!(transcript.outcome, None);
    }
}

#[test]
fn connectivity_without_full_access_settles_the_icon() {
    for (code, icon) in [(0, Icon::Unknown), (1, Icon::Disconnected), (2, Icon::Unknown), (9, Icon::Unknown)] {
        let transcript = replay(vec![
            Response::Flag(true),
            Response::Flag(true),
            Response::Code(70),
            Response::Code(code),
        ]);
        let mut requests = pass_opening();
        requests.push(Request::Manager(ManagerProperty::Connectivity));
        assert_eq!(transcript.requests, requests);
        assert_eq!(transcript.effects.last(), Some(&pass_icon(icon)));
        assert_eq!(transcript.outcome, Some(Outcome::Completed));
    }
}

#[test]
fn lost_connectivity_shows_limited_and_asks_for_a_recheck() {
    let transcript = replay(vec![
        Response::Flag(true),
        Response::Flag(true),
        Response::Code(60),
        Response::Code(3),
        Response::Paths(vec![]),
    ]);
    let mut requests = pass_opening();
    requests.push(Request::Manager(ManagerProperty::Connectivity));
    requests.push(Request::Manager(ManagerProperty::Devices));
    assert_eq!(transcript.requests, requests);
    let mut effects = pass_clears();
    effects.push(pass_airplane(false));
    effects.push(pass_icon(Icon::Limited));
    effects.push(Effect::Recheck { delay_secs: 5 });
    assert_eq!(transcript.effects, effects);
    assert_eq!(transcript.outcome, Some(Outcome::Completed));
}

/// The answers up to the strength of the access point of a wifi primary
/// device, for a service with full connectivity.
fn pass_wifi_primary(strength: u8) -> Vec<Response> {
    vec![
        Response::Flag(true),
        Response::Flag(true),
        Response::Code(70),
        Response::Code(4),
        Response::Path(pass_text("/ac/1")),
        Response::Paths(vec![pass_text("/dev/wifi")]),
        Response::Code(2),
        Response::Path(pass_text("/ap/1")),
        Response::Level(strength),
    ]
}

#[test]
fn wifi_primary_device_gives_the_wifi_icon_with_its_strength() {
    let mut answers = pass_wifi_primary(45);
    answers.push(Response::Paths(vec![]));
    let transcript = replay(answers);
    let mut requests = pass_opening();
    requests.push(Request::Manager(ManagerProperty::Connectivity));
    requests.push(Request::Manager(ManagerProperty::PrimaryConnection));
    requests.push(Request::Connection(pass_text("/ac/1"), ConnectionProperty::Devices));
    requests.push(Request::Device(pass_text("/dev/wifi"), DeviceProperty::DeviceType));
    requests.push(Request::Device(pass_text("/dev/wifi"), DeviceProperty::ActiveAccessPoint));
    requests.push(Request::AccessPoint(pass_text("/ap/1"), AccessPointProperty::Strength));
    requests.push(Request::Manager(ManagerProperty::Devices));
    assert_eq!(transcript.requests, requests);
    let mut effects = pass_clears();
    effects.push(pass_airplane(false));
    effects.push(pass_icon(Icon::Wifi(45)));
    assert_eq!(transcript.effects, effects);
    assert_eq!(transcript.outcome, Some(Outcome::Completed));
}

#[test]
fn wifi_icon_carries_every_strength_unchanged() {
    for strength in [0u8, 19, 20, 39, 40, 49, 50, 79, 80, 100, 255] {
        let mut answers = pass_wifi_primary(strength);
        answers.push(Response::Paths(vec![]));
        let transcript = replay(answers);
        assert_eq!(transcript.effects.last(), Some(&pass_icon(Icon::Wifi(strength))));
    }
}

#[test]
fn primary_devices_of_other_kinds_give_their_icon() {
    for (code, icon) in [
        (1, Icon::Ethernet),
        (16, Icon::Tun),
        (5, Icon::Unknown),
        (8, Icon::Unknown),
        (29, Icon::Unknown),
        (14, Icon::Unknown),
        (0, Icon::Unknown),
    ] {
        let transcript = replay(vec![
            Response::Flag(true),
            Response::Flag(true),
            Response::Code(70),
            Response::Code(4),
            Response::Path(pass_text("/ac/1")),
            Response::Paths(vec![pass_text("/dev/0")]),
            Response::Code(code),
            Response::Paths(vec![]),
        ]);
        assert_eq!(transcript.effects.last(), Some(&pass_icon(icon)));
        assert_eq!(transcript.outcome, Some(Outcome::Completed));
    }
}

#[test]
fn last_primary_device_decides_the_icon() {
    let transcript = replay(vec![
        Response::Flag(true),
        Response::Flag(true),
        Response::Code(70),
        Response::Code(4),
        Response::Path(pass_text("/ac/1")),
        Response::Paths(vec![pass_text("/dev/0"), pass_text("/dev/1")]),
        Response::Code(1),
        Response::Code(16),
        Response::Paths(vec![]),
    ]);
    let mut effects = pass_clears();
    effects.push(pass_airplane(false));
    effects.push(pass_icon(Icon::Ethernet));
    effects.push(pass_icon(Icon::Tun));
    assert_eq!(transcript.effects, effects);
}

#[test]
fn missing_primary_connection_gives_the_unknown_icon() {
    let transcript = replay(vec![
        Response::Flag(true),
        Response::Flag(true),
        Response::Code(70),
        Response::Code(4),
        Response::Path(pass_text("/")),
        Response::Paths(vec![]),
    ]);
    let mut requests = pass_opening();
    requests.push(Request::Manager(ManagerProperty::Connectivity));
    requests.push(Request::Manager(ManagerProperty::PrimaryConnection));
    requests.push(Request::Manager(ManagerProperty::Devices));
    assert_eq!(transcript.requests, requests);
    assert_eq!(transcript.effects.last(), Some(&pass_icon(Icon::Unknown)));
    assert_eq!(transcript.outcome, Some(Outcome::Completed));
}

#[test]
fn primary_connection_without_devices_gives_the_unknown_icon() {
    let transcript = replay(vec![
        Response::Flag(true),
        Response::Flag(true),
        Response::Code(70),
        Response::Code(4),
        Response::Path(pass_text("/ac/1")),
        Response::Paths(vec![]),
        Response::Paths(vec![]),
    ]);
    assert_eq!(transcript.effects.last(), Some(&pass_icon(Icon::Unknown)));
    assert_eq!(transcript.outcome, Some(Outcome::Completed));
}

#[test]
fn wifi_primary_device_without_access_point_gives_the_unknown_icon() {
    let transcript = replay(vec![
        Response::Flag(true),
        Response::Flag(true),
        Response::Code(70),
        Response::Code(4),
        Response::Path(pass_text("/ac/1")),
        Response::Paths(vec![pass_text("/dev/wifi")]),
        Response::Code(2),
        Response::Path(pass_text("/")),
        Response::Paths(vec![]),
    ]);
    assert_eq!(transcript.effects.last(), Some(&pass_icon(Icon::Unknown)));
    assert_eq!(transcript.outcome, Some(Outcome::Completed));
}

#[test]
fn unreadable_device_type_skips_the_device() {
    let transcript = replay(vec![
        Response::Flag(true),
        Response::Flag(true),
        Response::Code(70),
        Response::Code(3),
        Response::Paths(vec![pass_text("/dev/0"), pass_text("/dev/1")]),
        Response::Failed,
        Response::Code(1),
        Response::Code(100),
    ]);
    assert_eq!(
        transcript.effects.last(),
        Some(&Effect::Show(TrayUpdate::Wired(Some(WiredState { on: true }))))
    );
    assert_eq!(transcript.outcome, Some(Outcome::Completed));
}

#[test]
fn failed_reads_end_the_pass_early() {
    let scripts = vec![
        vec![Response::Failed],
        vec![Response::Flag(true), Response::Failed],
        vec![Response::Flag(true), Response::Flag(true), Response::Failed],
        vec![Response::Flag(true), Response::Flag(true), Response::Code(70), Response::Failed],
        vec![
            Response::Flag(true),
            Response::Flag(true),
            Response::Code(70),
            Response::Code(4),
            Response::Failed,
        ],
        vec![
            Response::Flag(true),
            Response::Flag(true),
            Response::Code(70),
            Response::Code(3),
            Response::Failed,
        ],
        vec![
            Response::Flag(true),
            Response::Flag(true),
            Response::Code(70),
            Response::Code(3),
            Response::Paths(vec![pass_text("/dev/0")]),
            Response::Code(1),
            Response::Failed,
        ],
    ];
    for script in scripts {
        let asked = script.len();
        let transcript = replay(script);
        assert_eq!(transcript.outcome, Some(Outcome::Failed(Failure::Read)));
        assert_eq!(transcript.requests.len(), asked);
    }
}

#[test]
fn answer_of_the_wrong_form_counts_as_a_failed_read() {
    let transcript = replay(vec![Response::Code(1)]);
    assert_eq!(transcript.outcome, Some(Outcome::Failed(Failure::Read)));
    assert_eq!(transcript.effects, pass_clears());
}

#[test]
fn answer_to_an_idle_machine_is_refused() {
    let (mut machine, _) = Reconciler::begin();
    let ended = machine.step(Response::Failed);
    assert_eq!(ended.next, Next::Finished(Outcome::Failed(Failure::Read)));
    assert_eq!(machine.phase(), Phase::Idle);
    let again = machine.step(Response::Flag(true));
    assert_eq!(again.next, Next::Finished(Outcome::Failed(Failure::NotRunning)));
    assert_eq!(again.effects, vec![]);
}

/// The answers of a service with lost connectivity up to the list of
/// devices.
fn pass_to_panels(devices: &[&str]) -> Vec<Response> {
    vec![
        Response::Flag(true),
        Response::Flag(true),
        Response::Code(70),
        Response::Code(3),
        Response::Paths(devices.iter().map(|d| d.to_string()).collect()),
    ]
}

#[test]
fn wired_panel_follows_the_ethernet_device() {
    for (state, panel) in [
        (100, Some(WiredState { on: true })),
        (30, Some(WiredState { on: false })),
        (20, None),
        (120, None),
    ] {
        let mut answers = pass_to_panels(&["/dev/eth"]);
        answers.push(Response::Code(1));
        answers.push(Response::Code(state));
        let transcript = replay(answers);
        assert_eq!(transcript.outcome, Some(Outcome::Completed));
        let shown: Vec<&Effect> = transcript
            .effects
            .iter()
            .filter(|e| matches!(e, Effect::Show(TrayUpdate::Wired(Some(_)))))
            .collect();
        match panel {
            Some(panel) => assert_eq!(shown, vec![&Effect::Show(TrayUpdate::Wired(Some(panel)))]),
            None => assert!(shown.is_empty()),
        }
    }
}

#[test]
fn vpn_panel_lists_every_wireguard_device_with_a_connection() {
    let mut answers = pass_to_panels(&["/dev/wg0", "/dev/wg1", "/dev/wg2"]);
    answers.extend(vec![
        Response::Code(29),
        Response::Path(pass_text("/ac/7")),
        Response::Text(pass_text("home-vpn")),
        Response::Code(100),
        Response::Code(29),
        Response::Path(pass_text("/")),
        Response::Code(29),
        Response::Path(pass_text("/ac/9")),
        Response::Text(pass_text("work-vpn")),
        Response::Code(40),
    ]);
    let transcript = replay(answers);
    assert_eq!(transcript.outcome, Some(Outcome::Completed));
    assert_eq!(
        transcript.effects.last(),
        Some(&Effect::Show(TrayUpdate::Vpn(Some(VPNState {
            connections: vec![
                VPNConnection { name: pass_text("home-vpn"), on: true },
                VPNConnection { name: pass_text("work-vpn"), on: false },
            ],
        }))))
    );
    assert!(transcript.requests.contains(&Request::Connection(
        pass_text("/ac/7"),
        ConnectionProperty::Id
    )));
}

#[test]
fn vpn_panel_is_not_shown_without_a_line() {
    let mut answers = pass_to_panels(&["/dev/lo"]);
    answers.push(Response::Code(32));
    let transcript = replay(answers);
    assert_eq!(transcript.outcome, Some(Outcome::Completed));
    assert!(!transcript.effects.iter().any(|e| matches!(e, Effect::Show(TrayUpdate::Vpn(Some(_))))));
}

#[test]
fn deactivated_vpn_shows_as_off_in_the_next_pass() {
    let mut answers = pass_to_panels(&["/dev/wg0"]);
    answers.extend(vec![
        Response::Code(29),
        Response::Path(pass_text("/ac/7")),
        Response::Text(pass_text("home-vpn")),
        Response::Code(30),
    ]);
    let transcript = replay(answers);
    assert_eq!(
        transcript.effects.last(),
        Some(&Effect::Show(TrayUpdate::Vpn(Some(VPNState {
            connections: vec![VPNConnection { name: pass_text("home-vpn"), on: false }],
        }))))
    );
}

#[test]
fn activated_wifi_device_shows_known_and_available_networks() {
    let mut answers = pass_to_panels(&["/dev/wifi"]);
    answers.extend(vec![
        Response::Code(2),
        Response::Code(100),
        Response::Paths(vec![pass_text("/set/1"), pass_text("/set/2"), pass_text("/set/3")]),
        Response::Text(pass_text("Home")),
        Response::Text(pass_text("CafeWifi")),
        Response::Text(pass_text("Ghost")),
        Response::Paths(vec![pass_text("/ap/1"), pass_text("/ap/2"), pass_text("/ap/3")]),
        Response::Bytes(b"CafeWifi".to_vec()),
        Response::Text(pass_text("AA:BB:CC:DD:EE:FF")),
        Response::Bytes(b"Ghost".to_vec()),
        Response::Text(pass_text("")),
        Response::Bytes(b"CafeWifi".to_vec()),
        Response::Text(pass_text("11:22:33:44:55:66")),
        Response::Path(pass_text("/ac/1")),
        Response::Code(2),
    ]);
    let transcript = replay(answers);
    assert_eq!(transcript.outcome, Some(Outcome::Completed));
    assert_eq!(
        transcript.effects.last(),
        Some(&Effect::Show(TrayUpdate::Wireless(Some(WifiState {
            on: true,
            known_connections: vec![pass_network("CafeWifi", "AA:BB:CC:DD:EE:FF")],
            available_connections: vec![
                pass_network("CafeWifi", "AA:BB:CC:DD:EE:FF"),
                pass_network("Ghost", ""),
                pass_network("CafeWifi", "11:22:33:44:55:66"),
            ],
        }))))
    );
}

#[test]
fn wifi_panel_is_off_while_the_connection_is_not_activated() {
    for (path, state, asked) in [("/", None, false), ("/ac/1", Some(1), true), ("/ac/1", Some(4), true)] {
        let mut answers = pass_to_panels(&["/dev/wifi"]);
        answers.extend(vec![
            Response::Code(2),
            Response::Code(100),
            Response::Paths(vec![]),
            Response::Paths(vec![]),
            Response::Path(pass_text(path)),
        ]);
        if let Some(state) = state {
            answers.push(Response::Code(state));
        }
        let transcript = replay(answers);
        assert_eq!(transcript.outcome, Some(Outcome::Completed));
        assert_eq!(
            transcript.effects.last(),
            Some(&Effect::Show(TrayUpdate::Wireless(Some(WifiState {
                on: false,
                known_connections: vec![],
                available_connections: vec![],
            }))))
        );
        assert_eq!(
            transcript
                .requests
                .contains(&Request::Connection(pass_text("/ac/1"), ConnectionProperty::State)),
            asked
        );
    }
}

#[test]
fn unavailable_wifi_device_shows_the_panel_off() {
    let mut answers = pass_to_panels(&["/dev/wifi"]);
    answers.extend(vec![Response::Code(2), Response::Code(20)]);
    let transcript = replay(answers);
    assert_eq!(transcript.outcome, Some(Outcome::Completed));
    assert_eq!(
        transcript.effects.last(),
        Some(&Effect::Show(TrayUpdate::Wireless(Some(WifiState {
            on: false,
            known_connections: vec![],
            available_connections: vec![],
        }))))
    );
}

#[test]
fn disconnected_wifi_device_with_radio_off_does_not_wait() {
    let mut answers = pass_to_panels(&["/dev/wifi"]);
    answers.extend(vec![Response::Code(2), Response::Code(30), Response::Flag(false)]);
    let transcript = replay(answers);
    assert_eq!(transcript.outcome, Some(Outcome::Completed));
    assert!(!transcript.requests.contains(&Request::WatchDeviceState(pass_text("/dev/wifi"))));
    assert_eq!(
        transcript.effects.last(),
        Some(&Effect::Show(TrayUpdate::Wireless(Some(WifiState {
            on: false,
            known_connections: vec![],
            available_connections: vec![],
        }))))
    );
}

fn pass_wait() -> Request {
    Request::NextDeviceState { device: pass_text("/dev/wifi"), timeout_secs: 20 }
}

#[test]
fn disconnected_wifi_device_waits_for_activation_and_asks_for_a_pass() {
    let mut answers = pass_to_panels(&["/dev/wifi"]);
    answers.extend(vec![
        Response::Code(2),
        Response::Code(30),
        Response::Flag(true),
        Response::Done,
        Response::TimedOut,
        Response::Code(40),
        Response::Code(100),
    ]);
    let transcript = replay(answers);
    assert_eq!(transcript.outcome, Some(Outcome::Completed));
    let waits = transcript.requests.iter().filter(|r| **r == pass_wait()).count();
    assert_eq!(waits, 3);
    assert!(transcript.requests.contains(&Request::WatchDeviceState(pass_text("/dev/wifi"))));
    assert_eq!(transcript.effects.last(), Some(&Effect::Notify(Event::Update)));
    assert!(transcript.effects.contains(&Effect::Show(TrayUpdate::Wireless(Some(WifiState {
        on: true,
        known_connections: vec![],
        available_connections: vec![],
    })))));
}

#[test]
fn activation_wait_gives_up_after_twenty_attempts() {
    let mut answers = pass_to_panels(&["/dev/wifi"]);
    answers.extend(vec![
        Response::Code(2),
        Response::Code(30),
        Response::Flag(true),
        Response::Done,
    ]);
    for _ in 0..25 {
        answers.push(Response::TimedOut);
    }
    let transcript = replay(answers);
    assert_eq!(transcript.outcome, Some(Outcome::Completed));
    let waits = transcript.requests.iter().filter(|r| **r == pass_wait()).count();
    assert_eq!(waits, 20);
    assert!(!transcript.effects.contains(&Effect::Notify(Event::Update)));
}

#[test]
fn activation_wait_ends_when_a_signal_cannot_be_read() {
    let mut answers = pass_to_panels(&["/dev/wifi", "/dev/eth"]);
    answers.extend(vec![
        Response::Code(2),
        Response::Code(30),
        Response::Flag(true),
        Response::Done,
        Response::Failed,
        Response::Code(1),
        Response::Code(100),
    ]);
    let transcript = replay(answers);
    assert_eq!(transcript.outcome, Some(Outcome::Completed));
    let waits = transcript.requests.iter().filter(|r| **r == pass_wait()).count();
    assert_eq!(waits, 1);
    assert_eq!(
        transcript.effects.last(),
        Some(&Effect::Show(TrayUpdate::Wired(Some(WiredState { on: true }))))
    );
}

#[test]
fn watch_that_cannot_begin_ends_the_pass() {
    let mut answers = pass_to_panels(&["/dev/wifi"]);
    answers.extend(vec![
        Response::Code(2),
        Response::Code(30),
        Response::Flag(true),
        Response::Failed,
    ]);
    let transcript = replay(answers);
    assert_eq!(transcript.outcome, Some(Outcome::Failed(Failure::Read)));
}

#[test]
fn pass_without_answers_stops_at_its_first_question() {
    let transcript = replay(vec![]);
    assert_eq!(transcript.requests, vec![Request::Manager(ManagerProperty::WirelessEnabled)]);
    assert_eq!(transcript.effects, pass_clears());
    assert_eq!(transcript.outcome, None);
}

#[test]
fn pass_never_asks_for_a_change() {
    let mut answers = pass_wifi_primary(70);
    answers.extend(vec![
        Response::Paths(vec![pass_text("/dev/wifi"), pass_text("/dev/eth"), pass_text("/dev/wg0")]),
        Response::Code(2),
        Response::Code(100),
        Response::Paths(vec![pass_text("/set/1")]),
        Response::Text(pass_text("CafeWifi")),
        Response::Paths(vec![pass_text("/ap/1")]),
        Response::Bytes(b"CafeWifi".to_vec()),
        Response::Text(pass_text("AA:BB:CC:DD:EE:FF")),
        Response::Path(pass_text("/ac/1")),
        Response::Code(2),
        Response::Code(1),
        Response::Code(30),
        Response::Code(29),
        Response::Path(pass_text("/ac/7")),
        Response::Text(pass_text("home-vpn")),
        Response::Code(100),
    ]);
    let transcript = replay(answers);
    assert_eq!(transcript.outcome, Some(Outcome::Completed));
    assert_eq!(transcript.requests.len(), 25);
    for request in &transcript.requests {
        assert!(!matches!(
            request,
            Request::SetWirelessEnabled(_) | Request::Activate { .. } | Request::Deactivate(_)
        ));
    }
    let icons: Vec<&Effect> = transcript
        .effects
        .iter()
        .filter(|e| matches!(e, Effect::Show(TrayUpdate::Icon(_))))
        .collect();
    assert_eq!(icons, vec![&pass_icon(Icon::Wifi(70))]);
}

#[test]
fn observed_pass_is_the_pass_against_the_answers_of_the_service() {
    let service = NetworkManager::new(10, 4, false, false, pass_text("/"));
    let transcript = observe(&service, 100);
    let mut effects = pass_clears();
    effects.push(pass_airplane(true));
    effects.push(pass_icon(Icon::Off));
    assert_eq!(transcript.requests, pass_opening());
    assert_eq!(transcript.effects, effects);
    assert_eq!(transcript.outcome, Some(Outcome::Completed));
    assert_eq!(
        transcript,
        replay(vec![Response::Flag(false), Response::Flag(false), Response::Code(10)])
    );
}

#[test]
fn observed_pass_gives_up_when_patience_runs_out() {
    let service = NetworkManager::new(70, 4, true, true, pass_text("/"));
    let transcript = observe(&service, 2);
    assert_eq!(transcript.requests, pass_opening());
    assert_eq!(transcript.outcome, None);
    let none = observe(&service, 0);
    assert_eq!(none.requests, vec![Request::Manager(ManagerProperty::WirelessEnabled)]);
    assert_eq!(none.effects, pass_clears());
    assert_eq!(none.outcome, None);
}
