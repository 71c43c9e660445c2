use networkless::dispatcher::machine::{perform, replay, Dispatcher};
use networkless::dispatcher::model::Stage;
use networkless::dispatcher::rules::{find_access_point, in_use, is_bound, SeenAccessPoint};
use networkless::event::{Action, Event};
use networkless::network::access_point::AccessPoint;
use networkless::network::active_connection::ActiveConnection;
use networkless::network::device::Device;
use networkless::network::enums::ActiveConnectionState;
use networkless::network::network_manager::NetworkManager;
use networkless::network::settings::{ConnectionSetting, Section, Setting};
use networkless::service::{
    AccessPointProperty, ConnectionProperty, DeviceProperty, Effect, Failure, ManagerProperty, Next,
    Outcome, Request, Response,
};
use networkless::status::WifiConnection;

fn act_text(text: &str) -> String {
    text.to_string()
}

fn act_target() -> WifiConnection {
    WifiConnection { ssid: act_text("CafeWifi"), hw_address: act_text("AA:BB:CC:DD:EE:FF") }
}

fn act_is_write(request: &Request) -> bool {
    matches!(
        request,
        Request::SetWirelessEnabled(_) | Request::Activate { .. } | Request::Deactivate(_)
    )
}

#[test]
fn toggle_wifi_writes_the_opposite_of_what_it_read() {
    for on in [true, false] {
        let transcript = replay(Action::ToggleWifi, vec![Response::Flag(on), Response::Done]);
        assert_eq!(
            transcript.requests,
            vec![
                Request::Manager(ManagerProperty::WirelessEnabled),
                Request::SetWirelessEnabled(!on),
            ]
        );
        assert_eq!(transcript.effects, vec![Effect::Notify(Event::Update)]);
        assert_eq!(transcript.outcome, Some(Outcome::Completed));
    }
}

#[test]
fn toggle_wifi_twice_restores_the_radio() {
    for on in [true, false] {
        let mut service = NetworkManager::new(70, 4, on, true, act_text("/"));
        let before = service.clone();
        let first = perform(Action::ToggleWifi, &mut service, 10);
        assert_eq!(first.outcome, Some(Outcome::Completed));
        assert_eq!(service.wifi_enabled(), !on);
        let second = perform(Action::ToggleWifi, &mut service, 10);
        assert_eq!(second.outcome, Some(Outcome::Completed));
        assert_eq!(service.wifi_enabled(), on);
        assert_eq!(service, before);
    }
}

#[test]
fn toggle_wifi_asks_for_a_pass_even_when_the_write_fails() {
    let transcript = replay(Action::ToggleWifi, vec![Response::Flag(true), Response::Failed]);
    assert_eq!(transcript.effects, vec![Effect::Notify(Event::Update)]);
    assert_eq!(transcript.outcome, Some(Outcome::Failed(Failure::Write)));
}

#[test]
fn toggle_wifi_fails_when_the_radio_cannot_be_read() {
    let transcript = replay(Action::ToggleWifi, vec![Response::Failed]);
    assert_eq!(transcript.requests, vec![Request::Manager(ManagerProperty::WirelessEnabled)]);
    assert_eq!(transcript.effects, vec![]);
    assert_eq!(transcript.outcome, Some(Outcome::Failed(Failure::Read)));
}

#[test]
fn toggle_airplane_mode_switches_the_wifi_radio_the_other_way() {
    for (wifi, bluetooth, write) in
        [(false, false, true), (true, false, false), (true, true, false), (false, true, false)]
    {
        let transcript = replay(
            Action::ToggleAirplaneMode,
            vec![Response::Flag(wifi), Response::Flag(bluetooth), Response::Done],
        );
        assert_eq!(
            transcript.requests,
            vec![
                Request::Manager(ManagerProperty::WirelessEnabled),
                Request::Manager(ManagerProperty::BluetoothEnabled),
                Request::SetWirelessEnabled(write),
            ]
        );
        assert_eq!(transcript.effects, vec![Effect::Notify(Event::Update)]);
        assert_eq!(transcript.outcome, Some(Outcome::Completed));
    }
}

#[test]
fn toggle_airplane_mode_fails_when_a_radio_cannot_be_read() {
    let first = replay(Action::ToggleAirplaneMode, vec![Response::Failed]);
    assert_eq!(first.outcome, Some(Outcome::Failed(Failure::Read)));
    let second = replay(Action::ToggleAirplaneMode, vec![Response::Flag(true), Response::Failed]);
    assert_eq!(second.outcome, Some(Outcome::Failed(Failure::Read)));
    assert!(!second.requests.iter().any(act_is_write));
}

#[test]
fn toggle_wired_deactivates_an_activated_connection() {
    let transcript = replay(
        Action::ToggleWired,
        vec![
            Response::Paths(vec![act_text("/dev/wifi"), act_text("/dev/eth")]),
            Response::Code(2),
            Response::Code(1),
            Response::Path(act_text("/ac/3")),
            Response::Code(2),
            Response::Done,
        ],
    );
    assert_eq!(
        transcript.requests,
        vec![
            Request::Manager(ManagerProperty::Devices),
            Request::Device(act_text("/dev/wifi"), DeviceProperty::DeviceType),
            Request::Device(act_text("/dev/eth"), DeviceProperty::DeviceType),
            Request::Device(act_text("/dev/eth"), DeviceProperty::ActiveConnection),
            Request::Connection(act_text("/ac/3"), ConnectionProperty::State),
            Request::Deactivate(act_text("/ac/3")),
        ]
    );
    assert_eq!(transcript.effects, vec![]);
    assert_eq!(transcript.outcome, Some(Outcome::Completed));
}

#[test]
fn toggle_wired_activates_every_profile_of_an_idle_device() {
    for (path, state) in [("/", None), ("/ac/3", Some(4)), ("/ac/3", Some(1))] {
        let mut answers = vec![
            Response::Paths(vec![act_text("/dev/eth")]),
            Response::Code(1),
            Response::Path(act_text(path)),
        ];
        if let Some(state) = state {
            answers.push(Response::Code(state));
        }
        answers.extend(vec![
            Response::Paths(vec![act_text("/set/1"), act_text("/set/2")]),
            Response::Done,
            Response::Done,
        ]);
        let transcript = replay(Action::ToggleWired, answers);
        let writes: Vec<&Request> = transcript.requests.iter().filter(|r| act_is_write(r)).collect();
        assert_eq!(
            writes,
            vec![
                &Request::Activate {
                    connection: act_text("/set/1"),
                    device: act_text("/dev/eth"),
                    specific_object: act_text("/"),
                },
                &Request::Activate {
                    connection: act_text("/set/2"),
                    device: act_text("/dev/eth"),
                    specific_object: act_text("/"),
                },
            ]
        );
        assert_eq!(transcript.outcome, Some(Outcome::Completed));
    }
}

#[test]
fn toggle_wired_goes_on_after_a_refused_change_and_reports_it() {
    let transcript = replay(
        Action::ToggleWired,
        vec![
            Response::Paths(vec![act_text("/dev/eth0"), act_text("/dev/eth1")]),
            Response::Code(1),
            Response::Path(act_text("/")),
            Response::Paths(vec![act_text("/set/1"), act_text("/set/2")]),
            Response::Failed,
            Response::Done,
            Response::Code(1),
            Response::Path(act_text("/ac/3")),
            Response::Code(2),
            Response::Done,
        ],
    );
    let writes = transcript.requests.iter().filter(|r| act_is_write(r)).count();
    assert_eq!(writes, 3);
    assert_eq!(transcript.requests.last(), Some(&Request::Deactivate(act_text("/ac/3"))));
    assert_eq!(transcript.outcome, Some(Outcome::Failed(Failure::Write)));
}

#[test]
fn toggle_wired_without_ethernet_device_changes_nothing() {
    let transcript = replay(
        Action::ToggleWired,
        vec![Response::Paths(vec![act_text("/dev/wifi")]), Response::Code(2)],
    );
    assert!(!transcript.requests.iter().any(act_is_write));
    assert_eq!(transcript.outcome, Some(Outcome::Completed));
    let failed = replay(Action::ToggleWired, vec![Response::Failed]);
    assert_eq!(failed.outcome, Some(Outcome::Failed(Failure::Read)));
}

#[test]
fn toggle_vpn_deactivates_an_activated_vpn() {
    let transcript = replay(
        Action::ToggleVPN(act_text("home-vpn")),
        vec![
            Response::Paths(vec![act_text("/ac/1"), act_text("/ac/7"), act_text("/ac/8")]),
            Response::Text(act_text("802-11-wireless")),
            Response::Text(act_text("wireguard")),
            Response::Text(act_text("home-vpn")),
            Response::Code(2),
            Response::Done,
            Response::Text(act_text("wireguard")),
            Response::Text(act_text("work-vpn")),
        ],
    );
    assert_eq!(
        transcript.requests,
        vec![
            Request::Manager(ManagerProperty::ActiveConnections),
            Request::Connection(act_text("/ac/1"), ConnectionProperty::ConnectionType),
            Request::Connection(act_text("/ac/7"), ConnectionProperty::ConnectionType),
            Request::Connection(act_text("/ac/7"), ConnectionProperty::Id),
            Request::Connection(act_text("/ac/7"), ConnectionProperty::State),
            Request::Deactivate(act_text("/ac/7")),
            Request::Connection(act_text("/ac/8"), ConnectionProperty::ConnectionType),
            Request::Connection(act_text("/ac/8"), ConnectionProperty::Id),
        ]
    );
    assert_eq!(transcript.effects, vec![]);
    assert_eq!(transcript.outcome, Some(Outcome::Completed));
}

#[test]
fn toggle_vpn_activates_the_object_of_an_idle_vpn() {
    let transcript = replay(
        Action::ToggleVPN(act_text("home-vpn")),
        vec![
            Response::Paths(vec![act_text("/ac/7")]),
            Response::Text(act_text("wireguard")),
            Response::Text(act_text("home-vpn")),
            Response::Code(4),
            Response::Path(act_text("/set/9")),
            Response::Done,
        ],
    );
    assert_eq!(
        transcript.requests.last(),
        Some(&Request::Activate {
            connection: act_text("/"),
            device: act_text("/"),
            specific_object: act_text("/set/9"),
        })
    );
    assert_eq!(transcript.outcome, Some(Outcome::Completed));
}

#[test]
fn toggle_vpn_skips_a_vpn_without_object() {
    let transcript = replay(
        Action::ToggleVPN(act_text("home-vpn")),
        vec![
            Response::Paths(vec![act_text("/ac/7")]),
            Response::Text(act_text("wireguard")),
            Response::Text(act_text("home-vpn")),
            Response::Code(4),
            Response::Path(act_text("/")),
        ],
    );
    assert!(!transcript.requests.iter().any(act_is_write));
    assert_eq!(transcript.outcome, Some(Outcome::Completed));
}

#[test]
fn toggle_vpn_stops_when_the_service_refuses() {
    let transcript = replay(
        Action::ToggleVPN(act_text("home-vpn")),
        vec![
            Response::Paths(vec![act_text("/ac/7"), act_text("/ac/8")]),
            Response::Text(act_text("wireguard")),
            Response::Text(act_text("home-vpn")),
            Response::Code(2),
            Response::Failed,
        ],
    );
    assert_eq!(transcript.requests.len(), 5);
    assert_eq!(transcript.outcome, Some(Outcome::Failed(Failure::Write)));
}

/// The answers of a service with one activated wifi device that sees two
/// access points, up to the list of active connections.
fn act_survey() -> Vec<Response> {
    vec![
        Response::Paths(vec![act_text("/dev/eth"), act_text("/dev/wifi")]),
        Response::Code(1),
        Response::Code(2),
        Response::Code(100),
        Response::Paths(vec![act_text("/ap/1"), act_text("/ap/2")]),
        Response::Bytes(b"Other".to_vec()),
        Response::Text(act_text("11:22:33:44:55:66")),
        Response::Bytes(b"CafeWifi".to_vec()),
        Response::Text(act_text("AA:BB:CC:DD:EE:FF")),
    ]
}

#[test]
fn change_access_point_activates_the_profile_on_the_access_point() {
    let mut answers = act_survey();
    answers.extend(vec![
        Response::Paths(vec![act_text("/ac/1")]),
        Response::Text(act_text("Other")),
        Response::Code(2),
        Response::Paths(vec![act_text("/set/1"), act_text("/set/2"), act_text("/set/3")]),
        Response::Text(act_text("Other")),
        Response::Text(act_text("CafeWifi")),
        Response::Done,
    ]);
    let transcript = replay(Action::ChangeAccessPoint(act_target()), answers);
    assert_eq!(
        transcript.requests,
        vec![
            Request::Manager(ManagerProperty::Devices),
            Request::Device(act_text("/dev/eth"), DeviceProperty::DeviceType),
            Request::Device(act_text("/dev/wifi"), DeviceProperty::DeviceType),
            Request::Device(act_text("/dev/wifi"), DeviceProperty::State),
            Request::Device(act_text("/dev/wifi"), DeviceProperty::AccessPoints),
            Request::AccessPoint(act_text("/ap/1"), AccessPointProperty::Ssid),
            Request::AccessPoint(act_text("/ap/1"), AccessPointProperty::HwAddress),
            Request::AccessPoint(act_text("/ap/2"), AccessPointProperty::Ssid),
            Request::AccessPoint(act_text("/ap/2"), AccessPointProperty::HwAddress),
            Request::Manager(ManagerProperty::ActiveConnections),
            Request::Connection(act_text("/ac/1"), ConnectionProperty::Id),
            Request::Connection(act_text("/ac/1"), ConnectionProperty::State),
            Request::Device(act_text("/dev/wifi"), DeviceProperty::AvailableConnections),
            Request::ProfileId(act_text("/set/1")),
            Request::ProfileId(act_text("/set/2")),
            Request::Activate {
                connection: act_text("/set/2"),
                device: act_text("/dev/wifi"),
                specific_object: act_text("/ap/2"),
            },
        ]
    );
    assert_eq!(transcript.effects, vec![]);
    assert_eq!(transcript.outcome, Some(Outcome::Completed));
}

#[test]
fn change_to_the_active_access_point_activates_nothing() {
    let mut answers = act_survey();
    answers.extend(vec![
        Response::Paths(vec![act_text("/ac/0"), act_text("/ac/1"), act_text("/ac/2")]),
        Response::Text(act_text("home-vpn")),
        Response::Code(2),
        Response::Text(act_text("CafeWifi")),
        Response::Code(2),
        Response::Text(act_text("never-read")),
    ]);
    let transcript = replay(Action::ChangeAccessPoint(act_target()), answers);
    assert!(!transcript.requests.iter().any(act_is_write));
    assert_eq!(
        transcript.requests.last(),
        Some(&Request::Connection(act_text("/ac/1"), ConnectionProperty::State))
    );
    assert_eq!(transcript.outcome, Some(Outcome::Completed));
}

#[test]
fn change_access_point_goes_on_when_the_bound_connection_is_not_activated() {
    let mut answers = act_survey();
    answers.extend(vec![
        Response::Paths(vec![act_text("/ac/1")]),
        Response::Text(act_text("CafeWifi")),
        Response::Code(1),
        Response::Paths(vec![act_text("/set/2")]),
        Response::Text(act_text("CafeWifi")),
        Response::Done,
    ]);
    let transcript = replay(Action::ChangeAccessPoint(act_target()), answers);
    assert_eq!(transcript.requests.iter().filter(|r| act_is_write(r)).count(), 1);
    assert_eq!(transcript.outcome, Some(Outcome::Completed));
}

#[test]
fn change_access_point_without_configured_connection_fails() {
    let mut answers = act_survey();
    answers.extend(vec![
        Response::Paths(vec![]),
        Response::Paths(vec![act_text("/set/1"), act_text("/set/3")]),
        Response::Text(act_text("Other")),
        Response::Text(act_text("Home")),
    ]);
    let transcript = replay(Action::ChangeAccessPoint(act_target()), answers);
    assert!(!transcript.requests.iter().any(act_is_write));
    assert_eq!(
        transcript.outcome,
        Some(Outcome::Failed(Failure::ConfiguredConnectionNotFound))
    );
    assert_eq!(Failure::ConfiguredConnectionNotFound.message(), "Configured connection not found");
}

#[test]
fn change_access_point_needs_name_and_address_to_agree() {
    for target in [
        WifiConnection { ssid: act_text("CafeWifi"), hw_address: act_text("11:22:33:44:55:66") },
        WifiConnection { ssid: act_text("Other"), hw_address: act_text("AA:BB:CC:DD:EE:FF") },
        WifiConnection { ssid: act_text("Nowhere"), hw_address: act_text("00:00:00:00:00:00") },
    ] {
        let mut answers = act_survey();
        answers.push(Response::Paths(vec![]));
        let transcript = replay(Action::ChangeAccessPoint(target), answers);
        assert!(!transcript.requests.iter().any(act_is_write));
        assert_eq!(transcript.outcome, Some(Outcome::Failed(Failure::AccessPointNotFound)));
    }
}

#[test]
fn change_access_point_without_activated_wifi_device_fails() {
    let scripts = vec![
        vec![Response::Paths(vec![])],
        vec![Response::Paths(vec![act_text("/dev/eth")]), Response::Code(1)],
        vec![Response::Paths(vec![act_text("/dev/wifi")]), Response::Code(2), Response::Code(30)],
    ];
    for script in scripts {
        let transcript = replay(Action::ChangeAccessPoint(act_target()), script);
        assert!(!transcript.requests.iter().any(act_is_write));
        assert_eq!(transcript.outcome, Some(Outcome::Failed(Failure::NoActiveWifiDevice)));
    }
}

#[test]
fn change_access_point_takes_unreadable_lists_as_empty() {
    let transcript = replay(
        Action::ChangeAccessPoint(act_target()),
        vec![
            Response::Paths(vec![act_text("/dev/wifi")]),
            Response::Code(2),
            Response::Code(100),
            Response::Failed,
            Response::Failed,
        ],
    );
    assert_eq!(transcript.outcome, Some(Outcome::Failed(Failure::AccessPointNotFound)));
    let mut answers = act_survey();
    answers.extend(vec![Response::Failed, Response::Failed]);
    let second = replay(Action::ChangeAccessPoint(act_target()), answers);
    assert_eq!(second.outcome, Some(Outcome::Failed(Failure::ConfiguredConnectionNotFound)));
}

#[test]
fn change_access_point_reports_a_refused_activation() {
    let mut answers = act_survey();
    answers.extend(vec![
        Response::Paths(vec![]),
        Response::Paths(vec![act_text("/set/2")]),
        Response::Text(act_text("CafeWifi")),
        Response::Failed,
    ]);
    let transcript = replay(Action::ChangeAccessPoint(act_target()), answers);
    assert_eq!(transcript.outcome, Some(Outcome::Failed(Failure::Write)));
}

#[test]
fn change_access_point_fails_on_unreadable_properties() {
    let scripts = vec![
        vec![Response::Failed],
        vec![Response::Paths(vec![act_text("/dev/wifi")]), Response::Failed],
        vec![Response::Paths(vec![act_text("/dev/wifi")]), Response::Code(2), Response::Failed],
        vec![
            Response::Paths(vec![act_text("/dev/wifi")]),
            Response::Code(2),
            Response::Code(100),
            Response::Paths(vec![act_text("/ap/1")]),
            Response::Failed,
        ],
    ];
    for script in scripts {
        let transcript = replay(Action::ChangeAccessPoint(act_target()), script);
        assert_eq!(transcript.outcome, Some(Outcome::Failed(Failure::Read)));
    }
}

#[test]
fn access_point_with_unreadable_address_is_noted_without_one() {
    let seen = vec![
        SeenAccessPoint {
            path: act_text("/ap/1"),
            network: WifiConnection { ssid: act_text("CafeWifi"), hw_address: act_text("") },
        },
        SeenAccessPoint { path: act_text("/ap/2"), network: act_target() },
        SeenAccessPoint { path: act_text("/ap/3"), network: act_target() },
    ];
    assert_eq!(find_access_point(&seen, &act_target()), Some(&seen[1]));
    assert!(is_bound(&seen, &act_text("AA:BB:CC:DD:EE:FF"), &act_text("CafeWifi")));
    assert!(is_bound(&seen, &act_text(""), &act_text("CafeWifi")));
    assert!(!is_bound(&seen, &act_text("AA:BB:CC:DD:EE:FF"), &act_text("Other")));
    assert!(!is_bound(&vec![], &act_text(""), &act_text("")));
    assert_eq!(find_access_point(&vec![], &act_target()), None);
}

#[test]
fn action_machine_refuses_answers_when_idle() {
    let (mut machine, first) = Dispatcher::begin(Action::ToggleWifi);
    assert_eq!(machine.stage(), Stage::RadioRead);
    assert_eq!(first.next, Next::Ask(Request::Manager(ManagerProperty::WirelessEnabled)));
    let ended = machine.step(Response::Failed);
    assert_eq!(ended.next, Next::Finished(Outcome::Failed(Failure::Read)));
    assert_eq!(machine.stage(), Stage::Idle);
    let again = machine.step(Response::Done);
    assert_eq!(again.next, Next::Finished(Outcome::Failed(Failure::NotRunning)));
}

fn act_service() -> NetworkManager {
    let mut service = NetworkManager::new(70, 4, true, true, act_text("/ac/1"));
    service.add_device(Device::new(
        act_text("/dev/wifi"),
        2,
        100,
        act_text("/ac/1"),
        vec![act_text("/set/1"), act_text("/set/2")],
        vec![act_text("/ap/1"), act_text("/ap/2")],
        act_text("/ap/1"),
    ));
    service.add_active_connection(ActiveConnection::new(
        act_text("/ac/1"),
        act_text("Other"),
        2,
        act_text("802-11-wireless"),
        act_text("/set/1"),
        act_text("/ap/1"),
        vec![act_text("/dev/wifi")],
    ));
    service.add_access_point(AccessPoint::new(
        act_text("/ap/1"),
        b"Other".to_vec(),
        act_text("11:22:33:44:55:66"),
        80,
        1,
        0x188,
        0,
    ));
    service.add_access_point(AccessPoint::new(
        act_text("/ap/2"),
        b"CafeWifi".to_vec(),
        act_text("AA:BB:CC:DD:EE:FF"),
        45,
        0,
        0,
        0,
    ));
    for (path, id) in [("/set/1", "Other"), ("/set/2", "CafeWifi")] {
        service.add_setting(ConnectionSetting::new(
            act_text(path),
            vec![Section {
                name: act_text("connection"),
                settings: vec![Setting { key: act_text("id"), value: act_text(id) }],
            }],
        ));
    }
    service
}

#[test]
fn change_access_point_against_a_service_in_memory() {
    let mut service = act_service();
    let transcript = perform(Action::ChangeAccessPoint(act_target()), &mut service, 100);
    assert_eq!(transcript.outcome, Some(Outcome::Completed));
    assert_eq!(
        transcript.requests.last(),
        Some(&Request::Activate {
            connection: act_text("/set/2"),
            device: act_text("/dev/wifi"),
            specific_object: act_text("/ap/2"),
        })
    );
    assert_eq!(service, act_service());
    let active = WifiConnection { ssid: act_text("Other"), hw_address: act_text("11:22:33:44:55:66") };
    let idle = perform(Action::ChangeAccessPoint(active), &mut service, 100);
    assert_eq!(idle.outcome, Some(Outcome::Completed));
    assert!(!idle.requests.iter().any(act_is_write));
}

#[test]
fn performed_action_gives_up_when_patience_runs_out() {
    let mut service = act_service();
    let transcript = perform(Action::ChangeAccessPoint(act_target()), &mut service, 3);
    assert_eq!(transcript.requests.len(), 4);
    assert_eq!(transcript.outcome, None);
}

#[test]
fn access_point_with_the_address_and_another_name_is_not_the_target() {
    let transcript = replay(
        Action::ChangeAccessPoint(act_target()),
        vec![
            Response::Paths(vec![act_text("/dev/wifi")]),
            Response::Code(2),
            Response::Code(100),
            Response::Paths(vec![act_text("/ap/1")]),
            Response::Bytes(b"HomeNet".to_vec()),
            Response::Text(act_text("AA:BB:CC:DD:EE:FF")),
            Response::Paths(vec![act_text("/ac/1")]),
            Response::Text(act_text("HomeNet")),
            Response::Code(2),
            Response::Paths(vec![act_text("/set/never-asked")]),
        ],
    );
    assert_eq!(transcript.outcome, Some(Outcome::Failed(Failure::AccessPointNotFound)));
    assert_eq!(Failure::AccessPointNotFound.message(), "Access point not found");
    assert!(!transcript.requests.iter().any(act_is_write));
    assert_eq!(
        transcript.requests.last(),
        Some(&Request::Connection(act_text("/ac/1"), ConnectionProperty::State))
    );
}

#[test]
fn connection_of_the_name_over_another_access_point_is_not_the_target() {
    let transcript = replay(
        Action::ChangeAccessPoint(act_target()),
        vec![
            Response::Paths(vec![act_text("/dev/wifi")]),
            Response::Code(2),
            Response::Code(100),
            Response::Paths(vec![act_text("/ap/1"), act_text("/ap/2")]),
            Response::Bytes(b"CafeWifi".to_vec()),
            Response::Text(act_text("11:22:33:44:55:66")),
            Response::Bytes(b"HomeNet".to_vec()),
            Response::Text(act_text("AA:BB:CC:DD:EE:FF")),
            Response::Paths(vec![act_text("/ac/1"), act_text("/ac/2")]),
            Response::Text(act_text("CafeWifi")),
            Response::Code(2),
            Response::Text(act_text("HomeNet")),
            Response::Code(2),
        ],
    );
    assert_eq!(transcript.outcome, Some(Outcome::Failed(Failure::AccessPointNotFound)));
    assert!(!transcript.requests.iter().any(act_is_write));
}

#[test]
fn target_is_in_use_only_by_name_address_and_state_together() {
    let seen = vec![
        SeenAccessPoint {
            path: act_text("/ap/1"),
            network: WifiConnection {
                ssid: act_text("HomeNet"),
                hw_address: act_text("AA:BB:CC:DD:EE:FF"),
            },
        },
        SeenAccessPoint {
            path: act_text("/ap/2"),
            network: WifiConnection {
                ssid: act_text("CafeWifi"),
                hw_address: act_text("11:22:33:44:55:66"),
            },
        },
    ];
    let activated = ActiveConnectionState::Activated;
    assert!(!in_use(&seen, &act_target(), &act_text("HomeNet"), activated));
    assert!(!in_use(&seen, &act_target(), &act_text("CafeWifi"), activated));
    let home = WifiConnection {
        ssid: act_text("HomeNet"),
        hw_address: act_text("AA:BB:CC:DD:EE:FF"),
    };
    assert!(in_use(&seen, &home, &act_text("HomeNet"), activated));
    assert!(!in_use(&seen, &home, &act_text("CafeWifi"), activated));
    assert!(!in_use(&seen, &home, &act_text("HomeNet"), ActiveConnectionState::Activating));
    assert!(!in_use(&seen, &home, &act_text("HomeNet"), ActiveConnectionState::Deactivated));
    assert!(!in_use(&vec![], &home, &act_text("HomeNet"), activated));
}
