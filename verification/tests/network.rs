use networkless::network::access_point::AccessPoint;
use networkless::network::active_connection::ActiveConnection;
use networkless::network::device::Device;
use networkless::network::devices::{SpecificDevice, Wireless};
use networkless::network::enums::{
    ActiveConnectionState, DeviceState, DeviceType, NmConnectivityState, NmState,
};
use networkless::network::flags::{is_secure, ApFlags, ApSecurityFlags};
use networkless::network::network_manager::{bluetooth_unblocked, NetworkManager};
use networkless::network::settings::{ConnectionSetting, Section, Setting};
use networkless::service::{
    resolve, AccessPointProperty, ConnectionProperty, DeviceProperty, ManagerProperty, Request,
    Response,
};
use networkless::status::WifiConnection;
use networkless::text::{contains_bytes, is_text, join, text_of};

fn net_text(text: &str) -> String {
    text.to_string()
}

fn net_access_point(flags: u32, rsn: u32, wpa: u32) -> AccessPoint {
    AccessPoint::new(
        net_text("/ap/1"),
        b"CafeWifi".to_vec(),
        net_text("AA:BB:CC:DD:EE:FF"),
        45,
        flags,
        rsn,
        wpa,
    )
}

#[test]
fn access_point_tells_what_it_was_given() {
    let ap = net_access_point(0x1, 0x188, 0);
    assert_eq!(ap.path(), "/ap/1");
    assert_eq!(ap.id(), "CafeWifi");
    assert_eq!(ap.hw_address(), "AA:BB:CC:DD:EE:FF");
    assert_eq!(ap.strength(), 45);
    assert_eq!(ap.flags().bits(), 0x1);
    assert_eq!(ap.rsn_flags().bits(), 0x188);
    assert_eq!(ap.wpa_flags().bits(), 0);
    assert_eq!(
        ap.network(),
        WifiConnection { ssid: net_text("CafeWifi"), hw_address: net_text("AA:BB:CC:DD:EE:FF") }
    );
    assert_eq!(ap.duplicate(), ap);
}

#[test]
fn access_point_name_replaces_what_is_not_utf8() {
    let ap = AccessPoint::new(net_text("/ap/9"), vec![0x43, 0xff, 0x61], net_text(""), 0, 0, 0, 0);
    assert_eq!(ap.id(), "C\u{fffd}a");
    let empty = AccessPoint::new(net_text("/ap/9"), vec![], net_text(""), 0, 0, 0, 0);
    assert_eq!(empty.id(), "");
    let accented = AccessPoint::new(net_text("/ap/9"), "Café".as_bytes().to_vec(), net_text(""), 0, 0, 0, 0);
    assert_eq!(accented.id(), "Café");
}

#[test]
fn access_point_flags_drop_unknown_bits() {
    let ap = net_access_point(0xffff_fff3, 0xffff_c001, 0x4000);
    assert_eq!(ap.flags().bits(), 0x3);
    assert_eq!(ap.rsn_flags().bits(), 0x1);
    assert_eq!(ap.wpa_flags().bits(), 0);
    assert_eq!(ApFlags::from_bits_truncate(0x1f).bits(), 0xf);
    assert_eq!(ApSecurityFlags::from_bits_truncate(0x7fff).bits(), 0x3fff);
}

#[test]
fn access_point_is_secure_with_privacy_and_a_cipher() {
    assert!(net_access_point(0x1, 0x188, 0).secure());
    assert!(net_access_point(0x1, 0, 0x4).secure());
    assert!(net_access_point(0xf, 0x8, 0x8).secure());
    assert!(!net_access_point(0x1, 0, 0).secure());
    assert!(!net_access_point(0x0, 0x188, 0x4).secure());
    assert!(!net_access_point(0xe, 0x188, 0x4).secure());
    assert!(!net_access_point(0x1, 0x4000, 0x8000).secure());
}

#[test]
fn flag_sets_answer_for_their_bits() {
    let flags = ApFlags::from_bits_truncate(ApFlags::PRIVACY | ApFlags::WPS_PIN);
    assert!(flags.contains(ApFlags::PRIVACY));
    assert!(flags.contains(ApFlags::WPS_PIN));
    assert!(flags.contains(ApFlags::PRIVACY | ApFlags::WPS_PIN));
    assert!(flags.contains(ApFlags::NONE));
    assert!(!flags.contains(ApFlags::WPS));
    assert!(!flags.contains(ApFlags::PRIVACY | ApFlags::WPS));
    assert!(!flags.is_empty());
    assert!(ApFlags::from_bits_truncate(0x10).is_empty());
    let rsn = ApSecurityFlags::from_bits_truncate(ApSecurityFlags::CCMP | ApSecurityFlags::KEY_MGMTPSK);
    assert!(rsn.contains(ApSecurityFlags::CCMP));
    assert!(!rsn.contains(ApSecurityFlags::TKIP));
    assert!(!rsn.is_empty());
    assert!(is_secure(flags, rsn, ApSecurityFlags::from_bits_truncate(0)));
    assert!(!is_secure(flags, ApSecurityFlags::from_bits_truncate(0), ApSecurityFlags::from_bits_truncate(0)));
    assert_eq!(ApSecurityFlags::KEY_MGMT_EAP_SUITE_B_192, 0x2000);
}

#[test]
fn access_point_answers_for_each_property() {
    let ap = net_access_point(0, 0, 0);
    assert_eq!(ap.answer(AccessPointProperty::Ssid), Response::Bytes(b"CafeWifi".to_vec()));
    assert_eq!(
        ap.answer(AccessPointProperty::HwAddress),
        Response::Text(net_text("AA:BB:CC:DD:EE:FF"))
    );
    assert_eq!(ap.answer(AccessPointProperty::Strength), Response::Level(45));
}

fn net_setting(path: &str, sections: Vec<(&str, Vec<(&str, &str)>)>) -> ConnectionSetting {
    ConnectionSetting::new(
        net_text(path),
        sections
            .into_iter()
            .map(|(name, settings)| Section {
                name: net_text(name),
                settings: settings
                    .into_iter()
                    .map(|(key, value)| Setting { key: net_text(key), value: net_text(value) })
                    .collect(),
            })
            .collect(),
    )
}

#[test]
fn configured_connection_finds_its_name() {
    let setting = net_setting(
        "/set/1",
        vec![
            ("802-11-wireless", vec![("ssid", "x"), ("id", "wrong")]),
            ("connection", vec![("uuid", "1234"), ("id", "CafeWifi"), ("id", "second")]),
            ("connection", vec![("id", "later")]),
        ],
    );
    assert_eq!(setting.id(), Some(net_text("CafeWifi")));
    assert_eq!(setting.path(), "/set/1");
}

#[test]
fn configured_connection_without_name_has_none() {
    assert_eq!(net_setting("/set/1", vec![]).id(), None);
    assert_eq!(net_setting("/set/1", vec![("ipv4", vec![("id", "x")])]).id(), None);
    assert_eq!(net_setting("/set/1", vec![("connection", vec![("uuid", "1")])]).id(), None);
    assert_eq!(net_setting("/set/1", vec![("connection", vec![])]).id(), None);
}

fn net_wifi_device() -> Device {
    Device::new(
        net_text("/dev/wifi"),
        2,
        100,
        net_text("/ac/1"),
        vec![net_text("/set/1")],
        vec![net_text("/ap/1"), net_text("/ap/2")],
        net_text("/ap/1"),
    )
}

#[test]
fn device_tells_what_it_was_given() {
    let device = net_wifi_device();
    assert_eq!(device.path(), "/dev/wifi");
    assert_eq!(device.device_type(), DeviceType::Wifi);
    assert_eq!(device.state(), DeviceState::Activated);
    assert_eq!(device.active_connection(), Some(net_text("/ac/1")));
    assert_eq!(device.available_connections(), vec![net_text("/set/1")]);
}

#[test]
fn device_without_active_connection_has_none() {
    let device = Device::new(net_text("/dev/eth"), 1, 30, net_text("/"), vec![], vec![], net_text("/"));
    assert_eq!(device.active_connection(), None);
    assert_eq!(device.state(), DeviceState::Disconnected);
}

#[test]
fn device_specialises_by_its_kind() {
    assert_eq!(
        net_wifi_device().to_specific_device(),
        Some(SpecificDevice::Wireless(Wireless::new(
            vec![net_text("/ap/1"), net_text("/ap/2")],
            net_text("/ap/1")
        )))
    );
    for (code, specific) in [
        (1, Some(SpecificDevice::Wired)),
        (29, Some(SpecificDevice::WireGuard)),
        (5, None),
        (8, None),
        (14, None),
        (16, None),
        (0, None),
    ] {
        let device = Device::new(net_text("/dev/x"), code, 100, net_text("/"), vec![], vec![], net_text("/"));
        assert_eq!(device.to_specific_device(), specific);
    }
}

#[test]
fn wireless_side_resolves_its_access_point() {
    let bound = Wireless::new(vec![net_text("/ap/1")], net_text("/ap/1"));
    assert_eq!(bound.active_access_point(), Some(net_text("/ap/1")));
    assert_eq!(bound.access_points(), vec![net_text("/ap/1")]);
    let loose = Wireless::new(vec![], net_text("/"));
    assert_eq!(loose.active_access_point(), None);
    assert_eq!(loose.access_points(), Vec::<String>::new());
}

#[test]
fn only_a_wifi_device_answers_for_access_points() {
    let wifi = net_wifi_device();
    assert_eq!(wifi.answer(DeviceProperty::DeviceType), Response::Code(2));
    assert_eq!(wifi.answer(DeviceProperty::State), Response::Code(100));
    assert_eq!(wifi.answer(DeviceProperty::ActiveConnection), Response::Path(net_text("/ac/1")));
    assert_eq!(
        wifi.answer(DeviceProperty::AvailableConnections),
        Response::Paths(vec![net_text("/set/1")])
    );
    assert_eq!(
        wifi.answer(DeviceProperty::AccessPoints),
        Response::Paths(vec![net_text("/ap/1"), net_text("/ap/2")])
    );
    assert_eq!(wifi.answer(DeviceProperty::ActiveAccessPoint), Response::Path(net_text("/ap/1")));
    let wired = Device::new(
        net_text("/dev/eth"),
        1,
        100,
        net_text("/"),
        vec![],
        vec![net_text("/ap/1")],
        net_text("/ap/1"),
    );
    assert_eq!(wired.answer(DeviceProperty::AccessPoints), Response::Failed);
    assert_eq!(wired.answer(DeviceProperty::ActiveAccessPoint), Response::Failed);
}

fn net_connection() -> ActiveConnection {
    ActiveConnection::new(
        net_text("/ac/7"),
        net_text("home-vpn"),
        2,
        net_text("wireguard"),
        net_text("/set/9"),
        net_text("/"),
        vec![net_text("/dev/wg0")],
    )
}

#[test]
fn active_connection_tells_what_it_was_given() {
    let connection = net_connection();
    assert_eq!(connection.path(), "/ac/7");
    assert_eq!(connection.id(), "home-vpn");
    assert_eq!(connection.state(), ActiveConnectionState::Activated);
    assert_eq!(connection.device_type(), DeviceType::WireGuard);
    assert_eq!(connection.connection(), "/set/9");
    assert_eq!(connection.specific_object(), None);
    assert_eq!(connection.devices(), vec![net_text("/dev/wg0")]);
    assert_eq!(connection.answer(ConnectionProperty::Id), Response::Text(net_text("home-vpn")));
    assert_eq!(connection.answer(ConnectionProperty::State), Response::Code(2));
    assert_eq!(
        connection.answer(ConnectionProperty::ConnectionType),
        Response::Text(net_text("wireguard"))
    );
    assert_eq!(
        connection.answer(ConnectionProperty::Devices),
        Response::Paths(vec![net_text("/dev/wg0")])
    );
    assert_eq!(connection.answer(ConnectionProperty::SpecificObject), Response::Path(net_text("/")));
}

#[test]
fn null_path_names_no_object() {
    assert_eq!(resolve(net_text("/")), None);
    assert_eq!(resolve(net_text("")), Some(net_text("")));
    assert_eq!(resolve(net_text("//")), Some(net_text("//")));
    assert_eq!(
        resolve(net_text("/org/freedesktop/NetworkManager/Devices/2")),
        Some(net_text("/org/freedesktop/NetworkManager/Devices/2"))
    );
}

fn net_service() -> NetworkManager {
    let mut service = NetworkManager::new(70, 4, true, false, net_text("/ac/1"));
    service.add_device(net_wifi_device());
    service.add_device(Device::new(
        net_text("/dev/wg0"),
        29,
        100,
        net_text("/ac/7"),
        vec![],
        vec![],
        net_text("/"),
    ));
    service.add_active_connection(ActiveConnection::new(
        net_text("/ac/1"),
        net_text("CafeWifi"),
        2,
        net_text("802-11-wireless"),
        net_text("/set/1"),
        net_text("/ap/1"),
        vec![net_text("/dev/wifi")],
    ));
    service.add_active_connection(net_connection());
    service.add_access_point(net_access_point(1, 0x188, 0));
    service.add_access_point(AccessPoint::new(
        net_text("/ap/2"),
        b"Ghost".to_vec(),
        net_text(""),
        10,
        0,
        0,
        0,
    ));
    service.add_setting(net_setting("/set/1", vec![("connection", vec![("id", "CafeWifi")])]));
    service.add_setting(net_setting("/set/2", vec![("ipv4", vec![])]));
    service
}

#[test]
fn service_in_memory_tells_its_state() {
    let service = net_service();
    assert_eq!(service.state(), NmState::ConnectedGlobal);
    assert_eq!(service.connectivity(), NmConnectivityState::Full);
    assert!(service.wifi_enabled());
    assert!(!service.bluetooth_enabled());
    assert!(!service.airplane_mode_enabled());
    assert_eq!(service.devices().len(), 2);
    assert_eq!(service.all_devices(), service.devices());
    assert_eq!(service.active_connections().len(), 2);
    assert_eq!(service.primary_connection().map(|c| c.id()), Some(net_text("CafeWifi")));
    assert_eq!(service.device(&net_text("/dev/wg0")).map(|d| d.device_type()), Some(DeviceType::WireGuard));
    assert_eq!(service.device(&net_text("/dev/none")), None);
    assert_eq!(service.access_point(&net_text("/ap/2")).map(|a| a.id()), Some(net_text("Ghost")));
    assert_eq!(service.active_connection(&net_text("/ac/7")), Some(&net_connection()));
}

#[test]
fn service_in_memory_knows_airplane_mode() {
    for (wifi, bluetooth, on) in
        [(false, false, true), (true, false, false), (false, true, false), (true, true, false)]
    {
        let service = NetworkManager::new(70, 4, wifi, bluetooth, net_text("/"));
        assert_eq!(service.airplane_mode_enabled(), on);
        assert_eq!(service.primary_connection(), None);
    }
    let lost = NetworkManager::new(70, 4, true, true, net_text("/ac/404"));
    assert_eq!(lost.primary_connection(), None);
}

#[test]
fn service_in_memory_answers_reads() {
    let service = net_service();
    let ask = |request: Request| service.answer(&request);
    assert_eq!(ask(Request::Manager(ManagerProperty::WirelessEnabled)), Response::Flag(true));
    assert_eq!(ask(Request::Manager(ManagerProperty::BluetoothEnabled)), Response::Flag(false));
    assert_eq!(ask(Request::Manager(ManagerProperty::State)), Response::Code(70));
    assert_eq!(ask(Request::Manager(ManagerProperty::Connectivity)), Response::Code(4));
    assert_eq!(
        ask(Request::Manager(ManagerProperty::PrimaryConnection)),
        Response::Path(net_text("/ac/1"))
    );
    assert_eq!(
        ask(Request::Manager(ManagerProperty::Devices)),
        Response::Paths(vec![net_text("/dev/wifi"), net_text("/dev/wg0")])
    );
    assert_eq!(
        ask(Request::Manager(ManagerProperty::ActiveConnections)),
        Response::Paths(vec![net_text("/ac/1"), net_text("/ac/7")])
    );
    assert_eq!(ask(Request::Device(net_text("/dev/wg0"), DeviceProperty::DeviceType)), Response::Code(29));
    assert_eq!(ask(Request::Device(net_text("/dev/404"), DeviceProperty::DeviceType)), Response::Failed);
    assert_eq!(
        ask(Request::AccessPoint(net_text("/ap/1"), AccessPointProperty::Strength)),
        Response::Level(45)
    );
    assert_eq!(
        ask(Request::AccessPoint(net_text("/ap/404"), AccessPointProperty::Strength)),
        Response::Failed
    );
    assert_eq!(
        ask(Request::Connection(net_text("/ac/7"), ConnectionProperty::Id)),
        Response::Text(net_text("home-vpn"))
    );
    assert_eq!(ask(Request::Connection(net_text("/ac/404"), ConnectionProperty::Id)), Response::Failed);
    assert_eq!(ask(Request::ProfileId(net_text("/set/1"))), Response::Text(net_text("CafeWifi")));
    assert_eq!(ask(Request::ProfileId(net_text("/set/2"))), Response::Failed);
    assert_eq!(ask(Request::ProfileId(net_text("/set/404"))), Response::Failed);
    assert_eq!(ask(Request::WatchDeviceState(net_text("/dev/wifi"))), Response::Done);
    assert_eq!(ask(Request::WatchDeviceState(net_text("/dev/404"))), Response::Failed);
    assert_eq!(
        ask(Request::NextDeviceState { device: net_text("/dev/wifi"), timeout_secs: 20 }),
        Response::TimedOut
    );
}

#[test]
fn service_in_memory_carries_out_radio_writes_only() {
    let mut service = net_service();
    assert_eq!(service.answer(&Request::SetWirelessEnabled(false)), Response::Done);
    assert!(service.wifi_enabled());
    assert_eq!(service.carry_out(&Request::SetWirelessEnabled(false)), Response::Done);
    assert!(!service.wifi_enabled());
    assert!(service.airplane_mode_enabled());
    service.set_wifi_enabled(true);
    assert_eq!(service, net_service());
    assert_eq!(service.carry_out(&Request::Deactivate(net_text("/ac/7"))), Response::Done);
    assert_eq!(service.carry_out(&Request::Deactivate(net_text("/ac/404"))), Response::Failed);
    assert_eq!(
        service.carry_out(&Request::Activate {
            connection: net_text("/set/1"),
            device: net_text("/dev/wifi"),
            specific_object: net_text("/ap/1"),
        }),
        Response::Done
    );
    assert_eq!(service, net_service());
}

#[test]
fn rfkill_listing_tells_whether_bluetooth_is_unblocked() {
    assert!(bluetooth_unblocked("0: hci0: Bluetooth\n\tSoft blocked: no\n\tHard blocked: no\n"));
    assert!(!bluetooth_unblocked("0: hci0: Bluetooth\n\tSoft blocked: yes\n\tHard blocked: no\n"));
    assert!(!bluetooth_unblocked(""));
    assert!(!bluetooth_unblocked("Soft blocked: n"));
    assert!(bluetooth_unblocked("Soft blocked: no"));
    assert!(bluetooth_unblocked(
        "0: hci0: Bluetooth\n\tSoft blocked: yes\n1: hci1: Bluetooth\n\tSoft blocked: no\n"
    ));
}

#[test]
fn byte_search_finds_runs_of_neighbours() {
    assert!(contains_bytes(b"abcabd", b"abd"));
    assert!(contains_bytes(b"abcabd", b"abc"));
    assert!(contains_bytes(b"abcabd", b""));
    assert!(contains_bytes(b"", b""));
    assert!(contains_bytes(b"abc", b"abc"));
    assert!(!contains_bytes(b"abcabd", b"abe"));
    assert!(!contains_bytes(b"ab", b"abc"));
    assert!(!contains_bytes(b"", b"a"));
    assert!(!contains_bytes(b"aab", b"aba"));
}

#[test]
fn text_helpers_compare_and_join() {
    assert!(is_text(&net_text("/"), "/"));
    assert!(!is_text(&net_text("/a"), "/"));
    assert!(!is_text(&net_text(""), "/"));
    assert_eq!(join("VPN: ", "home"), "VPN: home");
    assert_eq!(join("", ""), "");
}

#[test]
fn ascii_bytes_come_out_as_their_text() {
    assert_eq!(text_of(b"CafeWifi"), "CafeWifi");
    assert_eq!(text_of(b""), "");
    assert_eq!(text_of(&[0x00, 0x7f, 0x20]), "\u{0}\u{7f} ");
    let all: Vec<u8> = (0u8..128).collect();
    let text = text_of(&all);
    assert_eq!(text.chars().count(), 128);
    assert!(text.chars().zip(all.iter()).all(|(c, b)| c as u32 == *b as u32));
}

#[test]
fn bytes_that_are_no_utf8_come_out_with_replacement_characters() {
    assert_eq!(text_of("Café".as_bytes()), "Café");
    assert_eq!(text_of(&[0x43, 0xff, 0x61]), "C\u{fffd}a");
    assert_eq!(text_of(&[0xc3]), "\u{fffd}");
    assert_eq!(text_of(&[0x80, 0x80]), "\u{fffd}\u{fffd}");
}
