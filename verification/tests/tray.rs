use networkless::event::Action;
use networkless::network::access_point::AccessPoint;
use networkless::network::active_connection::ActiveConnection;
use networkless::network::devices::Wireless;
use networkless::network::network_manager::NetworkManager;
use networkless::reconciler::rules::{
    airplane_mode, device_icon, find_by_ssid, known_connections, quiet_icon, wired_panel,
    ACTIVATION_TIMEOUT_SECS, MAX_ACTIVATION_ATTEMPTS, RECHECK_DELAY_SECS,
};
use networkless::network::enums::{DeviceState, DeviceType, NmState};
use networkless::status::{
    signal_level, AirplaneModeState, Icon, SignalLevel, TrayUpdate, VPNConnection, VPNState,
    WifiConnection, WifiState, WiredState,
};
use networkless::tray::manager::{TrayCommand, TrayManager};
use networkless::tray::menu::{pick, MenuEntry, MenuItem};
use networkless::tray::network::{picture, AirplaneModeTray, NetworkTray, Picture, VpnTray};
use networkless::tray::pixmap::{
    get_icon_from_image_bytes, pixmap_from_raster, rgba_to_argb, Pixmap,
};
use networkless::network::device::Device;
use networkless::tray::sections::{
    AirplaneModeMenu, AvailableNetworksSection, KnownNetworksSection, SyncError, VpnMenu, Wired,
    WiredMenu, WirelessNetworkMenu, WirelessToggle,
};

fn tray_text(text: &str) -> String {
    text.to_string()
}

fn tray_network(ssid: &str, hw_address: &str) -> WifiConnection {
    WifiConnection { ssid: ssid.to_string(), hw_address: hw_address.to_string() }
}

#[test]
fn signal_levels_change_at_20_40_50_and_80() {
    let table = [
        (0u8, SignalLevel::Level0),
        (19, SignalLevel::Level0),
        (20, SignalLevel::Level25),
        (39, SignalLevel::Level25),
        (40, SignalLevel::Level50),
        (45, SignalLevel::Level50),
        (49, SignalLevel::Level50),
        (50, SignalLevel::Level75),
        (79, SignalLevel::Level75),
        (80, SignalLevel::Level100),
        (100, SignalLevel::Level100),
        (255, SignalLevel::Level100),
    ];
    for (strength, level) in table {
        assert_eq!(signal_level(strength), level);
    }
}

#[test]
fn pictures_follow_the_icon() {
    assert_eq!(picture(Icon::Unknown), Picture::Unknown);
    assert_eq!(picture(Icon::Off), Picture::WifiOff);
    assert_eq!(picture(Icon::Busy), Picture::Busy);
    assert_eq!(picture(Icon::Disconnected), Picture::Disconnected);
    assert_eq!(picture(Icon::Limited), Picture::Limited);
    assert_eq!(picture(Icon::Tun), Picture::Vpn);
    assert_eq!(picture(Icon::Ethernet), Picture::Ethernet);
    assert_eq!(picture(Icon::Wifi(0)), Picture::Wifi0);
    assert_eq!(picture(Icon::Wifi(19)), Picture::Wifi0);
    assert_eq!(picture(Icon::Wifi(20)), Picture::Wifi25);
    assert_eq!(picture(Icon::Wifi(39)), Picture::Wifi25);
    assert_eq!(picture(Icon::Wifi(40)), Picture::Wifi50);
    assert_eq!(picture(Icon::Wifi(45)), Picture::Wifi50);
    assert_eq!(picture(Icon::Wifi(49)), Picture::Wifi50);
    assert_eq!(picture(Icon::Wifi(50)), Picture::Wifi75);
    assert_eq!(picture(Icon::Wifi(79)), Picture::Wifi75);
    assert_eq!(picture(Icon::Wifi(80)), Picture::Wifi100);
    assert_eq!(picture(Icon::Wifi(100)), Picture::Wifi100);
}

#[test]
fn rules_of_a_pass_on_single_answers() {
    assert_eq!(quiet_icon(NmState::Asleep), Some(Icon::Off));
    assert_eq!(quiet_icon(NmState::Disconnected), Some(Icon::Disconnected));
    assert_eq!(quiet_icon(NmState::Connecting), Some(Icon::Busy));
    assert_eq!(quiet_icon(NmState::Disconnecting), Some(Icon::Busy));
    assert_eq!(quiet_icon(NmState::Unknown), Some(Icon::Unknown));
    assert_eq!(quiet_icon(NmState::ConnectedLocal), None);
    assert_eq!(quiet_icon(NmState::ConnectedSite), None);
    assert_eq!(quiet_icon(NmState::ConnectedGlobal), None);
    assert!(NmState::ConnectedSite.is_connected());
    assert!(!NmState::Connecting.is_connected());
    assert_eq!(device_icon(DeviceType::Ethernet), Icon::Ethernet);
    assert_eq!(device_icon(DeviceType::TunTap), Icon::Tun);
    assert_eq!(device_icon(DeviceType::Bluetooth), Icon::Unknown);
    assert_eq!(device_icon(DeviceType::Modem), Icon::Unknown);
    assert_eq!(device_icon(DeviceType::Wifi), Icon::Unknown);
    assert_eq!(wired_panel(DeviceState::Activated), Some(WiredState { on: true }));
    assert_eq!(wired_panel(DeviceState::Disconnected), Some(WiredState { on: false }));
    assert_eq!(wired_panel(DeviceState::Unavailable), None);
    assert!(airplane_mode(false, false));
    assert!(!airplane_mode(true, false));
    assert_eq!(MAX_ACTIVATION_ATTEMPTS, 20);
    assert_eq!(ACTIVATION_TIMEOUT_SECS, 20);
    assert_eq!(RECHECK_DELAY_SECS, 5);
}

#[test]
fn known_networks_without_hardware_address_are_left_out() {
    let visible = vec![
        tray_network("CafeWifi", "AA:BB:CC:DD:EE:FF"),
        tray_network("Ghost", ""),
        tray_network("CafeWifi", "11:22:33:44:55:66"),
        tray_network("Home", "22:22:22:22:22:22"),
        tray_network("Twice", ""),
        tray_network("Twice", "33:33:33:33:33:33"),
    ];
    let ids = vec![
        tray_text("Home"),
        tray_text("Ghost"),
        tray_text("Nowhere"),
        tray_text("CafeWifi"),
        tray_text("Twice"),
        tray_text("Home"),
    ];
    assert_eq!(
        known_connections(&ids, &visible),
        vec![
            tray_network("Home", "22:22:22:22:22:22"),
            tray_network("CafeWifi", "AA:BB:CC:DD:EE:FF"),
            tray_network("Home", "22:22:22:22:22:22"),
        ]
    );
    assert_eq!(known_connections(&vec![], &visible), vec![]);
    assert_eq!(known_connections(&ids, &vec![]), vec![]);
    assert_eq!(find_by_ssid(&visible, &tray_text("Twice")), Some(&visible[4]));
    assert_eq!(find_by_ssid(&visible, &tray_text("Nowhere")), None);
}

#[test]
fn network_tray_titles() {
    let mut tray = NetworkTray::new();
    assert_eq!(tray.title(), "Wireless");
    assert_eq!(tray.icon_pixmap(), None);
    assert_eq!(tray.icon(), None);
    for (icon, title) in [
        (Icon::Unknown, "Unknown"),
        (Icon::Off, "Off"),
        (Icon::Busy, "Busy"),
        (Icon::Disconnected, "Disconnected"),
        (Icon::Limited, "Limited"),
        (Icon::Tun, "VPN"),
        (Icon::Ethernet, "Ethernet"),
        (Icon::Wifi(45), "Wifi"),
    ] {
        tray.set_icon(icon);
        assert_eq!(tray.title(), title);
        assert_eq!(tray.icon(), Some(icon));
        assert_eq!(tray.icon_pixmap(), Some(picture(icon)));
    }
}

fn tray_toggle(label: &str, checked: bool, action: Action) -> MenuEntry {
    MenuEntry::Checkmark { label: label.to_string(), checked, action }
}

#[test]
fn network_tray_menu_has_an_item_for_each_panel() {
    let mut tray = NetworkTray::new();
    assert_eq!(tray.menu(), vec![]);
    tray.set_wifi_state(Some(WifiState {
        on: true,
        known_connections: vec![tray_network("CafeWifi", "AA:BB:CC:DD:EE:FF")],
        available_connections: vec![
            tray_network("CafeWifi", "AA:BB:CC:DD:EE:FF"),
            tray_network("Other", "11:22:33:44:55:66"),
        ],
    }));
    tray.set_wired_state(Some(WiredState { on: false }));
    tray.set_airplane_mode_state(Some(AirplaneModeState { on: false }));
    tray.set_vpn_state(Some(VPNState {
        connections: vec![
            VPNConnection { name: tray_text("home-vpn"), on: true },
            VPNConnection { name: tray_text("work-vpn"), on: false },
        ],
    }));
    assert_eq!(
        tray.menu(),
        vec![
            MenuItem::SubMenu {
                label: tray_text("WiFi: CafeWifi"),
                submenu: vec![
                    tray_toggle("On", true, Action::ToggleWifi),
                    MenuEntry::Separator,
                    MenuEntry::RadioGroup {
                        selected: 0,
                        options: vec![tray_network("CafeWifi", "AA:BB:CC:DD:EE:FF")],
                    },
                    MenuEntry::Separator,
                    MenuEntry::Standard { label: tray_text("Available Networks"), enabled: false },
                    MenuEntry::Standard { label: tray_text("CafeWifi"), enabled: false },
                    MenuEntry::Standard { label: tray_text("Other"), enabled: false },
                ],
            },
            MenuItem::Entry(tray_toggle("Wired", false, Action::ToggleWired)),
            MenuItem::Entry(tray_toggle("Airplane Mode", false, Action::ToggleAirplaneMode)),
            MenuItem::SubMenu {
                label: tray_text("VPN"),
                submenu: vec![
                    tray_toggle("home-vpn", true, Action::ToggleVPN(tray_text("home-vpn"))),
                    tray_toggle("work-vpn", false, Action::ToggleVPN(tray_text("work-vpn"))),
                ],
            },
        ]
    );
}

#[test]
fn wifi_submenu_without_networks_says_so() {
    let mut tray = NetworkTray::new();
    tray.set_wifi_state(Some(WifiState {
        on: false,
        known_connections: vec![],
        available_connections: vec![],
    }));
    assert_eq!(
        tray.menu(),
        vec![MenuItem::SubMenu {
            label: tray_text("WiFi"),
            submenu: vec![
                tray_toggle("On", false, Action::ToggleWifi),
                MenuEntry::Separator,
                MenuEntry::RadioGroup { selected: 0, options: vec![] },
                MenuEntry::Separator,
                MenuEntry::Standard { label: tray_text("No Networks Available"), enabled: false },
            ],
        }]
    );
    tray.set_wifi_state(None);
    assert_eq!(tray.menu(), vec![]);
}

#[test]
fn picking_a_network_asks_for_a_change_to_it() {
    let options = vec![tray_network("a", "1"), tray_network("b", "2")];
    assert_eq!(pick(&options, 0), Some(Action::ChangeAccessPoint(tray_network("a", "1"))));
    assert_eq!(pick(&options, 1), Some(Action::ChangeAccessPoint(tray_network("b", "2"))));
    assert_eq!(pick(&options, 2), None);
    assert_eq!(pick(&vec![], 0), None);
}

#[test]
fn vpn_tray_names_the_first_vpn_that_is_on() {
    let mut tray = VpnTray::new();
    assert_eq!(tray.title(), "VPN");
    assert_eq!(tray.icon_pixmap(), None);
    assert_eq!(tray.menu(), vec![]);
    tray.set_state(Some(VPNState {
        connections: vec![
            VPNConnection { name: tray_text("work-vpn"), on: false },
            VPNConnection { name: tray_text("home-vpn"), on: true },
            VPNConnection { name: tray_text("late-vpn"), on: true },
        ],
    }));
    assert_eq!(tray.title(), "VPN: home-vpn");
    assert_eq!(tray.icon_pixmap(), Some(Picture::VirtualVpn));
    assert_eq!(
        tray.menu(),
        vec![
            MenuEntry::Separator,
            tray_toggle("work-vpn", false, Action::ToggleVPN(tray_text("work-vpn"))),
            tray_toggle("home-vpn", true, Action::ToggleVPN(tray_text("home-vpn"))),
            tray_toggle("late-vpn", true, Action::ToggleVPN(tray_text("late-vpn"))),
        ]
    );
    tray.set_state(Some(VPNState {
        connections: vec![VPNConnection { name: tray_text("work-vpn"), on: false }],
    }));
    assert_eq!(tray.title(), "VPN");
    assert_eq!(tray.icon_pixmap(), None);
    tray.set_state(Some(VPNState { connections: vec![] }));
    assert_eq!(tray.menu(), vec![MenuEntry::Separator]);
}

#[test]
fn airplane_mode_tray_shows_its_switch() {
    let tray = AirplaneModeTray::new();
    assert_eq!(tray.title(), "Airplane Mode");
    assert_eq!(tray.icon_pixmap(), Picture::AirplaneMode);
    assert_eq!(tray.menu(), vec![tray_toggle("On", true, Action::ToggleAirplaneMode)]);
}

#[test]
fn first_update_creates_the_network_tray() {
    let mut trays = TrayManager::new();
    assert_eq!(trays.network_tray(), None);
    assert_eq!(
        trays.update(TrayUpdate::Wireless(None)),
        vec![TrayCommand::CreateNetworkTray, TrayCommand::RefreshNetworkTray]
    );
    assert_eq!(trays.update(TrayUpdate::Icon(Icon::Busy)), vec![TrayCommand::RefreshNetworkTray]);
    assert_eq!(trays.network_tray().map(|t| t.title()), Some(tray_text("Busy")));
    assert_eq!(
        trays.update(TrayUpdate::Wired(Some(WiredState { on: true }))),
        vec![TrayCommand::RefreshNetworkTray]
    );
    let mut expected = NetworkTray::new();
    expected.set_icon(Icon::Busy);
    expected.set_wired_state(Some(WiredState { on: true }));
    assert_eq!(trays.network_tray(), Some(&expected));
}

#[test]
fn vpn_tray_lives_while_there_is_a_vpn_panel() {
    let mut trays = TrayManager::new();
    assert_eq!(
        trays.update(TrayUpdate::Vpn(None)),
        vec![TrayCommand::CreateNetworkTray, TrayCommand::RefreshNetworkTray]
    );
    assert_eq!(trays.vpn_tray(), None);
    let panel = VPNState { connections: vec![VPNConnection { name: tray_text("home-vpn"), on: true }] };
    assert_eq!(
        trays.update(TrayUpdate::Vpn(Some(panel.clone()))),
        vec![
            TrayCommand::RefreshNetworkTray,
            TrayCommand::CreateVpnTray,
            TrayCommand::RefreshVpnTray,
        ]
    );
    assert_eq!(trays.vpn_tray().map(|t| t.title()), Some(tray_text("VPN: home-vpn")));
    assert_eq!(
        trays.update(TrayUpdate::Vpn(Some(panel.clone()))),
        vec![TrayCommand::RefreshNetworkTray, TrayCommand::RefreshVpnTray]
    );
    let mut expected = NetworkTray::new();
    expected.set_vpn_state(Some(panel));
    assert_eq!(trays.network_tray(), Some(&expected));
    assert_eq!(
        trays.update(TrayUpdate::Vpn(None)),
        vec![TrayCommand::RefreshNetworkTray, TrayCommand::ShutdownVpnTray]
    );
    assert_eq!(trays.vpn_tray(), None);
    assert_eq!(trays.update(TrayUpdate::Vpn(None)), vec![TrayCommand::RefreshNetworkTray]);
}

#[test]
fn airplane_mode_tray_lives_while_airplane_mode_is_on() {
    let mut trays = TrayManager::new();
    trays.update(TrayUpdate::AirplaneMode(None));
    assert_eq!(trays.airplane_mode_tray(), None);
    assert_eq!(
        trays.update(TrayUpdate::AirplaneMode(Some(AirplaneModeState { on: true }))),
        vec![TrayCommand::RefreshNetworkTray, TrayCommand::CreateAirplaneModeTray]
    );
    assert_eq!(trays.airplane_mode_tray(), Some(AirplaneModeTray::new()));
    assert_eq!(
        trays.update(TrayUpdate::AirplaneMode(Some(AirplaneModeState { on: true }))),
        vec![TrayCommand::RefreshNetworkTray]
    );
    assert_eq!(
        trays.update(TrayUpdate::AirplaneMode(Some(AirplaneModeState { on: false }))),
        vec![TrayCommand::RefreshNetworkTray, TrayCommand::ShutdownAirplaneModeTray]
    );
    assert_eq!(trays.airplane_mode_tray(), None);
    trays.update(TrayUpdate::AirplaneMode(Some(AirplaneModeState { on: true })));
    assert_eq!(
        trays.update(TrayUpdate::AirplaneMode(None)),
        vec![TrayCommand::RefreshNetworkTray, TrayCommand::ShutdownAirplaneModeTray]
    );
}

#[test]
fn alpha_moves_to_the_front_of_each_pixel() {
    assert_eq!(rgba_to_argb(vec![1, 2, 3, 4, 5, 6, 7, 8]), Some(vec![4, 1, 2, 3, 8, 5, 6, 7]));
    assert_eq!(rgba_to_argb(vec![]), Some(vec![]));
    assert_eq!(rgba_to_argb(vec![1, 2, 3]), None);
    assert_eq!(rgba_to_argb(vec![1, 2, 3, 4, 5]), None);
}

#[test]
fn raster_becomes_a_pixmap_where_it_fits() {
    assert_eq!(
        pixmap_from_raster(1, 2, vec![10, 20, 30, 40, 50, 60, 70, 80]),
        Some(Pixmap { width: 1, height: 2, data: vec![40, 10, 20, 30, 80, 50, 60, 70] })
    );
    assert_eq!(pixmap_from_raster(0x8000_0000, 1, vec![]), None);
    assert_eq!(pixmap_from_raster(1, 0x8000_0000, vec![]), None);
    assert_eq!(pixmap_from_raster(1, 1, vec![1, 2, 3]), None);
    assert_eq!(
        pixmap_from_raster(0x7fff_ffff, 0, vec![]),
        Some(Pixmap { width: i32::MAX, height: 0, data: vec![] })
    );
}

#[test]
fn png_file_becomes_a_pixmap() {
    let pixels: Vec<u8> = vec![255, 0, 0, 128, 0, 255, 0, 64];
    let picture = image::RgbaImage::from_raw(2, 1, pixels).unwrap();
    let mut file = std::io::Cursor::new(Vec::new());
    picture.write_to(&mut file, image::ImageFormat::Png).unwrap();
    let bytes = file.into_inner();
    assert_eq!(
        get_icon_from_image_bytes(&bytes),
        Some(Pixmap { width: 2, height: 1, data: vec![128, 255, 0, 0, 64, 0, 255, 0] })
    );
}

#[test]
fn bytes_that_are_no_png_file_give_no_pixmap() {
    assert_eq!(get_icon_from_image_bytes(b""), None);
    assert_eq!(get_icon_from_image_bytes(b"not a picture"), None);
    assert_eq!(get_icon_from_image_bytes(&[0x89, b'P', b'N', b'G', 0x0d, 0x0a, 0x1a, 0x0a]), None);
}

fn tray_service(wifi: bool, bluetooth: bool) -> NetworkManager {
    let mut service = NetworkManager::new(70, 4, wifi, bluetooth, tray_text("/"));
    service.add_access_point(AccessPoint::new(
        tray_text("/ap/1"),
        b"CafeWifi".to_vec(),
        tray_text("AA:BB:CC:DD:EE:FF"),
        45,
        0,
        0,
        0,
    ));
    service.add_access_point(AccessPoint::new(
        tray_text("/ap/2"),
        b"Other".to_vec(),
        tray_text("11:22:33:44:55:66"),
        80,
        0,
        0,
        0,
    ));
    service
}

#[test]
fn switches_stand_at_off_until_synced() {
    let mut airplane = AirplaneModeMenu::new(tray_service(false, false));
    assert_eq!(airplane.menu_item(), tray_toggle("On", false, Action::ToggleAirplaneMode));
    airplane.sync();
    assert_eq!(airplane.menu_item(), tray_toggle("On", true, Action::ToggleAirplaneMode));
    let mut wifi = WirelessToggle::new(tray_service(true, false));
    assert_eq!(wifi.menu_item(), tray_toggle("On", false, Action::ToggleWifi));
    wifi.sync();
    assert_eq!(wifi.menu_item(), tray_toggle("On", true, Action::ToggleWifi));
    let mut grounded = AirplaneModeMenu::new(tray_service(true, false));
    grounded.sync();
    assert_eq!(grounded.menu_item(), tray_toggle("On", false, Action::ToggleAirplaneMode));
}

#[test]
fn wired_menu_shows_switch_and_speed() {
    let menu = WiredMenu::new(Wired { speed: tray_text("1000 Mb/s") });
    assert_eq!(menu.toggle_wired(), Action::ToggleWired);
    assert_eq!(
        menu.menu_item(),
        MenuItem::SubMenu {
            label: tray_text(""),
            submenu: vec![
                tray_toggle("On", false, Action::ToggleWired),
                MenuEntry::Standard { label: tray_text("1000 Mb/s"), enabled: true },
            ],
        }
    );
}

#[test]
fn vpn_menu_shows_switch_and_name() {
    let menu = VpnMenu::new(ActiveConnection::new(
        tray_text("/ac/7"),
        tray_text("home-vpn"),
        2,
        tray_text("wireguard"),
        tray_text("/set/9"),
        tray_text("/"),
        vec![],
    ));
    assert_eq!(menu.toggle_vpn(), Action::ToggleVPN(tray_text("home-vpn")));
    assert_eq!(
        menu.menu_item(),
        MenuItem::SubMenu {
            label: tray_text(""),
            submenu: vec![
                tray_toggle("On", false, Action::ToggleVPN(tray_text("home-vpn"))),
                MenuEntry::Standard { label: tray_text("home-vpn"), enabled: true },
            ],
        }
    );
}

#[test]
fn available_networks_follow_the_access_points_of_the_device() {
    let device = Wireless::new(
        vec![tray_text("/ap/2"), tray_text("/ap/404"), tray_text("/ap/1")],
        tray_text("/ap/1"),
    );
    let mut section = AvailableNetworksSection::new(device);
    assert_eq!(section.menu_item(), MenuEntry::RadioGroup { selected: 0, options: vec![] });
    section.sync(&tray_service(true, true));
    assert_eq!(
        section.menu_item(),
        MenuEntry::RadioGroup {
            selected: 0,
            options: vec![
                tray_network("Other", "11:22:33:44:55:66"),
                tray_network("CafeWifi", "AA:BB:CC:DD:EE:FF"),
            ],
        }
    );
}

fn tray_device(kind: u32, active_access_point: &str) -> Device {
    Device::new(
        tray_text("/dev/0"),
        kind,
        100,
        tray_text("/"),
        vec![],
        vec![tray_text("/ap/1"), tray_text("/ap/2")],
        tray_text(active_access_point),
    )
}

#[test]
fn known_networks_section_selects_the_network_in_use() {
    let service = tray_service(true, true);
    let mut section = KnownNetworksSection::new(tray_device(2, "/ap/2"));
    assert_eq!(section.menu_item(), MenuEntry::RadioGroup { selected: 0, options: vec![] });
    assert_eq!(section.sync(&service), Ok(()));
    assert_eq!(
        section.menu_item(),
        MenuEntry::RadioGroup {
            selected: 0,
            options: vec![tray_network("Other", "11:22:33:44:55:66")],
        }
    );
    let synced = section.clone();
    section.selected(0);
    assert_eq!(section, synced);
    section.selected(1);
    assert_ne!(section, synced);
    section.selected(0);
    assert_eq!(section, synced);
}

#[test]
fn known_networks_section_needs_a_bound_wifi_device() {
    let service = tray_service(true, true);
    for (kind, access_point, error) in [
        (1, "/ap/1", SyncError::NotWireless),
        (29, "/ap/1", SyncError::NotWireless),
        (2, "/", SyncError::NoActiveAccessPoint),
        (2, "/ap/404", SyncError::NoActiveAccessPoint),
    ] {
        let mut section = KnownNetworksSection::new(tray_device(kind, access_point));
        let before = section.clone();
        assert_eq!(section.sync(&service), Err(error));
        assert_eq!(section, before);
    }
}

#[test]
fn wireless_menu_grows_by_the_networks_in_reach_once_synced() {
    let head = vec![
        tray_toggle("On", false, Action::ToggleWifi),
        MenuEntry::Separator,
        MenuEntry::RadioGroup { selected: 0, options: vec![] },
        MenuEntry::Separator,
        MenuEntry::Standard { label: tray_text("Available Networks"), enabled: false },
    ];
    let mut menu = WirelessNetworkMenu::new(tray_service(true, true), tray_device(2, "/ap/1"));
    assert_eq!(
        menu.menu_item(),
        MenuItem::SubMenu { label: tray_text(""), submenu: head.clone() }
    );
    assert_eq!(menu.sync(), Ok(()));
    let mut synced = head.clone();
    synced.push(MenuEntry::RadioGroup { selected: 0, options: vec![] });
    assert_eq!(menu.menu_item(), MenuItem::SubMenu { label: tray_text(""), submenu: synced });
    let mut wired = WirelessNetworkMenu::new(tray_service(true, true), tray_device(1, "/"));
    assert_eq!(wired.sync(), Err(SyncError::NotWireless));
    assert_eq!(wired.menu_item(), MenuItem::SubMenu { label: tray_text(""), submenu: head });
}

#[test]
fn opening_updates_of_a_pass_take_every_panel_away() {
    let mut trays = TrayManager::new();
    trays.update(TrayUpdate::Icon(Icon::Wifi(45)));
    trays.update(TrayUpdate::Wireless(Some(WifiState {
        on: true,
        known_connections: vec![],
        available_connections: vec![tray_network("CafeWifi", "AA:BB:CC:DD:EE:FF")],
    })));
    trays.update(TrayUpdate::Wired(Some(WiredState { on: true })));
    trays.update(TrayUpdate::Vpn(Some(VPNState {
        connections: vec![VPNConnection { name: tray_text("home-vpn"), on: true }],
    })));
    trays.update(TrayUpdate::AirplaneMode(Some(AirplaneModeState { on: true })));
    let mut commands = Vec::new();
    commands.extend(trays.update(TrayUpdate::Wireless(None)));
    commands.extend(trays.update(TrayUpdate::Wired(None)));
    commands.extend(trays.update(TrayUpdate::Vpn(None)));
    commands.extend(trays.update(TrayUpdate::AirplaneMode(None)));
    assert_eq!(
        commands,
        vec![
            TrayCommand::RefreshNetworkTray,
            TrayCommand::RefreshNetworkTray,
            TrayCommand::RefreshNetworkTray,
            TrayCommand::ShutdownVpnTray,
            TrayCommand::RefreshNetworkTray,
            TrayCommand::ShutdownAirplaneModeTray,
        ]
    );
    let mut bare = NetworkTray::new();
    bare.set_icon(Icon::Wifi(45));
    assert_eq!(trays.network_tray(), Some(&bare));
    assert_eq!(trays.vpn_tray(), None);
    assert_eq!(trays.airplane_mode_tray(), None);
}

#[test]
fn pictures_have_their_files() {
    assert_eq!(Picture::Unknown.file_name(), "unknown.png");
    assert_eq!(Picture::WifiOff.file_name(), "wifi-off.png");
    assert_eq!(Picture::Busy.file_name(), "busy.png");
    assert_eq!(Picture::Disconnected.file_name(), "disconnected.png");
    assert_eq!(Picture::Limited.file_name(), "limited.png");
    assert_eq!(Picture::Vpn.file_name(), "vpn.png");
    assert_eq!(Picture::Ethernet.file_name(), "ethernet.png");
    assert_eq!(Picture::Wifi0.file_name(), "wifi-0.png");
    assert_eq!(Picture::Wifi25.file_name(), "wifi-25.png");
    assert_eq!(Picture::Wifi50.file_name(), "wifi-50.png");
    assert_eq!(Picture::Wifi75.file_name(), "wifi-75.png");
    assert_eq!(Picture::Wifi100.file_name(), "wifi-100.png");
    assert_eq!(Picture::VirtualVpn.file_name(), "virtual-vpn.png");
    assert_eq!(Picture::AirplaneMode.file_name(), "airplane_mode.png");
}
