use networkless::network::enums::{
    ActiveConnectionState, DeviceState, DeviceType, NmConnectivityState, NmState,
};

#[test]
fn nm_state_from_known_codes() {
    assert_eq!(NmState::from(10), NmState::Asleep);
    assert_eq!(NmState::from(20), NmState::Disconnected);
    assert_eq!(NmState::from(30), NmState::Disconnecting);
    assert_eq!(NmState::from(40), NmState::Connecting);
    assert_eq!(NmState::from(50), NmState::ConnectedLocal);
    assert_eq!(NmState::from(60), NmState::ConnectedSite);
    assert_eq!(NmState::from(70), NmState::ConnectedGlobal);
}

#[test]
fn nm_state_from_other_codes_is_unknown() {
    assert_eq!(NmState::from(0), NmState::Unknown);
    assert_eq!(NmState::from(15), NmState::Unknown);
    assert_eq!(NmState::from(u32::MAX), NmState::Unknown);
    assert_eq!(NmState::default(), NmState::Unknown);
}

#[test]
fn connectivity_from_codes() {
    assert_eq!(NmConnectivityState::from(1), NmConnectivityState::NoConnectivity);
    assert_eq!(NmConnectivityState::from(2), NmConnectivityState::Portal);
    assert_eq!(NmConnectivityState::from(3), NmConnectivityState::Loss);
    assert_eq!(NmConnectivityState::from(4), NmConnectivityState::Full);
    assert_eq!(NmConnectivityState::from(0), NmConnectivityState::Unknown);
    assert_eq!(NmConnectivityState::from(5), NmConnectivityState::Unknown);
    assert_eq!(NmConnectivityState::default(), NmConnectivityState::Unknown);
}

#[test]
fn device_type_from_codes() {
    assert_eq!(DeviceType::from(1), DeviceType::Ethernet);
    assert_eq!(DeviceType::from(2), DeviceType::Wifi);
    assert_eq!(DeviceType::from(5), DeviceType::Bluetooth);
    assert_eq!(DeviceType::from(8), DeviceType::Modem);
    assert_eq!(DeviceType::from(14), DeviceType::Generic);
    assert_eq!(DeviceType::from(16), DeviceType::TunTap);
    assert_eq!(DeviceType::from(29), DeviceType::WireGuard);
    assert_eq!(DeviceType::from(3), DeviceType::Other);
    assert_eq!(DeviceType::from(32), DeviceType::Other);
    assert_eq!(DeviceType::from(0), DeviceType::Unknown);
    assert_eq!(DeviceType::from(33), DeviceType::Unknown);
    assert_eq!(DeviceType::default(), DeviceType::Unknown);
}

#[test]
fn device_type_from_names() {
    assert_eq!(DeviceType::from("802-3-ethernet".to_string()), DeviceType::Ethernet);
    assert_eq!(DeviceType::from("802-11-wireless".to_string()), DeviceType::Wifi);
    assert_eq!(DeviceType::from("bluetooth".to_string()), DeviceType::Bluetooth);
    assert_eq!(DeviceType::from("modem".to_string()), DeviceType::Modem);
    assert_eq!(DeviceType::from("generic".to_string()), DeviceType::Generic);
    assert_eq!(DeviceType::from("tun".to_string()), DeviceType::TunTap);
    assert_eq!(DeviceType::from("wireguard".to_string()), DeviceType::WireGuard);
    assert_eq!(DeviceType::from("vlan".to_string()), DeviceType::Unknown);
    assert_eq!(DeviceType::from(String::new()), DeviceType::Unknown);
}

#[test]
fn device_state_from_codes() {
    assert_eq!(DeviceState::from(10), DeviceState::Unmanaged);
    assert_eq!(DeviceState::from(20), DeviceState::Unavailable);
    assert_eq!(DeviceState::from(30), DeviceState::Disconnected);
    assert_eq!(DeviceState::from(40), DeviceState::Prepare);
    assert_eq!(DeviceState::from(50), DeviceState::Config);
    assert_eq!(DeviceState::from(60), DeviceState::NeedAuth);
    assert_eq!(DeviceState::from(70), DeviceState::IpConfig);
    assert_eq!(DeviceState::from(80), DeviceState::IpCheck);
    assert_eq!(DeviceState::from(90), DeviceState::Secondaries);
    assert_eq!(DeviceState::from(100), DeviceState::Activated);
    assert_eq!(DeviceState::from(110), DeviceState::Deactivating);
    assert_eq!(DeviceState::from(120), DeviceState::Failed);
    assert_eq!(DeviceState::from(0), DeviceState::Unknown);
    assert_eq!(DeviceState::default(), DeviceState::Unknown);
}

#[test]
fn active_connection_state_from_codes() {
    assert_eq!(ActiveConnectionState::from(1), ActiveConnectionState::Activating);
    assert_eq!(ActiveConnectionState::from(2), ActiveConnectionState::Activated);
    assert_eq!(ActiveConnectionState::from(3), ActiveConnectionState::Deactivating);
    assert_eq!(ActiveConnectionState::from(4), ActiveConnectionState::Deactivated);
    assert_eq!(ActiveConnectionState::from(0), ActiveConnectionState::Unknown);
    assert_eq!(ActiveConnectionState::from(9), ActiveConnectionState::Unknown);
    assert_eq!(ActiveConnectionState::default(), ActiveConnectionState::Unknown);
}
