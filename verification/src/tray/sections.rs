//! The parts of a network menu that follow one object of the service each.

use crate::event::{Action, ActionView};
use crate::network::access_point::{AccessPoint, AccessPointView};
use crate::network::active_connection::{ActiveConnection, ActiveConnectionView};
use crate::network::device::{Device, DeviceView};
use crate::network::devices::{SpecificDevice, SpecificDeviceView, Wireless, WirelessView};
use crate::network::network_manager::{NetworkManager, NetworkManagerView};
use crate::reconciler::rules::spec_airplane_mode;
use crate::service::spec_resolve;
use crate::status::{WifiConnection, WifiConnectionView};
use crate::tray::menu::{no_entries, push_entry, MenuEntry, MenuEntryView, MenuItem, MenuItemView};
use vstd::prelude::*;

verus! {

/// The wired side of a device, as far as the menu shows it.
#[derive(Debug, Clone, PartialEq, Eq)]
pub struct Wired {
    pub speed: String,
}

/// The switch for airplane mode.
#[derive(Debug, Clone, PartialEq, Eq)]
pub struct AirplaneModeMenu {
    on: bool,
    nm: NetworkManager,
}

impl AirplaneModeMenu {
    pub closed spec fn on(&self) -> bool {
        self.on
    }

    pub closed spec fn service(&self) -> NetworkManagerView {
        self.nm@
    }

    /// A switch that stands at off until it is synced.
    pub fn new(nm: NetworkManager) -> (r: AirplaneModeMenu)
        ensures
            !r.on(),
            r.service() == nm@,
    {
        AirplaneModeMenu { on: false, nm }
    }

    /// Sets the switch to what the service says.
    pub fn sync(&mut self)
        ensures
            final(self).service() == old(self).service(),
            final(self).on() == spec_airplane_mode(
                old(self).service().wireless_enabled,
                old(self).service().bluetooth_enabled,
            ),
    {
        self.on = self.nm.airplane_mode_enabled();
    }

    pub fn menu_item(&self) -> (r: MenuEntry)
        ensures
            r@ == (MenuEntryView::Checkmark {
                label: "On"@,
                checked: self.on(),
                action: ActionView::ToggleAirplaneMode,
            }),
    {
        MenuEntry::Checkmark {
            label: "On".to_owned(),
            checked: self.on,
            action: Action::ToggleAirplaneMode,
        }
    }
}

/// The switch for the wifi radio.
#[derive(Debug, Clone, PartialEq, Eq)]
pub struct WirelessToggle {
    on: bool,
    nm: NetworkManager,
}

impl WirelessToggle {
    pub closed spec fn on(&self) -> bool {
        self.on
    }

    pub closed spec fn service(&self) -> NetworkManagerView {
        self.nm@
    }

    /// A switch that stands at off until it is synced.
    pub fn new(nm: NetworkManager) -> (r: WirelessToggle)
        ensures
            !r.on(),
            r.service() == nm@,
    {
        WirelessToggle { on: false, nm }
    }

    /// Sets the switch to what the service says.
    pub fn sync(&mut self)
        ensures
            final(self).service() == old(self).service(),
            final(self).on() == old(self).service().wireless_enabled,
    {
        self.on = self.nm.wifi_enabled();
    }

    pub fn menu_item(&self) -> (r: MenuEntry)
        ensures
            r@ == (MenuEntryView::Checkmark {
                label: "On"@,
                checked: self.on(),
                action: ActionView::ToggleWifi,
            }),
    {
        MenuEntry::Checkmark { label: "On".to_owned(), checked: self.on, action: Action::ToggleWifi }
    }
}

/// The submenu of the wired device.
#[derive(Debug, Clone, PartialEq, Eq)]
pub struct WiredMenu {
    on: bool,
    wired_device: Wired,
}

impl WiredMenu {
    pub closed spec fn on(&self) -> bool {
        self.on
    }

    pub closed spec fn speed(&self) -> Seq<char> {
        self.wired_device.speed@
    }

    /// A submenu whose switch stands at off.
    pub fn new(wired_device: Wired) -> (r: WiredMenu)
        ensures
            !r.on(),
            r.speed() == wired_device.speed@,
    {
        WiredMenu { on: false, wired_device }
    }

    /// The submenu: the switch, and the speed of the link.
    pub fn menu_item(&self) -> (r: MenuItem)
        ensures
            r@ == (MenuItemView::SubMenu {
                label: Seq::empty(),
                submenu: seq![
                    MenuEntryView::Checkmark {
                        label: "On"@,
                        checked: self.on(),
                        action: ActionView::ToggleWired,
                    },
                    MenuEntryView::Standard { label: self.speed(), enabled: true },
                ],
            }),
    {
        let mut submenu = no_entries();
        push_entry(
            &mut submenu,
            MenuEntry::Checkmark {
                label: "On".to_owned(),
                checked: self.on,
                action: self.toggle_wired(),
            },
        );
        push_entry(
            &mut submenu,
            MenuEntry::Standard { label: self.wired_device.speed.clone(), enabled: true },
        );
        assert(submenu.deep_view() =~= seq![
            MenuEntryView::Checkmark {
                label: "On"@,
                checked: self.on(),
                action: ActionView::ToggleWired,
            },
            MenuEntryView::Standard { label: self.speed(), enabled: true },
        ]);
        MenuItem::SubMenu { label: String::new(), submenu }
    }

    /// What a click on the switch asks for.
    pub fn toggle_wired(&self) -> (r: Action)
        ensures
            r@ == ActionView::ToggleWired,
    {
        Action::ToggleWired
    }
}

/// The submenu of a VPN connection.
#[derive(Debug, Clone, PartialEq, Eq)]
pub struct VpnMenu {
    on: bool,
    connection: ActiveConnection,
}

impl VpnMenu {
    pub closed spec fn on(&self) -> bool {
        self.on
    }

    pub closed spec fn connection(&self) -> ActiveConnectionView {
        self.connection@
    }

    /// A submenu whose switch stands at off.
    pub fn new(connection: ActiveConnection) -> (r: VpnMenu)
        ensures
            !r.on(),
            r.connection() == connection@,
    {
        VpnMenu { on: false, connection }
    }

    /// The submenu: the switch, and the name of the connection.
    pub fn menu_item(&self) -> (r: MenuItem)
        ensures
            r@ == (MenuItemView::SubMenu {
                label: Seq::empty(),
                submenu: seq![
                    MenuEntryView::Checkmark {
                        label: "On"@,
                        checked: self.on(),
                        action: ActionView::ToggleVPN(self.connection().id),
                    },
                    MenuEntryView::Standard { label: self.connection().id, enabled: true },
                ],
            }),
    {
        let mut submenu = no_entries();
        push_entry(
            &mut submenu,
            MenuEntry::Checkmark {
                label: "On".to_owned(),
                checked: self.on,
                action: self.toggle_vpn(),
            },
        );
        push_entry(&mut submenu, MenuEntry::Standard { label: self.connection.id(), enabled: true });
        assert(submenu.deep_view() =~= seq![
            MenuEntryView::Checkmark {
                label: "On"@,
                checked: self.on(),
                action: ActionView::ToggleVPN(self.connection().id),
            },
            MenuEntryView::Standard { label: self.connection().id, enabled: true },
        ]);
        MenuItem::SubMenu { label: String::new(), submenu }
    }

    /// What a click on the switch asks for.
    pub fn toggle_vpn(&self) -> (r: Action)
        ensures
            r@ == ActionView::ToggleVPN(self.connection().id),
    {
        Action::ToggleVPN(self.connection.id())
    }
}

/// The access points among `paths` that the service knows, in the order of
/// `paths`.
pub open spec fn spec_known_access_points(service: NetworkManagerView, paths: Seq<Seq<char>>) -> Seq<
    AccessPointView,
>
    decreases paths.len(),
{
    if paths.len() == 0 {
        Seq::empty()
    } else {
        let before = spec_known_access_points(service, paths.drop_last());
        match crate::network::network_manager::spec_find_access_point(
            service.access_points,
            paths.last(),
        ) {
            Some(access_point) => before.push(access_point),
            None => before,
        }
    }
}

/// The networks of the access points, in order.
pub open spec fn spec_networks_of(access_points: Seq<AccessPointView>) -> Seq<WifiConnectionView> {
    Seq::new(access_points.len(), |i: int| access_points[i].network())
}

fn networks_of(access_points: &Vec<AccessPoint>) -> (r: Vec<WifiConnection>)
    ensures
        r.deep_view() == spec_networks_of(access_points.deep_view()),
{
    let mut networks: Vec<WifiConnection> = Vec::new();
    let mut i: usize = 0;
    while i < access_points.len()
        invariant
            i <= access_points.len(),
            networks.len() == i,
            forall|k: int| 0 <= k < i ==> (#[trigger] networks[k])@ == access_points[k]@.network(),
        decreases access_points.len() - i,
    {
        networks.push(access_points[i].network());
        i += 1;
    }
    assert(networks.deep_view() =~= spec_networks_of(access_points.deep_view()));
    networks
}

/// The part of the wifi submenu that lists the networks in reach.
#[derive(Debug, Clone, PartialEq, Eq)]
pub struct AvailableNetworksSection {
    wireless_device: Wireless,
    aps: Vec<AccessPoint>,
}

impl AvailableNetworksSection {
    pub closed spec fn device(&self) -> WirelessView {
        self.wireless_device@
    }

    pub closed spec fn access_points(&self) -> Seq<AccessPointView> {
        self.aps.deep_view()
    }

    /// A section without networks, for the given device.
    pub fn new(wireless_device: Wireless) -> (r: AvailableNetworksSection)
        ensures
            r.device() == wireless_device@,
            r.access_points() == Seq::<AccessPointView>::empty(),
    {
        let r = AvailableNetworksSection { wireless_device, aps: Vec::new() };
        assert(r.aps.deep_view() =~= Seq::<AccessPointView>::empty());
        r
    }

    /// Fills the section with the access points that the device sees and
    /// the service knows.
    pub fn sync(&mut self, nm: &NetworkManager)
        ensures
            final(self).device() == old(self).device(),
            final(self).access_points() == spec_known_access_points(
                nm@,
                old(self).device().access_points,
            ),
    {
        let paths = self.wireless_device.access_points();
        let mut aps: Vec<AccessPoint> = Vec::new();
        let mut i: usize = 0;
        assert(paths.deep_view().take(0) =~= Seq::<Seq<char>>::empty());
        assert(aps.deep_view() =~= Seq::<AccessPointView>::empty());
        while i < paths.len()
            invariant
                i <= paths.len(),
                aps.deep_view() == spec_known_access_points(nm@, paths.deep_view().take(i as int)),
            decreases paths.len() - i,
        {
            let ghost upto = paths.deep_view().take(i + 1);
            assert(upto.drop_last() =~= paths.deep_view().take(i as int));
            assert(upto.last() == paths[i as int]@);
            match nm.access_point(&paths[i]) {
                Some(access_point) => {
                    let ghost before = aps.deep_view();
                    let copy = access_point.duplicate();
                    aps.push(copy);
                    assert(aps.deep_view() =~= before.push(access_point@));
                },
                None => {},
            }
            i += 1;
        }
        assert(paths.deep_view().take(i as int) =~= paths.deep_view());
        self.aps = aps;
    }

    /// The networks to pick from.
    pub fn menu_item(&self) -> (r: MenuEntry)
        ensures
            r@ == (MenuEntryView::RadioGroup {
                selected: 0,
                options: spec_networks_of(self.access_points()),
            }),
    {
        MenuEntry::RadioGroup { selected: 0, options: networks_of(&self.aps) }
    }
}

/// Why a section could not be filled.
#[derive(Debug, Clone, Copy, PartialEq, Eq, Structural)]
pub enum SyncError {
    /// The device is no wifi device.
    NotWireless,
    /// The device is bound to no access point that the service knows.
    NoActiveAccessPoint,
}

/// The access point that a device is bound to, as the service knows it.
pub open spec fn spec_active_access_point(service: NetworkManagerView, device: DeviceView) -> Result<
    AccessPointView,
    SyncError,
> {
    match device.specific() {
        Some(SpecificDeviceView::Wireless(wireless)) => match spec_resolve(
            wireless.active_access_point,
        ) {
            Some(path) => match crate::network::network_manager::spec_find_access_point(
                service.access_points,
                path,
            ) {
                Some(access_point) => Ok(access_point),
                None => Err(SyncError::NoActiveAccessPoint),
            },
            None => Err(SyncError::NoActiveAccessPoint),
        },
        _ => Err(SyncError::NotWireless),
    }
}

/// The part of the wifi submenu that lists the known networks, with the
/// one in use selected.
#[derive(Debug, Clone, PartialEq, Eq)]
pub struct KnownNetworksSection {
    device: Device,
    selected: Option<AccessPoint>,
    aps: Vec<AccessPoint>,
}

impl KnownNetworksSection {
    pub closed spec fn device(&self) -> DeviceView {
        self.device@
    }

    pub closed spec fn chosen(&self) -> Option<AccessPointView> {
        self.selected.deep_view()
    }

    pub closed spec fn access_points(&self) -> Seq<AccessPointView> {
        self.aps.deep_view()
    }

    /// A section without networks, for the given device.
    pub fn new(device: Device) -> (r: KnownNetworksSection)
        ensures
            r.device() == device@,
            r.chosen() is None,
            r.access_points() == Seq::<AccessPointView>::empty(),
    {
        let r = KnownNetworksSection { device, selected: None, aps: Vec::new() };
        assert(r.aps.deep_view() =~= Seq::<AccessPointView>::empty());
        r
    }

    /// Fills the section with the access point that the device is bound
    /// to, and selects it. Where there is none the section stays as it is.
    pub fn sync(&mut self, nm: &NetworkManager) -> (r: Result<(), SyncError>)
        ensures
            final(self).device() == old(self).device(),
            match spec_active_access_point(nm@, old(self).device()) {
                Ok(access_point) => r is Ok && final(self).chosen() == Some(access_point)
                    && final(self).access_points() == seq![access_point],
                Err(error) => r == Err::<(), SyncError>(error) && final(self).chosen() == old(
                    self,
                ).chosen() && final(self).access_points() == old(self).access_points(),
            },
    {
        let wireless = match self.device.to_specific_device() {
            Some(SpecificDevice::Wireless(wireless)) => wireless,
            _ => {
                return Err(SyncError::NotWireless);
            },
        };
        let path = match wireless.active_access_point() {
            Some(path) => path,
            None => {
                return Err(SyncError::NoActiveAccessPoint);
            },
        };
        match nm.access_point(&path) {
            Some(access_point) => {
                let mut aps: Vec<AccessPoint> = Vec::new();
                aps.push(access_point.duplicate());
                assert(aps.deep_view() =~= seq![access_point@]);
                self.selected = Some(access_point.duplicate());
                self.aps = aps;
                Ok(())
            },
            None => Err(SyncError::NoActiveAccessPoint),
        }
    }

    /// Selects the network at the position, or none where there is no such
    /// position.
    pub fn selected(&mut self, selected: usize)
        ensures
            final(self).device() == old(self).device(),
            final(self).access_points() == old(self).access_points(),
            final(self).chosen() == (if selected < old(self).access_points().len() {
                Some(old(self).access_points()[selected as int])
            } else {
                None
            }),
    {
        if selected < self.aps.len() {
            self.selected = Some(self.aps[selected].duplicate());
        } else {
            self.selected = None;
        }
    }

    /// The networks to pick from.
    pub fn menu_item(&self) -> (r: MenuEntry)
        ensures
            r@ == (MenuEntryView::RadioGroup {
                selected: 0,
                options: spec_networks_of(self.access_points()),
            }),
    {
        MenuEntry::RadioGroup { selected: 0, options: networks_of(&self.aps) }
    }
}

/// The wifi submenu, built from its parts.
#[derive(Debug, Clone, PartialEq, Eq)]
pub struct WirelessNetworkMenu {
    nm: NetworkManager,
    device: Device,
    wireless_device: Option<Wireless>,
}

impl WirelessNetworkMenu {
    pub closed spec fn service(&self) -> NetworkManagerView {
        self.nm@
    }

    pub closed spec fn device(&self) -> DeviceView {
        self.device@
    }

    pub closed spec fn wireless(&self) -> Option<WirelessView> {
        self.wireless_device.deep_view()
    }

    /// A submenu for the device, which is not yet known to be a wifi
    /// device.
    pub fn new(nm: NetworkManager, device: Device) -> (r: WirelessNetworkMenu)
        ensures
            r.service() == nm@,
            r.device() == device@,
            r.wireless() is None,
    {
        WirelessNetworkMenu { nm, device, wireless_device: None }
    }

    /// Takes up the wifi side of the device. Fails for a device of another
    /// kind, and then leaves the submenu as it is.
    pub fn sync(&mut self) -> (r: Result<(), SyncError>)
        ensures
            final(self).service() == old(self).service(),
            final(self).device() == old(self).device(),
            match old(self).device().specific() {
                Some(SpecificDeviceView::Wireless(wireless)) => r is Ok && final(self).wireless()
                    == Some(wireless),
                _ => r == Err::<(), SyncError>(SyncError::NotWireless) && final(self).wireless()
                    == old(self).wireless(),
            },
    {
        match self.device.to_specific_device() {
            Some(SpecificDevice::Wireless(wireless)) => {
                self.wireless_device = Some(wireless);
                Ok(())
            },
            _ => Err(SyncError::NotWireless),
        }
    }

    /// The lines of the submenu: the switch, the known networks, the
    /// heading of the networks in reach and, once the wifi side of the
    /// device is taken up, those networks. The parts are fresh, so the
    /// switch stands at off and the groups are empty.
    pub open spec fn spec_lines(synced: bool) -> Seq<MenuEntryView> {
        let head = Seq::empty().push(
            MenuEntryView::Checkmark {
                label: "On"@,
                checked: false,
                action: ActionView::ToggleWifi,
            },
        ).push(MenuEntryView::Separator).push(
            MenuEntryView::RadioGroup { selected: 0, options: Seq::empty() },
        ).push(MenuEntryView::Separator).push(
            MenuEntryView::Standard { label: "Available Networks"@, enabled: false },
        );
        if synced {
            head.push(MenuEntryView::RadioGroup { selected: 0, options: Seq::empty() })
        } else {
            head
        }
    }

    pub fn menu_item(&self) -> (r: MenuItem)
        ensures
            r@ == (MenuItemView::SubMenu {
                label: Seq::empty(),
                submenu: Self::spec_lines(self.wireless() is Some),
            }),
    {
        let mut submenu = no_entries();
        let toggle = WirelessToggle::new(self.nm.clone());
        push_entry(&mut submenu, toggle.menu_item());
        push_entry(&mut submenu, MenuEntry::Separator);
        let known = KnownNetworksSection::new(self.device.clone());
        let known_item = known.menu_item();
        assert(spec_networks_of(known.access_points()) =~= Seq::empty());
        push_entry(&mut submenu, known_item);
        push_entry(&mut submenu, MenuEntry::Separator);
        push_entry(
            &mut submenu,
            MenuEntry::Standard { label: "Available Networks".to_owned(), enabled: false },
        );
        match &self.wireless_device {
            Some(wireless) => {
                let available = AvailableNetworksSection::new(wireless.clone());
                let available_item = available.menu_item();
                assert(spec_networks_of(available.access_points()) =~= Seq::empty());
                push_entry(&mut submenu, available_item);
            },
            None => {},
        }
        MenuItem::SubMenu { label: String::new(), submenu }
    }
}

} // verus!
