//! The trays: what each holds of the status, and what it shows for it.

use crate::event::{Action, ActionView};
use crate::lists::copy_networks;
use crate::status::{
    signal_level, spec_signal_level, AirplaneModeState, Icon, SignalLevel, VPNConnection,
    VPNConnectionView, VPNState, VPNStateView, WifiConnectionView, WifiState,
    WifiStateView, WiredState,
};
use crate::text::join;
use crate::tray::menu::{
    no_entries, no_items, push_entry, push_item, MenuEntry, MenuEntryView, MenuItem, MenuItemView,
};
use vstd::prelude::*;

verus! {

/// The pictures that the trays show.
#[derive(Debug, Clone, Copy, PartialEq, Eq, Structural)]
pub enum Picture {
    Unknown,
    WifiOff,
    Busy,
    Disconnected,
    Limited,
    Vpn,
    Ethernet,
    Wifi0,
    Wifi25,
    Wifi50,
    Wifi75,
    Wifi100,
    VirtualVpn,
    AirplaneMode,
}

impl Picture {
    /// The name of the file that holds the picture.
    pub open spec fn spec_file_name(self) -> Seq<char> {
        match self {
            Picture::Unknown => "unknown.png"@,
            Picture::WifiOff => "wifi-off.png"@,
            Picture::Busy => "busy.png"@,
            Picture::Disconnected => "disconnected.png"@,
            Picture::Limited => "limited.png"@,
            Picture::Vpn => "vpn.png"@,
            Picture::Ethernet => "ethernet.png"@,
            Picture::Wifi0 => "wifi-0.png"@,
            Picture::Wifi25 => "wifi-25.png"@,
            Picture::Wifi50 => "wifi-50.png"@,
            Picture::Wifi75 => "wifi-75.png"@,
            Picture::Wifi100 => "wifi-100.png"@,
            Picture::VirtualVpn => "virtual-vpn.png"@,
            Picture::AirplaneMode => "airplane_mode.png"@,
        }
    }

    pub fn file_name(self) -> (r: &'static str)
        ensures
            r@ == self.spec_file_name(),
    {
        match self {
            Picture::Unknown => "unknown.png",
            Picture::WifiOff => "wifi-off.png",
            Picture::Busy => "busy.png",
            Picture::Disconnected => "disconnected.png",
            Picture::Limited => "limited.png",
            Picture::Vpn => "vpn.png",
            Picture::Ethernet => "ethernet.png",
            Picture::Wifi0 => "wifi-0.png",
            Picture::Wifi25 => "wifi-25.png",
            Picture::Wifi50 => "wifi-50.png",
            Picture::Wifi75 => "wifi-75.png",
            Picture::Wifi100 => "wifi-100.png",
            Picture::VirtualVpn => "virtual-vpn.png",
            Picture::AirplaneMode => "airplane_mode.png",
        }
    }
}

/// The picture of an icon. A wifi icon has the picture of its signal level.
pub open spec fn spec_picture(icon: Icon) -> Picture {
    match icon {
        Icon::Unknown => Picture::Unknown,
        Icon::Off => Picture::WifiOff,
        Icon::Busy => Picture::Busy,
        Icon::Disconnected => Picture::Disconnected,
        Icon::Limited => Picture::Limited,
        Icon::Tun => Picture::Vpn,
        Icon::Ethernet => Picture::Ethernet,
        Icon::Wifi(strength) => match spec_signal_level(strength) {
            SignalLevel::Level0 => Picture::Wifi0,
            SignalLevel::Level25 => Picture::Wifi25,
            SignalLevel::Level50 => Picture::Wifi50,
            SignalLevel::Level75 => Picture::Wifi75,
            SignalLevel::Level100 => Picture::Wifi100,
        },
    }
}

#[verifier::when_used_as_spec(spec_picture)]
pub fn picture(icon: Icon) -> (r: Picture)
    ensures
        r == spec_picture(icon),
{
    match icon {
        Icon::Unknown => Picture::Unknown,
        Icon::Off => Picture::WifiOff,
        Icon::Busy => Picture::Busy,
        Icon::Disconnected => Picture::Disconnected,
        Icon::Limited => Picture::Limited,
        Icon::Tun => Picture::Vpn,
        Icon::Ethernet => Picture::Ethernet,
        Icon::Wifi(strength) => match signal_level(strength) {
            SignalLevel::Level0 => Picture::Wifi0,
            SignalLevel::Level25 => Picture::Wifi25,
            SignalLevel::Level50 => Picture::Wifi50,
            SignalLevel::Level75 => Picture::Wifi75,
            SignalLevel::Level100 => Picture::Wifi100,
        },
    }
}

/// The title of the network tray for an icon, and for none.
pub open spec fn spec_title(icon: Option<Icon>) -> Seq<char> {
    match icon {
        Some(Icon::Unknown) => "Unknown"@,
        Some(Icon::Off) => "Off"@,
        Some(Icon::Busy) => "Busy"@,
        Some(Icon::Disconnected) => "Disconnected"@,
        Some(Icon::Limited) => "Limited"@,
        Some(Icon::Tun) => "VPN"@,
        Some(Icon::Ethernet) => "Ethernet"@,
        Some(Icon::Wifi(_)) => "Wifi"@,
        None => "Wireless"@,
    }
}

/// The line of a network that is in reach but not known: its name, not to
/// be clicked.
pub open spec fn spec_available_line(network: WifiConnectionView) -> MenuEntryView {
    MenuEntryView::Standard { label: network.ssid, enabled: false }
}

/// The line of a VPN: its name, checked when it is on; a click toggles it.
pub open spec fn spec_vpn_line(connection: VPNConnectionView) -> MenuEntryView {
    MenuEntryView::Checkmark {
        label: connection.name,
        checked: connection.on,
        action: ActionView::ToggleVPN(connection.name),
    }
}

/// The lines of the VPNs, in order.
pub open spec fn spec_vpn_lines(connections: Seq<VPNConnectionView>) -> Seq<MenuEntryView> {
    Seq::new(connections.len(), |i: int| spec_vpn_line(connections[i]))
}

/// The wifi submenu: the switch, the known networks to pick from, and the
/// networks in reach, under a heading that says whether there are any.
pub open spec fn spec_wifi_submenu(state: WifiStateView) -> Seq<MenuEntryView> {
    Seq::empty().push(
        MenuEntryView::Checkmark {
            label: "On"@,
            checked: state.on,
            action: ActionView::ToggleWifi,
        },
    ).push(MenuEntryView::Separator).push(
        MenuEntryView::RadioGroup { selected: 0, options: state.known_connections },
    ).push(MenuEntryView::Separator).push(
        MenuEntryView::Standard {
            label: if state.available_connections.len() == 0 {
                "No Networks Available"@
            } else {
                "Available Networks"@
            },
            enabled: false,
        },
    ) + Seq::new(
        state.available_connections.len(),
        |i: int| spec_available_line(state.available_connections[i]),
    )
}

/// The label of the wifi submenu: it names the first known network, if
/// there is one.
pub open spec fn spec_wifi_label(state: WifiStateView) -> Seq<char> {
    if state.known_connections.len() > 0 {
        "WiFi: "@ + state.known_connections[0].ssid
    } else {
        "WiFi"@
    }
}

/// What the network tray holds of the status.
pub struct NetworkTrayView {
    pub icon: Option<Icon>,
    pub wifi_state: Option<WifiStateView>,
    pub wired_state: Option<WiredState>,
    pub vpn_state: Option<VPNStateView>,
    pub airplane_mode_state: Option<AirplaneModeState>,
}

impl NetworkTrayView {
    /// The menu of the network tray: one item for each panel that is
    /// there, in the order wifi, wired, airplane mode, VPN.
    pub open spec fn menu(self) -> Seq<MenuItemView> {
        let wifi = match self.wifi_state {
            Some(state) => seq![
                MenuItemView::SubMenu {
                    label: spec_wifi_label(state),
                    submenu: spec_wifi_submenu(state),
                },
            ],
            None => Seq::empty(),
        };
        let wired = match self.wired_state {
            Some(state) => seq![
                MenuItemView::Entry(
                    MenuEntryView::Checkmark {
                        label: "Wired"@,
                        checked: state.on,
                        action: ActionView::ToggleWired,
                    },
                ),
            ],
            None => Seq::empty(),
        };
        let airplane = match self.airplane_mode_state {
            Some(state) => seq![
                MenuItemView::Entry(
                    MenuEntryView::Checkmark {
                        label: "Airplane Mode"@,
                        checked: state.on,
                        action: ActionView::ToggleAirplaneMode,
                    },
                ),
            ],
            None => Seq::empty(),
        };
        let vpn = match self.vpn_state {
            Some(state) => seq![
                MenuItemView::SubMenu {
                    label: "VPN"@,
                    submenu: spec_vpn_lines(state.connections),
                },
            ],
            None => Seq::empty(),
        };
        wifi + wired + airplane + vpn
    }
}

/// The network tray.
#[derive(Debug, Clone, PartialEq, Eq)]
pub struct NetworkTray {
    icon: Option<Icon>,
    wifi_state: Option<WifiState>,
    wired_state: Option<WiredState>,
    vpn_state: Option<VPNState>,
    airplane_mode_state: Option<AirplaneModeState>,
}

impl View for NetworkTray {
    type V = NetworkTrayView;

    closed spec fn view(&self) -> NetworkTrayView {
        NetworkTrayView {
            icon: self.icon,
            wifi_state: self.wifi_state.deep_view(),
            wired_state: self.wired_state,
            vpn_state: self.vpn_state.deep_view(),
            airplane_mode_state: self.airplane_mode_state,
        }
    }
}

fn vpn_lines(connections: &Vec<VPNConnection>) -> (r: Vec<MenuEntry>)
    ensures
        r.deep_view() == spec_vpn_lines(connections.deep_view()),
{
    let mut lines: Vec<MenuEntry> = Vec::new();
    let mut i: usize = 0;
    while i < connections.len()
        invariant
            i <= connections.len(),
            lines.len() == i,
            forall|k: int| 0 <= k < i ==> (#[trigger] lines[k])@ == spec_vpn_line(connections[k]@),
        decreases connections.len() - i,
    {
        lines.push(
            MenuEntry::Checkmark {
                label: connections[i].name.clone(),
                checked: connections[i].on,
                action: Action::ToggleVPN(connections[i].name.clone()),
            },
        );
        i += 1;
    }
    assert(lines.deep_view() =~= spec_vpn_lines(connections.deep_view()));
    lines
}

fn wifi_submenu(state: &WifiState) -> (r: Vec<MenuEntry>)
    ensures
        r.deep_view() == spec_wifi_submenu(state@),
{
    let heading = if state.available_connections.len() == 0 {
        "No Networks Available".to_owned()
    } else {
        "Available Networks".to_owned()
    };
    let mut lines = no_entries();
    push_entry(
        &mut lines,
        MenuEntry::Checkmark { label: "On".to_owned(), checked: state.on, action: Action::ToggleWifi },
    );
    push_entry(&mut lines, MenuEntry::Separator);
    push_entry(
        &mut lines,
        MenuEntry::RadioGroup { selected: 0, options: copy_networks(&state.known_connections) },
    );
    push_entry(&mut lines, MenuEntry::Separator);
    push_entry(&mut lines, MenuEntry::Standard { label: heading, enabled: false });
    let ghost head = lines.deep_view();
    let mut i: usize = 0;
    while i < state.available_connections.len()
        invariant
            i <= state.available_connections.len(),
            lines.deep_view().len() == 5 + i,
            lines.deep_view().take(5) == head,
            forall|k: int|
                0 <= k < i ==> (#[trigger] lines.deep_view()[5 + k]) == spec_available_line(
                    state.available_connections[k]@,
                ),
        decreases state.available_connections.len() - i,
    {
        let ghost before = lines.deep_view();
        push_entry(
            &mut lines,
            MenuEntry::Standard {
                label: state.available_connections[i].ssid.clone(),
                enabled: false,
            },
        );
        assert(lines.deep_view().take(5) =~= before.take(5));
        assert forall|k: int| 0 <= k < i + 1 implies (#[trigger] lines.deep_view()[5 + k])
            == spec_available_line(state.available_connections[k]@) by {
            if k < i {
                assert(lines.deep_view()[5 + k] == before[5 + k]);
            }
        }
        i += 1;
    }
    assert(lines.deep_view() =~= spec_wifi_submenu(state@)) by {
        let want = spec_wifi_submenu(state@);
        assert(lines.deep_view().len() == want.len());
        assert forall|k: int| 0 <= k < want.len() implies lines.deep_view()[k] == want[k] by {
            if k < 5 {
                assert(lines.deep_view()[k] == lines.deep_view().take(5)[k]);
            } else {
                assert(lines.deep_view()[5 + (k - 5)] == spec_available_line(
                    state.available_connections[k - 5]@,
                ));
            }
        }
    }
    lines
}

fn wifi_label(state: &WifiState) -> (r: String)
    ensures
        r@ == spec_wifi_label(state@),
{
    if state.known_connections.len() > 0 {
        join("WiFi: ", state.known_connections[0].ssid.as_str())
    } else {
        "WiFi".to_owned()
    }
}

impl NetworkTray {
    /// A tray that shows nothing yet.
    pub fn new() -> (r: NetworkTray)
        ensures
            r@ == (NetworkTrayView {
                icon: None,
                wifi_state: None,
                wired_state: None,
                vpn_state: None,
                airplane_mode_state: None,
            }),
    {
        NetworkTray {
            icon: None,
            wifi_state: None,
            wired_state: None,
            vpn_state: None,
            airplane_mode_state: None,
        }
    }

    pub fn set_icon(&mut self, icon: Icon)
        ensures
            final(self)@ == (NetworkTrayView { icon: Some(icon), ..old(self)@ }),
    {
        self.icon = Some(icon);
    }

    pub fn set_wifi_state(&mut self, wifi_state: Option<WifiState>)
        ensures
            final(self)@ == (NetworkTrayView { wifi_state: wifi_state.deep_view(), ..old(self)@ }),
    {
        self.wifi_state = wifi_state;
    }

    pub fn set_wired_state(&mut self, wired_state: Option<WiredState>)
        ensures
            final(self)@ == (NetworkTrayView { wired_state, ..old(self)@ }),
    {
        self.wired_state = wired_state;
    }

    pub fn set_airplane_mode_state(&mut self, airplane_mode_state: Option<AirplaneModeState>)
        ensures
            final(self)@ == (NetworkTrayView { airplane_mode_state, ..old(self)@ }),
    {
        self.airplane_mode_state = airplane_mode_state;
    }

    pub fn set_vpn_state(&mut self, vpn_state: Option<VPNState>)
        ensures
            final(self)@ == (NetworkTrayView { vpn_state: vpn_state.deep_view(), ..old(self)@ }),
    {
        self.vpn_state = vpn_state;
    }

    /// The icon on show, if there is one.
    pub fn icon(&self) -> (r: Option<Icon>)
        ensures
            r == self@.icon,
    {
        self.icon
    }

    /// The picture of the tray: that of its icon, and none before the first
    /// icon.
    pub fn icon_pixmap(&self) -> (r: Option<Picture>)
        ensures
            r == (match self@.icon {
                Some(icon) => Some(spec_picture(icon)),
                None => None,
            }),
    {
        match self.icon {
            Some(icon) => Some(picture(icon)),
            None => None,
        }
    }

    /// The title of the tray.
    pub fn title(&self) -> (r: String)
        ensures
            r@ == spec_title(self@.icon),
    {
        match self.icon {
            Some(Icon::Unknown) => "Unknown".to_owned(),
            Some(Icon::Off) => "Off".to_owned(),
            Some(Icon::Busy) => "Busy".to_owned(),
            Some(Icon::Disconnected) => "Disconnected".to_owned(),
            Some(Icon::Limited) => "Limited".to_owned(),
            Some(Icon::Tun) => "VPN".to_owned(),
            Some(Icon::Ethernet) => "Ethernet".to_owned(),
            Some(Icon::Wifi(_)) => "Wifi".to_owned(),
            None => "Wireless".to_owned(),
        }
    }

    /// The menu of the tray.
    pub fn menu(&self) -> (r: Vec<MenuItem>)
        ensures
            r.deep_view() == self@.menu(),
    {
        let mut menu = no_items();
        match &self.wifi_state {
            Some(state) => {
                push_item(
                    &mut menu,
                    MenuItem::SubMenu { label: wifi_label(state), submenu: wifi_submenu(state) },
                );
            },
            None => {},
        }
        match &self.wired_state {
            Some(state) => {
                push_item(
                    &mut menu,
                    MenuItem::Entry(
                        MenuEntry::Checkmark {
                            label: "Wired".to_owned(),
                            checked: state.on,
                            action: Action::ToggleWired,
                        },
                    ),
                );
            },
            None => {},
        }
        match &self.airplane_mode_state {
            Some(state) => {
                push_item(
                    &mut menu,
                    MenuItem::Entry(
                        MenuEntry::Checkmark {
                            label: "Airplane Mode".to_owned(),
                            checked: state.on,
                            action: Action::ToggleAirplaneMode,
                        },
                    ),
                );
            },
            None => {},
        }
        match &self.vpn_state {
            Some(state) => {
                push_item(
                    &mut menu,
                    MenuItem::SubMenu {
                        label: "VPN".to_owned(),
                        submenu: vpn_lines(&state.connections),
                    },
                );
            },
            None => {},
        }
        assert(menu.deep_view() =~= self@.menu());
        menu
    }
}

/// The first VPN that is on.
pub open spec fn spec_first_on(connections: Seq<VPNConnectionView>) -> Option<VPNConnectionView>
    decreases connections.len(),
{
    if connections.len() == 0 {
        None
    } else if connections[0].on {
        Some(connections[0])
    } else {
        spec_first_on(connections.drop_first())
    }
}

fn first_on<'a>(connections: &'a Vec<VPNConnection>) -> (r: Option<&'a VPNConnection>)
    ensures
        r.deep_view() == spec_first_on(connections.deep_view()),
{
    let mut i: usize = 0;
    assert(connections.deep_view().skip(0) =~= connections.deep_view());
    while i < connections.len()
        invariant
            i <= connections.len(),
            spec_first_on(connections.deep_view()) == spec_first_on(
                connections.deep_view().skip(i as int),
            ),
        decreases connections.len() - i,
    {
        let ghost here = connections.deep_view().skip(i as int);
        assert(here[0] == connections[i as int]@);
        assert(here.drop_first() =~= connections.deep_view().skip(i + 1));
        if connections[i].on {
            return Some(&connections[i]);
        }
        i += 1;
    }
    assert(connections.deep_view().skip(i as int).len() == 0);
    None
}

/// What the VPN tray shows for a VPN panel.
pub struct VpnTrayView {
    pub state: Option<VPNStateView>,
}

impl VpnTrayView {
    /// The VPN that the tray names: the first that is on.
    pub open spec fn named(self) -> Option<VPNConnectionView> {
        match self.state {
            Some(state) => spec_first_on(state.connections),
            None => None,
        }
    }

    /// The title: `VPN`, with the name of the first VPN that is on.
    pub open spec fn title(self) -> Seq<char> {
        match self.named() {
            Some(connection) => "VPN: "@ + connection.name,
            None => "VPN"@,
        }
    }

    /// The menu: a separator and the lines of the VPNs, or nothing without
    /// a panel.
    pub open spec fn menu(self) -> Seq<MenuEntryView> {
        match self.state {
            Some(state) => seq![MenuEntryView::Separator] + spec_vpn_lines(state.connections),
            None => Seq::empty(),
        }
    }
}

/// The VPN tray, which is there while the VPN panel is.
#[derive(Debug, Clone, PartialEq, Eq)]
pub struct VpnTray {
    state: Option<VPNState>,
}

impl View for VpnTray {
    type V = VpnTrayView;

    closed spec fn view(&self) -> VpnTrayView {
        VpnTrayView { state: self.state.deep_view() }
    }
}

impl VpnTray {
    /// A tray without a panel.
    pub fn new() -> (r: VpnTray)
        ensures
            r@ == (VpnTrayView { state: None }),
    {
        VpnTray { state: None }
    }

    pub fn set_state(&mut self, state: Option<VPNState>)
        ensures
            final(self)@ == (VpnTrayView { state: state.deep_view() }),
    {
        self.state = state;
    }

    /// The title of the tray.
    pub fn title(&self) -> (r: String)
        ensures
            r@ == self@.title(),
    {
        match &self.state {
            Some(state) => match first_on(&state.connections) {
                Some(connection) => join("VPN: ", connection.name.as_str()),
                None => "VPN".to_owned(),
            },
            None => "VPN".to_owned(),
        }
    }

    /// The picture of the tray: it has one while a VPN is on.
    pub fn icon_pixmap(&self) -> (r: Option<Picture>)
        ensures
            r == (if self@.named() is Some {
                Some(Picture::VirtualVpn)
            } else {
                None
            }),
    {
        match &self.state {
            Some(state) => match first_on(&state.connections) {
                Some(_) => Some(Picture::VirtualVpn),
                None => None,
            },
            None => None,
        }
    }

    /// The menu of the tray.
    pub fn menu(&self) -> (r: Vec<MenuEntry>)
        ensures
            r.deep_view() == self@.menu(),
    {
        match &self.state {
            Some(state) => {
                let mut menu = no_entries();
                push_entry(&mut menu, MenuEntry::Separator);
                let mut lines = vpn_lines(&state.connections);
                let ghost first = menu.deep_view();
                let ghost second = lines.deep_view();
                menu.append(&mut lines);
                assert(menu.deep_view() =~= first + second);
                menu
            },
            None => no_entries(),
        }
    }
}

/// The airplane-mode tray, which is there while airplane mode is on.
#[derive(Debug, Clone, Copy, PartialEq, Eq, Structural)]
pub struct AirplaneModeTray {}

impl AirplaneModeTray {
    pub fn new() -> (r: AirplaneModeTray) {
        AirplaneModeTray {  }
    }

    /// The title of the tray.
    pub fn title(&self) -> (r: String)
        ensures
            r@ == "Airplane Mode"@,
    {
        "Airplane Mode".to_owned()
    }

    /// The picture of the tray.
    pub fn icon_pixmap(&self) -> (r: Picture)
        ensures
            r == Picture::AirplaneMode,
    {
        Picture::AirplaneMode
    }

    /// The menu of the tray: the switch, which stands at on; a click turns
    /// airplane mode off.
    pub fn menu(&self) -> (r: Vec<MenuEntry>)
        ensures
            r.deep_view() == seq![
                MenuEntryView::Checkmark {
                    label: "On"@,
                    checked: true,
                    action: ActionView::ToggleAirplaneMode,
                },
            ],
    {
        let mut menu = no_entries();
        push_entry(
            &mut menu,
            MenuEntry::Checkmark {
                label: "On".to_owned(),
                checked: true,
                action: Action::ToggleAirplaneMode,
            },
        );
        menu
    }
}

} // verus!
