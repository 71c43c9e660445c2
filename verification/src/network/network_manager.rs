//! The network-management service at one moment: everything a status pass
//! or an action may ask for, held in memory.
//!
//! A `NetworkManager` answers the requests of the state machines as the
//! service would at that moment. It stands in for the service where there is
//! none: in tests, and wherever a reading of the service is to be replayed.

use crate::network::access_point::{AccessPoint, AccessPointView};
use crate::network::active_connection::{ActiveConnection, ActiveConnectionView};
use crate::network::device::{Device, DeviceView};
use crate::network::enums::{NmConnectivityState, NmState};
use crate::network::settings::{ConnectionSetting, ConnectionSettingView};
use crate::reconciler::rules::{airplane_mode, spec_airplane_mode};
use crate::service::{
    resolve, spec_resolve, ManagerProperty, Request, RequestView, Response, ResponseView,
};
use crate::text::{contains_bytes, spec_contains_bytes};
use vstd::prelude::*;
use vstd::string::StringSliceAdditionalSpecFns;

verus! {

/// Whether the listing that `rfkill list bluetooth` prints shows a
/// bluetooth radio that is not soft-blocked: the listing holds the phrase
/// `Soft blocked: no`.
pub open spec fn spec_bluetooth_unblocked(listing: &str) -> bool {
    spec_contains_bytes(listing.spec_bytes(), "Soft blocked: no".spec_bytes())
}

/// Reads the state of the bluetooth radio off the listing of
/// `rfkill list bluetooth`.
pub fn bluetooth_unblocked(listing: &str) -> (r: bool)
    ensures
        r == spec_bluetooth_unblocked(listing),
{
    contains_bytes(listing.as_bytes(), "Soft blocked: no".as_bytes())
}

/// The service at one moment.
#[derive(Debug, Clone, PartialEq, Eq)]
pub struct NetworkManager {
    state: u32,
    connectivity: u32,
    wireless_enabled: bool,
    bluetooth_enabled: bool,
    primary_connection: String,
    devices: Vec<Device>,
    active_connections: Vec<ActiveConnection>,
    access_points: Vec<AccessPoint>,
    settings: Vec<ConnectionSetting>,
}

pub struct NetworkManagerView {
    pub state: u32,
    pub connectivity: u32,
    pub wireless_enabled: bool,
    pub bluetooth_enabled: bool,
    pub primary_connection: Seq<char>,
    pub devices: Seq<DeviceView>,
    pub active_connections: Seq<ActiveConnectionView>,
    pub access_points: Seq<AccessPointView>,
    pub settings: Seq<ConnectionSettingView>,
}

/// The first device that lives at the path.
pub open spec fn spec_find_device(devices: Seq<DeviceView>, path: Seq<char>) -> Option<DeviceView>
    decreases devices.len(),
{
    if devices.len() == 0 {
        None
    } else if devices[0].path == path {
        Some(devices[0])
    } else {
        spec_find_device(devices.drop_first(), path)
    }
}

/// The first active connection that lives at the path.
pub open spec fn spec_find_connection(
    connections: Seq<ActiveConnectionView>,
    path: Seq<char>,
) -> Option<ActiveConnectionView>
    decreases connections.len(),
{
    if connections.len() == 0 {
        None
    } else if connections[0].path == path {
        Some(connections[0])
    } else {
        spec_find_connection(connections.drop_first(), path)
    }
}

/// The first access point that lives at the path.
pub open spec fn spec_find_access_point(
    access_points: Seq<AccessPointView>,
    path: Seq<char>,
) -> Option<AccessPointView>
    decreases access_points.len(),
{
    if access_points.len() == 0 {
        None
    } else if access_points[0].path == path {
        Some(access_points[0])
    } else {
        spec_find_access_point(access_points.drop_first(), path)
    }
}

/// The first configured connection that lives at the path.
pub open spec fn spec_find_setting(
    settings: Seq<ConnectionSettingView>,
    path: Seq<char>,
) -> Option<ConnectionSettingView>
    decreases settings.len(),
{
    if settings.len() == 0 {
        None
    } else if settings[0].path == path {
        Some(settings[0])
    } else {
        spec_find_setting(settings.drop_first(), path)
    }
}

impl NetworkManagerView {
    /// The paths of all devices, in order.
    pub open spec fn device_paths(self) -> Seq<Seq<char>> {
        Seq::new(self.devices.len(), |i: int| self.devices[i].path)
    }

    /// The paths of all active connections, in order.
    pub open spec fn connection_paths(self) -> Seq<Seq<char>> {
        Seq::new(self.active_connections.len(), |i: int| self.active_connections[i].path)
    }

    /// The primary connection, if there is one and the service knows it.
    pub open spec fn primary(self) -> Option<ActiveConnectionView> {
        match spec_resolve(self.primary_connection) {
            Some(path) => spec_find_connection(self.active_connections, path),
            None => None,
        }
    }

    /// What the service answers at this moment. A question about an object
    /// that is not there fails. A change is accepted where its object is
    /// there, and no state change ever comes, since the moment stands
    /// still.
    pub open spec fn answer(self, request: RequestView) -> ResponseView {
        match request {
            RequestView::Manager(property) => match property {
                ManagerProperty::WirelessEnabled => ResponseView::Flag(self.wireless_enabled),
                ManagerProperty::BluetoothEnabled => ResponseView::Flag(self.bluetooth_enabled),
                ManagerProperty::State => ResponseView::Code(self.state),
                ManagerProperty::Connectivity => ResponseView::Code(self.connectivity),
                ManagerProperty::PrimaryConnection => ResponseView::Path(self.primary_connection),
                ManagerProperty::Devices => ResponseView::Paths(self.device_paths()),
                ManagerProperty::ActiveConnections => ResponseView::Paths(self.connection_paths()),
            },
            RequestView::Device(path, property) => match spec_find_device(self.devices, path) {
                Some(device) => device.answer(property),
                None => ResponseView::Failed,
            },
            RequestView::AccessPoint(path, property) => match spec_find_access_point(
                self.access_points,
                path,
            ) {
                Some(access_point) => access_point.answer(property),
                None => ResponseView::Failed,
            },
            RequestView::Connection(path, property) => match spec_find_connection(
                self.active_connections,
                path,
            ) {
                Some(connection) => connection.answer(property),
                None => ResponseView::Failed,
            },
            RequestView::ProfileId(path) => match spec_find_setting(self.settings, path) {
                Some(setting) => match setting.id() {
                    Some(id) => ResponseView::Text(id),
                    None => ResponseView::Failed,
                },
                None => ResponseView::Failed,
            },
            RequestView::WatchDeviceState(path) => match spec_find_device(self.devices, path) {
                Some(_) => ResponseView::Done,
                None => ResponseView::Failed,
            },
            RequestView::NextDeviceState { .. } => ResponseView::TimedOut,
            RequestView::SetWirelessEnabled(_) => ResponseView::Done,
            RequestView::Activate { .. } => ResponseView::Done,
            RequestView::Deactivate(path) => match spec_find_connection(
                self.active_connections,
                path,
            ) {
                Some(_) => ResponseView::Done,
                None => ResponseView::Failed,
            },
        }
    }
}

impl NetworkManagerView {
    /// The service after a request: a write to the wifi radio sets the
    /// radio, and nothing else changes anything.
    pub open spec fn after(self, request: RequestView) -> NetworkManagerView {
        match request {
            RequestView::SetWirelessEnabled(on) => NetworkManagerView {
                wireless_enabled: on,
                ..self
            },
            _ => self,
        }
    }
}

impl View for NetworkManager {
    type V = NetworkManagerView;

    closed spec fn view(&self) -> NetworkManagerView {
        NetworkManagerView {
            state: self.state,
            connectivity: self.connectivity,
            wireless_enabled: self.wireless_enabled,
            bluetooth_enabled: self.bluetooth_enabled,
            primary_connection: self.primary_connection@,
            devices: self.devices.deep_view(),
            active_connections: self.active_connections.deep_view(),
            access_points: self.access_points.deep_view(),
            settings: self.settings.deep_view(),
        }
    }
}

fn find_device<'a>(devices: &'a Vec<Device>, path: &String) -> (r: Option<&'a Device>)
    ensures
        r.deep_view() == spec_find_device(devices.deep_view(), path@),
{
    let mut i: usize = 0;
    assert(devices.deep_view().skip(0) =~= devices.deep_view());
    while i < devices.len()
        invariant
            i <= devices.len(),
            spec_find_device(devices.deep_view(), path@) == spec_find_device(
                devices.deep_view().skip(i as int),
                path@,
            ),
        decreases devices.len() - i,
    {
        let ghost here = devices.deep_view().skip(i as int);
        assert(here[0] == devices[i as int]@);
        assert(here.drop_first() =~= devices.deep_view().skip(i + 1));
        if devices[i].path() == *path {
            return Some(&devices[i]);
        }
        i += 1;
    }
    assert(devices.deep_view().skip(i as int).len() == 0);
    None
}

fn find_connection<'a>(connections: &'a Vec<ActiveConnection>, path: &String) -> (r: Option<
    &'a ActiveConnection,
>)
    ensures
        r.deep_view() == spec_find_connection(connections.deep_view(), path@),
{
    let mut i: usize = 0;
    assert(connections.deep_view().skip(0) =~= connections.deep_view());
    while i < connections.len()
        invariant
            i <= connections.len(),
            spec_find_connection(connections.deep_view(), path@) == spec_find_connection(
                connections.deep_view().skip(i as int),
                path@,
            ),
        decreases connections.len() - i,
    {
        let ghost here = connections.deep_view().skip(i as int);
        assert(here[0] == connections[i as int]@);
        assert(here.drop_first() =~= connections.deep_view().skip(i + 1));
        if connections[i].path() == *path {
            return Some(&connections[i]);
        }
        i += 1;
    }
    assert(connections.deep_view().skip(i as int).len() == 0);
    None
}

fn find_access_point<'a>(access_points: &'a Vec<AccessPoint>, path: &String) -> (r: Option<
    &'a AccessPoint,
>)
    ensures
        r.deep_view() == spec_find_access_point(access_points.deep_view(), path@),
{
    let mut i: usize = 0;
    assert(access_points.deep_view().skip(0) =~= access_points.deep_view());
    while i < access_points.len()
        invariant
            i <= access_points.len(),
            spec_find_access_point(access_points.deep_view(), path@) == spec_find_access_point(
                access_points.deep_view().skip(i as int),
                path@,
            ),
        decreases access_points.len() - i,
    {
        let ghost here = access_points.deep_view().skip(i as int);
        assert(here[0] == access_points[i as int]@);
        assert(here.drop_first() =~= access_points.deep_view().skip(i + 1));
        if access_points[i].path() == *path {
            return Some(&access_points[i]);
        }
        i += 1;
    }
    assert(access_points.deep_view().skip(i as int).len() == 0);
    None
}

fn find_setting<'a>(settings: &'a Vec<ConnectionSetting>, path: &String) -> (r: Option<
    &'a ConnectionSetting,
>)
    ensures
        r.deep_view() == spec_find_setting(settings.deep_view(), path@),
{
    let mut i: usize = 0;
    assert(settings.deep_view().skip(0) =~= settings.deep_view());
    while i < settings.len()
        invariant
            i <= settings.len(),
            spec_find_setting(settings.deep_view(), path@) == spec_find_setting(
                settings.deep_view().skip(i as int),
                path@,
            ),
        decreases settings.len() - i,
    {
        let ghost here = settings.deep_view().skip(i as int);
        assert(here[0] == settings[i as int]@);
        assert(here.drop_first() =~= settings.deep_view().skip(i + 1));
        if settings[i].path() == *path {
            return Some(&settings[i]);
        }
        i += 1;
    }
    assert(settings.deep_view().skip(i as int).len() == 0);
    None
}

impl NetworkManager {
    /// A service without devices, connections and access points, in the
    /// given state. `primary_connection` is the path of the primary
    /// connection, or the null path.
    pub fn new(
        state: u32,
        connectivity: u32,
        wireless_enabled: bool,
        bluetooth_enabled: bool,
        primary_connection: String,
    ) -> (r: NetworkManager)
        ensures
            r@ == (NetworkManagerView {
                state,
                connectivity,
                wireless_enabled,
                bluetooth_enabled,
                primary_connection: primary_connection@,
                devices: Seq::empty(),
                active_connections: Seq::empty(),
                access_points: Seq::empty(),
                settings: Seq::empty(),
            }),
    {
        let r = NetworkManager {
            state,
            connectivity,
            wireless_enabled,
            bluetooth_enabled,
            primary_connection,
            devices: Vec::new(),
            active_connections: Vec::new(),
            access_points: Vec::new(),
            settings: Vec::new(),
        };
        assert(r.devices.deep_view() =~= Seq::empty());
        assert(r.active_connections.deep_view() =~= Seq::empty());
        assert(r.access_points.deep_view() =~= Seq::empty());
        assert(r.settings.deep_view() =~= Seq::empty());
        r
    }

    /// Adds a device after those that are there.
    pub fn add_device(&mut self, device: Device)
        ensures
            final(self)@ == (NetworkManagerView {
                devices: old(self)@.devices.push(device@),
                ..old(self)@
            }),
    {
        self.devices.push(device);
        assert(self.devices.deep_view() =~= old(self).devices.deep_view().push(device@));
    }

    /// Adds an active connection after those that are there.
    pub fn add_active_connection(&mut self, connection: ActiveConnection)
        ensures
            final(self)@ == (NetworkManagerView {
                active_connections: old(self)@.active_connections.push(connection@),
                ..old(self)@
            }),
    {
        self.active_connections.push(connection);
        assert(self.active_connections.deep_view() =~= old(self).active_connections.deep_view().push(
            connection@,
        ));
    }

    /// Adds an access point after those that are there.
    pub fn add_access_point(&mut self, access_point: AccessPoint)
        ensures
            final(self)@ == (NetworkManagerView {
                access_points: old(self)@.access_points.push(access_point@),
                ..old(self)@
            }),
    {
        self.access_points.push(access_point);
        assert(self.access_points.deep_view() =~= old(self).access_points.deep_view().push(
            access_point@,
        ));
    }

    /// Adds a configured connection after those that are there.
    pub fn add_setting(&mut self, setting: ConnectionSetting)
        ensures
            final(self)@ == (NetworkManagerView {
                settings: old(self)@.settings.push(setting@),
                ..old(self)@
            }),
    {
        self.settings.push(setting);
        assert(self.settings.deep_view() =~= old(self).settings.deep_view().push(setting@));
    }

    pub fn state(&self) -> (r: NmState)
        ensures
            r == NmState::of_code(self@.state),
    {
        NmState::from(self.state)
    }

    pub fn connectivity(&self) -> (r: NmConnectivityState)
        ensures
            r == NmConnectivityState::of_code(self@.connectivity),
    {
        NmConnectivityState::from(self.connectivity)
    }

    pub fn wifi_enabled(&self) -> (r: bool)
        ensures
            r == self@.wireless_enabled,
    {
        self.wireless_enabled
    }

    /// Switches the wifi radio, and leaves everything else as it is.
    pub fn set_wifi_enabled(&mut self, enabled: bool)
        ensures
            final(self)@ == (NetworkManagerView { wireless_enabled: enabled, ..old(self)@ }),
    {
        self.wireless_enabled = enabled;
    }

    pub fn bluetooth_enabled(&self) -> (r: bool)
        ensures
            r == self@.bluetooth_enabled,
    {
        self.bluetooth_enabled
    }

    /// Whether every radio is off.
    pub fn airplane_mode_enabled(&self) -> (r: bool)
        ensures
            r == spec_airplane_mode(self@.wireless_enabled, self@.bluetooth_enabled),
    {
        airplane_mode(self.wireless_enabled, self.bluetooth_enabled)
    }

    /// All devices, in the order of the service.
    pub fn devices(&self) -> (r: &Vec<Device>)
        ensures
            r.deep_view() == self@.devices,
    {
        &self.devices
    }

    /// All devices, in the order of the service.
    pub fn all_devices(&self) -> (r: &Vec<Device>)
        ensures
            r.deep_view() == self@.devices,
    {
        &self.devices
    }

    /// All active connections, in the order of the service.
    pub fn active_connections(&self) -> (r: &Vec<ActiveConnection>)
        ensures
            r.deep_view() == self@.active_connections,
    {
        &self.active_connections
    }

    /// The primary connection: none where the service names the null path,
    /// or a connection that it does not know.
    pub fn primary_connection(&self) -> (r: Option<&ActiveConnection>)
        ensures
            r.deep_view() == self@.primary(),
    {
        match resolve(self.primary_connection.clone()) {
            Some(path) => find_connection(&self.active_connections, &path),
            None => None,
        }
    }

    /// The access point that lives at the path, if the service knows one.
    pub fn access_point(&self, path: &String) -> (r: Option<&AccessPoint>)
        ensures
            r.deep_view() == spec_find_access_point(self@.access_points, path@),
    {
        find_access_point(&self.access_points, path)
    }

    /// The device that lives at the path, if the service knows one.
    pub fn device(&self, path: &String) -> (r: Option<&Device>)
        ensures
            r.deep_view() == spec_find_device(self@.devices, path@),
    {
        find_device(&self.devices, path)
    }

    /// The active connection that lives at the path, if the service knows
    /// one.
    pub fn active_connection(&self, path: &String) -> (r: Option<&ActiveConnection>)
        ensures
            r.deep_view() == spec_find_connection(self@.active_connections, path@),
    {
        find_connection(&self.active_connections, path)
    }

    fn device_paths(&self) -> (r: Vec<String>)
        ensures
            r.deep_view() == self@.device_paths(),
    {
        let mut paths: Vec<String> = Vec::new();
        let mut i: usize = 0;
        while i < self.devices.len()
            invariant
                i <= self.devices.len(),
                paths.len() == i,
                forall|k: int| 0 <= k < i ==> (#[trigger] paths[k])@ == self.devices[k]@.path,
            decreases self.devices.len() - i,
        {
            paths.push(self.devices[i].path());
            i += 1;
        }
        assert(paths.deep_view() =~= self@.device_paths());
        paths
    }

    fn connection_paths(&self) -> (r: Vec<String>)
        ensures
            r.deep_view() == self@.connection_paths(),
    {
        let mut paths: Vec<String> = Vec::new();
        let mut i: usize = 0;
        while i < self.active_connections.len()
            invariant
                i <= self.active_connections.len(),
                paths.len() == i,
                forall|k: int|
                    0 <= k < i ==> (#[trigger] paths[k])@ == self.active_connections[k]@.path,
            decreases self.active_connections.len() - i,
        {
            paths.push(self.active_connections[i].path());
            i += 1;
        }
        assert(paths.deep_view() =~= self@.connection_paths());
        paths
    }

    /// Answers a request as the service would at this moment.
    pub fn answer(&self, request: &Request) -> (r: Response)
        ensures
            r@ == self@.answer(request@),
    {
        match request {
            Request::Manager(property) => match property {
                ManagerProperty::WirelessEnabled => Response::Flag(self.wireless_enabled),
                ManagerProperty::BluetoothEnabled => Response::Flag(self.bluetooth_enabled),
                ManagerProperty::State => Response::Code(self.state),
                ManagerProperty::Connectivity => Response::Code(self.connectivity),
                ManagerProperty::PrimaryConnection => Response::Path(
                    self.primary_connection.clone(),
                ),
                ManagerProperty::Devices => Response::Paths(self.device_paths()),
                ManagerProperty::ActiveConnections => Response::Paths(self.connection_paths()),
            },
            Request::Device(path, property) => match find_device(&self.devices, path) {
                Some(device) => device.answer(*property),
                None => Response::Failed,
            },
            Request::AccessPoint(path, property) => match find_access_point(
                &self.access_points,
                path,
            ) {
                Some(access_point) => access_point.answer(*property),
                None => Response::Failed,
            },
            Request::Connection(path, property) => match find_connection(
                &self.active_connections,
                path,
            ) {
                Some(connection) => connection.answer(*property),
                None => Response::Failed,
            },
            Request::ProfileId(path) => match find_setting(&self.settings, path) {
                Some(setting) => match setting.id() {
                    Some(id) => Response::Text(id),
                    None => Response::Failed,
                },
                None => Response::Failed,
            },
            Request::WatchDeviceState(path) => match find_device(&self.devices, path) {
                Some(_) => Response::Done,
                None => Response::Failed,
            },
            Request::NextDeviceState { .. } => Response::TimedOut,
            Request::SetWirelessEnabled(_) => Response::Done,
            Request::Activate { .. } => Response::Done,
            Request::Deactivate(path) => match find_connection(&self.active_connections, path) {
                Some(_) => Response::Done,
                None => Response::Failed,
            },
        }
    }

    /// Answers a request as `answer` does, and carries out a write to the
    /// wifi radio.
    pub fn carry_out(&mut self, request: &Request) -> (r: Response)
        ensures
            r@ == old(self)@.answer(request@),
            final(self)@ == old(self)@.after(request@),
    {
        let response = self.answer(request);
        match request {
            Request::SetWirelessEnabled(on) => {
                self.wireless_enabled = *on;
            },
            _ => {},
        }
        response
    }
}

} // verus!
