//! The conversation with the network-management service.
//!
//! The state machines of this crate never talk to the service themselves.
//! They hand out a `Request`, the caller carries it to the service, and hands
//! back the `Response`.

use crate::event::Event;
use crate::status::{TrayUpdate, TrayUpdateView};
use crate::text::is_text;
use vstd::prelude::*;

verus! {

/// A property of the service itself.
#[derive(Debug, Clone, Copy, PartialEq, Eq, Structural)]
pub enum ManagerProperty {
    /// Whether the wifi radio is enabled (`Flag`).
    WirelessEnabled,
    /// Whether the bluetooth radio is enabled (`Flag`).
    BluetoothEnabled,
    /// The overall state (`Code`).
    State,
    /// The connectivity (`Code`).
    Connectivity,
    /// The primary connection (`Path`).
    PrimaryConnection,
    /// All devices (`Paths`).
    Devices,
    /// All active connections (`Paths`).
    ActiveConnections,
}

/// A property of a device.
#[derive(Debug, Clone, Copy, PartialEq, Eq, Structural)]
pub enum DeviceProperty {
    /// Its kind (`Code`).
    DeviceType,
    /// Its state (`Code`).
    State,
    /// Its active connection (`Path`).
    ActiveConnection,
    /// The configured connections that fit it (`Paths`).
    AvailableConnections,
    /// The access points that a wifi device sees (`Paths`).
    AccessPoints,
    /// The access point that a wifi device is bound to (`Path`).
    ActiveAccessPoint,
}

/// A property of an access point.
#[derive(Debug, Clone, Copy, PartialEq, Eq, Structural)]
pub enum AccessPointProperty {
    /// Its network name (`Bytes`).
    Ssid,
    /// Its hardware address (`Text`).
    HwAddress,
    /// Its signal strength in percent (`Level`).
    Strength,
}

/// A property of an active connection.
#[derive(Debug, Clone, Copy, PartialEq, Eq, Structural)]
pub enum ConnectionProperty {
    /// Its display name (`Text`).
    Id,
    /// Its state (`Code`).
    State,
    /// The name of its connection type (`Text`).
    ConnectionType,
    /// The devices it runs on (`Paths`).
    Devices,
    /// The object it is bound to (`Path`).
    SpecificObject,
}

/// What a state machine wants from the service. Objects are named by their
/// path.
#[derive(Debug, Clone, PartialEq, Eq)]
pub enum Request {
    Manager(ManagerProperty),
    Device(String, DeviceProperty),
    AccessPoint(String, AccessPointProperty),
    Connection(String, ConnectionProperty),
    /// The display name of a configured connection (`Text`).
    ProfileId(String),
    /// Start to follow the state changes of a device (`Done`). The watch ends
    /// with the first request that is not `NextDeviceState`.
    WatchDeviceState(String),
    /// The next state change of the watched device (`Code`), or `TimedOut`
    /// when none comes within the given time.
    NextDeviceState { device: String, timeout_secs: u64 },
    /// Switch the wifi radio (`Done`).
    SetWirelessEnabled(bool),
    /// Activate a connection (`Done`).
    Activate { connection: String, device: String, specific_object: String },
    /// Deactivate an active connection (`Done`).
    Deactivate(String),
}

pub enum RequestView {
    Manager(ManagerProperty),
    Device(Seq<char>, DeviceProperty),
    AccessPoint(Seq<char>, AccessPointProperty),
    Connection(Seq<char>, ConnectionProperty),
    ProfileId(Seq<char>),
    WatchDeviceState(Seq<char>),
    NextDeviceState { device: Seq<char>, timeout_secs: u64 },
    SetWirelessEnabled(bool),
    Activate { connection: Seq<char>, device: Seq<char>, specific_object: Seq<char> },
    Deactivate(Seq<char>),
}

impl View for Request {
    type V = RequestView;

    open spec fn view(&self) -> RequestView {
        match self {
            Request::Manager(property) => RequestView::Manager(*property),
            Request::Device(path, property) => RequestView::Device(path@, *property),
            Request::AccessPoint(path, property) => RequestView::AccessPoint(path@, *property),
            Request::Connection(path, property) => RequestView::Connection(path@, *property),
            Request::ProfileId(path) => RequestView::ProfileId(path@),
            Request::WatchDeviceState(path) => RequestView::WatchDeviceState(path@),
            Request::NextDeviceState { device, timeout_secs } => RequestView::NextDeviceState {
                device: device@,
                timeout_secs: *timeout_secs,
            },
            Request::SetWirelessEnabled(on) => RequestView::SetWirelessEnabled(*on),
            Request::Activate { connection, device, specific_object } => RequestView::Activate {
                connection: connection@,
                device: device@,
                specific_object: specific_object@,
            },
            Request::Deactivate(path) => RequestView::Deactivate(path@),
        }
    }
}

impl DeepView for Request {
    type V = RequestView;

    open spec fn deep_view(&self) -> RequestView {
        self@
    }
}

impl RequestView {
    /// Whether the request changes something in the service.
    pub open spec fn is_write(self) -> bool {
        self is SetWirelessEnabled || self is Activate || self is Deactivate
    }

    /// Whether the request lists devices: those of the service, or those of
    /// one connection.
    pub open spec fn lists_devices(self) -> bool {
        self == RequestView::Manager(ManagerProperty::Devices) || (self matches RequestView::Connection(
            _,
            property,
        ) && property == ConnectionProperty::Devices)
    }
}

/// What the service answered.
#[derive(Debug, Clone, PartialEq, Eq)]
pub enum Response {
    Flag(bool),
    Code(u32),
    Level(u8),
    Text(String),
    Bytes(Vec<u8>),
    Path(String),
    Paths(Vec<String>),
    /// The call went through and has nothing to tell.
    Done,
    /// Nothing came within the time allowed.
    TimedOut,
    /// The call failed.
    Failed,
}

pub enum ResponseView {
    Flag(bool),
    Code(u32),
    Level(u8),
    Text(Seq<char>),
    Bytes(Seq<u8>),
    Path(Seq<char>),
    Paths(Seq<Seq<char>>),
    Done,
    TimedOut,
    Failed,
}

impl View for Response {
    type V = ResponseView;

    open spec fn view(&self) -> ResponseView {
        match self {
            Response::Flag(on) => ResponseView::Flag(*on),
            Response::Code(code) => ResponseView::Code(*code),
            Response::Level(level) => ResponseView::Level(*level),
            Response::Text(text) => ResponseView::Text(text@),
            Response::Bytes(bytes) => ResponseView::Bytes(bytes@),
            Response::Path(path) => ResponseView::Path(path@),
            Response::Paths(paths) => ResponseView::Paths(paths.deep_view()),
            Response::Done => ResponseView::Done,
            Response::TimedOut => ResponseView::TimedOut,
            Response::Failed => ResponseView::Failed,
        }
    }
}

impl DeepView for Response {
    type V = ResponseView;

    open spec fn deep_view(&self) -> ResponseView {
        self@
    }
}

/// The path by which the service says "no object".
pub open spec fn null_path() -> Seq<char> {
    "/"@
}

/// The object that a path names: none for the null path, the path itself
/// otherwise.
pub open spec fn spec_resolve(path: Seq<char>) -> Option<Seq<char>> {
    if path == null_path() {
        None
    } else {
        Some(path)
    }
}

/// Tells a reference to an object from the null path, so that nobody asks the
/// service about an object that is not there.
pub fn resolve(path: String) -> (r: Option<String>)
    ensures
        r.deep_view() == spec_resolve(path@),
{
    if is_text(&path, "/") {
        None
    } else {
        Some(path)
    }
}

/// The null path, for the places of a call that name no object.
pub fn no_object() -> (r: String)
    ensures
        r@ == null_path(),
{
    "/".to_owned()
}

/// Why a pass or an action ended early.
#[derive(Debug, Clone, Copy, PartialEq, Eq, Structural)]
pub enum Failure {
    /// The service did not answer a question, or not in the expected form.
    Read,
    /// The service refused a change.
    Write,
    /// No wifi device is activated.
    NoActiveWifiDevice,
    /// No visible access point has the name and address asked for.
    AccessPointNotFound,
    /// No configured connection carries the name of the access point.
    ConfiguredConnectionNotFound,
    /// An answer came although no question was open.
    NotRunning,
}

impl Failure {
    /// What went wrong, in words.
    pub open spec fn spec_message(self) -> Seq<char> {
        match self {
            Failure::Read => "The service did not answer"@,
            Failure::Write => "The service refused the change"@,
            Failure::NoActiveWifiDevice => "No active Wifi device found"@,
            Failure::AccessPointNotFound => "Access point not found"@,
            Failure::ConfiguredConnectionNotFound => "Configured connection not found"@,
            Failure::NotRunning => "No question is open"@,
        }
    }

    pub fn message(self) -> (r: String)
        ensures
            r@ == self.spec_message(),
    {
        match self {
            Failure::Read => "The service did not answer".to_owned(),
            Failure::Write => "The service refused the change".to_owned(),
            Failure::NoActiveWifiDevice => "No active Wifi device found".to_owned(),
            Failure::AccessPointNotFound => "Access point not found".to_owned(),
            Failure::ConfiguredConnectionNotFound => "Configured connection not found".to_owned(),
            Failure::NotRunning => "No question is open".to_owned(),
        }
    }
}

/// How a pass or an action ended.
#[derive(Debug, Clone, Copy, PartialEq, Eq, Structural)]
pub enum Outcome {
    /// It ran to its end.
    Completed,
    /// It stopped early.
    Failed(Failure),
}

/// Something for the caller to do besides asking the service.
#[derive(Debug, Clone, PartialEq, Eq)]
pub enum Effect {
    /// Hand the update to the tray.
    Show(TrayUpdate),
    /// Put the event into the event queue.
    Notify(Event),
    /// Put an `Update` into the event queue once the delay is over.
    Recheck { delay_secs: u64 },
}

pub enum EffectView {
    Show(TrayUpdateView),
    Notify(Event),
    Recheck { delay_secs: u64 },
}

impl View for Effect {
    type V = EffectView;

    open spec fn view(&self) -> EffectView {
        match self {
            Effect::Show(update) => EffectView::Show(update@),
            Effect::Notify(event) => EffectView::Notify(*event),
            Effect::Recheck { delay_secs } => EffectView::Recheck { delay_secs: *delay_secs },
        }
    }
}

impl DeepView for Effect {
    type V = EffectView;

    open spec fn deep_view(&self) -> EffectView {
        self@
    }
}

/// How a state machine goes on.
#[derive(Debug, Clone, PartialEq, Eq)]
pub enum Next {
    /// Put this to the service and come back with the answer.
    Ask(Request),
    /// The work is over.
    Finished(Outcome),
}

pub enum NextView {
    Ask(RequestView),
    Finished(Outcome),
}

impl View for Next {
    type V = NextView;

    open spec fn view(&self) -> NextView {
        match self {
            Next::Ask(request) => NextView::Ask(request@),
            Next::Finished(outcome) => NextView::Finished(*outcome),
        }
    }
}

/// One move of a state machine: what to do now, and how to go on.
#[derive(Debug, Clone, PartialEq, Eq)]
pub struct Step {
    pub effects: Vec<Effect>,
    pub next: Next,
}

pub struct StepView {
    pub effects: Seq<EffectView>,
    pub next: NextView,
}

impl View for Step {
    type V = StepView;

    open spec fn view(&self) -> StepView {
        StepView { effects: self.effects.deep_view(), next: self.next@ }
    }
}

/// What came of running a state machine against a list of answers.
#[derive(Debug, Clone, PartialEq, Eq)]
pub struct Transcript {
    /// The questions that were asked, in order.
    pub requests: Vec<Request>,
    /// The effects of all steps, in order.
    pub effects: Vec<Effect>,
    /// How the machine ended, or `None` when the answers ran out first.
    pub outcome: Option<Outcome>,
}

pub struct TranscriptView {
    pub requests: Seq<RequestView>,
    pub effects: Seq<EffectView>,
    pub outcome: Option<Outcome>,
}

impl View for Transcript {
    type V = TranscriptView;

    open spec fn view(&self) -> TranscriptView {
        TranscriptView {
            requests: self.requests.deep_view(),
            effects: self.effects.deep_view(),
            outcome: self.outcome,
        }
    }
}

impl TranscriptView {
    /// This transcript after the questions and effects that came before it.
    pub open spec fn after(self, requests: Seq<RequestView>, effects: Seq<EffectView>) -> TranscriptView {
        TranscriptView {
            requests: requests + self.requests,
            effects: effects + self.effects,
            outcome: self.outcome,
        }
    }
}

/// What an access point answers when asked for its name and its hardware
/// address.
pub struct AccessPointAnswers {
    pub ssid: Seq<u8>,
    pub hw_address: Seq<char>,
}

/// The answers of the access points, in the order in which they are asked:
/// of each its name, then its hardware address.
pub open spec fn access_point_answers(access_points: Seq<AccessPointAnswers>) -> Seq<ResponseView>
    decreases access_points.len(),
{
    if access_points.len() == 0 {
        Seq::empty()
    } else {
        seq![
            ResponseView::Bytes(access_points[0].ssid),
            ResponseView::Text(access_points[0].hw_address),
        ] + access_point_answers(access_points.drop_first())
    }
}

/// The names of the configured connections as answers, in order.
pub open spec fn name_answers(ids: Seq<Seq<char>>) -> Seq<ResponseView> {
    Seq::new(ids.len(), |i: int| ResponseView::Text(ids[i]))
}

} // verus!
