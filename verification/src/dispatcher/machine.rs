//! The actions as they run.

use crate::dispatcher::laws::changed;
use crate::dispatcher::model;
use crate::dispatcher::snapshot::{action_cost, action_plan, legible_for, service_after};
use crate::dispatcher::snapshot_laws::law_performed_action_follows_the_service;
use crate::dispatcher::model::{DispatcherView, Stage};
use crate::dispatcher::rules::{find_access_point, in_use, SeenAccessPoint};
use crate::event::{Action, Event};
use crate::lists::{
    append_effects, no_effects, no_requests, no_seen, no_texts, one_effect, push_request,
    push_seen, take_first, take_first_response,
};
use crate::network::network_manager::NetworkManager;
use crate::network::enums::{ActiveConnectionState, DeviceState, DeviceType};
use crate::reconciler::rules::airplane_mode;
use crate::service::{
    no_object, resolve, AccessPointProperty, ConnectionProperty, DeviceProperty, Effect, Failure,
    ManagerProperty, Next, Outcome, Request, Response, Step, Transcript,
};
use crate::status::WifiConnection;
use crate::text::{text_of, empty_text};
use vstd::prelude::*;

verus! {

/// An action under way.
pub struct Dispatcher {
    stage: Stage,
    target: WifiConnection,
    name: String,
    flag: bool,
    refused: bool,
    queue: Vec<String>,
    current: String,
    device: String,
    items: Vec<String>,
    item: String,
    pending: String,
    seen: Vec<SeenAccessPoint>,
    chosen: SeenAccessPoint,
}

impl View for Dispatcher {
    type V = DispatcherView;

    closed spec fn view(&self) -> DispatcherView {
        DispatcherView {
            stage: self.stage,
            target: self.target@,
            name: self.name@,
            flag: self.flag,
            refused: self.refused,
            queue: self.queue.deep_view(),
            current: self.current@,
            device: self.device@,
            items: self.items.deep_view(),
            item: self.item@,
            pending: self.pending@,
            seen: self.seen.deep_view(),
            chosen: self.chosen@,
        }
    }
}

fn no_network() -> (r: WifiConnection)
    ensures
        r@ == model::idle().target,
{
    WifiConnection { ssid: empty_text(), hw_address: empty_text() }
}

impl Dispatcher {
    fn idle() -> (r: Dispatcher)
        ensures
            r@ == model::idle(),
    {
        Dispatcher {
            stage: Stage::Idle,
            target: no_network(),
            name: empty_text(),
            flag: false,
            refused: false,
            queue: no_texts(),
            current: empty_text(),
            device: empty_text(),
            items: no_texts(),
            item: empty_text(),
            pending: empty_text(),
            seen: no_seen(),
            chosen: SeenAccessPoint { path: empty_text(), network: no_network() },
        }
    }

    /// Begins an action, and says what to ask first.
    pub fn begin(action: Action) -> (r: (Dispatcher, Step))
        ensures
            (r.0@, r.1@) == model::begin(action@),
    {
        let mut machine = Dispatcher::idle();
        let step = match action {
            Action::ToggleWifi => machine.ask(
                Stage::RadioRead,
                Request::Manager(ManagerProperty::WirelessEnabled),
            ),
            Action::ToggleAirplaneMode => machine.ask(
                Stage::AirplaneWifi,
                Request::Manager(ManagerProperty::WirelessEnabled),
            ),
            Action::ToggleWired => machine.ask(
                Stage::WiredDevices,
                Request::Manager(ManagerProperty::Devices),
            ),
            Action::ToggleVPN(name) => {
                machine.name = name;
                machine.ask(
                    Stage::VpnConnections,
                    Request::Manager(ManagerProperty::ActiveConnections),
                )
            },
            Action::ChangeAccessPoint(target) => {
                machine.target = target;
                machine.ask(Stage::ApDevices, Request::Manager(ManagerProperty::Devices))
            },
        };
        (machine, step)
    }

    /// Which answer the action is waiting for.
    pub fn stage(&self) -> (r: Stage)
        ensures
            r == self@.stage,
    {
        self.stage
    }

    fn ask(&mut self, stage: Stage, request: Request) -> (r: Step)
        ensures
            (final(self)@, r@) == model::ask(old(self)@, stage, request@),
    {
        self.stage = stage;
        Step { effects: no_effects(), next: Next::Ask(request) }
    }

    fn end(&mut self, effects: Vec<Effect>, outcome: Outcome) -> (r: Step)
        ensures
            (final(self)@, r@) == model::end(old(self)@, effects.deep_view(), outcome),
    {
        self.stage = Stage::Idle;
        Step { effects, next: Next::Finished(outcome) }
    }

    fn finish(&mut self) -> (r: Step)
        ensures
            (final(self)@, r@) == model::finish(old(self)@),
    {
        self.end(no_effects(), Outcome::Completed)
    }

    fn fail(&mut self, failure: Failure) -> (r: Step)
        ensures
            (final(self)@, r@) == model::fail(old(self)@, failure),
    {
        self.end(no_effects(), Outcome::Failed(failure))
    }

    fn next_wired_device(&mut self) -> (r: Step)
        ensures
            (final(self)@, r@) == model::next_wired_device(old(self)@),
    {
        if self.queue.len() > 0 {
            self.current = take_first(&mut self.queue);
            let request = Request::Device(self.current.clone(), DeviceProperty::DeviceType);
            self.ask(Stage::WiredDeviceType, request)
        } else if self.refused {
            self.fail(Failure::Write)
        } else {
            self.finish()
        }
    }

    fn list_wired_profiles(&mut self) -> (r: Step)
        ensures
            (final(self)@, r@) == model::list_wired_profiles(old(self)@),
    {
        let request = Request::Device(self.current.clone(), DeviceProperty::AvailableConnections);
        self.ask(Stage::WiredProfiles, request)
    }

    fn next_wired_profile(&mut self) -> (r: Step)
        ensures
            (final(self)@, r@) == model::next_wired_profile(old(self)@),
    {
        if self.items.len() > 0 {
            self.item = take_first(&mut self.items);
            let request = Request::Activate {
                connection: self.item.clone(),
                device: self.current.clone(),
                specific_object: no_object(),
            };
            self.ask(Stage::WiredActivate, request)
        } else {
            self.next_wired_device()
        }
    }

    fn next_vpn(&mut self) -> (r: Step)
        ensures
            (final(self)@, r@) == model::next_vpn(old(self)@),
    {
        if self.queue.len() > 0 {
            self.current = take_first(&mut self.queue);
            let request = Request::Connection(
                self.current.clone(),
                ConnectionProperty::ConnectionType,
            );
            self.ask(Stage::VpnType, request)
        } else {
            self.finish()
        }
    }

    fn next_wifi_candidate(&mut self) -> (r: Step)
        ensures
            (final(self)@, r@) == model::next_wifi_candidate(old(self)@),
    {
        if self.queue.len() > 0 {
            self.current = take_first(&mut self.queue);
            let request = Request::Device(self.current.clone(), DeviceProperty::DeviceType);
            self.ask(Stage::ApDeviceType, request)
        } else {
            self.fail(Failure::NoActiveWifiDevice)
        }
    }

    fn next_seen(&mut self) -> (r: Step)
        ensures
            (final(self)@, r@) == model::next_seen(old(self)@),
    {
        if self.items.len() > 0 {
            self.item = take_first(&mut self.items);
            let request = Request::AccessPoint(self.item.clone(), AccessPointProperty::Ssid);
            self.ask(Stage::ApSsid, request)
        } else {
            self.ask(Stage::ApConnections, Request::Manager(ManagerProperty::ActiveConnections))
        }
    }

    fn note_seen(&mut self, hw_address: String)
        ensures
            final(self)@ == model::note_seen(old(self)@, hw_address@),
    {
        let access_point = SeenAccessPoint {
            path: self.item.clone(),
            network: WifiConnection { ssid: self.pending.clone(), hw_address },
        };
        push_seen(&mut self.seen, access_point);
    }

    fn choose_access_point(&mut self) -> (r: Step)
        ensures
            (final(self)@, r@) == model::choose_access_point(old(self)@),
    {
        match find_access_point(&self.seen, &self.target) {
            Some(found) => {
                self.chosen = found.duplicate();
                let request = Request::Device(
                    self.device.clone(),
                    DeviceProperty::AvailableConnections,
                );
                self.ask(Stage::ApProfiles, request)
            },
            None => self.fail(Failure::AccessPointNotFound),
        }
    }

    fn next_active(&mut self) -> (r: Step)
        ensures
            (final(self)@, r@) == model::next_active(old(self)@),
    {
        if self.queue.len() > 0 {
            self.current = take_first(&mut self.queue);
            let request = Request::Connection(self.current.clone(), ConnectionProperty::Id);
            self.ask(Stage::ApConnectionId, request)
        } else {
            self.choose_access_point()
        }
    }

    fn next_candidate_profile(&mut self) -> (r: Step)
        ensures
            (final(self)@, r@) == model::next_candidate_profile(old(self)@),
    {
        if self.items.len() > 0 {
            self.item = take_first(&mut self.items);
            let request = Request::ProfileId(self.item.clone());
            self.ask(Stage::ApProfileId, request)
        } else {
            self.fail(Failure::ConfiguredConnectionNotFound)
        }
    }

    fn not_running(&self) -> (r: Step)
        ensures
            (self@, r@) == model::not_running(self@),
    {
        Step {
            effects: no_effects(),
            next: Next::Finished(Outcome::Failed(Failure::NotRunning)),
        }
    }

    fn radio_step(&mut self, response: Response) -> (r: Step)
        ensures
            (final(self)@, r@) == model::radio_step(old(self)@, response@),
    {
        match self.stage {
            Stage::RadioRead => match response {
                Response::Flag(on) => {
                    self.flag = on;
                    self.ask(Stage::RadioWrite, Request::SetWirelessEnabled(!on))
                },
                _ => self.fail(Failure::Read),
            },
            Stage::RadioWrite | Stage::AirplaneWrite => match response {
                Response::Done => self.end(
                    one_effect(Effect::Notify(Event::Update)),
                    Outcome::Completed,
                ),
                _ => self.end(
                    one_effect(Effect::Notify(Event::Update)),
                    Outcome::Failed(Failure::Write),
                ),
            },
            Stage::AirplaneWifi => match response {
                Response::Flag(on) => {
                    self.flag = on;
                    self.ask(
                        Stage::AirplaneBluetooth,
                        Request::Manager(ManagerProperty::BluetoothEnabled),
                    )
                },
                _ => self.fail(Failure::Read),
            },
            Stage::AirplaneBluetooth => match response {
                Response::Flag(on) => {
                    let request = Request::SetWirelessEnabled(airplane_mode(self.flag, on));
                    self.ask(Stage::AirplaneWrite, request)
                },
                _ => self.fail(Failure::Read),
            },
            _ => self.not_running(),
        }
    }

    fn wired_step(&mut self, response: Response) -> (r: Step)
        ensures
            (final(self)@, r@) == model::wired_step(old(self)@, response@),
    {
        match self.stage {
            Stage::WiredDevices => match response {
                Response::Paths(devices) => {
                    self.queue = devices;
                    self.next_wired_device()
                },
                _ => self.fail(Failure::Read),
            },
            Stage::WiredDeviceType => match response {
                Response::Code(code) => {
                    if DeviceType::from(code) == DeviceType::Ethernet {
                        let request = Request::Device(
                            self.current.clone(),
                            DeviceProperty::ActiveConnection,
                        );
                        self.ask(Stage::WiredConnection, request)
                    } else {
                        self.next_wired_device()
                    }
                },
                _ => self.fail(Failure::Read),
            },
            Stage::WiredConnection => match response {
                Response::Path(path) => match resolve(path) {
                    Some(connection) => {
                        let request = Request::Connection(
                            connection.clone(),
                            ConnectionProperty::State,
                        );
                        self.item = connection;
                        self.ask(Stage::WiredConnectionState, request)
                    },
                    None => self.list_wired_profiles(),
                },
                _ => self.fail(Failure::Read),
            },
            Stage::WiredConnectionState => match response {
                Response::Code(code) => {
                    if ActiveConnectionState::from(code) == ActiveConnectionState::Activated {
                        let request = Request::Deactivate(self.item.clone());
                        self.ask(Stage::WiredDeactivate, request)
                    } else {
                        self.list_wired_profiles()
                    }
                },
                _ => self.fail(Failure::Read),
            },
            Stage::WiredDeactivate => match response {
                Response::Done => self.next_wired_device(),
                _ => {
                    self.refused = true;
                    self.next_wired_device()
                },
            },
            Stage::WiredProfiles => match response {
                Response::Paths(profiles) => {
                    self.items = profiles;
                    self.next_wired_profile()
                },
                _ => self.fail(Failure::Read),
            },
            Stage::WiredActivate => match response {
                Response::Done => self.next_wired_profile(),
                _ => {
                    self.refused = true;
                    self.next_wired_profile()
                },
            },
            _ => self.not_running(),
        }
    }

    fn vpn_step(&mut self, response: Response) -> (r: Step)
        ensures
            (final(self)@, r@) == model::vpn_step(old(self)@, response@),
    {
        match self.stage {
            Stage::VpnConnections => match response {
                Response::Paths(connections) => {
                    self.queue = connections;
                    self.next_vpn()
                },
                _ => self.fail(Failure::Read),
            },
            Stage::VpnType => match response {
                Response::Text(name) => {
                    if DeviceType::from(name) == DeviceType::WireGuard {
                        let request = Request::Connection(
                            self.current.clone(),
                            ConnectionProperty::Id,
                        );
                        self.ask(Stage::VpnName, request)
                    } else {
                        self.next_vpn()
                    }
                },
                _ => self.fail(Failure::Read),
            },
            Stage::VpnName => match response {
                Response::Text(id) => {
                    if id == self.name {
                        let request = Request::Connection(
                            self.current.clone(),
                            ConnectionProperty::State,
                        );
                        self.ask(Stage::VpnState, request)
                    } else {
                        self.next_vpn()
                    }
                },
                _ => self.fail(Failure::Read),
            },
            Stage::VpnState => match response {
                Response::Code(code) => {
                    if ActiveConnectionState::from(code) == ActiveConnectionState::Activated {
                        let request = Request::Deactivate(self.current.clone());
                        self.ask(Stage::VpnDeactivate, request)
                    } else {
                        let request = Request::Connection(
                            self.current.clone(),
                            ConnectionProperty::SpecificObject,
                        );
                        self.ask(Stage::VpnObject, request)
                    }
                },
                _ => self.fail(Failure::Read),
            },
            Stage::VpnDeactivate | Stage::VpnActivate => match response {
                Response::Done => self.next_vpn(),
                _ => self.fail(Failure::Write),
            },
            Stage::VpnObject => match response {
                Response::Path(path) => match resolve(path) {
                    Some(object) => {
                        let request = Request::Activate {
                            connection: no_object(),
                            device: no_object(),
                            specific_object: object,
                        };
                        self.ask(Stage::VpnActivate, request)
                    },
                    None => self.next_vpn(),
                },
                _ => self.fail(Failure::Read),
            },
            _ => self.not_running(),
        }
    }

    fn access_point_step(&mut self, response: Response) -> (r: Step)
        ensures
            (final(self)@, r@) == model::access_point_step(old(self)@, response@),
    {
        match self.stage {
            Stage::ApDevices => match response {
                Response::Paths(devices) => {
                    self.queue = devices;
                    self.next_wifi_candidate()
                },
                _ => self.fail(Failure::Read),
            },
            Stage::ApDeviceType => match response {
                Response::Code(code) => {
                    if DeviceType::from(code) == DeviceType::Wifi {
                        let request = Request::Device(self.current.clone(), DeviceProperty::State);
                        self.ask(Stage::ApDeviceState, request)
                    } else {
                        self.next_wifi_candidate()
                    }
                },
                _ => self.fail(Failure::Read),
            },
            Stage::ApDeviceState => match response {
                Response::Code(code) => {
                    if DeviceState::from(code) == DeviceState::Activated {
                        self.device = self.current.clone();
                        let request = Request::Device(
                            self.current.clone(),
                            DeviceProperty::AccessPoints,
                        );
                        self.ask(Stage::ApAccessPoints, request)
                    } else {
                        self.next_wifi_candidate()
                    }
                },
                _ => self.fail(Failure::Read),
            },
            Stage::ApAccessPoints => match response {
                Response::Paths(access_points) => {
                    self.items = access_points;
                    self.seen = no_seen();
                    self.next_seen()
                },
                _ => {
                    self.items = no_texts();
                    self.seen = no_seen();
                    self.next_seen()
                },
            },
            Stage::ApSsid => match response {
                Response::Bytes(ssid) => {
                    self.pending = text_of(ssid.as_slice());
                    let request = Request::AccessPoint(
                        self.item.clone(),
                        AccessPointProperty::HwAddress,
                    );
                    self.ask(Stage::ApHwAddress, request)
                },
                _ => self.fail(Failure::Read),
            },
            Stage::ApHwAddress => match response {
                Response::Text(hw_address) => {
                    self.note_seen(hw_address);
                    self.next_seen()
                },
                _ => {
                    self.note_seen(empty_text());
                    self.next_seen()
                },
            },
            Stage::ApConnections => match response {
                Response::Paths(connections) => {
                    self.queue = connections;
                    self.next_active()
                },
                _ => {
                    self.queue = no_texts();
                    self.next_active()
                },
            },
            Stage::ApConnectionId => match response {
                Response::Text(id) => {
                    self.pending = id;
                    let request = Request::Connection(
                        self.current.clone(),
                        ConnectionProperty::State,
                    );
                    self.ask(Stage::ApConnectionState, request)
                },
                _ => self.fail(Failure::Read),
            },
            Stage::ApConnectionState => match response {
                Response::Code(code) => {
                    let state = ActiveConnectionState::from(code);
                    if in_use(&self.seen, &self.target, &self.pending, state) {
                        self.finish()
                    } else {
                        self.next_active()
                    }
                },
                _ => self.fail(Failure::Read),
            },
            Stage::ApProfiles => match response {
                Response::Paths(profiles) => {
                    self.items = profiles;
                    self.next_candidate_profile()
                },
                _ => {
                    self.items = no_texts();
                    self.next_candidate_profile()
                },
            },
            Stage::ApProfileId => match response {
                Response::Text(id) => {
                    if id == self.chosen.network.ssid {
                        let request = Request::Activate {
                            connection: self.item.clone(),
                            device: self.device.clone(),
                            specific_object: self.chosen.path.clone(),
                        };
                        self.ask(Stage::ApActivate, request)
                    } else {
                        self.next_candidate_profile()
                    }
                },
                _ => self.fail(Failure::Read),
            },
            Stage::ApActivate => match response {
                Response::Done => self.finish(),
                _ => self.fail(Failure::Write),
            },
            _ => self.not_running(),
        }
    }

    /// Takes the answer to the question that was open, and says how the
    /// action goes on.
    pub fn step(&mut self, response: Response) -> (r: Step)
        ensures
            (final(self)@, r@) == model::step(old(self)@, response@),
    {
        proof {
            reveal(model::step);
        }
        match self.stage {
            Stage::Idle => self.not_running(),
            Stage::RadioRead
            | Stage::RadioWrite
            | Stage::AirplaneWifi
            | Stage::AirplaneBluetooth
            | Stage::AirplaneWrite => self.radio_step(response),
            Stage::WiredDevices
            | Stage::WiredDeviceType
            | Stage::WiredConnection
            | Stage::WiredConnectionState
            | Stage::WiredDeactivate
            | Stage::WiredProfiles
            | Stage::WiredActivate => self.wired_step(response),
            Stage::VpnConnections
            | Stage::VpnType
            | Stage::VpnName
            | Stage::VpnState
            | Stage::VpnDeactivate
            | Stage::VpnObject
            | Stage::VpnActivate => self.vpn_step(response),
            Stage::ApDevices
            | Stage::ApDeviceType
            | Stage::ApDeviceState
            | Stage::ApAccessPoints
            | Stage::ApSsid
            | Stage::ApHwAddress
            | Stage::ApConnections
            | Stage::ApConnectionId
            | Stage::ApConnectionState
            | Stage::ApProfiles
            | Stage::ApProfileId
            | Stage::ApActivate => self.access_point_step(response),
        }
    }
}

/// Runs a whole action against a list of answers: the first answer goes to
/// the first question, and so on, until the action ends or the answers run
/// out.
pub fn replay(action: Action, responses: Vec<Response>) -> (r: Transcript)
    ensures
        r@ == model::run(action@, responses.deep_view()),
{
    let ghost script = responses.deep_view();
    let ghost whole = model::run(action@, script);
    let mut remaining = responses;
    let (mut machine, mut last) = Dispatcher::begin(action);
    let mut requests = no_requests();
    let mut effects = no_effects();
    assert(model::run_from(machine@, last@, remaining.deep_view()).after(
        requests.deep_view(),
        effects.deep_view(),
    ) =~= whole) by {
        assert(Seq::<crate::service::RequestView>::empty() + whole.requests =~= whole.requests);
        assert(Seq::<crate::service::EffectView>::empty() + whole.effects =~= whole.effects);
    }
    loop
        invariant
            whole == model::run(action@, responses.deep_view()),
            model::run_from(machine@, last@, remaining.deep_view()).after(
                requests.deep_view(),
                effects.deep_view(),
            ) == whole,
        decreases remaining.len(),
    {
        let ghost before = model::run_from(machine@, last@, remaining.deep_view());
        let ghost requests_before = requests.deep_view();
        let ghost effects_before = effects.deep_view();
        let Step { effects: more, next } = last;
        append_effects(&mut effects, more);
        match next {
            Next::Finished(outcome) => {
                assert(requests_before + before.requests =~= requests.deep_view());
                return Transcript { requests, effects, outcome: Some(outcome) };
            },
            Next::Ask(request) => {
                let ghost asked = request@;
                push_request(&mut requests, request);
                if remaining.len() == 0 {
                    assert(requests_before + before.requests =~= requests.deep_view());
                    return Transcript { requests, effects, outcome: None };
                }
                let response = take_first_response(&mut remaining);
                last = machine.step(response);
                proof {
                    let rest = model::run_from(machine@, last@, remaining.deep_view());
                    assert(before == rest.after(seq![asked], more.deep_view()));
                    assert(requests_before + (seq![asked] + rest.requests) =~= requests.deep_view()
                        + rest.requests);
                    assert(effects_before + (more.deep_view() + rest.effects) =~= effects.deep_view()
                        + rest.effects);
                }
            },
        }
    }
}

/// Runs a whole action against a service held in memory, which carries out
/// what it is asked as far as it can. The action gives up when it has had
/// `patience` answers and is not over. Where the service can answer
/// everything that the action asks, and `patience` is enough, the action ends
/// as the service calls for, asks for the changes that the service calls for
/// and no others, and leaves the service as it was but for the wifi radio,
/// which the two radio toggles switch.
pub fn perform(action: Action, service: &mut NetworkManager, patience: usize) -> (r: Transcript)
    ensures
        (r@, final(service)@) == model::run_against(action@, old(service)@, patience as nat),
        legible_for(old(service)@, action@) && patience >= action_cost(old(service)@, action@)
            ==> changed(
            r@,
            action_plan(old(service)@, action@).outcome,
            action_plan(old(service)@, action@).writes,
        ) && final(service)@ == service_after(old(service)@, action@),
{
    proof {
        if legible_for(service@, action@) && patience >= action_cost(service@, action@) {
            law_performed_action_follows_the_service(service@, action@, patience as nat);
        }
    }
    action_against(action, service, patience)
}

fn action_against(action: Action, service: &mut NetworkManager, patience: usize) -> (r: Transcript)
    ensures
        (r@, final(service)@) == model::run_against(action@, old(service)@, patience as nat),
{
    let ghost whole = model::run_against(action@, service@, patience as nat);
    let mut left = patience;
    let (mut machine, mut last) = Dispatcher::begin(action);
    let mut requests = no_requests();
    let mut effects = no_effects();
    assert(model::run_against_from(machine@, last@, service@, left as nat).0.after(
        requests.deep_view(),
        effects.deep_view(),
    ) =~= whole.0) by {
        assert(Seq::<crate::service::RequestView>::empty() + whole.0.requests
            =~= whole.0.requests);
        assert(Seq::<crate::service::EffectView>::empty() + whole.0.effects =~= whole.0.effects);
    }
    loop
        invariant
            whole == model::run_against(action@, old(service)@, patience as nat),
            model::run_against_from(machine@, last@, service@, left as nat).0.after(
                requests.deep_view(),
                effects.deep_view(),
            ) == whole.0,
            model::run_against_from(machine@, last@, service@, left as nat).1 == whole.1,
        decreases left,
    {
        let ghost before = model::run_against_from(machine@, last@, service@, left as nat).0;
        let ghost requests_before = requests.deep_view();
        let ghost effects_before = effects.deep_view();
        let Step { effects: more, next } = last;
        append_effects(&mut effects, more);
        match next {
            Next::Finished(outcome) => {
                assert(requests_before + before.requests =~= requests.deep_view());
                return Transcript { requests, effects, outcome: Some(outcome) };
            },
            Next::Ask(request) => {
                let ghost asked = request@;
                if left == 0 {
                    push_request(&mut requests, request);
                    assert(requests_before + before.requests =~= requests.deep_view());
                    return Transcript { requests, effects, outcome: None };
                }
                let response = service.carry_out(&request);
                push_request(&mut requests, request);
                left = left - 1;
                last = machine.step(response);
                proof {
                    let rest = model::run_against_from(machine@, last@, service@, left as nat).0;
                    assert(before == rest.after(seq![asked], more.deep_view()));
                    assert(requests_before + (seq![asked] + rest.requests) =~= requests.deep_view()
                        + rest.requests);
                    assert(effects_before + (more.deep_view() + rest.effects) =~= effects.deep_view()
                        + rest.effects);
                }
            },
        }
    }
}

} // verus!
