//! The status pass as it runs.

use crate::event::Event;
use crate::lists::{
    append_effects, copy_networks, copy_vpn_lines, no_effects, no_networks, no_requests, no_texts,
    no_vpn_lines, one_effect, push_effect, push_network, push_request, push_text, push_vpn_line,
    take_first, take_first_response,
};
use crate::network::network_manager::NetworkManager;
use crate::network::enums::{
    ActiveConnectionState, DeviceState, DeviceType, NmConnectivityState, NmState,
};
use crate::reconciler::model;
use crate::reconciler::snapshot::{legible, pass_cost, pass_effects};
use crate::reconciler::snapshot_laws::law_observed_pass_shows_the_service;
use crate::reconciler::model::{Phase, ReconcilerView};
use crate::reconciler::rules::{
    airplane_mode, device_icon, known_connections, quiet_icon, wired_panel,
    ACTIVATION_TIMEOUT_SECS, MAX_ACTIVATION_ATTEMPTS, RECHECK_DELAY_SECS,
};
use crate::service::{
    resolve, AccessPointProperty, ConnectionProperty, DeviceProperty, Effect, Failure,
    ManagerProperty, Next, Outcome, Request, Response, Step, Transcript,
};
use crate::status::{
    AirplaneModeState, Icon, TrayUpdate, VPNConnection, VPNState, WifiConnection, WifiState,
};
use crate::text::{text_of, empty_text};
use vstd::prelude::*;

verus! {

/// A status pass under way.
pub struct Reconciler {
    phase: Phase,
    wifi_enabled: bool,
    icon: Option<Icon>,
    devices: Vec<String>,
    device: String,
    items: Vec<String>,
    item: String,
    known_ids: Vec<String>,
    visible: Vec<WifiConnection>,
    pending: String,
    vpn: Vec<VPNConnection>,
    attempts: u32,
}

impl View for Reconciler {
    type V = ReconcilerView;

    closed spec fn view(&self) -> ReconcilerView {
        ReconcilerView {
            phase: self.phase,
            wifi_enabled: self.wifi_enabled,
            icon: self.icon,
            devices: self.devices.deep_view(),
            device: self.device@,
            items: self.items.deep_view(),
            item: self.item@,
            known_ids: self.known_ids.deep_view(),
            visible: self.visible.deep_view(),
            pending: self.pending@,
            vpn: self.vpn.deep_view(),
            attempts: self.attempts,
        }
    }
}

fn show_icon(icon: Icon) -> (r: Effect)
    ensures
        r@ == model::show_icon(icon),
{
    Effect::Show(TrayUpdate::Icon(icon))
}

fn show_bare_panel(on: bool) -> (r: Effect)
    ensures
        r@ == model::show_wifi(model::bare_panel(on)),
{
    Effect::Show(
        TrayUpdate::Wireless(
            Some(
                WifiState {
                    on,
                    known_connections: no_networks(),
                    available_connections: no_networks(),
                },
            ),
        ),
    )
}

impl Reconciler {
    /// Begins a pass. The first step takes every panel away and asks whether
    /// the wifi radio is enabled.
    pub fn begin() -> (r: (Reconciler, Step))
        ensures
            r.0@ == model::initial(),
            r.1@ == model::first_step(),
    {
        let machine = Reconciler {
            phase: Phase::WirelessEnabled,
            wifi_enabled: false,
            icon: None,
            devices: no_texts(),
            device: empty_text(),
            items: no_texts(),
            item: empty_text(),
            known_ids: no_texts(),
            visible: no_networks(),
            pending: empty_text(),
            vpn: no_vpn_lines(),
            attempts: 0,
        };
        let mut effects = one_effect(Effect::Show(TrayUpdate::Wireless(None)));
        push_effect(&mut effects, Effect::Show(TrayUpdate::Wired(None)));
        push_effect(&mut effects, Effect::Show(TrayUpdate::Vpn(None)));
        push_effect(&mut effects, Effect::Show(TrayUpdate::AirplaneMode(None)));
        assert(effects.deep_view() =~= model::clear_panels());
        let step = Step {
            effects,
            next: Next::Ask(Request::Manager(ManagerProperty::WirelessEnabled)),
        };
        (machine, step)
    }

    /// Which answer the pass is waiting for.
    pub fn phase(&self) -> (r: Phase)
        ensures
            r == self@.phase,
    {
        self.phase
    }

    /// The icon that the pass showed last, if it has shown one.
    pub fn icon(&self) -> (r: Option<Icon>)
        ensures
            r == self@.icon,
    {
        self.icon
    }

    fn ask(&mut self, phase: Phase, effects: Vec<Effect>, request: Request) -> (r: Step)
        ensures
            (final(self)@, r@) == model::ask(old(self)@, phase, effects.deep_view(), request@),
    {
        self.phase = phase;
        Step { effects, next: Next::Ask(request) }
    }

    fn finish(&mut self, effects: Vec<Effect>) -> (r: Step)
        ensures
            (final(self)@, r@) == model::finish(old(self)@, effects.deep_view()),
    {
        self.phase = Phase::Idle;
        Step { effects, next: Next::Finished(Outcome::Completed) }
    }

    fn abort(&mut self) -> (r: Step)
        ensures
            (final(self)@, r@) == model::abort(old(self)@),
    {
        self.phase = Phase::Idle;
        Step { effects: no_effects(), next: Next::Finished(Outcome::Failed(Failure::Read)) }
    }

    fn set_icon(&mut self, icon: Icon)
        ensures
            final(self)@ == model::with_icon(old(self)@, icon),
    {
        self.icon = Some(icon);
    }

    fn next_primary_device(&mut self, effects: Vec<Effect>) -> (r: Step)
        ensures
            (final(self)@, r@) == model::next_primary_device(old(self)@, effects.deep_view()),
    {
        if self.devices.len() > 0 {
            self.device = take_first(&mut self.devices);
            let request = Request::Device(self.device.clone(), DeviceProperty::DeviceType);
            self.ask(Phase::PrimaryDeviceType, effects, request)
        } else if self.icon.is_none() {
            let mut effects = effects;
            push_effect(&mut effects, show_icon(Icon::Unknown));
            self.set_icon(Icon::Unknown);
            self.ask(Phase::Devices, effects, Request::Manager(ManagerProperty::Devices))
        } else {
            self.ask(Phase::Devices, effects, Request::Manager(ManagerProperty::Devices))
        }
    }

    fn next_device(&mut self, effects: Vec<Effect>) -> (r: Step)
        ensures
            (final(self)@, r@) == model::next_device(old(self)@, effects.deep_view()),
    {
        if self.devices.len() > 0 {
            self.device = take_first(&mut self.devices);
            let request = Request::Device(self.device.clone(), DeviceProperty::DeviceType);
            self.ask(Phase::DeviceType, effects, request)
        } else if self.vpn.len() > 0 {
            let mut effects = effects;
            let panel = VPNState { connections: copy_vpn_lines(&self.vpn) };
            push_effect(&mut effects, Effect::Show(TrayUpdate::Vpn(Some(panel))));
            self.finish(effects)
        } else {
            self.finish(effects)
        }
    }

    fn next_profile(&mut self) -> (r: Step)
        ensures
            (final(self)@, r@) == model::next_profile(old(self)@),
    {
        if self.items.len() > 0 {
            self.item = take_first(&mut self.items);
            let request = Request::ProfileId(self.item.clone());
            self.ask(Phase::WifiProfileId, no_effects(), request)
        } else {
            let request = Request::Device(self.device.clone(), DeviceProperty::AccessPoints);
            self.ask(Phase::WifiAccessPoints, no_effects(), request)
        }
    }

    fn next_access_point(&mut self) -> (r: Step)
        ensures
            (final(self)@, r@) == model::next_access_point(old(self)@),
    {
        if self.items.len() > 0 {
            self.item = take_first(&mut self.items);
            let request = Request::AccessPoint(self.item.clone(), AccessPointProperty::Ssid);
            self.ask(Phase::WifiSsid, no_effects(), request)
        } else {
            let request = Request::Device(self.device.clone(), DeviceProperty::ActiveConnection);
            self.ask(Phase::WifiActiveConnection, no_effects(), request)
        }
    }

    fn await_activation(&self) -> (r: Request)
        ensures
            r@ == model::await_activation(self@),
    {
        Request::NextDeviceState {
            device: self.device.clone(),
            timeout_secs: ACTIVATION_TIMEOUT_SECS,
        }
    }

    fn wait_again(&mut self) -> (r: Step)
        ensures
            (final(self)@, r@) == model::wait_again(old(self)@),
    {
        if self.attempts < MAX_ACTIVATION_ATTEMPTS {
            let request = self.await_activation();
            self.attempts = self.attempts + 1;
            self.ask(Phase::WifiActivation, no_effects(), request)
        } else {
            self.next_device(no_effects())
        }
    }

    fn show_full_panel(&self, on: bool) -> (r: Effect)
        ensures
            r@ == model::show_wifi(model::full_panel(self@, on)),
    {
        Effect::Show(
            TrayUpdate::Wireless(
                Some(
                    WifiState {
                        on,
                        known_connections: known_connections(&self.known_ids, &self.visible),
                        available_connections: copy_networks(&self.visible),
                    },
                ),
            ),
        )
    }

    /// Takes the answer to the question that was open, and says how the pass
    /// goes on.
    pub fn step(&mut self, response: Response) -> (r: Step)
        ensures
            (final(self)@, r@) == model::step(old(self)@, response@),
    {
        proof {
            reveal(model::step);
        }
        match self.phase {
            Phase::Idle => Step {
                effects: no_effects(),
                next: Next::Finished(Outcome::Failed(Failure::NotRunning)),
            },
            Phase::WirelessEnabled => match response {
                Response::Flag(on) => {
                    self.wifi_enabled = on;
                    self.ask(
                        Phase::BluetoothEnabled,
                        no_effects(),
                        Request::Manager(ManagerProperty::BluetoothEnabled),
                    )
                },
                _ => self.abort(),
            },
            Phase::BluetoothEnabled => match response {
                Response::Flag(on) => {
                    let panel = AirplaneModeState { on: airplane_mode(self.wifi_enabled, on) };
                    self.ask(
                        Phase::NetworkState,
                        one_effect(Effect::Show(TrayUpdate::AirplaneMode(Some(panel)))),
                        Request::Manager(ManagerProperty::State),
                    )
                },
                _ => self.abort(),
            },
            Phase::NetworkState => match response {
                Response::Code(code) => match quiet_icon(NmState::from(code)) {
                    Some(icon) => {
                        self.set_icon(icon);
                        self.finish(one_effect(show_icon(icon)))
                    },
                    None => self.ask(
                        Phase::Connectivity,
                        no_effects(),
                        Request::Manager(ManagerProperty::Connectivity),
                    ),
                },
                _ => self.abort(),
            },
            Phase::Connectivity => match response {
                Response::Code(code) => match NmConnectivityState::from(code) {
                    NmConnectivityState::Full => self.ask(
                        Phase::PrimaryConnection,
                        no_effects(),
                        Request::Manager(ManagerProperty::PrimaryConnection),
                    ),
                    NmConnectivityState::Loss => {
                        let mut effects = one_effect(show_icon(Icon::Limited));
                        push_effect(
                            &mut effects,
                            Effect::Recheck { delay_secs: RECHECK_DELAY_SECS },
                        );
                        self.set_icon(Icon::Limited);
                        self.ask(
                            Phase::Devices,
                            effects,
                            Request::Manager(ManagerProperty::Devices),
                        )
                    },
                    NmConnectivityState::NoConnectivity => {
                        self.set_icon(Icon::Disconnected);
                        self.finish(one_effect(show_icon(Icon::Disconnected)))
                    },
                    NmConnectivityState::Portal | NmConnectivityState::Unknown => {
                        self.set_icon(Icon::Unknown);
                        self.finish(one_effect(show_icon(Icon::Unknown)))
                    },
                },
                _ => self.abort(),
            },
            Phase::PrimaryConnection => match response {
                Response::Path(path) => match resolve(path) {
                    Some(connection) => self.ask(
                        Phase::PrimaryDevices,
                        no_effects(),
                        Request::Connection(connection, ConnectionProperty::Devices),
                    ),
                    None => {
                        self.set_icon(Icon::Unknown);
                        self.ask(
                            Phase::Devices,
                            one_effect(show_icon(Icon::Unknown)),
                            Request::Manager(ManagerProperty::Devices),
                        )
                    },
                },
                _ => self.abort(),
            },
            Phase::PrimaryDevices => match response {
                Response::Paths(devices) => {
                    self.devices = devices;
                    self.next_primary_device(no_effects())
                },
                _ => self.abort(),
            },
            Phase::PrimaryDeviceType => match response {
                Response::Code(code) => {
                    let device_type = DeviceType::from(code);
                    if device_type == DeviceType::Wifi {
                        let request = Request::Device(
                            self.device.clone(),
                            DeviceProperty::ActiveAccessPoint,
                        );
                        self.ask(Phase::PrimaryAccessPoint, no_effects(), request)
                    } else {
                        let icon = device_icon(device_type);
                        self.set_icon(icon);
                        self.next_primary_device(one_effect(show_icon(icon)))
                    }
                },
                _ => self.next_primary_device(no_effects()),
            },
            Phase::PrimaryAccessPoint => match response {
                Response::Path(path) => match resolve(path) {
                    Some(access_point) => self.ask(
                        Phase::PrimaryStrength,
                        no_effects(),
                        Request::AccessPoint(access_point, AccessPointProperty::Strength),
                    ),
                    None => {
                        self.set_icon(Icon::Unknown);
                        self.next_primary_device(one_effect(show_icon(Icon::Unknown)))
                    },
                },
                _ => self.abort(),
            },
            Phase::PrimaryStrength => match response {
                Response::Level(strength) => {
                    self.set_icon(Icon::Wifi(strength));
                    self.next_primary_device(one_effect(show_icon(Icon::Wifi(strength))))
                },
                _ => self.abort(),
            },
            Phase::Devices => match response {
                Response::Paths(devices) => {
                    self.devices = devices;
                    self.next_device(no_effects())
                },
                _ => self.abort(),
            },
            Phase::DeviceType => match response {
                Response::Code(code) => match DeviceType::from(code) {
                    DeviceType::Wifi => {
                        let request = Request::Device(self.device.clone(), DeviceProperty::State);
                        self.ask(Phase::WifiState, no_effects(), request)
                    },
                    DeviceType::Ethernet => {
                        let request = Request::Device(self.device.clone(), DeviceProperty::State);
                        self.ask(Phase::WiredState, no_effects(), request)
                    },
                    DeviceType::WireGuard => {
                        let request = Request::Device(
                            self.device.clone(),
                            DeviceProperty::ActiveConnection,
                        );
                        self.ask(Phase::VpnConnection, no_effects(), request)
                    },
                    _ => self.next_device(no_effects()),
                },
                _ => self.next_device(no_effects()),
            },
            Phase::WifiState => match response {
                Response::Code(code) => match DeviceState::from(code) {
                    DeviceState::Activated => {
                        let request = Request::Device(
                            self.device.clone(),
                            DeviceProperty::AvailableConnections,
                        );
                        self.ask(Phase::WifiProfiles, no_effects(), request)
                    },
                    DeviceState::Disconnected => self.ask(
                        Phase::WifiRadio,
                        no_effects(),
                        Request::Manager(ManagerProperty::WirelessEnabled),
                    ),
                    DeviceState::Unavailable => self.next_device(
                        one_effect(show_bare_panel(false)),
                    ),
                    _ => self.next_device(no_effects()),
                },
                _ => self.abort(),
            },
            Phase::WifiProfiles => match response {
                Response::Paths(profiles) => {
                    self.items = profiles;
                    self.known_ids = no_texts();
                    self.next_profile()
                },
                _ => self.abort(),
            },
            Phase::WifiProfileId => match response {
                Response::Text(id) => {
                    push_text(&mut self.known_ids, id);
                    self.next_profile()
                },
                _ => self.abort(),
            },
            Phase::WifiAccessPoints => match response {
                Response::Paths(access_points) => {
                    self.items = access_points;
                    self.visible = no_networks();
                    self.next_access_point()
                },
                _ => self.abort(),
            },
            Phase::WifiSsid => match response {
                Response::Bytes(ssid) => {
                    self.pending = text_of(ssid.as_slice());
                    let request = Request::AccessPoint(
                        self.item.clone(),
                        AccessPointProperty::HwAddress,
                    );
                    self.ask(Phase::WifiHwAddress, no_effects(), request)
                },
                _ => self.abort(),
            },
            Phase::WifiHwAddress => match response {
                Response::Text(hw_address) => {
                    let network = WifiConnection { ssid: self.pending.clone(), hw_address };
                    push_network(&mut self.visible, network);
                    self.next_access_point()
                },
                _ => self.abort(),
            },
            Phase::WifiActiveConnection => match response {
                Response::Path(path) => match resolve(path) {
                    Some(connection) => self.ask(
                        Phase::WifiConnectionState,
                        no_effects(),
                        Request::Connection(connection, ConnectionProperty::State),
                    ),
                    None => {
                        let effect = self.show_full_panel(false);
                        self.next_device(one_effect(effect))
                    },
                },
                _ => self.abort(),
            },
            Phase::WifiConnectionState => match response {
                Response::Code(code) => {
                    let on = ActiveConnectionState::from(code) == ActiveConnectionState::Activated;
                    let effect = self.show_full_panel(on);
                    self.next_device(one_effect(effect))
                },
                _ => self.abort(),
            },
            Phase::WifiRadio => match response {
                Response::Flag(on) => {
                    if on {
                        let request = Request::WatchDeviceState(self.device.clone());
                        self.ask(Phase::WifiWatch, one_effect(show_bare_panel(true)), request)
                    } else {
                        self.next_device(one_effect(show_bare_panel(false)))
                    }
                },
                _ => self.abort(),
            },
            Phase::WifiWatch => match response {
                Response::Done => {
                    let request = self.await_activation();
                    self.attempts = 1;
                    self.ask(Phase::WifiActivation, no_effects(), request)
                },
                _ => self.abort(),
            },
            Phase::WifiActivation => match response {
                Response::Code(code) => {
                    if DeviceState::from(code) == DeviceState::Activated {
                        self.next_device(one_effect(Effect::Notify(Event::Update)))
                    } else {
                        self.wait_again()
                    }
                },
                Response::TimedOut => self.wait_again(),
                _ => self.next_device(no_effects()),
            },
            Phase::WiredState => match response {
                Response::Code(code) => match wired_panel(DeviceState::from(code)) {
                    Some(panel) => self.next_device(
                        one_effect(Effect::Show(TrayUpdate::Wired(Some(panel)))),
                    ),
                    None => self.next_device(no_effects()),
                },
                _ => self.abort(),
            },
            Phase::VpnConnection => match response {
                Response::Path(path) => match resolve(path) {
                    Some(connection) => self.ask(
                        Phase::VpnName,
                        no_effects(),
                        Request::Connection(connection, ConnectionProperty::Id),
                    ),
                    None => self.next_device(no_effects()),
                },
                _ => self.abort(),
            },
            Phase::VpnName => match response {
                Response::Text(name) => {
                    self.pending = name;
                    let request = Request::Device(self.device.clone(), DeviceProperty::State);
                    self.ask(Phase::VpnState, no_effects(), request)
                },
                _ => self.abort(),
            },
            Phase::VpnState => match response {
                Response::Code(code) => {
                    let on = DeviceState::from(code) == DeviceState::Activated;
                    let line = VPNConnection { name: self.pending.clone(), on };
                    push_vpn_line(&mut self.vpn, line);
                    self.next_device(no_effects())
                },
                _ => self.abort(),
            },
        }
    }
}

} // verus!

verus! {

/// Runs a whole pass against a list of answers: the first answer goes to the
/// first question, and so on, until the pass ends or the answers run out.
pub fn replay(responses: Vec<Response>) -> (r: Transcript)
    ensures
        r@ == model::run(responses.deep_view()),
{
    let ghost script = responses.deep_view();
    let mut remaining = responses;
    let (mut machine, mut last) = Reconciler::begin();
    let mut requests = no_requests();
    let mut effects = no_effects();
    assert(model::run_from(machine@, last@, remaining.deep_view()).after(
        requests.deep_view(),
        effects.deep_view(),
    ) =~= model::run(script)) by {
        let t = model::run(script);
        assert(Seq::<crate::service::RequestView>::empty() + t.requests =~= t.requests);
        assert(Seq::<crate::service::EffectView>::empty() + t.effects =~= t.effects);
    }
    loop
        invariant
            script == responses.deep_view(),
            model::run_from(machine@, last@, remaining.deep_view()).after(
                requests.deep_view(),
                effects.deep_view(),
            ) == model::run(script),
        decreases remaining.len(),
    {
        let ghost before = model::run_from(machine@, last@, remaining.deep_view());
        let ghost requests_before = requests.deep_view();
        let ghost effects_before = effects.deep_view();
        let Step { effects: more, next } = last;
        append_effects(&mut effects, more);
        match next {
            Next::Finished(outcome) => {
                assert(requests_before + before.requests =~= requests.deep_view());
                return Transcript { requests, effects, outcome: Some(outcome) };
            },
            Next::Ask(request) => {
                let ghost asked = request@;
                push_request(&mut requests, request);
                if remaining.len() == 0 {
                    assert(requests_before + before.requests =~= requests.deep_view());
                    return Transcript { requests, effects, outcome: None };
                }
                let response = take_first_response(&mut remaining);
                last = machine.step(response);
                proof {
                    let rest = model::run_from(machine@, last@, remaining.deep_view());
                    assert(before == rest.after(seq![asked], more.deep_view()));
                    assert(requests_before + (seq![asked] + rest.requests) =~= requests.deep_view()
                        + rest.requests);
                    assert(effects_before + (more.deep_view() + rest.effects) =~= effects.deep_view()
                        + rest.effects);
                }
            },
        }
    }
}

/// Runs a whole pass against a service held in memory. The pass gives up
/// when it has had `patience` answers and is not over. Where the service can
/// answer everything that the pass asks, and `patience` is enough, the pass
/// ends in good order and shows what the service holds.
pub fn observe(service: &NetworkManager, patience: usize) -> (r: Transcript)
    ensures
        r@ == model::run_against(service@, patience as nat),
        legible(service@) && patience >= pass_cost(service@) ==> r@.outcome == Some(
            Outcome::Completed,
        ) && r@.effects == pass_effects(service@),
{
    proof {
        if legible(service@) && patience >= pass_cost(service@) {
            law_observed_pass_shows_the_service(service@, patience as nat);
        }
    }
    pass_against(service, patience)
}

fn pass_against(service: &NetworkManager, patience: usize) -> (r: Transcript)
    ensures
        r@ == model::run_against(service@, patience as nat),
{
    let ghost whole = model::run_against(service@, patience as nat);
    let mut left = patience;
    let (mut machine, mut last) = Reconciler::begin();
    let mut requests = no_requests();
    let mut effects = no_effects();
    assert(model::run_against_from(machine@, last@, service@, left as nat).after(
        requests.deep_view(),
        effects.deep_view(),
    ) =~= whole) by {
        assert(Seq::<crate::service::RequestView>::empty() + whole.requests =~= whole.requests);
        assert(Seq::<crate::service::EffectView>::empty() + whole.effects =~= whole.effects);
    }
    loop
        invariant
            whole == model::run_against(service@, patience as nat),
            model::run_against_from(machine@, last@, service@, left as nat).after(
                requests.deep_view(),
                effects.deep_view(),
            ) == whole,
        decreases left,
    {
        let ghost before = model::run_against_from(machine@, last@, service@, left as nat);
        let ghost requests_before = requests.deep_view();
        let ghost effects_before = effects.deep_view();
        let Step { effects: more, next } = last;
        append_effects(&mut effects, more);
        match next {
            Next::Finished(outcome) => {
                assert(requests_before + before.requests =~= requests.deep_view());
                return Transcript { requests, effects, outcome: Some(outcome) };
            },
            Next::Ask(request) => {
                let ghost asked = request@;
                if left == 0 {
                    push_request(&mut requests, request);
                    assert(requests_before + before.requests =~= requests.deep_view());
                    return Transcript { requests, effects, outcome: None };
                }
                let response = service.answer(&request);
                push_request(&mut requests, request);
                left = left - 1;
                last = machine.step(response);
                proof {
                    let rest = model::run_against_from(machine@, last@, service@, left as nat);
                    assert(before == rest.after(seq![asked], more.deep_view()));
                    assert(requests_before + (seq![asked] + rest.requests) =~= requests.deep_view()
                        + rest.requests);
                    assert(effects_before + (more.deep_view() + rest.effects) =~= effects.deep_view()
                        + rest.effects);
                }
            },
        }
    }
}

} // verus!
