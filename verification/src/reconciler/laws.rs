//! What holds of every status pass, whatever the service answers.

use crate::event::Event;
use crate::network::enums::{
    ActiveConnectionState, DeviceState, DeviceType, NmConnectivityState, NmState,
};
use crate::network::network_manager::NetworkManagerView;
use crate::reconciler::model::{
    await_activation, clear_panels, first_step, initial, next_access_point, next_profile, run,
    run_against, run_against_from, run_from, show_icon, show_wifi, step, Phase, ReconcilerView,
};
use crate::reconciler::rules::{
    lemma_known_connections, spec_airplane_mode, spec_known_connections, spec_quiet_icon,
    ACTIVATION_TIMEOUT_SECS, MAX_ACTIVATION_ATTEMPTS, RECHECK_DELAY_SECS,
};
use crate::service::{
    access_point_answers, name_answers, null_path, AccessPointAnswers, AccessPointProperty, ConnectionProperty,
    DeviceProperty, EffectView, ManagerProperty, NextView, Outcome, RequestView, ResponseView,
    StepView, TranscriptView,
};
use crate::status::{
    AirplaneModeState, Icon, TrayUpdateView, VPNConnectionView, VPNStateView, WifiConnectionView,
    WifiStateView, WiredState,
};
use crate::text::lossy_text;
use vstd::prelude::*;

verus! {

/// The icon that the tray shows after the effects: that of the last icon
/// update among them.
pub open spec fn shown_icon(effects: Seq<EffectView>) -> Option<Icon>
    decreases effects.len(),
{
    if effects.len() == 0 {
        None
    } else {
        match effects.last() {
            EffectView::Show(TrayUpdateView::Icon(icon)) => Some(icon),
            _ => shown_icon(effects.drop_last()),
        }
    }
}

/// Whether a wifi panel, if the effect shows one, lists only known networks
/// that have a hardware address.
pub open spec fn known_networks_resolved(effect: EffectView) -> bool {
    effect matches EffectView::Show(TrayUpdateView::Wireless(Some(panel))) ==> forall|k: int|
        0 <= k < panel.known_connections.len() ==> (
        #[trigger] panel.known_connections[k]).hw_address.len() > 0
}

/// Whether the pass has settled its icon and is busy with the panels.
pub open spec fn at_panels(phase: Phase) -> bool {
    phase != Phase::Idle && phase != Phase::WirelessEnabled && phase != Phase::BluetoothEnabled
        && phase != Phase::NetworkState && phase != Phase::Connectivity && phase
        != Phase::PrimaryConnection && phase != Phase::PrimaryDevices && phase
        != Phase::PrimaryDeviceType && phase != Phase::PrimaryAccessPoint && phase
        != Phase::PrimaryStrength
}

/// An effect at the end of a row: an icon update is the icon on show, and
/// anything else leaves the icon that was on show.
proof fn lemma_shown_icon_push()
    ensures
        forall|effects: Seq<EffectView>, effect: EffectView|
            #[trigger] shown_icon(effects.push(effect)) == (match effect {
                EffectView::Show(TrayUpdateView::Icon(icon)) => Some(icon),
                _ => shown_icon(effects),
            }),
{
    assert forall|effects: Seq<EffectView>, effect: EffectView|
        #[trigger] shown_icon(effects.push(effect)) == (match effect {
            EffectView::Show(TrayUpdateView::Icon(icon)) => Some(icon),
            _ => shown_icon(effects),
        }) by {
        assert(effects.push(effect).drop_last() =~= effects);
    }
}

proof fn lemma_shown_icon_concat(first: Seq<EffectView>, second: Seq<EffectView>)
    ensures
        shown_icon(first + second) == (match shown_icon(second) {
            Some(icon) => Some(icon),
            None => shown_icon(first),
        }),
    decreases second.len(),
{
    if second.len() == 0 {
        assert(first + second =~= first);
    } else {
        assert((first + second).drop_last() =~= first + second.drop_last());
        lemma_shown_icon_concat(first, second.drop_last());
    }
}

/// A step remembers the icon that it shows, and no other step changes what
/// is remembered.
proof fn lemma_step_icon(s: ReconcilerView, response: ResponseView)
    ensures
        step(s, response).0.icon == (match shown_icon(step(s, response).1.effects) {
            Some(icon) => Some(icon),
            None => s.icon,
        }),
{
    reveal(step);
    lemma_shown_icon_push();
}

/// Once the pass is at the panels it has an icon, keeps it, and stays at the
/// panels until it ends.
proof fn lemma_step_at_panels(s: ReconcilerView, response: ResponseView)
    requires
        at_panels(s.phase),
    ensures
        step(s, response).0.icon == s.icon,
        at_panels(step(s, response).0.phase) || step(s, response).1.next is Finished,
{
    reveal(step);
}

/// Whenever a step takes the pass to the panels, or ends it in good order,
/// an icon has been shown.
proof fn lemma_step_settles_icon(s: ReconcilerView, response: ResponseView)
    requires
        s.phase != Phase::Idle,
        at_panels(s.phase) ==> s.icon is Some,
    ensures
        at_panels(step(s, response).0.phase) ==> step(s, response).0.icon is Some,
        step(s, response).1.next == NextView::Finished(Outcome::Completed) ==> step(
            s,
            response,
        ).0.icon is Some,
        step(s, response).1.next is Ask ==> step(s, response).0.phase != Phase::Idle,
{
    reveal(step);
}

/// No step asks the service to change anything.
proof fn lemma_step_reads_only(s: ReconcilerView, response: ResponseView)
    ensures
        step(s, response).1.next matches NextView::Ask(request) ==> !request.is_write(),
{
    reveal(step);
}

/// Every wifi panel that a step shows lists only known networks with a
/// hardware address.
proof fn lemma_step_resolves_known_networks(s: ReconcilerView, response: ResponseView)
    ensures
        forall|i: int|
            0 <= i < step(s, response).1.effects.len() ==> known_networks_resolved(
                #[trigger] step(s, response).1.effects[i],
            ),
{
    reveal(step);
    lemma_known_connections(s.known_ids, s.visible);
}

proof fn lemma_run_reads_only(s: ReconcilerView, last: StepView, responses: Seq<ResponseView>)
    requires
        last.next matches NextView::Ask(request) ==> !request.is_write(),
    ensures
        forall|i: int|
            0 <= i < run_from(s, last, responses).requests.len() ==> !(#[trigger] run_from(
                s,
                last,
                responses,
            ).requests[i]).is_write(),
    decreases responses.len(),
{
    if last.next is Ask && responses.len() > 0 {
        let (s2, next) = step(s, responses[0]);
        lemma_step_reads_only(s, responses[0]);
        lemma_run_reads_only(s2, next, responses.drop_first());
    }
}

proof fn lemma_run_resolves_known_networks(
    s: ReconcilerView,
    last: StepView,
    responses: Seq<ResponseView>,
)
    requires
        forall|i: int| 0 <= i < last.effects.len() ==> known_networks_resolved(#[trigger] last.effects[i]),
    ensures
        forall|i: int|
            0 <= i < run_from(s, last, responses).effects.len() ==> known_networks_resolved(
                #[trigger] run_from(s, last, responses).effects[i],
            ),
    decreases responses.len(),
{
    if last.next is Ask && responses.len() > 0 {
        let (s2, next) = step(s, responses[0]);
        lemma_step_resolves_known_networks(s, responses[0]);
        lemma_run_resolves_known_networks(s2, next, responses.drop_first());
    }
}

/// The icon on show at the end of a run is the one that the machine
/// remembers then; a run that ends in good order has one.
proof fn lemma_run_icon(
    s: ReconcilerView,
    last: StepView,
    responses: Seq<ResponseView>,
    shown: Seq<EffectView>,
)
    requires
        shown_icon(shown + last.effects) == s.icon,
        at_panels(s.phase) ==> s.icon is Some,
        last.next == NextView::Finished(Outcome::Completed) ==> s.icon is Some,
        last.next is Ask ==> s.phase != Phase::Idle,
    ensures
        run_from(s, last, responses).outcome == Some(Outcome::Completed) ==> shown_icon(
            shown + run_from(s, last, responses).effects,
        ) is Some,
        at_panels(s.phase) ==> shown_icon(shown + run_from(s, last, responses).effects) == s.icon,
    decreases responses.len(),
{
    if last.next is Ask && responses.len() > 0 {
        let (s2, next) = step(s, responses[0]);
        let rest = run_from(s2, next, responses.drop_first());
        let shown2 = shown + last.effects;
        lemma_step_icon(s, responses[0]);
        lemma_step_settles_icon(s, responses[0]);
        lemma_shown_icon_concat(shown2, next.effects);
        if at_panels(s.phase) {
            lemma_step_at_panels(s, responses[0]);
        }
        lemma_run_icon(s2, next, responses.drop_first(), shown2);
        assert(shown2 + rest.effects =~= shown + (last.effects + rest.effects));
        if at_panels(s.phase) && !at_panels(s2.phase) {
            assert(rest.effects == next.effects);
        }
    }
}

/// A pass never asks the service to change anything: whatever the answers,
/// none of its questions is a write.
pub proof fn law_pass_reads_only(responses: Seq<ResponseView>)
    ensures
        forall|i: int|
            0 <= i < run(responses).requests.len() ==> !(#[trigger] run(responses).requests[i]).is_write(),
{
    lemma_run_reads_only(initial(), first_step(), responses);
}

/// A pass begins by taking every panel away: whatever the answers, its first
/// four effects clear the wifi, wired, VPN and airplane-mode panels, in this
/// order.
pub proof fn law_pass_clears_panels_first(responses: Seq<ResponseView>)
    ensures
        run(responses).effects.len() >= 4,
        run(responses).effects.take(4) == clear_panels(),
{
    assert(run(responses).effects.take(4) =~= clear_panels());
}

/// Whatever the answers, every wifi panel that a pass shows lists only known
/// networks that have a hardware address.
pub proof fn law_known_networks_have_hardware_address(responses: Seq<ResponseView>)
    ensures
        forall|i: int|
            0 <= i < run(responses).effects.len() ==> known_networks_resolved(
                #[trigger] run(responses).effects[i],
            ),
{
    lemma_run_resolves_known_networks(initial(), first_step(), responses);
}

/// A pass that ends in good order has shown an icon.
pub proof fn law_completed_pass_shows_icon(responses: Seq<ResponseView>)
    ensures
        run(responses).outcome == Some(Outcome::Completed) ==> shown_icon(run(responses).effects) is Some,
{
    lemma_shown_icon_push();
    let none = Seq::<EffectView>::empty();
    assert(none + first_step().effects =~= clear_panels());
    lemma_run_icon(initial(), first_step(), responses, none);
    assert(none + run(responses).effects =~= run(responses).effects);
}

/// The answers of a pass up to the state of networking.
pub open spec fn opening_answers(wifi_enabled: bool, bluetooth_enabled: bool, code: u32) -> Seq<
    ResponseView,
> {
    seq![
        ResponseView::Flag(wifi_enabled),
        ResponseView::Flag(bluetooth_enabled),
        ResponseView::Code(code),
    ]
}

/// When networking is asleep, disconnected, connecting, disconnecting or in
/// an unknown state, the pass is over after three questions: the two radios
/// and the state. It shows the airplane-mode panel and the icon of the state
/// (`Off`, `Disconnected`, `Busy`, `Busy`, `Unknown`), and asks for no device.
pub proof fn law_quiet_state_ends_pass(
    wifi_enabled: bool,
    bluetooth_enabled: bool,
    code: u32,
    more: Seq<ResponseView>,
)
    requires
        !NmState::of_code(code).is_connected(),
    ensures
        spec_quiet_icon(NmState::of_code(code)) == Some(
            match NmState::of_code(code) {
                NmState::Asleep => Icon::Off,
                NmState::Disconnected => Icon::Disconnected,
                NmState::Connecting => Icon::Busy,
                NmState::Disconnecting => Icon::Busy,
                _ => Icon::Unknown,
            },
        ),
        ({
            let pass = run(opening_answers(wifi_enabled, bluetooth_enabled, code) + more);
            &&& pass.requests == seq![
                RequestView::Manager(ManagerProperty::WirelessEnabled),
                RequestView::Manager(ManagerProperty::BluetoothEnabled),
                RequestView::Manager(ManagerProperty::State),
            ]
            &&& forall|i: int|
                0 <= i < pass.requests.len() ==> !(#[trigger] pass.requests[i]).lists_devices()
            &&& pass.effects == clear_panels() + seq![
                EffectView::Show(
                    TrayUpdateView::AirplaneMode(
                        Some(
                            AirplaneModeState {
                                on: spec_airplane_mode(wifi_enabled, bluetooth_enabled),
                            },
                        ),
                    ),
                ),
                show_icon(spec_quiet_icon(NmState::of_code(code))->0),
            ]
            &&& pass.outcome == Some(Outcome::Completed)
        }),
{
    reveal(step);
    let r0 = opening_answers(wifi_enabled, bluetooth_enabled, code) + more;
    let (s1, a1) = step(initial(), r0[0]);
    let r1 = r0.drop_first();
    let (s2, a2) = step(s1, r1[0]);
    let r2 = r1.drop_first();
    let (s3, a3) = step(s2, r2[0]);
    let r3 = r2.drop_first();
    let t3 = run_from(s3, a3, r3);
    let t2 = run_from(s2, a2, r2);
    let t1 = run_from(s1, a1, r1);
    let t0 = run_from(initial(), first_step(), r0);
    assert(t3.requests =~= Seq::empty());
    assert(t2 == t3.after(seq![RequestView::Manager(ManagerProperty::State)], a2.effects));
    assert(t1 == t2.after(seq![RequestView::Manager(ManagerProperty::BluetoothEnabled)], a1.effects));
    assert(t0 == t1.after(
        seq![RequestView::Manager(ManagerProperty::WirelessEnabled)],
        first_step().effects,
    ));
    assert(t0.requests =~= seq![
        RequestView::Manager(ManagerProperty::WirelessEnabled),
        RequestView::Manager(ManagerProperty::BluetoothEnabled),
        RequestView::Manager(ManagerProperty::State),
    ]);
    assert(t0.effects =~= clear_panels() + seq![
        EffectView::Show(
            TrayUpdateView::AirplaneMode(
                Some(AirplaneModeState { on: spec_airplane_mode(wifi_enabled, bluetooth_enabled) }),
            ),
        ),
        show_icon(spec_quiet_icon(NmState::of_code(code))->0),
    ]);
}

/// The answers of a pass that finds full connectivity over one wifi device
/// up to the signal strength of its access point.
pub open spec fn wifi_primary_answers(
    wifi_enabled: bool,
    bluetooth_enabled: bool,
    state: u32,
    connectivity: u32,
    primary: Seq<char>,
    device: Seq<char>,
    device_type: u32,
    access_point: Seq<char>,
    strength: u8,
) -> Seq<ResponseView> {
    seq![
        ResponseView::Flag(wifi_enabled),
        ResponseView::Flag(bluetooth_enabled),
        ResponseView::Code(state),
        ResponseView::Code(connectivity),
        ResponseView::Path(primary),
        ResponseView::Paths(seq![device]),
        ResponseView::Code(device_type),
        ResponseView::Path(access_point),
        ResponseView::Level(strength),
    ]
}

/// With full connectivity over a primary connection whose device is a wifi
/// device, the icon is `Wifi` with the signal strength of the device's access
/// point: it is shown, and nothing that the pass shows later replaces it.
pub proof fn law_wifi_primary_icon(
    wifi_enabled: bool,
    bluetooth_enabled: bool,
    state: u32,
    connectivity: u32,
    primary: Seq<char>,
    device: Seq<char>,
    device_type: u32,
    access_point: Seq<char>,
    strength: u8,
    more: Seq<ResponseView>,
)
    requires
        NmState::of_code(state).is_connected(),
        NmConnectivityState::of_code(connectivity) == NmConnectivityState::Full,
        primary != null_path(),
        DeviceType::of_code(device_type) == DeviceType::Wifi,
        access_point != null_path(),
    ensures
        shown_icon(
            run(
                wifi_primary_answers(
                    wifi_enabled,
                    bluetooth_enabled,
                    state,
                    connectivity,
                    primary,
                    device,
                    device_type,
                    access_point,
                    strength,
                ) + more,
            ).effects,
        ) == Some(Icon::Wifi(strength)),
        run(
            wifi_primary_answers(
                wifi_enabled,
                bluetooth_enabled,
                state,
                connectivity,
                primary,
                device,
                device_type,
                access_point,
                strength,
            ) + more,
        ).requests.take(9) == seq![
            RequestView::Manager(ManagerProperty::WirelessEnabled),
            RequestView::Manager(ManagerProperty::BluetoothEnabled),
            RequestView::Manager(ManagerProperty::State),
            RequestView::Manager(ManagerProperty::Connectivity),
            RequestView::Manager(ManagerProperty::PrimaryConnection),
            RequestView::Connection(primary, ConnectionProperty::Devices),
            RequestView::Device(device, DeviceProperty::DeviceType),
            RequestView::Device(device, DeviceProperty::ActiveAccessPoint),
            RequestView::AccessPoint(access_point, AccessPointProperty::Strength),
        ],
{
    reveal(step);
    lemma_shown_icon_push();
    let answers = wifi_primary_answers(
        wifi_enabled,
        bluetooth_enabled,
        state,
        connectivity,
        primary,
        device,
        device_type,
        access_point,
        strength,
    );
    let r0 = answers + more;
    let s0 = initial();
    let a0 = first_step();
    let (s1, a1) = step(s0, r0[0]);
    let r1 = r0.drop_first();
    let (s2, a2) = step(s1, r1[0]);
    let r2 = r1.drop_first();
    let (s3, a3) = step(s2, r2[0]);
    let r3 = r2.drop_first();
    let (s4, a4) = step(s3, r3[0]);
    let r4 = r3.drop_first();
    let (s5, a5) = step(s4, r4[0]);
    let r5 = r4.drop_first();
    let (s6, a6) = step(s5, r5[0]);
    let r6 = r5.drop_first();
    let (s7, a7) = step(s6, r6[0]);
    let r7 = r6.drop_first();
    let (s8, a8) = step(s7, r7[0]);
    let r8 = r7.drop_first();
    let (s9, a9) = step(s8, r8[0]);
    let r9 = r8.drop_first();
    assert(r0[0] == answers[0] && r1[0] == answers[1] && r2[0] == answers[2]);
    assert(r3[0] == answers[3] && r4[0] == answers[4] && r5[0] == answers[5]);
    assert(r6[0] == answers[6] && r7[0] == answers[7] && r8[0] == answers[8]);
    assert(s6.devices =~= Seq::empty());
    assert(s9.icon == Some(Icon::Wifi(strength)));
    let t9 = run_from(s9, a9, r9);
    let t8 = run_from(s8, a8, r8);
    let t7 = run_from(s7, a7, r7);
    let t6 = run_from(s6, a6, r6);
    let t5 = run_from(s5, a5, r5);
    let t4 = run_from(s4, a4, r4);
    let t3 = run_from(s3, a3, r3);
    let t2 = run_from(s2, a2, r2);
    let t1 = run_from(s1, a1, r1);
    let t0 = run_from(s0, a0, r0);
    assert(t8 == t9.after(seq![a8.next->Ask_0], a8.effects));
    assert(t7 == t8.after(seq![a7.next->Ask_0], a7.effects));
    assert(t6 == t7.after(seq![a6.next->Ask_0], a6.effects));
    assert(t5 == t6.after(seq![a5.next->Ask_0], a5.effects));
    assert(t4 == t5.after(seq![a4.next->Ask_0], a4.effects));
    assert(t3 == t4.after(seq![a3.next->Ask_0], a3.effects));
    assert(t2 == t3.after(seq![a2.next->Ask_0], a2.effects));
    assert(t1 == t2.after(seq![a1.next->Ask_0], a1.effects));
    assert(t0 == t1.after(seq![a0.next->Ask_0], a0.effects));
    let shown = a0.effects + a2.effects;
    assert(a1.effects.len() == 0 && a3.effects.len() == 0 && a4.effects.len() == 0);
    assert(a5.effects.len() == 0 && a6.effects.len() == 0 && a7.effects.len() == 0);
    assert(a8.effects.len() == 0);
    assert(a9.effects =~= seq![show_icon(Icon::Wifi(strength))]);
    lemma_shown_icon_concat(shown, a9.effects);
    lemma_run_icon(s9, a9, r9, shown);
    assert(t0.effects =~= shown + t9.effects);
    assert(t0.requests.take(9) =~= seq![
        RequestView::Manager(ManagerProperty::WirelessEnabled),
        RequestView::Manager(ManagerProperty::BluetoothEnabled),
        RequestView::Manager(ManagerProperty::State),
        RequestView::Manager(ManagerProperty::Connectivity),
        RequestView::Manager(ManagerProperty::PrimaryConnection),
        RequestView::Connection(primary, ConnectionProperty::Devices),
        RequestView::Device(device, DeviceProperty::DeviceType),
        RequestView::Device(device, DeviceProperty::ActiveAccessPoint),
        RequestView::AccessPoint(access_point, AccessPointProperty::Strength),
    ]);
}

/// The answers that a pass gets from a service that stands still, up to
/// `patience` of them.
pub open spec fn answers_of(
    s: ReconcilerView,
    last: StepView,
    service: NetworkManagerView,
    patience: nat,
) -> Seq<ResponseView>
    decreases patience,
{
    match last.next {
        NextView::Ask(request) => if patience == 0 {
            Seq::empty()
        } else {
            seq![service.answer(request)] + answers_of(
                step(s, service.answer(request)).0,
                step(s, service.answer(request)).1,
                service,
                (patience - 1) as nat,
            )
        },
        NextView::Finished(_) => Seq::empty(),
    }
}

proof fn lemma_run_against_is_run(
    s: ReconcilerView,
    last: StepView,
    service: NetworkManagerView,
    patience: nat,
)
    ensures
        run_against_from(s, last, service, patience) == run_from(
            s,
            last,
            answers_of(s, last, service, patience),
        ),
    decreases patience,
{
    if let NextView::Ask(request) = last.next {
        if patience > 0 {
            let answer = service.answer(request);
            let (s2, next) = step(s, answer);
            let later = answers_of(s2, next, service, (patience - 1) as nat);
            lemma_run_against_is_run(s2, next, service, (patience - 1) as nat);
            assert((seq![answer] + later).drop_first() =~= later);
        }
    }
}

/// A pass against a service held in memory is a pass like any other: it is
/// the pass against the answers that the service gives. So whatever holds of
/// every pass holds of it.
pub proof fn law_observed_pass_is_a_pass(service: NetworkManagerView, patience: nat)
    ensures
        run_against(service, patience) == run(
            answers_of(initial(), first_step(), service, patience),
        ),
{
    lemma_run_against_is_run(initial(), first_step(), service, patience);
}

/// An answer to a wait for a wifi device that leaves the device still to
/// come up: no state change in time, or a change to a state other than
/// activated.
pub open spec fn keeps_waiting(response: ResponseView) -> bool {
    response is TimedOut || (response matches ResponseView::Code(code) && DeviceState::of_code(
        code,
    ) != DeviceState::Activated)
}

/// Whether the request is a wait for a state change.
pub open spec fn is_wait(request: RequestView) -> bool {
    request is NextDeviceState
}

/// What a wait for a wifi device has asked and done when it gave up after
/// `waits` waits: each of its first `waits` requests was the wait for the
/// device, the next request, if there is one, is no wait, and no effect asks
/// for a status pass.
pub open spec fn gave_up_after(t: TranscriptView, wait: RequestView, waits: int) -> bool {
    &&& waits <= t.requests.len() <= waits + 1
    &&& forall|i: int| 0 <= i < waits ==> #[trigger] t.requests[i] == wait
    &&& t.requests.len() == waits + 1 ==> !is_wait(t.requests[waits])
    &&& forall|j: int|
        0 <= j < t.effects.len() ==> #[trigger] t.effects[j] != EffectView::Notify(Event::Update)
}

proof fn lemma_wait_gives_up(s: ReconcilerView, answers: Seq<ResponseView>)
    requires
        s.phase == Phase::WifiActivation,
        1 <= s.attempts <= MAX_ACTIVATION_ATTEMPTS,
        answers.len() == MAX_ACTIVATION_ATTEMPTS + 1 - s.attempts,
        forall|i: int| 0 <= i < answers.len() ==> keeps_waiting(#[trigger] answers[i]),
    ensures
        gave_up_after(
            run_from(
                s,
                StepView { effects: Seq::empty(), next: NextView::Ask(await_activation(s)) },
                answers,
            ),
            await_activation(s),
            answers.len() as int,
        ),
    decreases answers.len(),
{
    reveal(step);
    let wait = await_activation(s);
    let last = StepView { effects: Seq::empty(), next: NextView::Ask(wait) };
    let (s2, next) = step(s, answers[0]);
    let later = answers.drop_first();
    let rest = run_from(s2, next, later);
    let all = run_from(s, last, answers);
    assert(keeps_waiting(answers[0]));
    assert(all == rest.after(seq![wait], last.effects));
    if s.attempts < MAX_ACTIVATION_ATTEMPTS {
        assert forall|i: int| 0 <= i < later.len() implies keeps_waiting(#[trigger] later[i]) by {
            assert(later[i] == answers[i + 1]);
        }
        lemma_wait_gives_up(s2, later);
        assert(next == StepView { effects: Seq::empty(), next: NextView::Ask(wait) });
        assert forall|i: int| 0 <= i < answers.len() implies #[trigger] all.requests[i] == wait by {
            if i > 0 {
                assert(all.requests[i] == rest.requests[i - 1]);
            }
        }
        assert(all.requests.len() == answers.len() + 1 ==> all.requests[answers.len() as int]
            == rest.requests[later.len() as int]);
        assert(all.effects =~= rest.effects);
    } else {
        assert(later.len() == 0);
        assert(all.effects =~= next.effects);
        assert(all.requests.len() == 2 ==> all.requests[1] == rest.requests[0]);
    }
}

/// The wait for a wifi device to come up is bounded. Once the watch on the
/// device stands, the pass waits for a state change up to twenty times, each
/// time for twenty seconds. If no wait brings the activated state, the pass
/// asks for no twenty-first wait: it gives the device up without asking for a
/// status pass, and goes on.
pub proof fn law_activation_wait_gives_up(s: ReconcilerView, answers: Seq<ResponseView>)
    requires
        s.phase == Phase::WifiWatch,
        answers.len() == MAX_ACTIVATION_ATTEMPTS,
        forall|i: int| 0 <= i < answers.len() ==> keeps_waiting(#[trigger] answers[i]),
    ensures
        step(s, ResponseView::Done).1.next == NextView::Ask(
            RequestView::NextDeviceState { device: s.device, timeout_secs: ACTIVATION_TIMEOUT_SECS },
        ),
        gave_up_after(
            run_from(step(s, ResponseView::Done).0, step(s, ResponseView::Done).1, answers),
            RequestView::NextDeviceState { device: s.device, timeout_secs: ACTIVATION_TIMEOUT_SECS },
            MAX_ACTIVATION_ATTEMPTS as int,
        ),
{
    reveal(step);
    lemma_wait_gives_up(step(s, ResponseView::Done).0, answers);
}

/// A wait that brings the activated state ends the waiting at once, and asks
/// for a fresh status pass.
pub proof fn law_activation_asks_for_pass(s: ReconcilerView, code: u32)
    requires
        s.phase == Phase::WifiActivation,
        DeviceState::of_code(code) == DeviceState::Activated,
    ensures
        step(s, ResponseView::Code(code)).1.effects.len() >= 1,
        step(s, ResponseView::Code(code)).1.effects[0] == EffectView::Notify(Event::Update),
        step(s, ResponseView::Code(code)).0.phase != Phase::WifiActivation,
{
    reveal(step);
}

/// The networks that the access points offer, as a pass notes them.
pub open spec fn networks_of(access_points: Seq<AccessPointAnswers>) -> Seq<WifiConnectionView> {
    Seq::new(
        access_points.len(),
        |i: int|
            WifiConnectionView {
                ssid: lossy_text(access_points[i].ssid),
                hw_address: access_points[i].hw_address,
            },
    )
}

/// The answers of an activated wifi device with a connection, in the order
/// in which a pass asks them: its kind and state, its configured
/// connections and the name of each, its access points and of each the name
/// and the hardware address, its connection and the state of that.
pub open spec fn wifi_device_answers(
    device_type: u32,
    device_state: u32,
    profile_paths: Seq<Seq<char>>,
    ids: Seq<Seq<char>>,
    access_point_paths: Seq<Seq<char>>,
    access_points: Seq<AccessPointAnswers>,
    connection: Seq<char>,
    connection_state: u32,
) -> Seq<ResponseView> {
    seq![
        ResponseView::Code(device_type),
        ResponseView::Code(device_state),
        ResponseView::Paths(profile_paths),
    ] + name_answers(ids) + seq![ResponseView::Paths(access_point_paths)] + access_point_answers(
        access_points,
    ) + seq![ResponseView::Path(connection), ResponseView::Code(connection_state)]
}

/// Whether the first thing that the transcript shows is the effect.
pub open spec fn shows_first(t: TranscriptView, effect: EffectView) -> bool {
    t.effects.len() > 0 && t.effects[0] == effect
}

/// A question in front of a transcript, with nothing to show, leaves what
/// the transcript shows first.
proof fn lemma_question_before(t: TranscriptView, request: RequestView, effect: EffectView)
    requires
        shows_first(t, effect),
    ensures
        shows_first(t.after(seq![request], Seq::empty()), effect),
{
    assert(Seq::<EffectView>::empty() + t.effects =~= t.effects);
}

/// Reading the names of the configured connections: what the pass shows
/// first once they are all read, it shows first from here as well.
proof fn lemma_reading_profiles(
    s: ReconcilerView,
    ids: Seq<Seq<char>>,
    rest: Seq<ResponseView>,
    effect: EffectView,
)
    requires
        s.items.len() == ids.len(),
        forall|done: ReconcilerView|
            done.items.len() == 0 && done.device == s.device && done.known_ids == s.known_ids + ids
                ==> shows_first(
                run_from((#[trigger] next_profile(done)).0, next_profile(done).1, rest),
                effect,
            ),
    ensures
        shows_first(
            run_from(next_profile(s).0, next_profile(s).1, name_answers(ids) + rest),
            effect,
        ),
    decreases ids.len(),
{
    reveal(step);
    if ids.len() == 0 {
        assert(name_answers(ids) + rest =~= rest);
        assert(s.known_ids + ids =~= s.known_ids);
    } else {
        let (s1, a1) = next_profile(s);
        let r0 = name_answers(ids) + rest;
        let later = ids.drop_first();
        assert(r0[0] == ResponseView::Text(ids[0]));
        let (s2, a2) = step(s1, r0[0]);
        let r1 = r0.drop_first();
        assert(r1 =~= name_answers(later) + rest);
        let named = ReconcilerView { known_ids: s1.known_ids.push(ids[0]), ..s1 };
        assert((s2, a2) == next_profile(named));
        assert(named.items =~= s.items.drop_first());
        assert(named.known_ids + later =~= s.known_ids + ids);
        lemma_reading_profiles(named, later, rest, effect);
        let t2 = run_from(s2, a2, r1);
        let t1 = run_from(s1, a1, r0);
        assert(t1 == t2.after(seq![a1.next->Ask_0], a1.effects));
        lemma_question_before(t2, a1.next->Ask_0, effect);
    }
}

/// Reading the access points: what the pass shows first once they are all
/// noted, it shows first from here as well.
proof fn lemma_reading_networks(
    s: ReconcilerView,
    access_points: Seq<AccessPointAnswers>,
    rest: Seq<ResponseView>,
    effect: EffectView,
)
    requires
        s.items.len() == access_points.len(),
        forall|done: ReconcilerView|
            done.items.len() == 0 && done.device == s.device && done.known_ids == s.known_ids
                && done.visible == s.visible + networks_of(access_points) ==> shows_first(
                run_from((#[trigger] next_access_point(done)).0, next_access_point(done).1, rest),
                effect,
            ),
    ensures
        shows_first(
            run_from(
                next_access_point(s).0,
                next_access_point(s).1,
                access_point_answers(access_points) + rest,
            ),
            effect,
        ),
    decreases access_points.len(),
{
    reveal(step);
    if access_points.len() == 0 {
        assert(access_point_answers(access_points) + rest =~= rest);
        assert(s.visible + networks_of(access_points) =~= s.visible);
    } else {
        let (s1, a1) = next_access_point(s);
        let r0 = access_point_answers(access_points) + rest;
        let later = access_points.drop_first();
        assert(r0[0] == ResponseView::Bytes(access_points[0].ssid));
        let (s2, a2) = step(s1, r0[0]);
        let r1 = r0.drop_first();
        assert(r1[0] == ResponseView::Text(access_points[0].hw_address));
        let (s3, a3) = step(s2, r1[0]);
        let r2 = r1.drop_first();
        assert(r2 =~= access_point_answers(later) + rest);
        let noted = ReconcilerView {
            visible: s2.visible.push(
                WifiConnectionView {
                    ssid: lossy_text(access_points[0].ssid),
                    hw_address: access_points[0].hw_address,
                },
            ),
            ..s2
        };
        assert((s3, a3) == next_access_point(noted));
        assert(noted.items =~= s.items.drop_first());
        assert(noted.visible + networks_of(later) =~= s.visible + networks_of(access_points));
        lemma_reading_networks(noted, later, rest, effect);
        let t3 = run_from(s3, a3, r2);
        let t2 = run_from(s2, a2, r1);
        assert(t2 == t3.after(seq![a2.next->Ask_0], a2.effects));
        lemma_question_before(t3, a2.next->Ask_0, effect);
        let t1 = run_from(s1, a1, r0);
        assert(t1 == t2.after(seq![a1.next->Ask_0], a1.effects));
        lemma_question_before(t2, a1.next->Ask_0, effect);
    }
}

/// The wifi panel of an activated wifi device. When a pass turns to a
/// device that says it is a wifi device, activated and with a connection,
/// the next thing it shows is the wifi panel of that device: on when the
/// connection is activated; with the networks of all its access points as
/// the networks in reach; and as the known networks, for each configured
/// name in turn, the first of those networks that carries the name, left out
/// where it has none or where that network has no hardware address.
pub proof fn law_wifi_panel_of_activated_device(
    s: ReconcilerView,
    device_type: u32,
    device_state: u32,
    profile_paths: Seq<Seq<char>>,
    ids: Seq<Seq<char>>,
    access_point_paths: Seq<Seq<char>>,
    access_points: Seq<AccessPointAnswers>,
    connection: Seq<char>,
    connection_state: u32,
    more: Seq<ResponseView>,
)
    requires
        s.phase == Phase::DeviceType,
        DeviceType::of_code(device_type) == DeviceType::Wifi,
        DeviceState::of_code(device_state) == DeviceState::Activated,
        profile_paths.len() == ids.len(),
        access_point_paths.len() == access_points.len(),
        connection != null_path(),
    ensures
        shows_first(
            run_from(
                s,
                StepView {
                    effects: Seq::empty(),
                    next: NextView::Ask(RequestView::Device(s.device, DeviceProperty::DeviceType)),
                },
                wifi_device_answers(
                    device_type,
                    device_state,
                    profile_paths,
                    ids,
                    access_point_paths,
                    access_points,
                    connection,
                    connection_state,
                ) + more,
            ),
            show_wifi(
                WifiStateView {
                    on: ActiveConnectionState::of_code(connection_state)
                        == ActiveConnectionState::Activated,
                    known_connections: spec_known_connections(ids, networks_of(access_points)),
                    available_connections: networks_of(access_points),
                },
            ),
        ),
{
    reveal(step);
    let panel = show_wifi(
        WifiStateView {
            on: ActiveConnectionState::of_code(connection_state) == ActiveConnectionState::Activated,
            known_connections: spec_known_connections(ids, networks_of(access_points)),
            available_connections: networks_of(access_points),
        },
    );
    let a0 = StepView {
        effects: Seq::empty(),
        next: NextView::Ask(RequestView::Device(s.device, DeviceProperty::DeviceType)),
    };
    let r0 = wifi_device_answers(
        device_type,
        device_state,
        profile_paths,
        ids,
        access_point_paths,
        access_points,
        connection,
        connection_state,
    ) + more;
    let tail = seq![ResponseView::Path(connection), ResponseView::Code(connection_state)] + more;
    let middle = seq![ResponseView::Paths(access_point_paths)] + access_point_answers(
        access_points,
    ) + tail;
    assert(r0[0] == ResponseView::Code(device_type));
    let (s1, a1) = step(s, r0[0]);
    let r1 = r0.drop_first();
    assert(r1[0] == ResponseView::Code(device_state));
    let (s2, a2) = step(s1, r1[0]);
    let r2 = r1.drop_first();
    assert(r2[0] == ResponseView::Paths(profile_paths));
    let (s3, a3) = step(s2, r2[0]);
    let r3 = r2.drop_first();
    assert(r3 =~= name_answers(ids) + middle);
    let listed = ReconcilerView { items: profile_paths, known_ids: Seq::empty(), ..s2 };
    assert((s3, a3) == next_profile(listed));
    assert forall|named: ReconcilerView|
        named.items.len() == 0 && named.device == listed.device && named.known_ids
            == listed.known_ids + ids implies shows_first(
        run_from((#[trigger] next_profile(named)).0, next_profile(named).1, middle),
        panel,
    ) by {
        let (n1, b1) = next_profile(named);
        assert(middle[0] == ResponseView::Paths(access_point_paths));
        let (n2, b2) = step(n1, middle[0]);
        let sighted = ReconcilerView { items: access_point_paths, visible: Seq::empty(), ..n1 };
        assert((n2, b2) == next_access_point(sighted));
        assert(middle.drop_first() =~= access_point_answers(access_points) + tail);
        assert forall|done: ReconcilerView|
            done.items.len() == 0 && done.device == sighted.device && done.known_ids
                == sighted.known_ids && done.visible == sighted.visible + networks_of(
                access_points,
            ) implies shows_first(
            run_from((#[trigger] next_access_point(done)).0, next_access_point(done).1, tail),
            panel,
        ) by {
            let (d1, c1) = next_access_point(done);
            assert(tail[0] == ResponseView::Path(connection));
            let (d2, c2) = step(d1, tail[0]);
            let t1 = tail.drop_first();
            assert(t1[0] == ResponseView::Code(connection_state));
            let (d3, c3) = step(d2, t1[0]);
            let t2 = t1.drop_first();
            assert(done.known_ids =~= ids);
            assert(done.visible =~= networks_of(access_points));
            assert(c3.effects[0] == panel);
            let u3 = run_from(d3, c3, t2);
            assert(u3.effects[0] == panel);
            let u2 = run_from(d2, c2, t1);
            assert(u2 == u3.after(seq![c2.next->Ask_0], c2.effects));
            lemma_question_before(u3, c2.next->Ask_0, panel);
            let u1 = run_from(d1, c1, tail);
            assert(u1 == u2.after(seq![c1.next->Ask_0], c1.effects));
            lemma_question_before(u2, c1.next->Ask_0, panel);
        }
        lemma_reading_networks(sighted, access_points, tail, panel);
        let v2 = run_from(n2, b2, middle.drop_first());
        let v1 = run_from(n1, b1, middle);
        assert(v1 == v2.after(seq![b1.next->Ask_0], b1.effects));
        lemma_question_before(v2, b1.next->Ask_0, panel);
    }
    lemma_reading_profiles(listed, ids, middle, panel);
    let t3 = run_from(s3, a3, r3);
    let t2 = run_from(s2, a2, r2);
    assert(t2 == t3.after(seq![a2.next->Ask_0], a2.effects));
    lemma_question_before(t3, a2.next->Ask_0, panel);
    let t1 = run_from(s1, a1, r1);
    assert(t1 == t2.after(seq![a1.next->Ask_0], a1.effects));
    lemma_question_before(t2, a1.next->Ask_0, panel);
    let t0 = run_from(s, a0, r0);
    assert(t0 == t1.after(seq![a0.next->Ask_0], a0.effects));
    lemma_question_before(t1, a0.next->Ask_0, panel);
}

/// The airplane-mode panel that a pass shows for the two radios.
pub open spec fn show_airplane_mode(wifi_enabled: bool, bluetooth_enabled: bool) -> EffectView {
    EffectView::Show(
        TrayUpdateView::AirplaneMode(
            Some(AirplaneModeState { on: spec_airplane_mode(wifi_enabled, bluetooth_enabled) }),
        ),
    )
}

/// When networking is connected but there is no connectivity, or it is
/// behind a portal or unknown, the pass is over after four questions: the two
/// radios, the state and the connectivity. It shows the icon `Disconnected`
/// where there is no connectivity and `Unknown` else, and asks for no device.
pub proof fn law_connectivity_without_access_ends_pass(
    wifi_enabled: bool,
    bluetooth_enabled: bool,
    state: u32,
    connectivity: u32,
    more: Seq<ResponseView>,
)
    requires
        NmState::of_code(state).is_connected(),
        NmConnectivityState::of_code(connectivity) != NmConnectivityState::Full,
        NmConnectivityState::of_code(connectivity) != NmConnectivityState::Loss,
    ensures
        ({
            let pass = run(
                opening_answers(wifi_enabled, bluetooth_enabled, state).push(
                    ResponseView::Code(connectivity),
                ) + more,
            );
            let icon = if NmConnectivityState::of_code(connectivity)
                == NmConnectivityState::NoConnectivity {
                Icon::Disconnected
            } else {
                Icon::Unknown
            };
            &&& pass.requests == seq![
                RequestView::Manager(ManagerProperty::WirelessEnabled),
                RequestView::Manager(ManagerProperty::BluetoothEnabled),
                RequestView::Manager(ManagerProperty::State),
                RequestView::Manager(ManagerProperty::Connectivity),
            ]
            &&& pass.effects == clear_panels().push(
                show_airplane_mode(wifi_enabled, bluetooth_enabled),
            ).push(show_icon(icon))
            &&& pass.outcome == Some(Outcome::Completed)
        }),
{
    reveal(step);
    let answers = opening_answers(wifi_enabled, bluetooth_enabled, state).push(
        ResponseView::Code(connectivity),
    );
    let r0 = answers + more;
    let (s1, a1) = step(initial(), r0[0]);
    let r1 = r0.drop_first();
    let (s2, a2) = step(s1, r1[0]);
    let r2 = r1.drop_first();
    let (s3, a3) = step(s2, r2[0]);
    let r3 = r2.drop_first();
    let (s4, a4) = step(s3, r3[0]);
    let r4 = r3.drop_first();
    assert(r0[0] == answers[0] && r1[0] == answers[1] && r2[0] == answers[2] && r3[0]
        == answers[3]);
    let t4 = run_from(s4, a4, r4);
    let t3 = run_from(s3, a3, r3);
    let t2 = run_from(s2, a2, r2);
    let t1 = run_from(s1, a1, r1);
    let t0 = run_from(initial(), first_step(), r0);
    assert(t4.requests =~= Seq::empty());
    assert(t3 == t4.after(seq![a3.next->Ask_0], a3.effects));
    assert(t2 == t3.after(seq![a2.next->Ask_0], a2.effects));
    assert(t1 == t2.after(seq![a1.next->Ask_0], a1.effects));
    assert(t0 == t1.after(seq![first_step().next->Ask_0], first_step().effects));
    assert(t0.requests =~= seq![
        RequestView::Manager(ManagerProperty::WirelessEnabled),
        RequestView::Manager(ManagerProperty::BluetoothEnabled),
        RequestView::Manager(ManagerProperty::State),
        RequestView::Manager(ManagerProperty::Connectivity),
    ]);
    let icon = if NmConnectivityState::of_code(connectivity)
        == NmConnectivityState::NoConnectivity {
        Icon::Disconnected
    } else {
        Icon::Unknown
    };
    assert(t0.effects =~= clear_panels().push(
        show_airplane_mode(wifi_enabled, bluetooth_enabled),
    ).push(show_icon(icon)));
}

/// When networking is connected but connectivity is lost, the pass shows
/// the icon `Limited`, asks for another pass after the recheck delay, and
/// goes on to the panels without a look at the primary connection. Nothing
/// that it shows later replaces the icon.
pub proof fn law_lost_connectivity_shows_limited(
    wifi_enabled: bool,
    bluetooth_enabled: bool,
    state: u32,
    connectivity: u32,
    more: Seq<ResponseView>,
)
    requires
        NmState::of_code(state).is_connected(),
        NmConnectivityState::of_code(connectivity) == NmConnectivityState::Loss,
    ensures
        ({
            let pass = run(
                opening_answers(wifi_enabled, bluetooth_enabled, state).push(
                    ResponseView::Code(connectivity),
                ) + more,
            );
            &&& pass.requests.take(5) == seq![
                RequestView::Manager(ManagerProperty::WirelessEnabled),
                RequestView::Manager(ManagerProperty::BluetoothEnabled),
                RequestView::Manager(ManagerProperty::State),
                RequestView::Manager(ManagerProperty::Connectivity),
                RequestView::Manager(ManagerProperty::Devices),
            ]
            &&& pass.effects.take(7) == clear_panels().push(
                show_airplane_mode(wifi_enabled, bluetooth_enabled),
            ).push(show_icon(Icon::Limited)).push(
                EffectView::Recheck { delay_secs: RECHECK_DELAY_SECS },
            )
            &&& shown_icon(pass.effects) == Some(Icon::Limited)
        }),
{
    reveal(step);
    lemma_shown_icon_push();
    let answers = opening_answers(wifi_enabled, bluetooth_enabled, state).push(
        ResponseView::Code(connectivity),
    );
    let r0 = answers + more;
    let (s1, a1) = step(initial(), r0[0]);
    let r1 = r0.drop_first();
    let (s2, a2) = step(s1, r1[0]);
    let r2 = r1.drop_first();
    let (s3, a3) = step(s2, r2[0]);
    let r3 = r2.drop_first();
    let (s4, a4) = step(s3, r3[0]);
    let r4 = r3.drop_first();
    assert(r0[0] == answers[0] && r1[0] == answers[1] && r2[0] == answers[2] && r3[0]
        == answers[3]);
    let t4 = run_from(s4, a4, r4);
    let t3 = run_from(s3, a3, r3);
    let t2 = run_from(s2, a2, r2);
    let t1 = run_from(s1, a1, r1);
    let t0 = run_from(initial(), first_step(), r0);
    assert(t3 == t4.after(seq![a3.next->Ask_0], a3.effects));
    assert(t2 == t3.after(seq![a2.next->Ask_0], a2.effects));
    assert(t1 == t2.after(seq![a1.next->Ask_0], a1.effects));
    assert(t0 == t1.after(seq![first_step().next->Ask_0], first_step().effects));
    let shown = clear_panels().push(show_airplane_mode(wifi_enabled, bluetooth_enabled));
    lemma_shown_icon_concat(shown, a4.effects);
    lemma_run_icon(s4, a4, r4, shown);
    assert(t0.effects =~= shown + t4.effects);
    assert(t4.requests.len() >= 1 && t4.requests[0] == RequestView::Manager(
        ManagerProperty::Devices,
    ));
    assert(t0.requests.take(5) =~= seq![
        RequestView::Manager(ManagerProperty::WirelessEnabled),
        RequestView::Manager(ManagerProperty::BluetoothEnabled),
        RequestView::Manager(ManagerProperty::State),
        RequestView::Manager(ManagerProperty::Connectivity),
        RequestView::Manager(ManagerProperty::Devices),
    ]);
    assert(t4.effects.len() >= 2);
    assert(t0.effects.take(7) =~= shown.push(show_icon(Icon::Limited)).push(
        EffectView::Recheck { delay_secs: RECHECK_DELAY_SECS },
    ));
}

/// The wired panel of an ethernet device. When a pass turns to a device
/// that says it is an ethernet device, activated or disconnected, the next
/// thing it shows is the wired panel: on for the activated device, off for
/// the disconnected one.
pub proof fn law_wired_panel_of_ethernet_device(
    s: ReconcilerView,
    device_type: u32,
    device_state: u32,
    more: Seq<ResponseView>,
)
    requires
        s.phase == Phase::DeviceType,
        DeviceType::of_code(device_type) == DeviceType::Ethernet,
        DeviceState::of_code(device_state) == DeviceState::Activated || DeviceState::of_code(
            device_state,
        ) == DeviceState::Disconnected,
    ensures
        shows_first(
            run_from(
                s,
                StepView {
                    effects: Seq::empty(),
                    next: NextView::Ask(RequestView::Device(s.device, DeviceProperty::DeviceType)),
                },
                seq![ResponseView::Code(device_type), ResponseView::Code(device_state)] + more,
            ),
            EffectView::Show(
                TrayUpdateView::Wired(
                    Some(
                        WiredState {
                            on: DeviceState::of_code(device_state) == DeviceState::Activated,
                        },
                    ),
                ),
            ),
        ),
{
    reveal(step);
    let panel = EffectView::Show(
        TrayUpdateView::Wired(
            Some(WiredState { on: DeviceState::of_code(device_state) == DeviceState::Activated }),
        ),
    );
    let a0 = StepView {
        effects: Seq::empty(),
        next: NextView::Ask(RequestView::Device(s.device, DeviceProperty::DeviceType)),
    };
    let answers = seq![ResponseView::Code(device_type), ResponseView::Code(device_state)];
    let r0 = answers + more;
    assert(r0[0] == answers[0]);
    let (s1, a1) = step(s, r0[0]);
    let r1 = r0.drop_first();
    assert(r1[0] == answers[1]);
    let (s2, a2) = step(s1, r1[0]);
    let r2 = r1.drop_first();
    assert(a2.effects[0] == panel);
    let t2 = run_from(s2, a2, r2);
    assert(t2.effects[0] == panel);
    let t1 = run_from(s1, a1, r1);
    assert(t1 == t2.after(seq![a1.next->Ask_0], a1.effects));
    lemma_question_before(t2, a1.next->Ask_0, panel);
    let t0 = run_from(s, a0, r0);
    assert(t0 == t1.after(seq![a0.next->Ask_0], a0.effects));
    lemma_question_before(t1, a0.next->Ask_0, panel);
}

/// The VPN panel. A WireGuard device with a connection adds one line to
/// the panel: the name of the connection, on when the device is activated.
/// The panel is shown when the last device has been looked at, with the
/// lines of all WireGuard devices in the order of the devices: where the
/// device is the last one, the pass ends in good order and shows the VPN
/// panel with the lines gathered before and the line of this device.
pub proof fn law_vpn_panel_after_last_device(
    s: ReconcilerView,
    device_type: u32,
    connection: Seq<char>,
    name: Seq<char>,
    device_state: u32,
    more: Seq<ResponseView>,
)
    requires
        s.phase == Phase::DeviceType,
        s.devices.len() == 0,
        DeviceType::of_code(device_type) == DeviceType::WireGuard,
        connection != null_path(),
    ensures
        ({
            let pass = run_from(
                s,
                StepView {
                    effects: Seq::empty(),
                    next: NextView::Ask(RequestView::Device(s.device, DeviceProperty::DeviceType)),
                },
                seq![
                    ResponseView::Code(device_type),
                    ResponseView::Path(connection),
                    ResponseView::Text(name),
                    ResponseView::Code(device_state),
                ] + more,
            );
            &&& pass.outcome == Some(Outcome::Completed)
            &&& pass.requests == seq![
                RequestView::Device(s.device, DeviceProperty::DeviceType),
                RequestView::Device(s.device, DeviceProperty::ActiveConnection),
                RequestView::Connection(connection, ConnectionProperty::Id),
                RequestView::Device(s.device, DeviceProperty::State),
            ]
            &&& pass.effects == seq![
                EffectView::Show(
                    TrayUpdateView::Vpn(
                        Some(
                            VPNStateView {
                                connections: s.vpn.push(
                                    VPNConnectionView {
                                        name,
                                        on: DeviceState::of_code(device_state)
                                            == DeviceState::Activated,
                                    },
                                ),
                            },
                        ),
                    ),
                ),
            ]
        }),
{
    reveal(step);
    let a0 = StepView {
        effects: Seq::empty(),
        next: NextView::Ask(RequestView::Device(s.device, DeviceProperty::DeviceType)),
    };
    let answers = seq![
        ResponseView::Code(device_type),
        ResponseView::Path(connection),
        ResponseView::Text(name),
        ResponseView::Code(device_state),
    ];
    let r0 = answers + more;
    let (s1, a1) = step(s, r0[0]);
    let r1 = r0.drop_first();
    let (s2, a2) = step(s1, r1[0]);
    let r2 = r1.drop_first();
    let (s3, a3) = step(s2, r2[0]);
    let r3 = r2.drop_first();
    let (s4, a4) = step(s3, r3[0]);
    let r4 = r3.drop_first();
    assert(r0[0] == answers[0] && r1[0] == answers[1] && r2[0] == answers[2] && r3[0]
        == answers[3]);
    let t4 = run_from(s4, a4, r4);
    let t3 = run_from(s3, a3, r3);
    let t2 = run_from(s2, a2, r2);
    let t1 = run_from(s1, a1, r1);
    let t0 = run_from(s, a0, r0);
    assert(t4.requests =~= Seq::empty());
    assert(t3 == t4.after(seq![a3.next->Ask_0], a3.effects));
    assert(t2 == t3.after(seq![a2.next->Ask_0], a2.effects));
    assert(t1 == t2.after(seq![a1.next->Ask_0], a1.effects));
    assert(t0 == t1.after(seq![a0.next->Ask_0], a0.effects));
    assert(t0.requests =~= seq![
        RequestView::Device(s.device, DeviceProperty::DeviceType),
        RequestView::Device(s.device, DeviceProperty::ActiveConnection),
        RequestView::Connection(connection, ConnectionProperty::Id),
        RequestView::Device(s.device, DeviceProperty::State),
    ]);
    assert(t0.effects =~= seq![
        EffectView::Show(
            TrayUpdateView::Vpn(
                Some(
                    VPNStateView {
                        connections: s.vpn.push(
                            VPNConnectionView {
                                name,
                                on: DeviceState::of_code(device_state) == DeviceState::Activated,
                            },
                        ),
                    },
                ),
            ),
        ),
    ]);
}

} // verus!
