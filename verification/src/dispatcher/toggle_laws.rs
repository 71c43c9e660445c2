//! What holds of the three toggles for the wired device, a VPN and
//! airplane mode, whatever the service answers.

use crate::dispatcher::laws::{
    activation_outcome, changed, lemma_read_before, lemma_write_before,
};
use crate::dispatcher::model::{
    begin, next_wired_profile, run, run_against, run_against_from, run_from, step,
    DispatcherView,
};
use crate::dispatcher::snapshot::activations_on;
use crate::event::{ActionView, Event};
use crate::network::enums::{ActiveConnectionState, DeviceType};
use crate::network::network_manager::NetworkManagerView;
use crate::reconciler::rules::spec_airplane_mode;
use crate::service::{
    null_path, EffectView, ManagerProperty, Outcome, RequestView, ResponseView,
};
use vstd::prelude::*;

verus! {

/// The service accepting `count` changes in a row.
pub open spec fn acceptances(count: nat) -> Seq<ResponseView> {
    Seq::new(count, |i: int| ResponseView::Done)
}

/// What a device answers when asked for its connection and, where it has
/// one, for the state of that.
pub open spec fn connection_of_device(path: Seq<char>, state: u32) -> Seq<ResponseView> {
    if path == null_path() {
        seq![ResponseView::Path(path)]
    } else {
        seq![ResponseView::Path(path), ResponseView::Code(state)]
    }
}

proof fn lemma_activating_profiles(s: DispatcherView, more: Seq<ResponseView>)
    requires
        s.queue.len() == 0,
        !s.refused,
    ensures
        changed(
            run_from(
                next_wired_profile(s).0,
                next_wired_profile(s).1,
                acceptances(s.items.len()) + more,
            ),
            Outcome::Completed,
            activations_on(s.items, s.current),
        ),
    decreases s.items.len(),
{
    reveal(step);
    let (s1, a1) = next_wired_profile(s);
    let r0 = acceptances(s.items.len()) + more;
    let t1 = run_from(s1, a1, r0);
    if s.items.len() == 0 {
        assert(t1.requests =~= Seq::empty());
        assert(activations_on(s.items, s.current) =~= Seq::empty());
    } else {
        let write = RequestView::Activate {
            connection: s.items[0],
            device: s.current,
            specific_object: null_path(),
        };
        assert(r0[0] == ResponseView::Done);
        let (s2, a2) = step(s1, r0[0]);
        let r1 = r0.drop_first();
        let left = DispatcherView { item: s.items[0], items: s.items.drop_first(), ..s };
        assert((s2, a2) == next_wired_profile(left));
        assert(r1 =~= acceptances(left.items.len()) + more);
        lemma_activating_profiles(left, more);
        let t2 = run_from(s2, a2, r1);
        assert(t1 == t2.after(seq![write], a1.effects));
        lemma_write_before(
            t2,
            write,
            a1.effects,
            Outcome::Completed,
            activations_on(left.items, left.current),
        );
        assert(seq![write] + activations_on(left.items, left.current) =~= activations_on(
            s.items,
            s.current,
        ));
    }
}

/// Toggling the wired device off. Where the service has one device, an
/// ethernet device whose connection is activated, the action asks for one
/// change and no other: to deactivate that connection. It ends in good
/// order if the service accepts the change, and fails if not.
pub proof fn law_toggle_wired_deactivates_activated_connection(
    device: Seq<char>,
    device_type: u32,
    connection: Seq<char>,
    connection_state: u32,
    answer: ResponseView,
    more: Seq<ResponseView>,
)
    requires
        DeviceType::of_code(device_type) == DeviceType::Ethernet,
        connection != null_path(),
        ActiveConnectionState::of_code(connection_state) == ActiveConnectionState::Activated,
    ensures
        changed(
            run(
                ActionView::ToggleWired,
                seq![
                    ResponseView::Paths(seq![device]),
                    ResponseView::Code(device_type),
                    ResponseView::Path(connection),
                    ResponseView::Code(connection_state),
                    answer,
                ] + more,
            ),
            activation_outcome(answer),
            seq![RequestView::Deactivate(connection)],
        ),
{
    reveal(step);
    let answers = seq![
        ResponseView::Paths(seq![device]),
        ResponseView::Code(device_type),
        ResponseView::Path(connection),
        ResponseView::Code(connection_state),
        answer,
    ];
    let r0 = answers + more;
    let (s0, a0) = begin(ActionView::ToggleWired);
    let (s1, a1) = step(s0, r0[0]);
    let r1 = r0.drop_first();
    let (s2, a2) = step(s1, r1[0]);
    let r2 = r1.drop_first();
    let (s3, a3) = step(s2, r2[0]);
    let r3 = r2.drop_first();
    let (s4, a4) = step(s3, r3[0]);
    let r4 = r3.drop_first();
    let (s5, a5) = step(s4, r4[0]);
    let r5 = r4.drop_first();
    assert(r0[0] == answers[0] && r1[0] == answers[1] && r2[0] == answers[2]);
    assert(r3[0] == answers[3] && r4[0] == answers[4]);
    assert(s1.queue =~= Seq::empty());
    let t5 = run_from(s5, a5, r5);
    let t4 = run_from(s4, a4, r4);
    let t3 = run_from(s3, a3, r3);
    let t2 = run_from(s2, a2, r2);
    let t1 = run_from(s1, a1, r1);
    let t0 = run_from(s0, a0, r0);
    let outcome = activation_outcome(answer);
    let none = Seq::<RequestView>::empty();
    let write = RequestView::Deactivate(connection);
    assert(t5.requests =~= none);
    assert(t4 == t5.after(seq![write], a4.effects));
    lemma_write_before(t5, write, a4.effects, outcome, none);
    assert(seq![write] + none =~= seq![write]);
    assert(t3 == t4.after(seq![a3.next->Ask_0], a3.effects));
    lemma_read_before(t4, a3.next->Ask_0, a3.effects, outcome, seq![write]);
    assert(t2 == t3.after(seq![a2.next->Ask_0], a2.effects));
    lemma_read_before(t3, a2.next->Ask_0, a2.effects, outcome, seq![write]);
    assert(t1 == t2.after(seq![a1.next->Ask_0], a1.effects));
    lemma_read_before(t2, a1.next->Ask_0, a1.effects, outcome, seq![write]);
    assert(t0 == t1.after(seq![a0.next->Ask_0], a0.effects));
    lemma_read_before(t1, a0.next->Ask_0, a0.effects, outcome, seq![write]);
}

/// Toggling the wired device on. Where the service has one device, an
/// ethernet device whose connection is not in use, the action asks the
/// service to activate every configured connection of the device in turn,
/// each on the device and bound to no object, and for no other change. It
/// ends in good order if the service accepts them all.
pub proof fn law_toggle_wired_activates_every_profile(
    device: Seq<char>,
    device_type: u32,
    connection_path: Seq<char>,
    connection_state: u32,
    profiles: Seq<Seq<char>>,
    more: Seq<ResponseView>,
)
    requires
        DeviceType::of_code(device_type) == DeviceType::Ethernet,
        connection_path == null_path() || ActiveConnectionState::of_code(connection_state)
            != ActiveConnectionState::Activated,
    ensures
        changed(
            run(
                ActionView::ToggleWired,
                seq![ResponseView::Paths(seq![device]), ResponseView::Code(device_type)]
                    + connection_of_device(connection_path, connection_state) + seq![
                    ResponseView::Paths(profiles),
                ] + acceptances(profiles.len()) + more,
            ),
            Outcome::Completed,
            activations_on(profiles, device),
        ),
{
    reveal(step);
    let connection = connection_of_device(connection_path, connection_state);
    let writes = activations_on(profiles, device);
    let tail = seq![ResponseView::Paths(profiles)] + acceptances(profiles.len()) + more;
    let r0 = seq![ResponseView::Paths(seq![device]), ResponseView::Code(device_type)] + connection
        + tail;
    assert(r0 =~= seq![ResponseView::Paths(seq![device]), ResponseView::Code(device_type)]
        + connection_of_device(connection_path, connection_state) + seq![
        ResponseView::Paths(profiles),
    ] + acceptances(profiles.len()) + more);
    let (s0, a0) = begin(ActionView::ToggleWired);
    assert(r0[0] == ResponseView::Paths(seq![device]));
    let (s1, a1) = step(s0, r0[0]);
    let r1 = r0.drop_first();
    assert(r1[0] == ResponseView::Code(device_type));
    let (s2, a2) = step(s1, r1[0]);
    let r2 = r1.drop_first();
    assert(r2 =~= connection + tail);
    assert(s1.queue =~= Seq::empty());
    let t2 = run_from(s2, a2, r2);
    if connection.len() == 1 {
        assert(r2[0] == ResponseView::Path(null_path()));
        let (s3, a3) = step(s2, r2[0]);
        let r3 = r2.drop_first();
        assert(r3 =~= tail);
        assert(r3[0] == ResponseView::Paths(profiles));
        let (s4, a4) = step(s3, r3[0]);
        let r4 = r3.drop_first();
        assert(r4 =~= acceptances(profiles.len()) + more);
        let listed = DispatcherView { items: profiles, ..s3 };
        assert((s4, a4) == next_wired_profile(listed));
        lemma_activating_profiles(listed, more);
        let t4 = run_from(s4, a4, r4);
        let t3 = run_from(s3, a3, r3);
        assert(t3 == t4.after(seq![a3.next->Ask_0], a3.effects));
        lemma_read_before(t4, a3.next->Ask_0, a3.effects, Outcome::Completed, writes);
        assert(t2 == t3.after(seq![a2.next->Ask_0], a2.effects));
        lemma_read_before(t3, a2.next->Ask_0, a2.effects, Outcome::Completed, writes);
    } else {
        assert(r2[0] == connection[0]);
        let (s3, a3) = step(s2, r2[0]);
        let r3 = r2.drop_first();
        assert(r3[0] == connection[1]);
        let (s4, a4) = step(s3, r3[0]);
        let r4 = r3.drop_first();
        assert(r4 =~= tail);
        assert(r4[0] == ResponseView::Paths(profiles));
        let (s5, a5) = step(s4, r4[0]);
        let r5 = r4.drop_first();
        assert(r5 =~= acceptances(profiles.len()) + more);
        let listed = DispatcherView { items: profiles, ..s4 };
        assert((s5, a5) == next_wired_profile(listed));
        lemma_activating_profiles(listed, more);
        let t5 = run_from(s5, a5, r5);
        let t4 = run_from(s4, a4, r4);
        assert(t4 == t5.after(seq![a4.next->Ask_0], a4.effects));
        lemma_read_before(t5, a4.next->Ask_0, a4.effects, Outcome::Completed, writes);
        let t3 = run_from(s3, a3, r3);
        assert(t3 == t4.after(seq![a3.next->Ask_0], a3.effects));
        lemma_read_before(t4, a3.next->Ask_0, a3.effects, Outcome::Completed, writes);
        assert(t2 == t3.after(seq![a2.next->Ask_0], a2.effects));
        lemma_read_before(t3, a2.next->Ask_0, a2.effects, Outcome::Completed, writes);
    }
    let t1 = run_from(s1, a1, r1);
    assert(t1 == t2.after(seq![a1.next->Ask_0], a1.effects));
    lemma_read_before(t2, a1.next->Ask_0, a1.effects, Outcome::Completed, writes);
    let t0 = run_from(s0, a0, r0);
    assert(t0 == t1.after(seq![a0.next->Ask_0], a0.effects));
    lemma_read_before(t1, a0.next->Ask_0, a0.effects, Outcome::Completed, writes);
}

/// Toggling a VPN that is up. Where the service has one active connection,
/// a WireGuard connection of the given name that is activated, the action
/// asks for one change and no other: to deactivate that connection.
pub proof fn law_toggle_vpn_deactivates_activated_vpn(
    name: Seq<char>,
    connection: Seq<char>,
    connection_type: Seq<char>,
    connection_state: u32,
    answer: ResponseView,
    more: Seq<ResponseView>,
)
    requires
        DeviceType::of_name(connection_type) == DeviceType::WireGuard,
        ActiveConnectionState::of_code(connection_state) == ActiveConnectionState::Activated,
    ensures
        changed(
            run(
                ActionView::ToggleVPN(name),
                seq![
                    ResponseView::Paths(seq![connection]),
                    ResponseView::Text(connection_type),
                    ResponseView::Text(name),
                    ResponseView::Code(connection_state),
                    answer,
                ] + more,
            ),
            activation_outcome(answer),
            seq![RequestView::Deactivate(connection)],
        ),
{
    reveal(step);
    let answers = seq![
        ResponseView::Paths(seq![connection]),
        ResponseView::Text(connection_type),
        ResponseView::Text(name),
        ResponseView::Code(connection_state),
        answer,
    ];
    let r0 = answers + more;
    let (s0, a0) = begin(ActionView::ToggleVPN(name));
    let (s1, a1) = step(s0, r0[0]);
    let r1 = r0.drop_first();
    let (s2, a2) = step(s1, r1[0]);
    let r2 = r1.drop_first();
    let (s3, a3) = step(s2, r2[0]);
    let r3 = r2.drop_first();
    let (s4, a4) = step(s3, r3[0]);
    let r4 = r3.drop_first();
    let (s5, a5) = step(s4, r4[0]);
    let r5 = r4.drop_first();
    assert(r0[0] == answers[0] && r1[0] == answers[1] && r2[0] == answers[2]);
    assert(r3[0] == answers[3] && r4[0] == answers[4]);
    assert(s1.queue =~= Seq::empty());
    let t5 = run_from(s5, a5, r5);
    let t4 = run_from(s4, a4, r4);
    let t3 = run_from(s3, a3, r3);
    let t2 = run_from(s2, a2, r2);
    let t1 = run_from(s1, a1, r1);
    let t0 = run_from(s0, a0, r0);
    let outcome = activation_outcome(answer);
    let none = Seq::<RequestView>::empty();
    let write = RequestView::Deactivate(connection);
    assert(t5.requests =~= none);
    assert(t4 == t5.after(seq![write], a4.effects));
    lemma_write_before(t5, write, a4.effects, outcome, none);
    assert(seq![write] + none =~= seq![write]);
    assert(t3 == t4.after(seq![a3.next->Ask_0], a3.effects));
    lemma_read_before(t4, a3.next->Ask_0, a3.effects, outcome, seq![write]);
    assert(t2 == t3.after(seq![a2.next->Ask_0], a2.effects));
    lemma_read_before(t3, a2.next->Ask_0, a2.effects, outcome, seq![write]);
    assert(t1 == t2.after(seq![a1.next->Ask_0], a1.effects));
    lemma_read_before(t2, a1.next->Ask_0, a1.effects, outcome, seq![write]);
    assert(t0 == t1.after(seq![a0.next->Ask_0], a0.effects));
    lemma_read_before(t1, a0.next->Ask_0, a0.effects, outcome, seq![write]);
}

/// Toggling a VPN that is down. Where the service has one active
/// connection, a WireGuard connection of the given name that is not
/// activated and is bound to an object, the action asks for one change and
/// no other: to activate that object, with no connection and no device
/// named.
pub proof fn law_toggle_vpn_activates_idle_vpn(
    name: Seq<char>,
    connection: Seq<char>,
    connection_type: Seq<char>,
    connection_state: u32,
    object: Seq<char>,
    answer: ResponseView,
    more: Seq<ResponseView>,
)
    requires
        DeviceType::of_name(connection_type) == DeviceType::WireGuard,
        ActiveConnectionState::of_code(connection_state) != ActiveConnectionState::Activated,
        object != null_path(),
    ensures
        changed(
            run(
                ActionView::ToggleVPN(name),
                seq![
                    ResponseView::Paths(seq![connection]),
                    ResponseView::Text(connection_type),
                    ResponseView::Text(name),
                    ResponseView::Code(connection_state),
                    ResponseView::Path(object),
                    answer,
                ] + more,
            ),
            activation_outcome(answer),
            seq![
                RequestView::Activate {
                    connection: null_path(),
                    device: null_path(),
                    specific_object: object,
                },
            ],
        ),
{
    reveal(step);
    let write = RequestView::Activate {
        connection: null_path(),
        device: null_path(),
        specific_object: object,
    };
    let answers = seq![
        ResponseView::Paths(seq![connection]),
        ResponseView::Text(connection_type),
        ResponseView::Text(name),
        ResponseView::Code(connection_state),
        ResponseView::Path(object),
        answer,
    ];
    let r0 = answers + more;
    let (s0, a0) = begin(ActionView::ToggleVPN(name));
    let (s1, a1) = step(s0, r0[0]);
    let r1 = r0.drop_first();
    let (s2, a2) = step(s1, r1[0]);
    let r2 = r1.drop_first();
    let (s3, a3) = step(s2, r2[0]);
    let r3 = r2.drop_first();
    let (s4, a4) = step(s3, r3[0]);
    let r4 = r3.drop_first();
    let (s5, a5) = step(s4, r4[0]);
    let r5 = r4.drop_first();
    let (s6, a6) = step(s5, r5[0]);
    let r6 = r5.drop_first();
    assert(r0[0] == answers[0] && r1[0] == answers[1] && r2[0] == answers[2]);
    assert(r3[0] == answers[3] && r4[0] == answers[4] && r5[0] == answers[5]);
    assert(s1.queue =~= Seq::empty());
    let t6 = run_from(s6, a6, r6);
    let t5 = run_from(s5, a5, r5);
    let t4 = run_from(s4, a4, r4);
    let t3 = run_from(s3, a3, r3);
    let t2 = run_from(s2, a2, r2);
    let t1 = run_from(s1, a1, r1);
    let t0 = run_from(s0, a0, r0);
    let outcome = activation_outcome(answer);
    let none = Seq::<RequestView>::empty();
    assert(t6.requests =~= none);
    assert(t5 == t6.after(seq![write], a5.effects));
    lemma_write_before(t6, write, a5.effects, outcome, none);
    assert(seq![write] + none =~= seq![write]);
    assert(t4 == t5.after(seq![a4.next->Ask_0], a4.effects));
    lemma_read_before(t5, a4.next->Ask_0, a4.effects, outcome, seq![write]);
    assert(t3 == t4.after(seq![a3.next->Ask_0], a3.effects));
    lemma_read_before(t4, a3.next->Ask_0, a3.effects, outcome, seq![write]);
    assert(t2 == t3.after(seq![a2.next->Ask_0], a2.effects));
    lemma_read_before(t3, a2.next->Ask_0, a2.effects, outcome, seq![write]);
    assert(t1 == t2.after(seq![a1.next->Ask_0], a1.effects));
    lemma_read_before(t2, a1.next->Ask_0, a1.effects, outcome, seq![write]);
    assert(t0 == t1.after(seq![a0.next->Ask_0], a0.effects));
    lemma_read_before(t1, a0.next->Ask_0, a0.effects, outcome, seq![write]);
}

/// Toggling airplane mode switches the wifi radio and nothing else: the
/// radio goes on where no radio was on, and off where one was, and the
/// action asks for a fresh status pass. With the bluetooth radio off, that
/// turns airplane mode into its opposite.
pub proof fn law_toggle_airplane_mode_switches_wifi_radio(
    service: NetworkManagerView,
    patience: nat,
)
    requires
        patience >= 3,
    ensures
        ({
            let (action, after) = run_against(ActionView::ToggleAirplaneMode, service, patience);
            let on = spec_airplane_mode(service.wireless_enabled, service.bluetooth_enabled);
            &&& action.outcome == Some(Outcome::Completed)
            &&& action.requests == seq![
                RequestView::Manager(ManagerProperty::WirelessEnabled),
                RequestView::Manager(ManagerProperty::BluetoothEnabled),
                RequestView::SetWirelessEnabled(on),
            ]
            &&& action.effects == seq![EffectView::Notify(Event::Update)]
            &&& after == (NetworkManagerView { wireless_enabled: on, ..service })
            &&& !service.bluetooth_enabled ==> spec_airplane_mode(
                after.wireless_enabled,
                after.bluetooth_enabled,
            ) == !on
        }),
{
    reveal(step);
    let on = spec_airplane_mode(service.wireless_enabled, service.bluetooth_enabled);
    let (s0, a0) = begin(ActionView::ToggleAirplaneMode);
    let wifi = RequestView::Manager(ManagerProperty::WirelessEnabled);
    let bluetooth = RequestView::Manager(ManagerProperty::BluetoothEnabled);
    let write = RequestView::SetWirelessEnabled(on);
    let (s1, a1) = step(s0, service.answer(wifi));
    let (s2, a2) = step(s1, service.answer(bluetooth));
    let (s3, a3) = step(s2, service.answer(write));
    let switched = service.after(write);
    let fourth = run_against_from(s3, a3, switched, (patience - 3) as nat);
    let third = run_against_from(s2, a2, service, (patience - 2) as nat);
    let second = run_against_from(s1, a1, service, (patience - 1) as nat);
    let first = run_against_from(s0, a0, service, patience);
    assert(fourth.0.requests =~= Seq::empty());
    assert(third.0 == fourth.0.after(seq![write], a2.effects));
    assert(second.0 == third.0.after(seq![bluetooth], a1.effects));
    assert(first.0 == second.0.after(seq![wifi], a0.effects));
    assert(first.0.requests =~= seq![wifi, bluetooth, write]);
    assert(first.0.effects =~= seq![EffectView::Notify(Event::Update)]);
}

} // verus!
