//! A pass over a service that stands still shows what the service holds.

use crate::network::enums::{DeviceState, DeviceType, NmConnectivityState, NmState};
use crate::network::network_manager::{
    spec_find_access_point, spec_find_connection, spec_find_device, NetworkManagerView,
};
use crate::reconciler::model::{
    await_activation, first_step, initial, next_access_point, next_device, next_primary_device,
    next_profile, run_against, run_against_from, show_icon, show_wifi, step, Phase,
    ReconcilerView,
};
use crate::reconciler::rules::{spec_quiet_icon, MAX_ACTIVATION_ATTEMPTS};
use crate::network::queries::{
    access_point_known, network_at, networks_at, setting_id, setting_ids, setting_named,
};
use crate::reconciler::snapshot::{
    device_effects, device_legible, devices_cost, legible, panel_effects, pass_cost,
    pass_effects, primary_device_legible, primary_effects, primary_icon_of, status_effects,
    vpn_line_of, wifi_panel_of,
};
use crate::service::{
    spec_resolve, AccessPointProperty, ConnectionProperty, DeviceProperty, EffectView,
    ManagerProperty, NextView, Outcome, RequestView, ResponseView, StepView, TranscriptView,
};
use crate::status::Icon;
use vstd::prelude::*;

verus! {

/// What a pass came to when it ended in good order: what it showed and did.
pub open spec fn shows(t: TranscriptView, effects: Seq<EffectView>) -> bool {
    t.outcome == Some(Outcome::Completed) && t.effects == effects
}

/// Whether two states of a pass stand at the same device, with the same
/// devices still to come and the same lines of the VPN panel.
pub open spec fn same_walk(a: ReconcilerView, b: ReconcilerView) -> bool {
    a.device == b.device && a.devices == b.devices && a.vpn == b.vpn
}

/// A question in front of a transcript, with nothing to show, leaves what
/// the pass came to.
proof fn lemma_silent_question(t: TranscriptView, request: RequestView, effects: Seq<EffectView>)
    requires
        shows(t, effects),
    ensures
        shows(t.after(seq![request], Seq::empty()), effects),
{
    assert(Seq::<EffectView>::empty() + t.effects =~= t.effects);
}

/// Reading the names of the configured connections from the service.
proof fn lemma_observe_profiles(
    s: ReconcilerView,
    w: NetworkManagerView,
    patience: nat,
    rest_cost: nat,
    target: Seq<EffectView>,
)
    requires
        forall|i: int| 0 <= i < s.items.len() ==> setting_named(w, #[trigger] s.items[i]),
        patience >= s.items.len() + rest_cost,
        forall|done: ReconcilerView, p: nat|
            p >= rest_cost && done.items.len() == 0 && same_walk(done, s) && done.known_ids
                == s.known_ids + setting_ids(w, s.items) ==> shows(
                #[trigger] run_against_from(next_profile(done).0, next_profile(done).1, w, p),
                target,
            ),
    ensures
        shows(run_against_from(next_profile(s).0, next_profile(s).1, w, patience), target),
    decreases s.items.len(),
{
    reveal(step);
    if s.items.len() == 0 {
        assert(s.known_ids + setting_ids(w, s.items) =~= s.known_ids);
    } else {
        let (s1, a1) = next_profile(s);
        let request = RequestView::ProfileId(s.items[0]);
        assert(setting_named(w, s.items[0]));
        let id = setting_id(w, s.items[0])->0;
        assert(w.answer(request) == ResponseView::Text(id));
        let (s2, a2) = step(s1, w.answer(request));
        let named = ReconcilerView { known_ids: s1.known_ids.push(id), ..s1 };
        assert((s2, a2) == next_profile(named));
        assert(named.items =~= s.items.drop_first());
        assert forall|i: int| 0 <= i < named.items.len() implies setting_named(
            w,
            #[trigger] named.items[i],
        ) by {
            assert(named.items[i] == s.items[i + 1]);
        }
        assert(named.known_ids + setting_ids(w, named.items) =~= s.known_ids + setting_ids(
            w,
            s.items,
        ));
        lemma_observe_profiles(named, w, (patience - 1) as nat, rest_cost, target);
        let t2 = run_against_from(s2, a2, w, (patience - 1) as nat);
        let t1 = run_against_from(s1, a1, w, patience);
        assert(t1 == t2.after(seq![request], a1.effects));
        lemma_silent_question(t2, request, target);
    }
}

/// Reading the access points from the service.
proof fn lemma_observe_networks(
    s: ReconcilerView,
    w: NetworkManagerView,
    patience: nat,
    rest_cost: nat,
    target: Seq<EffectView>,
)
    requires
        forall|i: int| 0 <= i < s.items.len() ==> access_point_known(w, #[trigger] s.items[i]),
        patience >= 2 * s.items.len() + rest_cost,
        forall|done: ReconcilerView, p: nat|
            p >= rest_cost && done.items.len() == 0 && same_walk(done, s) && done.known_ids
                == s.known_ids && done.visible == s.visible + networks_at(w, s.items) ==> shows(
                #[trigger] run_against_from(
                    next_access_point(done).0,
                    next_access_point(done).1,
                    w,
                    p,
                ),
                target,
            ),
    ensures
        shows(
            run_against_from(next_access_point(s).0, next_access_point(s).1, w, patience),
            target,
        ),
    decreases s.items.len(),
{
    reveal(step);
    if s.items.len() == 0 {
        assert(s.visible + networks_at(w, s.items) =~= s.visible);
    } else {
        let (s1, a1) = next_access_point(s);
        let path = s.items[0];
        assert(access_point_known(w, s.items[0]));
        let found = spec_find_access_point(w.access_points, path)->0;
        let ask_name = RequestView::AccessPoint(path, AccessPointProperty::Ssid);
        let ask_address = RequestView::AccessPoint(path, AccessPointProperty::HwAddress);
        assert(w.answer(ask_name) == ResponseView::Bytes(found.ssid));
        let (s2, a2) = step(s1, w.answer(ask_name));
        assert(a2.next == NextView::Ask(ask_address));
        assert(w.answer(ask_address) == ResponseView::Text(found.hw_address));
        let (s3, a3) = step(s2, w.answer(ask_address));
        let noted = ReconcilerView { visible: s2.visible.push(network_at(w, path)), ..s2 };
        assert((s3, a3) == next_access_point(noted));
        assert(noted.items =~= s.items.drop_first());
        assert forall|i: int| 0 <= i < noted.items.len() implies access_point_known(
            w,
            #[trigger] noted.items[i],
        ) by {
            assert(noted.items[i] == s.items[i + 1]);
        }
        assert(noted.visible + networks_at(w, noted.items) =~= s.visible + networks_at(
            w,
            s.items,
        ));
        lemma_observe_networks(noted, w, (patience - 2) as nat, rest_cost, target);
        let t3 = run_against_from(s3, a3, w, (patience - 2) as nat);
        let t2 = run_against_from(s2, a2, w, (patience - 1) as nat);
        assert(t2 == t3.after(seq![ask_address], a2.effects));
        lemma_silent_question(t3, ask_address, target);
        let t1 = run_against_from(s1, a1, w, patience);
        assert(t1 == t2.after(seq![ask_name], a1.effects));
        lemma_silent_question(t2, ask_name, target);
    }
}

/// Waiting for a wifi device in a service that stands still: no state
/// change ever comes, and the pass gives the device up.
proof fn lemma_observe_wait(
    s: ReconcilerView,
    w: NetworkManagerView,
    patience: nat,
    rest_cost: nat,
    target: Seq<EffectView>,
)
    requires
        s.phase == Phase::WifiActivation,
        1 <= s.attempts <= MAX_ACTIVATION_ATTEMPTS,
        patience >= MAX_ACTIVATION_ATTEMPTS + 1 - s.attempts + rest_cost,
        forall|done: ReconcilerView, p: nat|
            p >= rest_cost && same_walk(done, s) ==> shows(
                #[trigger] run_against_from(
                    next_device(done, Seq::empty()).0,
                    next_device(done, Seq::empty()).1,
                    w,
                    p,
                ),
                target,
            ),
    ensures
        shows(
            run_against_from(
                s,
                StepView { effects: Seq::empty(), next: NextView::Ask(await_activation(s)) },
                w,
                patience,
            ),
            target,
        ),
    decreases MAX_ACTIVATION_ATTEMPTS - s.attempts,
{
    reveal(step);
    let wait = await_activation(s);
    let last = StepView { effects: Seq::empty(), next: NextView::Ask(wait) };
    assert(w.answer(wait) == ResponseView::TimedOut);
    let (s2, a2) = step(s, w.answer(wait));
    let t2 = run_against_from(s2, a2, w, (patience - 1) as nat);
    if s.attempts < MAX_ACTIVATION_ATTEMPTS {
        assert(a2 == StepView { effects: Seq::empty(), next: NextView::Ask(await_activation(s2)) });
        lemma_observe_wait(s2, w, (patience - 1) as nat, rest_cost, target);
    } else {
        assert((s2, a2) == next_device(s, Seq::empty()));
    }
    let t1 = run_against_from(s, last, w, patience);
    assert(t1 == t2.after(seq![wait], last.effects));
    lemma_silent_question(t2, wait, target);
}

/// Whether a pass, once it turns to the devices `rest` with patience of at
/// least `rest_cost`, shows what it carries and then what those devices make
/// it show.
pub open spec fn rest_observed(w: NetworkManagerView, rest: Seq<Seq<char>>, rest_cost: nat) -> bool {
    forall|done: ReconcilerView, p: nat, carried: Seq<EffectView>|
        p >= rest_cost && done.devices == rest ==> shows(
            #[trigger] run_against_from(
                next_device(done, carried).0,
                next_device(done, carried).1,
                w,
                p,
            ),
            carried + panel_effects(w, rest, done.vpn),
        )
}

/// The state of a pass that has asked the device `path` for its kind.
pub open spec fn asking_kind(s: ReconcilerView, path: Seq<char>) -> bool {
    s.phase == Phase::DeviceType && s.device == path
}

/// The question for the kind of the device.
pub open spec fn kind_question(path: Seq<char>) -> StepView {
    StepView {
        effects: Seq::empty(),
        next: NextView::Ask(RequestView::Device(path, DeviceProperty::DeviceType)),
    }
}

/// A device that the service does not know, or of a kind without a panel,
/// is passed over.
proof fn lemma_observe_other_device(
    s: ReconcilerView,
    w: NetworkManagerView,
    path: Seq<char>,
    patience: nat,
    rest_cost: nat,
)
    requires
        asking_kind(s, path),
        rest_observed(w, s.devices, rest_cost),
        patience >= 1 + rest_cost,
        match spec_find_device(w.devices, path) {
            Some(device) => DeviceType::of_code(device.device_type) != DeviceType::Wifi
                && DeviceType::of_code(device.device_type) != DeviceType::Ethernet
                && DeviceType::of_code(device.device_type) != DeviceType::WireGuard,
            None => true,
        },
    ensures
        shows(
            run_against_from(s, kind_question(path), w, patience),
            panel_effects(w, s.devices, s.vpn),
        ),
{
    reveal(step);
    let request = RequestView::Device(path, DeviceProperty::DeviceType);
    let (s2, a2) = step(s, w.answer(request));
    assert((s2, a2) == next_device(s, Seq::empty()));
    let t2 = run_against_from(s2, a2, w, (patience - 1) as nat);
    assert(Seq::<EffectView>::empty() + panel_effects(w, s.devices, s.vpn) =~= panel_effects(
        w,
        s.devices,
        s.vpn,
    ));
    let t1 = run_against_from(s, kind_question(path), w, patience);
    assert(t1 == t2.after(seq![request], Seq::empty()));
    lemma_silent_question(t2, request, panel_effects(w, s.devices, s.vpn));
}

/// An ethernet device shows the wired panel, if its state has one.
proof fn lemma_observe_ethernet_device(
    s: ReconcilerView,
    w: NetworkManagerView,
    path: Seq<char>,
    patience: nat,
    rest_cost: nat,
)
    requires
        asking_kind(s, path),
        rest_observed(w, s.devices, rest_cost),
        patience >= 2 + rest_cost,
        spec_find_device(w.devices, path) matches Some(device) && DeviceType::of_code(
            device.device_type,
        ) == DeviceType::Ethernet,
    ensures
        shows(
            run_against_from(s, kind_question(path), w, patience),
            device_effects(w, path) + panel_effects(w, s.devices, s.vpn),
        ),
{
    reveal(step);
    let device = spec_find_device(w.devices, path)->0;
    let target = device_effects(w, path) + panel_effects(w, s.devices, s.vpn);
    let ask_kind = RequestView::Device(path, DeviceProperty::DeviceType);
    let ask_state = RequestView::Device(path, DeviceProperty::State);
    assert(w.answer(ask_kind) == ResponseView::Code(device.device_type));
    let (s2, a2) = step(s, w.answer(ask_kind));
    assert(a2.next == NextView::Ask(ask_state));
    assert(w.answer(ask_state) == ResponseView::Code(device.state));
    let (s3, a3) = step(s2, w.answer(ask_state));
    assert((s3, a3) == next_device(s2, device_effects(w, path)));
    let t3 = run_against_from(s3, a3, w, (patience - 2) as nat);
    assert(shows(t3, target));
    let t2 = run_against_from(s2, a2, w, (patience - 1) as nat);
    assert(t2 == t3.after(seq![ask_state], a2.effects));
    lemma_silent_question(t3, ask_state, target);
    let t1 = run_against_from(s, kind_question(path), w, patience);
    assert(t1 == t2.after(seq![ask_kind], Seq::empty()));
    lemma_silent_question(t2, ask_kind, target);
}

/// A WireGuard device with a connection adds its line to the VPN panel.
proof fn lemma_observe_wireguard_device(
    s: ReconcilerView,
    w: NetworkManagerView,
    path: Seq<char>,
    patience: nat,
    rest_cost: nat,
)
    requires
        asking_kind(s, path),
        rest_observed(w, s.devices, rest_cost),
        patience >= 4 + rest_cost,
        device_legible(w, path),
        spec_find_device(w.devices, path) matches Some(device) && DeviceType::of_code(
            device.device_type,
        ) == DeviceType::WireGuard,
    ensures
        shows(
            run_against_from(s, kind_question(path), w, patience),
            panel_effects(
                w,
                s.devices,
                match vpn_line_of(w, path) {
                    Some(line) => s.vpn.push(line),
                    None => s.vpn,
                },
            ),
        ),
{
    reveal(step);
    let device = spec_find_device(w.devices, path)->0;
    let lines = match vpn_line_of(w, path) {
        Some(line) => s.vpn.push(line),
        None => s.vpn,
    };
    let target = panel_effects(w, s.devices, lines);
    assert(Seq::<EffectView>::empty() + target =~= target);
    let ask_kind = RequestView::Device(path, DeviceProperty::DeviceType);
    let ask_connection = RequestView::Device(path, DeviceProperty::ActiveConnection);
    assert(w.answer(ask_kind) == ResponseView::Code(device.device_type));
    let (s2, a2) = step(s, w.answer(ask_kind));
    assert(a2.next == NextView::Ask(ask_connection));
    assert(w.answer(ask_connection) == ResponseView::Path(device.active_connection));
    let (s3, a3) = step(s2, w.answer(ask_connection));
    let t3 = run_against_from(s3, a3, w, (patience - 2) as nat);
    match spec_resolve(device.active_connection) {
        Some(connection) => {
            let found = spec_find_connection(w.active_connections, connection)->0;
            let ask_name = RequestView::Connection(connection, ConnectionProperty::Id);
            let ask_state = RequestView::Device(path, DeviceProperty::State);
            assert(a3.next == NextView::Ask(ask_name));
            assert(w.answer(ask_name) == ResponseView::Text(found.id));
            let (s4, a4) = step(s3, w.answer(ask_name));
            assert(a4.next == NextView::Ask(ask_state));
            assert(w.answer(ask_state) == ResponseView::Code(device.state));
            let (s5, a5) = step(s4, w.answer(ask_state));
            let lined = ReconcilerView { vpn: lines, ..s4 };
            assert((s5, a5) == next_device(lined, Seq::empty()));
            let t5 = run_against_from(s5, a5, w, (patience - 4) as nat);
            assert(shows(t5, target));
            let t4 = run_against_from(s4, a4, w, (patience - 3) as nat);
            assert(t4 == t5.after(seq![ask_state], a4.effects));
            lemma_silent_question(t5, ask_state, target);
            assert(t3 == t4.after(seq![ask_name], a3.effects));
            lemma_silent_question(t4, ask_name, target);
        },
        None => {
            assert((s3, a3) == next_device(s2, Seq::empty()));
            assert(shows(t3, target));
        },
    }
    let t2 = run_against_from(s2, a2, w, (patience - 1) as nat);
    assert(t2 == t3.after(seq![ask_connection], a2.effects));
    lemma_silent_question(t3, ask_connection, target);
    let t1 = run_against_from(s, kind_question(path), w, patience);
    assert(t1 == t2.after(seq![ask_kind], Seq::empty()));
    lemma_silent_question(t2, ask_kind, target);
}

/// A wifi device that is not activated shows a bare panel, or none; where
/// it is disconnected with the radio on, the pass waits for it in vain.
proof fn lemma_observe_idle_wifi_device(
    s: ReconcilerView,
    w: NetworkManagerView,
    path: Seq<char>,
    patience: nat,
    rest_cost: nat,
)
    requires
        asking_kind(s, path),
        rest_observed(w, s.devices, rest_cost),
        patience >= 4 + MAX_ACTIVATION_ATTEMPTS + rest_cost,
        spec_find_device(w.devices, path) matches Some(device) && DeviceType::of_code(
            device.device_type,
        ) == DeviceType::Wifi && DeviceState::of_code(device.state) != DeviceState::Activated,
    ensures
        shows(
            run_against_from(s, kind_question(path), w, patience),
            device_effects(w, path) + panel_effects(w, s.devices, s.vpn),
        ),
{
    reveal(step);
    let device = spec_find_device(w.devices, path)->0;
    let after = panel_effects(w, s.devices, s.vpn);
    let target = device_effects(w, path) + after;
    let ask_kind = RequestView::Device(path, DeviceProperty::DeviceType);
    let ask_state = RequestView::Device(path, DeviceProperty::State);
    assert(w.answer(ask_kind) == ResponseView::Code(device.device_type));
    let (s2, a2) = step(s, w.answer(ask_kind));
    assert(a2.next == NextView::Ask(ask_state));
    assert(w.answer(ask_state) == ResponseView::Code(device.state));
    let (s3, a3) = step(s2, w.answer(ask_state));
    let t3 = run_against_from(s3, a3, w, (patience - 2) as nat);
    if DeviceState::of_code(device.state) == DeviceState::Disconnected {
        let ask_radio = RequestView::Manager(ManagerProperty::WirelessEnabled);
        assert(a3.next == NextView::Ask(ask_radio));
        assert(w.answer(ask_radio) == ResponseView::Flag(w.wireless_enabled));
        let (s4, a4) = step(s3, w.answer(ask_radio));
        let t4 = run_against_from(s4, a4, w, (patience - 3) as nat);
        if w.wireless_enabled {
            let ask_watch = RequestView::WatchDeviceState(path);
            assert(a4.next == NextView::Ask(ask_watch));
            assert(w.answer(ask_watch) == ResponseView::Done);
            let (s5, a5) = step(s4, w.answer(ask_watch));
            assert(a5 == StepView {
                effects: Seq::empty(),
                next: NextView::Ask(await_activation(s5)),
            });
            assert forall|done: ReconcilerView, p: nat|
                p >= rest_cost && same_walk(done, s5) implies shows(
                #[trigger] run_against_from(
                    next_device(done, Seq::empty()).0,
                    next_device(done, Seq::empty()).1,
                    w,
                    p,
                ),
                after,
            ) by {
                assert(Seq::<EffectView>::empty() + panel_effects(w, s.devices, done.vpn)
                    =~= after);
            }
            lemma_observe_wait(s5, w, (patience - 4) as nat, rest_cost, after);
            let t5 = run_against_from(s5, a5, w, (patience - 4) as nat);
            assert(t4 == t5.after(seq![ask_watch], a4.effects));
            assert(a4.effects + t5.effects =~= target);
        } else {
            assert((s4, a4) == next_device(s3, device_effects(w, path)));
        }
        assert(shows(t4, target));
        assert(t3 == t4.after(seq![ask_radio], a3.effects));
        lemma_silent_question(t4, ask_radio, target);
    } else {
        assert((s3, a3) == next_device(s2, device_effects(w, path)));
    }
    assert(shows(t3, target));
    let t2 = run_against_from(s2, a2, w, (patience - 1) as nat);
    assert(t2 == t3.after(seq![ask_state], a2.effects));
    lemma_silent_question(t3, ask_state, target);
    let t1 = run_against_from(s, kind_question(path), w, patience);
    assert(t1 == t2.after(seq![ask_kind], Seq::empty()));
    lemma_silent_question(t2, ask_kind, target);
}

/// An activated wifi device shows the wifi panel with its networks.
proof fn lemma_observe_activated_wifi_device(
    s: ReconcilerView,
    w: NetworkManagerView,
    path: Seq<char>,
    patience: nat,
    rest_cost: nat,
)
    requires
        asking_kind(s, path),
        rest_observed(w, s.devices, rest_cost),
        device_legible(w, path),
        spec_find_device(w.devices, path) matches Some(device) && DeviceType::of_code(
            device.device_type,
        ) == DeviceType::Wifi && DeviceState::of_code(device.state) == DeviceState::Activated
            && patience >= 8 + device.available_connections.len() + 2
            * device.access_points.len() + rest_cost,
    ensures
        shows(
            run_against_from(s, kind_question(path), w, patience),
            device_effects(w, path) + panel_effects(w, s.devices, s.vpn),
        ),
{
    reveal(step);
    let device = spec_find_device(w.devices, path)->0;
    let profiles = device.available_connections;
    let access_points = device.access_points;
    let panel = show_wifi(wifi_panel_of(w, device)->0);
    let after = panel_effects(w, s.devices, s.vpn);
    let target = device_effects(w, path) + after;
    assert(target =~= seq![panel] + after);
    let ask_kind = RequestView::Device(path, DeviceProperty::DeviceType);
    let ask_state = RequestView::Device(path, DeviceProperty::State);
    let ask_profiles = RequestView::Device(path, DeviceProperty::AvailableConnections);
    let ask_access_points = RequestView::Device(path, DeviceProperty::AccessPoints);
    let ask_connection = RequestView::Device(path, DeviceProperty::ActiveConnection);
    assert(w.answer(ask_kind) == ResponseView::Code(device.device_type));
    let (s2, a2) = step(s, w.answer(ask_kind));
    assert(a2.next == NextView::Ask(ask_state));
    assert(w.answer(ask_state) == ResponseView::Code(device.state));
    let (s3, a3) = step(s2, w.answer(ask_state));
    assert(a3.next == NextView::Ask(ask_profiles));
    assert(w.answer(ask_profiles) == ResponseView::Paths(profiles));
    let (s4, a4) = step(s3, w.answer(ask_profiles));
    let listed = ReconcilerView { items: profiles, known_ids: Seq::empty(), ..s3 };
    assert((s4, a4) == next_profile(listed));
    let cost_after_networks: nat = 2 + rest_cost;
    let cost_after_profiles: nat = 1 + 2 * access_points.len() + cost_after_networks;
    assert forall|named: ReconcilerView, p: nat|
        p >= cost_after_profiles && named.items.len() == 0 && same_walk(named, listed)
            && named.known_ids == listed.known_ids + setting_ids(w, listed.items) implies shows(
        #[trigger] run_against_from(next_profile(named).0, next_profile(named).1, w, p),
        target,
    ) by {
        let (n1, b1) = next_profile(named);
        assert(b1.next == NextView::Ask(ask_access_points));
        assert(w.answer(ask_access_points) == ResponseView::Paths(access_points));
        let (n2, b2) = step(n1, w.answer(ask_access_points));
        let sighted = ReconcilerView { items: access_points, visible: Seq::empty(), ..n1 };
        assert((n2, b2) == next_access_point(sighted));
        assert forall|done: ReconcilerView, q: nat|
            q >= cost_after_networks && done.items.len() == 0 && same_walk(done, sighted)
                && done.known_ids == sighted.known_ids && done.visible == sighted.visible
                + networks_at(w, sighted.items) implies shows(
            #[trigger] run_against_from(
                next_access_point(done).0,
                next_access_point(done).1,
                w,
                q,
            ),
            target,
        ) by {
            let (d1, c1) = next_access_point(done);
            assert(c1.next == NextView::Ask(ask_connection));
            assert(w.answer(ask_connection) == ResponseView::Path(device.active_connection));
            let (d2, c2) = step(d1, w.answer(ask_connection));
            assert(done.known_ids =~= setting_ids(w, profiles));
            assert(done.visible =~= networks_at(w, access_points));
            let u2 = run_against_from(d2, c2, w, (q - 1) as nat);
            match spec_resolve(device.active_connection) {
                Some(connection) => {
                    let found = spec_find_connection(w.active_connections, connection)->0;
                    let ask_connection_state = RequestView::Connection(
                        connection,
                        ConnectionProperty::State,
                    );
                    assert(c2.next == NextView::Ask(ask_connection_state));
                    assert(w.answer(ask_connection_state) == ResponseView::Code(found.state));
                    let (d3, c3) = step(d2, w.answer(ask_connection_state));
                    assert((d3, c3) == next_device(d2, seq![panel]));
                    let u3 = run_against_from(d3, c3, w, (q - 2) as nat);
                    assert(shows(u3, target));
                    assert(u2 == u3.after(seq![ask_connection_state], c2.effects));
                    lemma_silent_question(u3, ask_connection_state, target);
                },
                None => {
                    assert((d2, c2) == next_device(d1, seq![panel]));
                    assert(shows(u2, target));
                },
            }
            let u1 = run_against_from(d1, c1, w, q);
            assert(u1 == u2.after(seq![ask_connection], c1.effects));
            lemma_silent_question(u2, ask_connection, target);
        }
        assert forall|i: int| 0 <= i < sighted.items.len() implies access_point_known(
            w,
            #[trigger] sighted.items[i],
        ) by {
            assert(access_point_known(w, device.access_points[i]));
        }
        lemma_observe_networks(sighted, w, (p - 1) as nat, cost_after_networks, target);
        let v2 = run_against_from(n2, b2, w, (p - 1) as nat);
        let v1 = run_against_from(n1, b1, w, p);
        assert(v1 == v2.after(seq![ask_access_points], b1.effects));
        lemma_silent_question(v2, ask_access_points, target);
    }
    assert forall|i: int| 0 <= i < listed.items.len() implies setting_named(
        w,
        #[trigger] listed.items[i],
    ) by {
        assert(setting_named(w, device.available_connections[i]));
    }
    lemma_observe_profiles(listed, w, (patience - 3) as nat, cost_after_profiles, target);
    let t4 = run_against_from(s4, a4, w, (patience - 3) as nat);
    let t3 = run_against_from(s3, a3, w, (patience - 2) as nat);
    assert(t3 == t4.after(seq![ask_profiles], a3.effects));
    lemma_silent_question(t4, ask_profiles, target);
    let t2 = run_against_from(s2, a2, w, (patience - 1) as nat);
    assert(t2 == t3.after(seq![ask_state], a2.effects));
    lemma_silent_question(t3, ask_state, target);
    let t1 = run_against_from(s, kind_question(path), w, patience);
    assert(t1 == t2.after(seq![ask_kind], Seq::empty()));
    lemma_silent_question(t2, ask_kind, target);
}

/// The devices for the panels: the pass shows what it carries, and then
/// what each device makes it show, in the order of the devices.
proof fn lemma_observe_devices(
    s: ReconcilerView,
    w: NetworkManagerView,
    carried: Seq<EffectView>,
    patience: nat,
)
    requires
        forall|i: int| 0 <= i < s.devices.len() ==> device_legible(w, #[trigger] s.devices[i]),
        patience >= devices_cost(w, s.devices),
    ensures
        shows(
            run_against_from(next_device(s, carried).0, next_device(s, carried).1, w, patience),
            carried + panel_effects(w, s.devices, s.vpn),
        ),
    decreases s.devices.len(),
{
    if s.devices.len() == 0 {
        if s.vpn.len() > 0 {
            assert(carried + panel_effects(w, s.devices, s.vpn) =~= carried.push(
                panel_effects(w, s.devices, s.vpn)[0],
            ));
        } else {
            assert(carried + panel_effects(w, s.devices, s.vpn) =~= carried);
        }
    } else {
        let path = s.devices[0];
        let rest = s.devices.drop_first();
        let rest_cost = devices_cost(w, rest);
        let (s1, a1) = next_device(s, carried);
        assert(device_legible(w, s.devices[0]));
        assert forall|done: ReconcilerView, p: nat, more: Seq<EffectView>|
            p >= rest_cost && done.devices == rest implies shows(
            #[trigger] run_against_from(
                next_device(done, more).0,
                next_device(done, more).1,
                w,
                p,
            ),
            more + panel_effects(w, rest, done.vpn),
        ) by {
            assert forall|i: int| 0 <= i < done.devices.len() implies device_legible(
                w,
                #[trigger] done.devices[i],
            ) by {
                assert(done.devices[i] == s.devices[i + 1]);
            }
            lemma_observe_devices(done, w, more, p);
        }
        assert(rest_observed(w, s1.devices, rest_cost));
        let lines = match vpn_line_of(w, path) {
            Some(line) => s.vpn.push(line),
            None => s.vpn,
        };
        match spec_find_device(w.devices, path) {
            Some(device) => {
                match DeviceType::of_code(device.device_type) {
                    DeviceType::Wifi => {
                        if DeviceState::of_code(device.state) == DeviceState::Activated {
                            lemma_observe_activated_wifi_device(s1, w, path, patience, rest_cost);
                        } else {
                            lemma_observe_idle_wifi_device(s1, w, path, patience, rest_cost);
                        }
                    },
                    DeviceType::Ethernet => {
                        lemma_observe_ethernet_device(s1, w, path, patience, rest_cost);
                    },
                    DeviceType::WireGuard => {
                        lemma_observe_wireguard_device(s1, w, path, patience, rest_cost);
                        assert(Seq::<EffectView>::empty() + panel_effects(w, rest, lines)
                            =~= panel_effects(w, rest, lines));
                    },
                    _ => {
                        lemma_observe_other_device(s1, w, path, patience, rest_cost);
                        assert(Seq::<EffectView>::empty() + panel_effects(w, rest, lines)
                            =~= panel_effects(w, rest, lines));
                    },
                }
            },
            None => {
                lemma_observe_other_device(s1, w, path, patience, rest_cost);
                assert(Seq::<EffectView>::empty() + panel_effects(w, rest, lines)
                    =~= panel_effects(w, rest, lines));
            },
        }
    }
}

/// Whether the service can answer what a pass asks about each of its
/// devices for the panels.
pub open spec fn devices_legible(w: NetworkManagerView) -> bool {
    forall|i: int|
        0 <= i < w.device_paths().len() ==> device_legible(w, #[trigger] w.device_paths()[i])
}

/// The question for all devices, with something to show.
pub open spec fn devices_question(carried: Seq<EffectView>) -> StepView {
    StepView {
        effects: carried,
        next: NextView::Ask(RequestView::Manager(ManagerProperty::Devices)),
    }
}

/// From the list of all devices on: the pass shows what it carries, and
/// then the panels.
proof fn lemma_observe_panels(
    s: ReconcilerView,
    w: NetworkManagerView,
    carried: Seq<EffectView>,
    patience: nat,
)
    requires
        s.phase == Phase::Devices,
        devices_legible(w),
        patience >= 1 + devices_cost(w, w.device_paths()),
    ensures
        shows(
            run_against_from(s, devices_question(carried), w, patience),
            carried + panel_effects(w, w.device_paths(), s.vpn),
        ),
{
    reveal(step);
    let request = RequestView::Manager(ManagerProperty::Devices);
    assert(w.answer(request) == ResponseView::Paths(w.device_paths()));
    let (s2, a2) = step(s, w.answer(request));
    let listed = ReconcilerView { devices: w.device_paths(), ..s };
    assert((s2, a2) == next_device(listed, Seq::empty()));
    lemma_observe_devices(listed, w, Seq::empty(), (patience - 1) as nat);
    let t2 = run_against_from(s2, a2, w, (patience - 1) as nat);
    assert(t2.effects =~= panel_effects(w, w.device_paths(), s.vpn));
    let t1 = run_against_from(s, devices_question(carried), w, patience);
    assert(t1 == t2.after(seq![request], carried));
}

/// The devices of the primary connection: the pass shows what it carries,
/// the icon of each device in turn, `Unknown` if none gave one, and then
/// the panels.
proof fn lemma_observe_primary(
    s: ReconcilerView,
    w: NetworkManagerView,
    carried: Seq<EffectView>,
    patience: nat,
)
    requires
        forall|i: int|
            0 <= i < s.devices.len() ==> primary_device_legible(w, #[trigger] s.devices[i]),
        devices_legible(w),
        patience >= 3 * s.devices.len() + 1 + devices_cost(w, w.device_paths()),
    ensures
        shows(
            run_against_from(
                next_primary_device(s, carried).0,
                next_primary_device(s, carried).1,
                w,
                patience,
            ),
            carried + primary_effects(w, s.devices, s.icon is Some) + panel_effects(
                w,
                w.device_paths(),
                s.vpn,
            ),
        ),
    decreases s.devices.len(),
{
    reveal(step);
    let panels = panel_effects(w, w.device_paths(), s.vpn);
    let (s1, a1) = next_primary_device(s, carried);
    if s.devices.len() == 0 {
        if s.icon is None {
            lemma_observe_panels(s1, w, carried.push(show_icon(Icon::Unknown)), patience);
            assert(carried.push(show_icon(Icon::Unknown)) + panels =~= carried + primary_effects(
                w,
                s.devices,
                false,
            ) + panels);
        } else {
            lemma_observe_panels(s1, w, carried, patience);
            assert(carried + panels =~= carried + primary_effects(w, s.devices, true) + panels);
        }
    } else {
        let path = s.devices[0];
        let rest = s.devices.drop_first();
        assert(primary_device_legible(w, s.devices[0]));
        let ask_kind = RequestView::Device(path, DeviceProperty::DeviceType);
        let (s2, a2) = step(s1, w.answer(ask_kind));
        let t2 = run_against_from(s2, a2, w, (patience - 1) as nat);
        let target = primary_effects(w, s.devices, s.icon is Some) + panels;
        match spec_find_device(w.devices, path) {
            Some(device) => {
                assert(w.answer(ask_kind) == ResponseView::Code(device.device_type));
                if DeviceType::of_code(device.device_type) == DeviceType::Wifi {
                    let ask_access_point = RequestView::Device(
                        path,
                        DeviceProperty::ActiveAccessPoint,
                    );
                    assert(a2.next == NextView::Ask(ask_access_point));
                    assert(w.answer(ask_access_point) == ResponseView::Path(
                        device.active_access_point,
                    ));
                    let (s3, a3) = step(s2, w.answer(ask_access_point));
                    let t3 = run_against_from(s3, a3, w, (patience - 2) as nat);
                    match spec_resolve(device.active_access_point) {
                        Some(access_point) => {
                            let found = spec_find_access_point(w.access_points, access_point)->0;
                            let ask_strength = RequestView::AccessPoint(
                                access_point,
                                AccessPointProperty::Strength,
                            );
                            assert(a3.next == NextView::Ask(ask_strength));
                            assert(w.answer(ask_strength) == ResponseView::Level(found.strength));
                            let (s4, a4) = step(s3, w.answer(ask_strength));
                            let icon = show_icon(Icon::Wifi(found.strength));
                            let marked = ReconcilerView {
                                icon: Some(Icon::Wifi(found.strength)),
                                ..s3
                            };
                            assert((s4, a4) == next_primary_device(marked, seq![icon]));
                            assert forall|i: int|
                                0 <= i < marked.devices.len() implies primary_device_legible(
                                w,
                                #[trigger] marked.devices[i],
                            ) by {
                                assert(marked.devices[i] == s.devices[i + 1]);
                            }
                            lemma_observe_primary(marked, w, seq![icon], (patience - 3) as nat);
                            let t4 = run_against_from(s4, a4, w, (patience - 3) as nat);
                            assert(t4.effects =~= target);
                            assert(t3 == t4.after(seq![ask_strength], a3.effects));
                            lemma_silent_question(t4, ask_strength, target);
                        },
                        None => {
                            let icon = show_icon(Icon::Unknown);
                            let marked = ReconcilerView { icon: Some(Icon::Unknown), ..s2 };
                            assert((s3, a3) == next_primary_device(marked, seq![icon]));
                            assert forall|i: int|
                                0 <= i < marked.devices.len() implies primary_device_legible(
                                w,
                                #[trigger] marked.devices[i],
                            ) by {
                                assert(marked.devices[i] == s.devices[i + 1]);
                            }
                            lemma_observe_primary(marked, w, seq![icon], (patience - 2) as nat);
                            assert(t3.effects =~= target);
                        },
                    }
                    assert(shows(t3, target));
                    assert(t2 == t3.after(seq![ask_access_point], a2.effects));
                    lemma_silent_question(t3, ask_access_point, target);
                } else {
                    let kind = primary_icon_of(w, path)->0;
                    let icon = show_icon(kind);
                    let marked = ReconcilerView { icon: Some(kind), ..s1 };
                    assert((s2, a2) == next_primary_device(marked, seq![icon]));
                    assert forall|i: int|
                        0 <= i < marked.devices.len() implies primary_device_legible(
                        w,
                        #[trigger] marked.devices[i],
                    ) by {
                        assert(marked.devices[i] == s.devices[i + 1]);
                    }
                    lemma_observe_primary(marked, w, seq![icon], (patience - 1) as nat);
                    assert(t2.effects =~= target);
                }
            },
            None => {
                assert(w.answer(ask_kind) == ResponseView::Failed);
                assert((s2, a2) == next_primary_device(s1, Seq::empty()));
                assert forall|i: int|
                    0 <= i < s1.devices.len() implies primary_device_legible(
                    w,
                    #[trigger] s1.devices[i],
                ) by {
                    assert(s1.devices[i] == s.devices[i + 1]);
                }
                lemma_observe_primary(s1, w, Seq::empty(), (patience - 1) as nat);
                assert(t2.effects =~= target);
            },
        }
        assert(shows(t2, target));
        let t1 = run_against_from(s1, a1, w, patience);
        assert(t1 == t2.after(seq![ask_kind], carried));
        assert(carried + t2.effects =~= carried + primary_effects(w, s.devices, s.icon is Some)
            + panels);
    }
}

/// A pass over a service that stands still shows what the service holds.
/// Where the service can answer everything that the pass asks, and the
/// pass has patience enough, the pass ends in good order, and what it shows
/// and does is what the state of the service, its primary connection and its
/// devices say, in this order: every panel is taken away; the airplane-mode
/// panel; the icon; and for each device in turn its panel, with the VPN panel
/// at the end.
pub proof fn law_observed_pass_shows_the_service(w: NetworkManagerView, patience: nat)
    requires
        legible(w),
        patience >= pass_cost(w),
    ensures
        run_against(w, patience).outcome == Some(Outcome::Completed),
        run_against(w, patience).effects == pass_effects(w),
{
    reveal(step);
    let status = status_effects(w);
    let ask_wifi = RequestView::Manager(ManagerProperty::WirelessEnabled);
    let ask_bluetooth = RequestView::Manager(ManagerProperty::BluetoothEnabled);
    let ask_state = RequestView::Manager(ManagerProperty::State);
    let ask_connectivity = RequestView::Manager(ManagerProperty::Connectivity);
    let ask_primary = RequestView::Manager(ManagerProperty::PrimaryConnection);
    let (s1, a1) = step(initial(), w.answer(ask_wifi));
    let (s2, a2) = step(s1, w.answer(ask_bluetooth));
    let (s3, a3) = step(s2, w.answer(ask_state));
    let t3 = run_against_from(s3, a3, w, (patience - 3) as nat);
    assert(devices_legible(w));
    match spec_quiet_icon(NmState::of_code(w.state)) {
        Some(icon) => {
            assert(t3.effects =~= status);
        },
        None => {
            assert(a3.next == NextView::Ask(ask_connectivity));
            let (s4, a4) = step(s3, w.answer(ask_connectivity));
            let t4 = run_against_from(s4, a4, w, (patience - 4) as nat);
            match NmConnectivityState::of_code(w.connectivity) {
                NmConnectivityState::Full => {
                    assert(a4.next == NextView::Ask(ask_primary));
                    assert(w.answer(ask_primary) == ResponseView::Path(w.primary_connection));
                    let (s5, a5) = step(s4, w.answer(ask_primary));
                    let t5 = run_against_from(s5, a5, w, (patience - 5) as nat);
                    match spec_resolve(w.primary_connection) {
                        Some(primary) => {
                            let connection = spec_find_connection(w.active_connections, primary)->0;
                            let ask_devices = RequestView::Connection(
                                primary,
                                ConnectionProperty::Devices,
                            );
                            assert(a5.next == NextView::Ask(ask_devices));
                            assert(w.answer(ask_devices) == ResponseView::Paths(
                                connection.devices,
                            ));
                            let (s6, a6) = step(s5, w.answer(ask_devices));
                            let listed = ReconcilerView { devices: connection.devices, ..s5 };
                            assert((s6, a6) == next_primary_device(listed, Seq::empty()));
                            lemma_observe_primary(
                                listed,
                                w,
                                Seq::empty(),
                                (patience - 6) as nat,
                            );
                            let t6 = run_against_from(s6, a6, w, (patience - 6) as nat);
                            assert(t6.effects =~= status);
                            assert(t5 == t6.after(seq![ask_devices], a5.effects));
                            lemma_silent_question(t6, ask_devices, status);
                        },
                        None => {
                            assert(a5 == devices_question(seq![show_icon(Icon::Unknown)]));
                            lemma_observe_panels(
                                s5,
                                w,
                                seq![show_icon(Icon::Unknown)],
                                (patience - 5) as nat,
                            );
                        },
                    }
                    assert(shows(t5, status));
                    assert(t4 == t5.after(seq![ask_primary], a4.effects));
                    lemma_silent_question(t5, ask_primary, status);
                },
                NmConnectivityState::Loss => {
                    assert(a4 == devices_question(a4.effects));
                    lemma_observe_panels(s4, w, a4.effects, (patience - 4) as nat);
                },
                _ => {
                    assert(t4.effects =~= status);
                },
            }
            assert(shows(t4, status));
            assert(t3 == t4.after(seq![ask_connectivity], a3.effects));
            lemma_silent_question(t4, ask_connectivity, status);
        },
    }
    assert(shows(t3, status));
    let t2 = run_against_from(s2, a2, w, (patience - 2) as nat);
    assert(t2 == t3.after(seq![ask_state], a2.effects));
    let t1 = run_against_from(s1, a1, w, (patience - 1) as nat);
    assert(t1 == t2.after(seq![ask_bluetooth], a1.effects));
    let t0 = run_against_from(initial(), first_step(), w, patience);
    assert(t0 == t1.after(seq![ask_wifi], first_step().effects));
    assert(t0.effects =~= pass_effects(w));
}

} // verus!
