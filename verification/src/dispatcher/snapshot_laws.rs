//! An access-point change against a service held in memory does what the
//! service calls for.

use crate::dispatcher::laws::{
    changed, lemma_read_before, lemma_toggle_wifi_flips_radio, lemma_write_before, writes_of,
};
use crate::dispatcher::toggle_laws::law_toggle_airplane_mode_switches_wifi_radio;
use crate::reconciler::rules::spec_airplane_mode;
use crate::dispatcher::model::{
    begin, choose_access_point, next_active, next_candidate_profile, next_seen, next_vpn,
    next_wifi_candidate, next_wired_device, next_wired_profile, note_seen, run_against,
    run_against_from, step, DispatcherView,
};
use crate::dispatcher::rules::spec_find_access_point;
use crate::dispatcher::snapshot::{
    action_cost, action_plan, activations_on, change_cost, change_plan, change_reading,
    choice_plan, is_target_connection, legible_for, legible_for_change, legible_for_wired,
    legible_from, plan_from, profile_plan, seen_at, service_after, survey_plan, vpn_writes,
    wired_cost, wired_legible_at, wired_writes, Plan,
};
use crate::event::ActionView;
use crate::network::active_connection::ActiveConnectionView;
use crate::network::device::DeviceView;
use crate::network::enums::{ActiveConnectionState, DeviceState, DeviceType};
use crate::network::network_manager::{
    spec_find_access_point as spec_access_point_at, spec_find_connection, spec_find_device,
    NetworkManagerView,
};
use crate::network::queries::{access_point_known, setting_id, setting_ids, setting_named};
use crate::service::{
    null_path, spec_resolve, AccessPointProperty, ConnectionProperty, DeviceProperty, EffectView,
    ManagerProperty, NextView, Outcome, RequestView, ResponseView, TranscriptView,
};
use crate::status::WifiConnectionView;
use vstd::prelude::*;

verus! {

/// Whether an action against the service `w` came to the plan, and left
/// the service as it was.
pub open spec fn came_to(
    end: (TranscriptView, NetworkManagerView),
    w: NetworkManagerView,
    plan: Plan,
) -> bool {
    changed(end.0, plan.outcome, plan.writes) && end.1 == w
}

/// A device that the service lists is found at its path.
pub proof fn lemma_listed_device_is_found(devices: Seq<DeviceView>, i: int)
    requires
        0 <= i < devices.len(),
    ensures
        spec_find_device(devices, devices[i].path) is Some,
    decreases devices.len(),
{
    if devices[0].path != devices[i].path {
        assert(devices.drop_first()[i - 1] == devices[i]);
        lemma_listed_device_is_found(devices.drop_first(), i - 1);
    }
}

/// An active connection that the service lists is found at its path.
pub proof fn lemma_listed_connection_is_found(connections: Seq<ActiveConnectionView>, i: int)
    requires
        0 <= i < connections.len(),
    ensures
        spec_find_connection(connections, connections[i].path) is Some,
    decreases connections.len(),
{
    if connections[0].path != connections[i].path {
        assert(connections.drop_first()[i - 1] == connections[i]);
        lemma_listed_connection_is_found(connections.drop_first(), i - 1);
    }
}

/// A read in front of what an action came to.
proof fn lemma_read_first(
    end: (TranscriptView, NetworkManagerView),
    w: NetworkManagerView,
    plan: Plan,
    request: RequestView,
)
    requires
        came_to(end, w, plan),
        !request.is_write(),
    ensures
        came_to((end.0.after(seq![request], Seq::empty()), end.1), w, plan),
{
    assert((seq![request] + end.0.requests).drop_first() =~= end.0.requests);
}

/// Reading the names of the configured connections from the service, up to
/// the first that carries the name of the chosen access point.
proof fn lemma_perform_profiles(s: DispatcherView, w: NetworkManagerView, patience: nat)
    requires
        forall|i: int| 0 <= i < s.items.len() ==> setting_named(w, #[trigger] s.items[i]),
        patience >= s.items.len() + 1,
    ensures
        came_to(
            run_against_from(
                next_candidate_profile(s).0,
                next_candidate_profile(s).1,
                w,
                patience,
            ),
            w,
            profile_plan(w, s.items, s.device, s.chosen),
        ),
    decreases s.items.len(),
{
    reveal(step);
    let plan = profile_plan(w, s.items, s.device, s.chosen);
    let (s1, a1) = next_candidate_profile(s);
    let end1 = run_against_from(s1, a1, w, patience);
    if s.items.len() == 0 {
        assert(end1.0.requests =~= Seq::empty());
    } else {
        let path = s.items[0];
        let ask_name = RequestView::ProfileId(path);
        assert(setting_named(w, s.items[0]));
        let id = setting_id(w, path)->0;
        assert(setting_ids(w, s.items)[0] == id);
        assert(w.answer(ask_name) == ResponseView::Text(id));
        let (s2, a2) = step(s1, w.answer(ask_name));
        let end2 = run_against_from(s2, a2, w, (patience - 1) as nat);
        if id == s.chosen.network.ssid {
            let write = RequestView::Activate {
                connection: path,
                device: s.device,
                specific_object: s.chosen.path,
            };
            assert(a2.next == NextView::Ask(write));
            assert(w.answer(write) == ResponseView::Done);
            let (s3, a3) = step(s2, w.answer(write));
            let end3 = run_against_from(s3, a3, w.after(write), (patience - 2) as nat);
            assert(w.after(write) == w);
            assert(end3.0.requests =~= Seq::empty());
            assert(end3.1 == w);
            assert(end2.0 == end3.0.after(seq![write], a2.effects));
            assert(end2.1 == end3.1);
            lemma_write_before(end3.0, write, a2.effects, Outcome::Completed, Seq::empty());
            assert(seq![write] + Seq::<RequestView>::empty() =~= seq![write]);
            assert(plan.writes == seq![write]);
            assert(came_to(end2, w, plan));
        } else {
            assert((s2, a2) == next_candidate_profile(s1));
            assert(s1.items =~= s.items.drop_first());
            assert forall|i: int| 0 <= i < s1.items.len() implies setting_named(
                w,
                #[trigger] s1.items[i],
            ) by {
                assert(s1.items[i] == s.items[i + 1]);
            }
            lemma_perform_profiles(s1, w, (patience - 1) as nat);
        }
        assert(end1.0 == end2.0.after(seq![ask_name], a1.effects));
        lemma_read_first(end2, w, plan, ask_name);
    }
}

/// Once the target is found not to be in use: the choice of the
/// access point, and the configured connections of the device.
proof fn lemma_perform_choice(s: DispatcherView, w: NetworkManagerView, patience: nat)
    requires
        spec_find_device(w.devices, s.device) matches Some(found) && patience
            >= found.available_connections.len() + 2 && forall|i: int|
            0 <= i < found.available_connections.len() ==> setting_named(
                w,
                #[trigger] found.available_connections[i],
            ),
    ensures
        came_to(
            run_against_from(choose_access_point(s).0, choose_access_point(s).1, w, patience),
            w,
            choice_plan(w, s.target, s.device, s.seen),
        ),
{
    reveal(step);
    let found = spec_find_device(w.devices, s.device)->0;
    let plan = choice_plan(w, s.target, s.device, s.seen);
    let (s1, a1) = choose_access_point(s);
    let end1 = run_against_from(s1, a1, w, patience);
    match spec_find_access_point(s.seen, s.target) {
        Some(chosen) => {
            let ask_profiles = RequestView::Device(s.device, DeviceProperty::AvailableConnections);
            assert(w.answer(ask_profiles) == ResponseView::Paths(found.available_connections));
            let (s2, a2) = step(s1, w.answer(ask_profiles));
            let listed = DispatcherView { items: found.available_connections, ..s1 };
            assert((s2, a2) == next_candidate_profile(listed));
            lemma_perform_profiles(listed, w, (patience - 1) as nat);
            let end2 = run_against_from(s2, a2, w, (patience - 1) as nat);
            assert(end1.0 == end2.0.after(seq![ask_profiles], a1.effects));
            lemma_read_first(end2, w, plan, ask_profiles);
        },
        None => {
            assert(end1.0.requests =~= Seq::empty());
        },
    }
}

/// Reading the active connections from the service, up to the first that
/// is the target in use.
proof fn lemma_perform_connections(s: DispatcherView, w: NetworkManagerView, patience: nat)
    requires
        forall|i: int|
            0 <= i < s.queue.len() ==> spec_find_connection(
                w.active_connections,
                #[trigger] s.queue[i],
            ) is Some,
        spec_find_device(w.devices, s.device) matches Some(found) && patience >= 2 * s.queue.len()
            + found.available_connections.len() + 2 && forall|i: int|
            0 <= i < found.available_connections.len() ==> setting_named(
                w,
                #[trigger] found.available_connections[i],
            ),
    ensures
        came_to(
            run_against_from(next_active(s).0, next_active(s).1, w, patience),
            w,
            survey_plan(w, s.target, s.device, s.seen, s.queue),
        ),
    decreases s.queue.len(),
{
    reveal(step);
    let plan = survey_plan(w, s.target, s.device, s.seen, s.queue);
    if s.queue.len() == 0 {
        lemma_perform_choice(s, w, patience);
    } else {
        let (s1, a1) = next_active(s);
        let path = s.queue[0];
        assert(spec_find_connection(w.active_connections, s.queue[0]) is Some);
        let connection = spec_find_connection(w.active_connections, path)->0;
        let ask_name = RequestView::Connection(path, ConnectionProperty::Id);
        let ask_state = RequestView::Connection(path, ConnectionProperty::State);
        assert(w.answer(ask_name) == ResponseView::Text(connection.id));
        let (s2, a2) = step(s1, w.answer(ask_name));
        assert(a2.next == NextView::Ask(ask_state));
        assert(w.answer(ask_state) == ResponseView::Code(connection.state));
        let (s3, a3) = step(s2, w.answer(ask_state));
        let end3 = run_against_from(s3, a3, w, (patience - 2) as nat);
        if is_target_connection(w, s.seen, s.target, path) {
            assert(end3.0.requests =~= Seq::empty());
            assert(came_to(end3, w, plan));
        } else {
            assert((s3, a3) == next_active(s2));
            assert(s2.queue =~= s.queue.drop_first());
            assert forall|i: int| 0 <= i < s2.queue.len() implies spec_find_connection(
                w.active_connections,
                #[trigger] s2.queue[i],
            ) is Some by {
                assert(s2.queue[i] == s.queue[i + 1]);
            }
            lemma_perform_connections(s2, w, (patience - 2) as nat);
        }
        let end2 = run_against_from(s2, a2, w, (patience - 1) as nat);
        assert(end2.0 == end3.0.after(seq![ask_state], a2.effects));
        lemma_read_first(end3, w, plan, ask_state);
        let end1 = run_against_from(s1, a1, w, patience);
        assert(end1.0 == end2.0.after(seq![ask_name], a1.effects));
        lemma_read_first(end2, w, plan, ask_name);
    }
}

/// Reading the access points of the device from the service.
proof fn lemma_perform_access_points(
    s: DispatcherView,
    w: NetworkManagerView,
    patience: nat,
    rest_cost: nat,
    plan: Plan,
)
    requires
        forall|i: int| 0 <= i < s.items.len() ==> access_point_known(w, #[trigger] s.items[i]),
        patience >= 2 * s.items.len() + rest_cost,
        forall|done: DispatcherView, p: nat|
            p >= rest_cost && done.items.len() == 0 && done.target == s.target && done.device
                == s.device && done.seen == s.seen + seen_at(w, s.items) ==> came_to(
                #[trigger] run_against_from(next_seen(done).0, next_seen(done).1, w, p),
                w,
                plan,
            ),
    ensures
        came_to(run_against_from(next_seen(s).0, next_seen(s).1, w, patience), w, plan),
    decreases s.items.len(),
{
    reveal(step);
    if s.items.len() == 0 {
        assert(s.seen + seen_at(w, s.items) =~= s.seen);
    } else {
        let (s1, a1) = next_seen(s);
        let path = s.items[0];
        assert(access_point_known(w, s.items[0]));
        let found = spec_access_point_at(w.access_points, path)->0;
        let ask_name = RequestView::AccessPoint(path, AccessPointProperty::Ssid);
        let ask_address = RequestView::AccessPoint(path, AccessPointProperty::HwAddress);
        assert(w.answer(ask_name) == ResponseView::Bytes(found.ssid));
        let (s2, a2) = step(s1, w.answer(ask_name));
        assert(a2.next == NextView::Ask(ask_address));
        assert(w.answer(ask_address) == ResponseView::Text(found.hw_address));
        let (s3, a3) = step(s2, w.answer(ask_address));
        let noted = note_seen(s2, found.hw_address);
        assert((s3, a3) == next_seen(noted));
        assert(noted.items =~= s.items.drop_first());
        assert forall|i: int| 0 <= i < noted.items.len() implies access_point_known(
            w,
            #[trigger] noted.items[i],
        ) by {
            assert(noted.items[i] == s.items[i + 1]);
        }
        assert(noted.seen + seen_at(w, noted.items) =~= s.seen + seen_at(w, s.items));
        lemma_perform_access_points(noted, w, (patience - 2) as nat, rest_cost, plan);
        let end3 = run_against_from(s3, a3, w, (patience - 2) as nat);
        let end2 = run_against_from(s2, a2, w, (patience - 1) as nat);
        assert(end2.0 == end3.0.after(seq![ask_address], a2.effects));
        lemma_read_first(end3, w, plan, ask_address);
        let end1 = run_against_from(s1, a1, w, patience);
        assert(end1.0 == end2.0.after(seq![ask_name], a1.effects));
        lemma_read_first(end2, w, plan, ask_name);
    }
}

/// The search for an activated wifi device, and what follows from the
/// first one found.
proof fn lemma_perform_search(s: DispatcherView, w: NetworkManagerView, patience: nat)
    requires
        forall|i: int|
            0 <= i < s.queue.len() ==> spec_find_device(w.devices, #[trigger] s.queue[i]) is Some,
        forall|i: int|
            0 <= i < w.connection_paths().len() ==> spec_find_connection(
                w.active_connections,
                #[trigger] w.connection_paths()[i],
            ) is Some,
        legible_from(w, s.queue),
        patience >= 2 * s.queue.len() + 5 + 2 * w.active_connections.len() + change_reading(
            w,
            s.queue,
        ),
    ensures
        came_to(
            run_against_from(next_wifi_candidate(s).0, next_wifi_candidate(s).1, w, patience),
            w,
            plan_from(w, s.target, s.queue),
        ),
    decreases s.queue.len(),
{
    reveal(step);
    let plan = plan_from(w, s.target, s.queue);
    let (s1, a1) = next_wifi_candidate(s);
    let end1 = run_against_from(s1, a1, w, patience);
    if s.queue.len() == 0 {
        assert(end1.0.requests =~= Seq::empty());
    } else {
        let path = s.queue[0];
        assert(spec_find_device(w.devices, s.queue[0]) is Some);
        let device = spec_find_device(w.devices, path)->0;
        let ask_kind = RequestView::Device(path, DeviceProperty::DeviceType);
        assert(w.answer(ask_kind) == ResponseView::Code(device.device_type));
        let (s2, a2) = step(s1, w.answer(ask_kind));
        let end2 = run_against_from(s2, a2, w, (patience - 1) as nat);
        assert(s1.queue =~= s.queue.drop_first());
        assert forall|i: int| 0 <= i < s1.queue.len() implies spec_find_device(
            w.devices,
            #[trigger] s1.queue[i],
        ) is Some by {
            assert(s1.queue[i] == s.queue[i + 1]);
        }
        if DeviceType::of_code(device.device_type) == DeviceType::Wifi {
            let ask_state = RequestView::Device(path, DeviceProperty::State);
            assert(a2.next == NextView::Ask(ask_state));
            assert(w.answer(ask_state) == ResponseView::Code(device.state));
            let (s3, a3) = step(s2, w.answer(ask_state));
            let end3 = run_against_from(s3, a3, w, (patience - 2) as nat);
            if DeviceState::of_code(device.state) == DeviceState::Activated {
                let ask_access_points = RequestView::Device(path, DeviceProperty::AccessPoints);
                let ask_connections = RequestView::Manager(ManagerProperty::ActiveConnections);
                assert(a3.next == NextView::Ask(ask_access_points));
                assert(w.answer(ask_access_points) == ResponseView::Paths(device.access_points));
                let (s4, a4) = step(s3, w.answer(ask_access_points));
                let sighted = DispatcherView {
                    items: device.access_points,
                    seen: Seq::empty(),
                    ..s3
                };
                assert((s4, a4) == next_seen(sighted));
                let rest_cost: nat = 1 + 2 * w.active_connections.len()
                    + device.available_connections.len() + 2;
                assert forall|done: DispatcherView, p: nat|
                    p >= rest_cost && done.items.len() == 0 && done.target == sighted.target
                        && done.device == sighted.device && done.seen == sighted.seen + seen_at(
                        w,
                        sighted.items,
                    ) implies came_to(
                    #[trigger] run_against_from(next_seen(done).0, next_seen(done).1, w, p),
                    w,
                    plan,
                ) by {
                    let (d1, b1) = next_seen(done);
                    assert(b1.next == NextView::Ask(ask_connections));
                    assert(w.answer(ask_connections) == ResponseView::Paths(w.connection_paths()));
                    let (d2, b2) = step(d1, w.answer(ask_connections));
                    let listed = DispatcherView { queue: w.connection_paths(), ..d1 };
                    assert((d2, b2) == next_active(listed));
                    assert(done.seen =~= seen_at(w, device.access_points));
                    lemma_perform_connections(listed, w, (p - 1) as nat);
                    let end_b2 = run_against_from(d2, b2, w, (p - 1) as nat);
                    let end_b1 = run_against_from(d1, b1, w, p);
                    assert(end_b1.0 == end_b2.0.after(seq![ask_connections], b1.effects));
                    lemma_read_first(end_b2, w, plan, ask_connections);
                }
                assert forall|i: int| 0 <= i < sighted.items.len() implies access_point_known(
                    w,
                    #[trigger] sighted.items[i],
                ) by {
                    assert(access_point_known(w, device.access_points[i]));
                }
                lemma_perform_access_points(sighted, w, (patience - 3) as nat, rest_cost, plan);
                let end4 = run_against_from(s4, a4, w, (patience - 3) as nat);
                assert(end3.0 == end4.0.after(seq![ask_access_points], a3.effects));
                lemma_read_first(end4, w, plan, ask_access_points);
            } else {
                assert((s3, a3) == next_wifi_candidate(s2));
                lemma_perform_search(s2, w, (patience - 2) as nat);
            }
            assert(came_to(end3, w, plan));
            assert(end2.0 == end3.0.after(seq![ask_state], a2.effects));
            lemma_read_first(end3, w, plan, ask_state);
        } else {
            assert((s2, a2) == next_wifi_candidate(s1));
            lemma_perform_search(s1, w, (patience - 1) as nat);
        }
        assert(came_to(end2, w, plan));
        assert(end1.0 == end2.0.after(seq![ask_kind], a1.effects));
        lemma_read_first(end2, w, plan, ask_kind);
    }
}

/// An access-point change against a service held in memory does what the
/// service calls for. Where the service can answer everything that the
/// action asks, and the action has patience enough, the action ends as the
/// state of the service says and asks for the changes that it says, and for
/// no others: nothing where there is no activated wifi device, where the
/// target is in use already, where no access point in sight offers it by
/// name and hardware address, and where no configured connection carries
/// its name; and else the activation of the first such connection, on the
/// wifi device and bound to the first such access point. The service held
/// in memory stays as it is.
pub proof fn law_performed_change_follows_the_service(
    w: NetworkManagerView,
    target: WifiConnectionView,
    patience: nat,
)
    requires
        legible_for_change(w),
        patience >= change_cost(w),
    ensures
        came_to(
            run_against(ActionView::ChangeAccessPoint(target), w, patience),
            w,
            change_plan(w, target),
        ),
{
    reveal(step);
    let plan = change_plan(w, target);
    let (s0, a0) = begin(ActionView::ChangeAccessPoint(target));
    let ask_devices = RequestView::Manager(ManagerProperty::Devices);
    assert(w.answer(ask_devices) == ResponseView::Paths(w.device_paths()));
    let (s1, a1) = step(s0, w.answer(ask_devices));
    let listed = DispatcherView { queue: w.device_paths(), ..s0 };
    assert((s1, a1) == next_wifi_candidate(listed));
    assert forall|i: int| 0 <= i < listed.queue.len() implies spec_find_device(
        w.devices,
        #[trigger] listed.queue[i],
    ) is Some by {
        lemma_listed_device_is_found(w.devices, i);
    }
    assert forall|i: int| 0 <= i < w.connection_paths().len() implies spec_find_connection(
        w.active_connections,
        #[trigger] w.connection_paths()[i],
    ) is Some by {
        lemma_listed_connection_is_found(w.active_connections, i);
    }
    lemma_perform_search(listed, w, (patience - 1) as nat);
    let end1 = run_against_from(s1, a1, w, (patience - 1) as nat);
    let end0 = run_against_from(s0, a0, w, patience);
    assert(end0.0 == end1.0.after(seq![ask_devices], a0.effects));
    lemma_read_first(end1, w, plan, ask_devices);
}

/// A write that the service accepts without a change, in front of what an
/// action came to.
proof fn lemma_write_first(
    end: (TranscriptView, NetworkManagerView),
    w: NetworkManagerView,
    outcome: Outcome,
    writes: Seq<RequestView>,
    request: RequestView,
)
    requires
        came_to(end, w, Plan { outcome, writes }),
        request.is_write(),
    ensures
        came_to(
            (end.0.after(seq![request], Seq::empty()), end.1),
            w,
            Plan { outcome, writes: seq![request] + writes },
        ),
{
    assert((seq![request] + end.0.requests).drop_first() =~= end.0.requests);
}

/// Toggling a VPN: the active connections one after the other.
proof fn lemma_perform_vpn_toggle(s: DispatcherView, w: NetworkManagerView, patience: nat)
    requires
        forall|i: int|
            0 <= i < s.queue.len() ==> spec_find_connection(
                w.active_connections,
                #[trigger] s.queue[i],
            ) is Some,
        patience >= 5 * s.queue.len(),
    ensures
        came_to(
            run_against_from(next_vpn(s).0, next_vpn(s).1, w, patience),
            w,
            Plan { outcome: Outcome::Completed, writes: vpn_writes(w, s.name, s.queue) },
        ),
    decreases s.queue.len(),
{
    reveal(step);
    let done = Outcome::Completed;
    let (s1, a1) = next_vpn(s);
    let end1 = run_against_from(s1, a1, w, patience);
    if s.queue.len() == 0 {
        assert(end1.0.requests =~= Seq::empty());
    } else {
        let path = s.queue[0];
        let rest = s.queue.drop_first();
        let later = vpn_writes(w, s.name, rest);
        let plan = Plan { outcome: done, writes: vpn_writes(w, s.name, s.queue) };
        assert(spec_find_connection(w.active_connections, s.queue[0]) is Some);
        let connection = spec_find_connection(w.active_connections, path)->0;
        assert(s1.queue =~= rest);
        assert forall|i: int| 0 <= i < s1.queue.len() implies spec_find_connection(
            w.active_connections,
            #[trigger] s1.queue[i],
        ) is Some by {
            assert(s1.queue[i] == s.queue[i + 1]);
        }
        let ask_kind = RequestView::Connection(path, ConnectionProperty::ConnectionType);
        assert(w.answer(ask_kind) == ResponseView::Text(connection.connection_type));
        let (s2, a2) = step(s1, w.answer(ask_kind));
        let end2 = run_against_from(s2, a2, w, (patience - 1) as nat);
        if DeviceType::of_name(connection.connection_type) == DeviceType::WireGuard {
            let ask_name = RequestView::Connection(path, ConnectionProperty::Id);
            assert(a2.next == NextView::Ask(ask_name));
            assert(w.answer(ask_name) == ResponseView::Text(connection.id));
            let (s3, a3) = step(s2, w.answer(ask_name));
            let end3 = run_against_from(s3, a3, w, (patience - 2) as nat);
            if connection.id == s.name {
                let ask_state = RequestView::Connection(path, ConnectionProperty::State);
                assert(a3.next == NextView::Ask(ask_state));
                assert(w.answer(ask_state) == ResponseView::Code(connection.state));
                let (s4, a4) = step(s3, w.answer(ask_state));
                let end4 = run_against_from(s4, a4, w, (patience - 3) as nat);
                if ActiveConnectionState::of_code(connection.state)
                    == ActiveConnectionState::Activated {
                    let write = RequestView::Deactivate(path);
                    assert(a4.next == NextView::Ask(write));
                    assert(w.answer(write) == ResponseView::Done);
                    assert(w.after(write) == w);
                    let (s5, a5) = step(s4, w.answer(write));
                    assert((s5, a5) == next_vpn(s4));
                    lemma_perform_vpn_toggle(s4, w, (patience - 4) as nat);
                    let end5 = run_against_from(s5, a5, w, (patience - 4) as nat);
                    assert(end4.0 == end5.0.after(seq![write], a4.effects));
                    lemma_write_first(end5, w, done, later, write);
                } else {
                    let ask_object = RequestView::Connection(
                        path,
                        ConnectionProperty::SpecificObject,
                    );
                    assert(a4.next == NextView::Ask(ask_object));
                    assert(w.answer(ask_object) == ResponseView::Path(
                        connection.specific_object,
                    ));
                    let (s5, a5) = step(s4, w.answer(ask_object));
                    let end5 = run_against_from(s5, a5, w, (patience - 4) as nat);
                    match spec_resolve(connection.specific_object) {
                        Some(object) => {
                            let write = RequestView::Activate {
                                connection: null_path(),
                                device: null_path(),
                                specific_object: object,
                            };
                            assert(a5.next == NextView::Ask(write));
                            assert(w.answer(write) == ResponseView::Done);
                            assert(w.after(write) == w);
                            let (s6, a6) = step(s5, w.answer(write));
                            assert((s6, a6) == next_vpn(s5));
                            lemma_perform_vpn_toggle(s5, w, (patience - 5) as nat);
                            let end6 = run_against_from(s6, a6, w, (patience - 5) as nat);
                            assert(end5.0 == end6.0.after(seq![write], a5.effects));
                            lemma_write_first(end6, w, done, later, write);
                        },
                        None => {
                            assert((s5, a5) == next_vpn(s4));
                            lemma_perform_vpn_toggle(s4, w, (patience - 4) as nat);
                            assert(Seq::<RequestView>::empty() + later =~= later);
                        },
                    }
                    assert(came_to(end5, w, plan));
                    assert(end4.0 == end5.0.after(seq![ask_object], a4.effects));
                    lemma_read_first(end5, w, plan, ask_object);
                }
                assert(came_to(end4, w, plan));
                assert(end3.0 == end4.0.after(seq![ask_state], a3.effects));
                lemma_read_first(end4, w, plan, ask_state);
            } else {
                assert((s3, a3) == next_vpn(s2));
                lemma_perform_vpn_toggle(s2, w, (patience - 2) as nat);
                assert(Seq::<RequestView>::empty() + later =~= later);
            }
            assert(came_to(end3, w, plan));
            assert(end2.0 == end3.0.after(seq![ask_name], a2.effects));
            lemma_read_first(end3, w, plan, ask_name);
        } else {
            assert((s2, a2) == next_vpn(s1));
            lemma_perform_vpn_toggle(s1, w, (patience - 1) as nat);
            assert(Seq::<RequestView>::empty() + later =~= later);
        }
        assert(came_to(end2, w, plan));
        assert(end1.0 == end2.0.after(seq![ask_kind], a1.effects));
        lemma_read_first(end2, w, plan, ask_kind);
    }
}

/// Toggling a VPN against a service held in memory does what the service
/// calls for. With patience enough, the action ends in good order, leaves
/// the service held in memory as it is, and asks for these changes and no
/// others, in the order of the active connections: for each WireGuard
/// connection of the given name, to deactivate it when it is activated, and
/// else to activate the object it is bound to.
pub proof fn law_performed_vpn_toggle_follows_the_service(
    w: NetworkManagerView,
    name: Seq<char>,
    patience: nat,
)
    requires
        patience >= 1 + 5 * w.active_connections.len(),
    ensures
        came_to(
            run_against(ActionView::ToggleVPN(name), w, patience),
            w,
            Plan { outcome: Outcome::Completed, writes: vpn_writes(w, name, w.connection_paths()) },
        ),
{
    reveal(step);
    let plan = Plan {
        outcome: Outcome::Completed,
        writes: vpn_writes(w, name, w.connection_paths()),
    };
    let (s0, a0) = begin(ActionView::ToggleVPN(name));
    let ask_connections = RequestView::Manager(ManagerProperty::ActiveConnections);
    assert(w.answer(ask_connections) == ResponseView::Paths(w.connection_paths()));
    let (s1, a1) = step(s0, w.answer(ask_connections));
    let listed = DispatcherView { queue: w.connection_paths(), ..s0 };
    assert((s1, a1) == next_vpn(listed));
    assert forall|i: int| 0 <= i < listed.queue.len() implies spec_find_connection(
        w.active_connections,
        #[trigger] listed.queue[i],
    ) is Some by {
        lemma_listed_connection_is_found(w.active_connections, i);
    }
    lemma_perform_vpn_toggle(listed, w, (patience - 1) as nat);
    let end1 = run_against_from(s1, a1, w, (patience - 1) as nat);
    let end0 = run_against_from(s0, a0, w, patience);
    assert(end0.0 == end1.0.after(seq![ask_connections], a0.effects));
    lemma_read_first(end1, w, plan, ask_connections);
}

/// Whether an action, once it turns to the devices `rest` with patience of
/// at least `rest_cost`, ends in good order with the changes that toggling
/// the wired device asks for those devices.
pub open spec fn wired_rest_performed(
    w: NetworkManagerView,
    rest: Seq<Seq<char>>,
    rest_cost: nat,
) -> bool {
    forall|done: DispatcherView, p: nat|
        p >= rest_cost && done.queue == rest && !done.refused ==> came_to(
            #[trigger] run_against_from(
                next_wired_device(done).0,
                next_wired_device(done).1,
                w,
                p,
            ),
            w,
            Plan { outcome: Outcome::Completed, writes: wired_writes(w, rest) },
        )
}

/// Toggling the wired device on: each configured connection of the device
/// is activated in turn.
proof fn lemma_perform_activations(
    s: DispatcherView,
    w: NetworkManagerView,
    patience: nat,
    rest_cost: nat,
)
    requires
        !s.refused,
        wired_rest_performed(w, s.queue, rest_cost),
        patience >= s.items.len() + rest_cost,
    ensures
        came_to(
            run_against_from(next_wired_profile(s).0, next_wired_profile(s).1, w, patience),
            w,
            Plan {
                outcome: Outcome::Completed,
                writes: activations_on(s.items, s.current) + wired_writes(w, s.queue),
            },
        ),
    decreases s.items.len(),
{
    reveal(step);
    let later = wired_writes(w, s.queue);
    if s.items.len() == 0 {
        assert(activations_on(s.items, s.current) + later =~= later);
    } else {
        let (s1, a1) = next_wired_profile(s);
        let write = RequestView::Activate {
            connection: s.items[0],
            device: s.current,
            specific_object: null_path(),
        };
        assert(w.answer(write) == ResponseView::Done);
        assert(w.after(write) == w);
        let (s2, a2) = step(s1, w.answer(write));
        assert((s2, a2) == next_wired_profile(s1));
        assert(s1.items =~= s.items.drop_first());
        lemma_perform_activations(s1, w, (patience - 1) as nat, rest_cost);
        let end2 = run_against_from(s2, a2, w, (patience - 1) as nat);
        let end1 = run_against_from(s1, a1, w, patience);
        assert(end1.0 == end2.0.after(seq![write], a1.effects));
        lemma_write_first(
            end2,
            w,
            Outcome::Completed,
            activations_on(s1.items, s1.current) + later,
            write,
        );
        assert(seq![write] + (activations_on(s1.items, s1.current) + later) =~= activations_on(
            s.items,
            s.current,
        ) + later);
    }
}

/// Toggling the wired device: the devices one after the other.
proof fn lemma_perform_wired_toggle(s: DispatcherView, w: NetworkManagerView, patience: nat)
    requires
        !s.refused,
        forall|i: int| 0 <= i < s.queue.len() ==> wired_legible_at(w, #[trigger] s.queue[i]),
        forall|i: int|
            0 <= i < s.queue.len() ==> spec_find_device(w.devices, #[trigger] s.queue[i]) is Some,
        patience >= wired_cost(w, s.queue),
    ensures
        came_to(
            run_against_from(next_wired_device(s).0, next_wired_device(s).1, w, patience),
            w,
            Plan { outcome: Outcome::Completed, writes: wired_writes(w, s.queue) },
        ),
    decreases s.queue.len(),
{
    reveal(step);
    let done = Outcome::Completed;
    let (s1, a1) = next_wired_device(s);
    let end1 = run_against_from(s1, a1, w, patience);
    if s.queue.len() == 0 {
        assert(end1.0.requests =~= Seq::empty());
    } else {
        let path = s.queue[0];
        let rest = s.queue.drop_first();
        let rest_cost = wired_cost(w, rest);
        let later = wired_writes(w, rest);
        let plan = Plan { outcome: done, writes: wired_writes(w, s.queue) };
        assert(spec_find_device(w.devices, s.queue[0]) is Some);
        assert(wired_legible_at(w, s.queue[0]));
        let device = spec_find_device(w.devices, path)->0;
        assert(s1.queue =~= rest);
        assert forall|other: DispatcherView, p: nat|
            p >= rest_cost && other.queue == rest && !other.refused implies came_to(
            #[trigger] run_against_from(
                next_wired_device(other).0,
                next_wired_device(other).1,
                w,
                p,
            ),
            w,
            Plan { outcome: Outcome::Completed, writes: wired_writes(w, rest) },
        ) by {
            assert forall|i: int| 0 <= i < other.queue.len() implies wired_legible_at(
                w,
                #[trigger] other.queue[i],
            ) by {
                assert(other.queue[i] == s.queue[i + 1]);
            }
            assert forall|i: int| 0 <= i < other.queue.len() implies spec_find_device(
                w.devices,
                #[trigger] other.queue[i],
            ) is Some by {
                assert(other.queue[i] == s.queue[i + 1]);
            }
            lemma_perform_wired_toggle(other, w, p);
        }
        assert(wired_rest_performed(w, rest, rest_cost));
        let ask_kind = RequestView::Device(path, DeviceProperty::DeviceType);
        let ask_profiles = RequestView::Device(path, DeviceProperty::AvailableConnections);
        assert(w.answer(ask_kind) == ResponseView::Code(device.device_type));
        let (s2, a2) = step(s1, w.answer(ask_kind));
        let end2 = run_against_from(s2, a2, w, (patience - 1) as nat);
        if DeviceType::of_code(device.device_type) == DeviceType::Ethernet {
            let ask_connection = RequestView::Device(path, DeviceProperty::ActiveConnection);
            assert(a2.next == NextView::Ask(ask_connection));
            assert(w.answer(ask_connection) == ResponseView::Path(device.active_connection));
            let (s3, a3) = step(s2, w.answer(ask_connection));
            let end3 = run_against_from(s3, a3, w, (patience - 2) as nat);
            match spec_resolve(device.active_connection) {
                Some(connection) => {
                    let found = spec_find_connection(w.active_connections, connection)->0;
                    let ask_state = RequestView::Connection(connection, ConnectionProperty::State);
                    assert(a3.next == NextView::Ask(ask_state));
                    assert(w.answer(ask_state) == ResponseView::Code(found.state));
                    let (s4, a4) = step(s3, w.answer(ask_state));
                    let end4 = run_against_from(s4, a4, w, (patience - 3) as nat);
                    if ActiveConnectionState::of_code(found.state)
                        == ActiveConnectionState::Activated {
                        let write = RequestView::Deactivate(connection);
                        assert(a4.next == NextView::Ask(write));
                        assert(w.answer(write) == ResponseView::Done);
                        assert(w.after(write) == w);
                        let (s5, a5) = step(s4, w.answer(write));
                        assert((s5, a5) == next_wired_device(s4));
                        let end5 = run_against_from(s5, a5, w, (patience - 4) as nat);
                        assert(end4.0 == end5.0.after(seq![write], a4.effects));
                        lemma_write_first(end5, w, done, later, write);
                    } else {
                        assert(a4.next == NextView::Ask(ask_profiles));
                        assert(w.answer(ask_profiles) == ResponseView::Paths(
                            device.available_connections,
                        ));
                        let (s5, a5) = step(s4, w.answer(ask_profiles));
                        let listed = DispatcherView {
                            items: device.available_connections,
                            ..s4
                        };
                        assert((s5, a5) == next_wired_profile(listed));
                        lemma_perform_activations(listed, w, (patience - 4) as nat, rest_cost);
                        let end5 = run_against_from(s5, a5, w, (patience - 4) as nat);
                        assert(end4.0 == end5.0.after(seq![ask_profiles], a4.effects));
                        lemma_read_first(end5, w, plan, ask_profiles);
                    }
                    assert(came_to(end4, w, plan));
                    assert(end3.0 == end4.0.after(seq![ask_state], a3.effects));
                    lemma_read_first(end4, w, plan, ask_state);
                },
                None => {
                    assert(a3.next == NextView::Ask(ask_profiles));
                    assert(w.answer(ask_profiles) == ResponseView::Paths(
                        device.available_connections,
                    ));
                    let (s4, a4) = step(s3, w.answer(ask_profiles));
                    let listed = DispatcherView { items: device.available_connections, ..s3 };
                    assert((s4, a4) == next_wired_profile(listed));
                    lemma_perform_activations(listed, w, (patience - 3) as nat, rest_cost);
                    let end4 = run_against_from(s4, a4, w, (patience - 3) as nat);
                    assert(end3.0 == end4.0.after(seq![ask_profiles], a3.effects));
                    lemma_read_first(end4, w, plan, ask_profiles);
                },
            }
            assert(came_to(end3, w, plan));
            assert(end2.0 == end3.0.after(seq![ask_connection], a2.effects));
            lemma_read_first(end3, w, plan, ask_connection);
        } else {
            assert((s2, a2) == next_wired_device(s1));
            assert(Seq::<RequestView>::empty() + later =~= later);
        }
        assert(came_to(end2, w, plan));
        assert(end1.0 == end2.0.after(seq![ask_kind], a1.effects));
        lemma_read_first(end2, w, plan, ask_kind);
    }
}

/// Toggling the wired device against a service held in memory does what
/// the service calls for. Where the service knows the connection of each
/// ethernet device, and the action has patience enough, the action ends in
/// good order, leaves the service held in memory as it is, and asks for
/// these changes and no others, in the order of the devices: for each
/// ethernet device, to deactivate its connection when that is activated, and
/// else to activate each of its configured connections in turn, on the
/// device and bound to no object.
pub proof fn law_performed_wired_toggle_follows_the_service(w: NetworkManagerView, patience: nat)
    requires
        legible_for_wired(w),
        patience >= 1 + wired_cost(w, w.device_paths()),
    ensures
        came_to(
            run_against(ActionView::ToggleWired, w, patience),
            w,
            Plan { outcome: Outcome::Completed, writes: wired_writes(w, w.device_paths()) },
        ),
{
    reveal(step);
    let plan = Plan { outcome: Outcome::Completed, writes: wired_writes(w, w.device_paths()) };
    let (s0, a0) = begin(ActionView::ToggleWired);
    let ask_devices = RequestView::Manager(ManagerProperty::Devices);
    assert(w.answer(ask_devices) == ResponseView::Paths(w.device_paths()));
    let (s1, a1) = step(s0, w.answer(ask_devices));
    let listed = DispatcherView { queue: w.device_paths(), ..s0 };
    assert((s1, a1) == next_wired_device(listed));
    assert forall|i: int| 0 <= i < listed.queue.len() implies spec_find_device(
        w.devices,
        #[trigger] listed.queue[i],
    ) is Some by {
        lemma_listed_device_is_found(w.devices, i);
    }
    lemma_perform_wired_toggle(listed, w, (patience - 1) as nat);
    let end1 = run_against_from(s1, a1, w, (patience - 1) as nat);
    let end0 = run_against_from(s0, a0, w, patience);
    assert(end0.0 == end1.0.after(seq![ask_devices], a0.effects));
    lemma_read_first(end1, w, plan, ask_devices);
}

/// An action against a service held in memory does what the service calls
/// for. Where the service can answer everything that the action asks, and
/// the action has patience enough, the action ends as the state of the
/// service says, asks for the changes that it says and for no others, and
/// leaves the service held in memory as it was but for the wifi radio, which
/// the two radio toggles switch.
pub proof fn law_performed_action_follows_the_service(
    w: NetworkManagerView,
    action: ActionView,
    patience: nat,
)
    requires
        legible_for(w, action),
        patience >= action_cost(w, action),
    ensures
        came_to(
            run_against(action, w, patience),
            service_after(w, action),
            action_plan(w, action),
        ),
{
    match action {
        ActionView::ToggleWifi => {
            lemma_toggle_wifi_flips_radio(w, patience);
            let read = RequestView::Manager(ManagerProperty::WirelessEnabled);
            let write = RequestView::SetWirelessEnabled(!w.wireless_enabled);
            lemma_one_write(read, write);
        },
        ActionView::ToggleAirplaneMode => {
            law_toggle_airplane_mode_switches_wifi_radio(w, patience);
            let wifi = RequestView::Manager(ManagerProperty::WirelessEnabled);
            let bluetooth = RequestView::Manager(ManagerProperty::BluetoothEnabled);
            let write = RequestView::SetWirelessEnabled(
                spec_airplane_mode(w.wireless_enabled, w.bluetooth_enabled),
            );
            lemma_one_write(bluetooth, write);
            assert(seq![wifi, bluetooth, write].drop_first() =~= seq![bluetooth, write]);
        },
        ActionView::ToggleWired => {
            law_performed_wired_toggle_follows_the_service(w, patience);
        },
        ActionView::ToggleVPN(name) => {
            law_performed_vpn_toggle_follows_the_service(w, name, patience);
        },
        ActionView::ChangeAccessPoint(target) => {
            law_performed_change_follows_the_service(w, target, patience);
        },
    }
}

/// A read and then a write: the write is the one change asked for.
proof fn lemma_one_write(read: RequestView, write: RequestView)
    requires
        !read.is_write(),
        write.is_write(),
    ensures
        writes_of(seq![read, write]) == seq![write],
{
    let none = Seq::<RequestView>::empty();
    let effects = Seq::<EffectView>::empty();
    let end = TranscriptView { requests: none, effects, outcome: Some(Outcome::Completed) };
    lemma_write_before(end, write, effects, Outcome::Completed, none);
    let written = end.after(seq![write], effects);
    lemma_read_before(written, read, effects, Outcome::Completed, seq![write] + none);
    assert(seq![read] + (seq![write] + none) =~= seq![read, write]);
    assert(seq![write] + none =~= seq![write]);
}

} // verus!
