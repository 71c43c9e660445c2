//! What holds of the actions, whatever the service answers.

use crate::dispatcher::model::{
    begin, choose_access_point, next_active, next_candidate_profile, next_seen, note_seen, run,
    run_against, run_against_from, run_from, step, DispatcherView,
};
use crate::dispatcher::rules::{
    law_in_use_needs_the_target_in_sight, spec_find_access_point, spec_in_use,
    SeenAccessPointView,
};
use crate::event::{ActionView, Event};
use crate::network::enums::{ActiveConnectionState, DeviceState, DeviceType};
use crate::network::network_manager::NetworkManagerView;
use crate::service::{
    access_point_answers, name_answers, AccessPointAnswers, EffectView, Failure,
    ManagerProperty, NextView, Outcome, RequestView, ResponseView, StepView, TranscriptView,
};
use crate::status::WifiConnectionView;
use crate::text::lossy_text;
use vstd::prelude::*;

verus! {

/// The writes among the requests, in order.
pub open spec fn writes_of(requests: Seq<RequestView>) -> Seq<RequestView>
    decreases requests.len(),
{
    if requests.len() == 0 {
        Seq::empty()
    } else if requests[0].is_write() {
        seq![requests[0]] + writes_of(requests.drop_first())
    } else {
        writes_of(requests.drop_first())
    }
}

/// What an action came to: how it ended, and what it asked the service to
/// change.
pub open spec fn changed(t: TranscriptView, outcome: Outcome, writes: Seq<RequestView>) -> bool {
    t.outcome == Some(outcome) && writes_of(t.requests) == writes
}

/// What an action has asked and done when it found nothing to change: it
/// ended in good order, and none of its requests was a write.
pub open spec fn ended_without_write(t: TranscriptView) -> bool {
    changed(t, Outcome::Completed, Seq::empty())
}

/// What an active connection answers when asked for its name and its state.
pub struct ConnectionAnswers {
    pub id: Seq<char>,
    pub state: u32,
}

/// The answers of the active connections, in the order in which an
/// access-point change asks them.
pub open spec fn connection_answers(connections: Seq<ConnectionAnswers>) -> Seq<ResponseView>
    decreases connections.len(),
{
    if connections.len() == 0 {
        Seq::empty()
    } else {
        seq![
            ResponseView::Text(connections[0].id),
            ResponseView::Code(connections[0].state),
        ] + connection_answers(connections.drop_first())
    }
}

/// The access points as the action notes them.
pub open spec fn seen_of(paths: Seq<Seq<char>>, access_points: Seq<AccessPointAnswers>) -> Seq<
    SeenAccessPointView,
> {
    Seq::new(
        access_points.len(),
        |i: int|
            SeenAccessPointView {
                path: paths[i],
                network: WifiConnectionView {
                    ssid: lossy_text(access_points[i].ssid),
                    hw_address: access_points[i].hw_address,
                },
            },
    )
}

/// Whether the connection is the target in use.
pub open spec fn is_target(
    target: WifiConnectionView,
    seen: Seq<SeenAccessPointView>,
    connection: ConnectionAnswers,
) -> bool {
    spec_in_use(seen, target, connection.id, ActiveConnectionState::of_code(connection.state))
}

/// Whether the target is in use already: some active connection is
/// activated and carries the name of the target, and an access point in
/// sight offers the target by name and hardware address.
pub open spec fn already_active(
    target: WifiConnectionView,
    seen: Seq<SeenAccessPointView>,
    connections: Seq<ConnectionAnswers>,
) -> bool {
    exists|j: int| 0 <= j < connections.len() && is_target(target, seen, #[trigger] connections[j])
}

/// The answers of a service with one activated wifi device to an
/// access-point change, up to the last active connection.
pub open spec fn survey_answers(
    device: Seq<char>,
    device_type: u32,
    device_state: u32,
    paths: Seq<Seq<char>>,
    access_points: Seq<AccessPointAnswers>,
    connection_paths: Seq<Seq<char>>,
    connections: Seq<ConnectionAnswers>,
) -> Seq<ResponseView> {
    seq![
        ResponseView::Paths(seq![device]),
        ResponseView::Code(device_type),
        ResponseView::Code(device_state),
        ResponseView::Paths(paths),
    ] + access_point_answers(access_points) + seq![ResponseView::Paths(connection_paths)]
        + connection_answers(connections)
}

/// A read in front of a transcript leaves what the action came to.
pub proof fn lemma_read_before(
    t: TranscriptView,
    request: RequestView,
    effects: Seq<EffectView>,
    outcome: Outcome,
    writes: Seq<RequestView>,
)
    requires
        changed(t, outcome, writes),
        !request.is_write(),
    ensures
        changed(t.after(seq![request], effects), outcome, writes),
{
    assert((seq![request] + t.requests).drop_first() =~= t.requests);
}

/// A write in front of a transcript is the first of its writes.
pub proof fn lemma_write_before(
    t: TranscriptView,
    request: RequestView,
    effects: Seq<EffectView>,
    outcome: Outcome,
    writes: Seq<RequestView>,
)
    requires
        changed(t, outcome, writes),
        request.is_write(),
    ensures
        changed(t.after(seq![request], effects), outcome, seq![request] + writes),
{
    assert((seq![request] + t.requests).drop_first() =~= t.requests);
}

/// Once the access points are read: if one of the active connections still
/// to come is the target in use, the action ends in good order without a
/// write.
proof fn lemma_target_in_use_ends_action(
    s: DispatcherView,
    connections: Seq<ConnectionAnswers>,
    more: Seq<ResponseView>,
)
    requires
        s.queue.len() == connections.len(),
        already_active(s.target, s.seen, connections),
    ensures
        ended_without_write(
            run_from(next_active(s).0, next_active(s).1, connection_answers(connections) + more),
        ),
    decreases connections.len(),
{
    reveal(step);
    let none = Seq::<RequestView>::empty();
    let (s1, a1) = next_active(s);
    let r0 = connection_answers(connections) + more;
    let later = connection_answers(connections.drop_first());
    assert(r0[0] == ResponseView::Text(connections[0].id));
    let (s2, a2) = step(s1, r0[0]);
    let r1 = r0.drop_first();
    assert(r1[0] == ResponseView::Code(connections[0].state));
    let (s3, a3) = step(s2, r1[0]);
    let r2 = r1.drop_first();
    assert(r2 =~= later + more);
    let t3 = run_from(s3, a3, r2);
    if is_target(s.target, s.seen, connections[0]) {
        assert(t3.requests =~= Seq::empty());
        assert(ended_without_write(t3));
    } else {
        let j = choose|j: int|
            0 <= j < connections.len() && is_target(s.target, s.seen, #[trigger] connections[j]);
        assert(connections.drop_first()[j - 1] == connections[j]);
        assert(s2.queue =~= s.queue.drop_first());
        lemma_target_in_use_ends_action(s2, connections.drop_first(), more);
        assert((s3, a3) == next_active(s2));
    }
    let t2 = run_from(s2, a2, r1);
    assert(t2 == t3.after(seq![a2.next->Ask_0], a2.effects));
    lemma_read_before(t3, a2.next->Ask_0, a2.effects, Outcome::Completed, none);
    let t1 = run_from(s1, a1, r0);
    assert(t1 == t2.after(seq![a1.next->Ask_0], a1.effects));
    lemma_read_before(t2, a1.next->Ask_0, a1.effects, Outcome::Completed, none);
}

/// Reading the active connections when none of them is the target in use:
/// what the action comes to once they are all read, it comes to from here as
/// well.
proof fn lemma_target_not_in_use(
    s: DispatcherView,
    connections: Seq<ConnectionAnswers>,
    rest: Seq<ResponseView>,
    outcome: Outcome,
    writes: Seq<RequestView>,
)
    requires
        s.queue.len() == connections.len(),
        !already_active(s.target, s.seen, connections),
        forall|done: DispatcherView|
            done.queue.len() == 0 && done.target == s.target && done.seen == s.seen && done.device
                == s.device ==> changed(
                run_from((#[trigger] choose_access_point(done)).0, choose_access_point(done).1, rest),
                outcome,
                writes,
            ),
    ensures
        changed(
            run_from(next_active(s).0, next_active(s).1, connection_answers(connections) + rest),
            outcome,
            writes,
        ),
    decreases connections.len(),
{
    reveal(step);
    if connections.len() == 0 {
        assert(connection_answers(connections) + rest =~= rest);
    } else {
        let (s1, a1) = next_active(s);
        let r0 = connection_answers(connections) + rest;
        let later = connections.drop_first();
        assert(r0[0] == ResponseView::Text(connections[0].id));
        let (s2, a2) = step(s1, r0[0]);
        let r1 = r0.drop_first();
        assert(r1[0] == ResponseView::Code(connections[0].state));
        let (s3, a3) = step(s2, r1[0]);
        let r2 = r1.drop_first();
        assert(r2 =~= connection_answers(later) + rest);
        assert(!is_target(s.target, s.seen, connections[0]));
        assert((s3, a3) == next_active(s2));
        assert(s2.queue =~= s.queue.drop_first());
        assert(!already_active(s2.target, s2.seen, later)) by {
            if already_active(s2.target, s2.seen, later) {
                let j = choose|j: int|
                    0 <= j < later.len() && is_target(s2.target, s2.seen, #[trigger] later[j]);
                assert(connections[j + 1] == later[j]);
            }
        }
        lemma_target_not_in_use(s2, later, rest, outcome, writes);
        let t3 = run_from(s3, a3, r2);
        let t2 = run_from(s2, a2, r1);
        assert(t2 == t3.after(seq![a2.next->Ask_0], a2.effects));
        lemma_read_before(t3, a2.next->Ask_0, a2.effects, outcome, writes);
        let t1 = run_from(s1, a1, r0);
        assert(t1 == t2.after(seq![a1.next->Ask_0], a1.effects));
        lemma_read_before(t2, a1.next->Ask_0, a1.effects, outcome, writes);
    }
}

/// Reading the access points: what the action comes to once they are all
/// noted, it comes to from here as well.
proof fn lemma_reading_access_points(
    s: DispatcherView,
    access_points: Seq<AccessPointAnswers>,
    rest: Seq<ResponseView>,
    outcome: Outcome,
    writes: Seq<RequestView>,
)
    requires
        s.items.len() == access_points.len(),
        forall|done: DispatcherView|
            done.items.len() == 0 && done.target == s.target && done.device == s.device
                && done.seen == s.seen + seen_of(s.items, access_points) ==> changed(
                run_from((#[trigger] next_seen(done)).0, next_seen(done).1, rest),
                outcome,
                writes,
            ),
    ensures
        changed(
            run_from(next_seen(s).0, next_seen(s).1, access_point_answers(access_points) + rest),
            outcome,
            writes,
        ),
    decreases access_points.len(),
{
    reveal(step);
    if access_points.len() == 0 {
        assert(access_point_answers(access_points) + rest =~= rest);
        assert(s.seen + seen_of(s.items, access_points) =~= s.seen);
    } else {
        let (s1, a1) = next_seen(s);
        let r0 = access_point_answers(access_points) + rest;
        let later = access_points.drop_first();
        assert(r0[0] == ResponseView::Bytes(access_points[0].ssid));
        let (s2, a2) = step(s1, r0[0]);
        let r1 = r0.drop_first();
        assert(r1[0] == ResponseView::Text(access_points[0].hw_address));
        let (s3, a3) = step(s2, r1[0]);
        let r2 = r1.drop_first();
        assert(r2 =~= access_point_answers(later) + rest);
        let noted = note_seen(s2, access_points[0].hw_address);
        assert((s3, a3) == next_seen(noted));
        assert(noted.items =~= s.items.drop_first());
        assert(noted.seen + seen_of(noted.items, later) =~= s.seen + seen_of(
            s.items,
            access_points,
        ));
        lemma_reading_access_points(noted, later, rest, outcome, writes);
        let t3 = run_from(s3, a3, r2);
        let t2 = run_from(s2, a2, r1);
        assert(t2 == t3.after(seq![a2.next->Ask_0], a2.effects));
        lemma_read_before(t3, a2.next->Ask_0, a2.effects, outcome, writes);
        let t1 = run_from(s1, a1, r0);
        assert(t1 == t2.after(seq![a1.next->Ask_0], a1.effects));
        lemma_read_before(t2, a1.next->Ask_0, a1.effects, outcome, writes);
    }
}

/// An access-point change up to the list of the active connections: what
/// the action comes to from there, with the access points noted, it comes
/// to as a whole.
proof fn lemma_survey(
    target: WifiConnectionView,
    device: Seq<char>,
    device_type: u32,
    device_state: u32,
    paths: Seq<Seq<char>>,
    access_points: Seq<AccessPointAnswers>,
    connection_paths: Seq<Seq<char>>,
    rest: Seq<ResponseView>,
    outcome: Outcome,
    writes: Seq<RequestView>,
)
    requires
        DeviceType::of_code(device_type) == DeviceType::Wifi,
        DeviceState::of_code(device_state) == DeviceState::Activated,
        paths.len() == access_points.len(),
        forall|listed: DispatcherView|
            listed.queue == connection_paths && listed.target == target && listed.device == device
                && listed.seen == seen_of(paths, access_points) ==> changed(
                run_from((#[trigger] next_active(listed)).0, next_active(listed).1, rest),
                outcome,
                writes,
            ),
    ensures
        changed(
            run(
                ActionView::ChangeAccessPoint(target),
                seq![
                    ResponseView::Paths(seq![device]),
                    ResponseView::Code(device_type),
                    ResponseView::Code(device_state),
                    ResponseView::Paths(paths),
                ] + access_point_answers(access_points) + seq![
                    ResponseView::Paths(connection_paths),
                ] + rest,
            ),
            outcome,
            writes,
        ),
{
    reveal(step);
    let r0 = seq![
        ResponseView::Paths(seq![device]),
        ResponseView::Code(device_type),
        ResponseView::Code(device_state),
        ResponseView::Paths(paths),
    ] + access_point_answers(access_points) + seq![ResponseView::Paths(connection_paths)] + rest;
    let after = seq![ResponseView::Paths(connection_paths)] + rest;
    let (s0, a0) = begin(ActionView::ChangeAccessPoint(target));
    assert(r0[0] == ResponseView::Paths(seq![device]));
    let (s1, a1) = step(s0, r0[0]);
    let r1 = r0.drop_first();
    assert(r1[0] == ResponseView::Code(device_type));
    let (s2, a2) = step(s1, r1[0]);
    let r2 = r1.drop_first();
    assert(r2[0] == ResponseView::Code(device_state));
    let (s3, a3) = step(s2, r2[0]);
    let r3 = r2.drop_first();
    assert(r3[0] == ResponseView::Paths(paths));
    let (s4, a4) = step(s3, r3[0]);
    let r4 = r3.drop_first();
    assert(r4 =~= access_point_answers(access_points) + after);
    let sighted = DispatcherView { items: paths, seen: Seq::empty(), ..s3 };
    assert((s4, a4) == next_seen(sighted));
    assert forall|done: DispatcherView|
        done.items.len() == 0 && done.target == sighted.target && done.device == sighted.device
            && done.seen == sighted.seen + seen_of(sighted.items, access_points) implies changed(
        run_from((#[trigger] next_seen(done)).0, next_seen(done).1, after),
        outcome,
        writes,
    ) by {
        let (d1, b1) = next_seen(done);
        assert(after[0] == ResponseView::Paths(connection_paths));
        let (d2, b2) = step(d1, after[0]);
        let listed = DispatcherView { queue: connection_paths, ..d1 };
        assert((d2, b2) == next_active(listed));
        assert(after.drop_first() =~= rest);
        assert(done.seen =~= seen_of(paths, access_points));
        let u2 = run_from(d2, b2, after.drop_first());
        let u1 = run_from(d1, b1, after);
        assert(u1 == u2.after(seq![b1.next->Ask_0], b1.effects));
        lemma_read_before(u2, b1.next->Ask_0, b1.effects, outcome, writes);
    }
    lemma_reading_access_points(sighted, access_points, after, outcome, writes);
    let t4 = run_from(s4, a4, r4);
    let t3 = run_from(s3, a3, r3);
    assert(t3 == t4.after(seq![a3.next->Ask_0], a3.effects));
    lemma_read_before(t4, a3.next->Ask_0, a3.effects, outcome, writes);
    let t2 = run_from(s2, a2, r2);
    assert(t2 == t3.after(seq![a2.next->Ask_0], a2.effects));
    lemma_read_before(t3, a2.next->Ask_0, a2.effects, outcome, writes);
    let t1 = run_from(s1, a1, r1);
    assert(t1 == t2.after(seq![a1.next->Ask_0], a1.effects));
    lemma_read_before(t2, a1.next->Ask_0, a1.effects, outcome, writes);
    let t0 = run_from(s0, a0, r0);
    assert(t0 == t1.after(seq![a0.next->Ask_0], a0.effects));
    lemma_read_before(t1, a0.next->Ask_0, a0.effects, outcome, writes);
}

/// Reading the names of the configured connections when none carries the
/// name of the chosen access point: the action fails without a write.
proof fn lemma_no_profile(s: DispatcherView, ids: Seq<Seq<char>>, more: Seq<ResponseView>)
    requires
        s.items.len() == ids.len(),
        forall|i: int| 0 <= i < ids.len() ==> #[trigger] ids[i] != s.chosen.network.ssid,
    ensures
        changed(
            run_from(
                next_candidate_profile(s).0,
                next_candidate_profile(s).1,
                name_answers(ids) + more,
            ),
            Outcome::Failed(Failure::ConfiguredConnectionNotFound),
            Seq::empty(),
        ),
    decreases ids.len(),
{
    reveal(step);
    let none = Seq::<RequestView>::empty();
    let failed = Outcome::Failed(Failure::ConfiguredConnectionNotFound);
    let (s1, a1) = next_candidate_profile(s);
    let r0 = name_answers(ids) + more;
    if ids.len() == 0 {
        assert(run_from(s1, a1, r0).requests =~= none);
    } else {
        let later = ids.drop_first();
        assert(r0[0] == ResponseView::Text(ids[0]));
        let (s2, a2) = step(s1, r0[0]);
        let r1 = r0.drop_first();
        assert(r1 =~= name_answers(later) + more);
        assert(ids[0] != s.chosen.network.ssid);
        assert((s2, a2) == next_candidate_profile(s1));
        assert(s1.items =~= s.items.drop_first());
        assert forall|i: int| 0 <= i < later.len() implies #[trigger] later[i]
            != s1.chosen.network.ssid by {
            assert(later[i] == ids[i + 1]);
        }
        lemma_no_profile(s1, later, more);
        let t2 = run_from(s2, a2, r1);
        let t1 = run_from(s1, a1, r0);
        assert(t1 == t2.after(seq![a1.next->Ask_0], a1.effects));
        lemma_read_before(t2, a1.next->Ask_0, a1.effects, failed, none);
    }
}

/// The end of an activation by the answer of the service.
pub open spec fn activation_outcome(answer: ResponseView) -> Outcome {
    if answer is Done {
        Outcome::Completed
    } else {
        Outcome::Failed(Failure::Write)
    }
}

/// Reading the names of the configured connections up to the first that
/// carries the name of the chosen access point: the action activates that
/// connection on the device and the access point, and asks for no other
/// change.
proof fn lemma_profile_found(
    s: DispatcherView,
    ids: Seq<Seq<char>>,
    answer: ResponseView,
    more: Seq<ResponseView>,
)
    requires
        ids.len() >= 1,
        s.items.len() >= ids.len(),
        ids.last() == s.chosen.network.ssid,
        forall|i: int| 0 <= i < ids.len() - 1 ==> #[trigger] ids[i] != s.chosen.network.ssid,
    ensures
        changed(
            run_from(
                next_candidate_profile(s).0,
                next_candidate_profile(s).1,
                name_answers(ids) + seq![answer] + more,
            ),
            activation_outcome(answer),
            seq![
                RequestView::Activate {
                    connection: s.items[ids.len() - 1],
                    device: s.device,
                    specific_object: s.chosen.path,
                },
            ],
        ),
    decreases ids.len(),
{
    reveal(step);
    let none = Seq::<RequestView>::empty();
    let write = RequestView::Activate {
        connection: s.items[ids.len() - 1],
        device: s.device,
        specific_object: s.chosen.path,
    };
    let (s1, a1) = next_candidate_profile(s);
    let r0 = name_answers(ids) + seq![answer] + more;
    let later = ids.drop_first();
    assert(r0[0] == ResponseView::Text(ids[0]));
    let (s2, a2) = step(s1, r0[0]);
    let r1 = r0.drop_first();
    assert(r1 =~= name_answers(later) + seq![answer] + more);
    let t2 = run_from(s2, a2, r1);
    if ids.len() == 1 {
        assert(ids[0] == ids.last());
        assert(a2.next == NextView::Ask(write));
        assert(r1[0] == answer);
        let (s3, a3) = step(s2, r1[0]);
        let t3 = run_from(s3, a3, r1.drop_first());
        assert(t3.requests =~= none);
        assert(changed(t3, activation_outcome(answer), none));
        assert(t2 == t3.after(seq![write], a2.effects));
        lemma_write_before(t3, write, a2.effects, activation_outcome(answer), none);
        assert(seq![write] + none =~= seq![write]);
    } else {
        assert(ids[0] != s.chosen.network.ssid);
        assert((s2, a2) == next_candidate_profile(s1));
        assert(s1.items =~= s.items.drop_first());
        assert(later.last() == ids.last());
        assert forall|i: int| 0 <= i < later.len() - 1 implies #[trigger] later[i]
            != s1.chosen.network.ssid by {
            assert(later[i] == ids[i + 1]);
        }
        lemma_profile_found(s1, later, answer, more);
        assert(s1.items[later.len() - 1] == s.items[ids.len() - 1]);
    }
    let t1 = run_from(s1, a1, r0);
    assert(t1 == t2.after(seq![a1.next->Ask_0], a1.effects));
    lemma_read_before(t2, a1.next->Ask_0, a1.effects, activation_outcome(answer), seq![write]);
}

/// An access-point change for a network that is in use already changes
/// nothing. Where the service has one activated wifi device, one of its
/// activated connections carries the name of the target, and an access point
/// in sight offers the target by name and hardware address, the action ends
/// in good order as soon as it has read that connection, and none of its
/// requests is a write: no connection is activated.
pub proof fn law_change_to_active_access_point_activates_nothing(
    target: WifiConnectionView,
    device: Seq<char>,
    device_type: u32,
    device_state: u32,
    paths: Seq<Seq<char>>,
    access_points: Seq<AccessPointAnswers>,
    connection_paths: Seq<Seq<char>>,
    connections: Seq<ConnectionAnswers>,
    more: Seq<ResponseView>,
)
    requires
        DeviceType::of_code(device_type) == DeviceType::Wifi,
        DeviceState::of_code(device_state) == DeviceState::Activated,
        paths.len() == access_points.len(),
        connection_paths.len() == connections.len(),
        already_active(target, seen_of(paths, access_points), connections),
    ensures
        ended_without_write(
            run(
                ActionView::ChangeAccessPoint(target),
                survey_answers(
                    device,
                    device_type,
                    device_state,
                    paths,
                    access_points,
                    connection_paths,
                    connections,
                ) + more,
            ),
        ),
{
    let rest = connection_answers(connections) + more;
    assert forall|listed: DispatcherView|
        listed.queue == connection_paths && listed.target == target && listed.device == device
            && listed.seen == seen_of(paths, access_points) implies changed(
        run_from((#[trigger] next_active(listed)).0, next_active(listed).1, rest),
        Outcome::Completed,
        Seq::empty(),
    ) by {
        lemma_target_in_use_ends_action(listed, connections, more);
    }
    lemma_survey(
        target,
        device,
        device_type,
        device_state,
        paths,
        access_points,
        connection_paths,
        rest,
        Outcome::Completed,
        Seq::empty(),
    );
    assert(survey_answers(
        device,
        device_type,
        device_state,
        paths,
        access_points,
        connection_paths,
        connections,
    ) + more =~= seq![
        ResponseView::Paths(seq![device]),
        ResponseView::Code(device_type),
        ResponseView::Code(device_state),
        ResponseView::Paths(paths),
    ] + access_point_answers(access_points) + seq![ResponseView::Paths(connection_paths)] + rest);
}

/// Where no access point in sight offers the target, by name and hardware
/// address together, the target is not in use, whatever the active
/// connections are called and wherever they run.
pub proof fn law_unseen_target_is_not_in_use(
    target: WifiConnectionView,
    seen: Seq<SeenAccessPointView>,
    connections: Seq<ConnectionAnswers>,
)
    requires
        spec_find_access_point(seen, target) is None,
    ensures
        !already_active(target, seen, connections),
{
    if already_active(target, seen, connections) {
        let j = choose|j: int|
            0 <= j < connections.len() && is_target(target, seen, #[trigger] connections[j]);
        law_in_use_needs_the_target_in_sight(
            seen,
            target,
            connections[j].id,
            ActiveConnectionState::of_code(connections[j].state),
        );
    }
}

/// An access-point change to a network that no access point in sight
/// offers fails, and changes nothing. The network is looked for by name and
/// hardware address together: an access point with the address of the
/// target and another name is not the target, and an activated connection
/// over it does not make the change count as done.
pub proof fn law_change_to_unseen_access_point_fails(
    target: WifiConnectionView,
    device: Seq<char>,
    device_type: u32,
    device_state: u32,
    paths: Seq<Seq<char>>,
    access_points: Seq<AccessPointAnswers>,
    connection_paths: Seq<Seq<char>>,
    connections: Seq<ConnectionAnswers>,
    more: Seq<ResponseView>,
)
    requires
        DeviceType::of_code(device_type) == DeviceType::Wifi,
        DeviceState::of_code(device_state) == DeviceState::Activated,
        paths.len() == access_points.len(),
        connection_paths.len() == connections.len(),
        spec_find_access_point(seen_of(paths, access_points), target) is None,
    ensures
        changed(
            run(
                ActionView::ChangeAccessPoint(target),
                survey_answers(
                    device,
                    device_type,
                    device_state,
                    paths,
                    access_points,
                    connection_paths,
                    connections,
                ) + more,
            ),
            Outcome::Failed(Failure::AccessPointNotFound),
            Seq::empty(),
        ),
{
    let failed = Outcome::Failed(Failure::AccessPointNotFound);
    let none = Seq::<RequestView>::empty();
    let rest = connection_answers(connections) + more;
    law_unseen_target_is_not_in_use(target, seen_of(paths, access_points), connections);
    assert forall|listed: DispatcherView|
        listed.queue == connection_paths && listed.target == target && listed.device == device
            && listed.seen == seen_of(paths, access_points) implies changed(
        run_from((#[trigger] next_active(listed)).0, next_active(listed).1, rest),
        failed,
        none,
    ) by {
        assert forall|done: DispatcherView|
            done.queue.len() == 0 && done.target == listed.target && done.seen == listed.seen
                && done.device == listed.device implies changed(
            run_from((#[trigger] choose_access_point(done)).0, choose_access_point(done).1, more),
            failed,
            none,
        ) by {
            assert(run_from(choose_access_point(done).0, choose_access_point(done).1, more).requests
                =~= none);
        }
        lemma_target_not_in_use(listed, connections, more, failed, none);
    }
    lemma_survey(
        target,
        device,
        device_type,
        device_state,
        paths,
        access_points,
        connection_paths,
        rest,
        failed,
        none,
    );
    assert(survey_answers(
        device,
        device_type,
        device_state,
        paths,
        access_points,
        connection_paths,
        connections,
    ) + more =~= seq![
        ResponseView::Paths(seq![device]),
        ResponseView::Code(device_type),
        ResponseView::Code(device_state),
        ResponseView::Paths(paths),
    ] + access_point_answers(access_points) + seq![ResponseView::Paths(connection_paths)] + rest);
}

/// An access-point change to a network in sight for which no connection
/// is configured fails, and changes nothing: where none of the configured
/// connections of the device carries the name of the access point, no
/// connection is activated.
pub proof fn law_change_without_configured_connection_fails(
    target: WifiConnectionView,
    device: Seq<char>,
    device_type: u32,
    device_state: u32,
    paths: Seq<Seq<char>>,
    access_points: Seq<AccessPointAnswers>,
    connection_paths: Seq<Seq<char>>,
    connections: Seq<ConnectionAnswers>,
    profile_paths: Seq<Seq<char>>,
    ids: Seq<Seq<char>>,
    more: Seq<ResponseView>,
)
    requires
        DeviceType::of_code(device_type) == DeviceType::Wifi,
        DeviceState::of_code(device_state) == DeviceState::Activated,
        paths.len() == access_points.len(),
        connection_paths.len() == connections.len(),
        profile_paths.len() == ids.len(),
        !already_active(target, seen_of(paths, access_points), connections),
        spec_find_access_point(seen_of(paths, access_points), target) is Some,
        forall|i: int| 0 <= i < ids.len() ==> #[trigger] ids[i] != target.ssid,
    ensures
        changed(
            run(
                ActionView::ChangeAccessPoint(target),
                survey_answers(
                    device,
                    device_type,
                    device_state,
                    paths,
                    access_points,
                    connection_paths,
                    connections,
                ) + seq![ResponseView::Paths(profile_paths)] + name_answers(ids) + more,
            ),
            Outcome::Failed(Failure::ConfiguredConnectionNotFound),
            Seq::empty(),
        ),
{
    reveal(step);
    let failed = Outcome::Failed(Failure::ConfiguredConnectionNotFound);
    let none = Seq::<RequestView>::empty();
    let seen = seen_of(paths, access_points);
    let after = seq![ResponseView::Paths(profile_paths)] + name_answers(ids) + more;
    let rest = connection_answers(connections) + after;
    crate::dispatcher::rules::law_access_point_is_found_by_name_and_address(seen, target);
    assert forall|listed: DispatcherView|
        listed.queue == connection_paths && listed.target == target && listed.device == device
            && listed.seen == seen implies changed(
        run_from((#[trigger] next_active(listed)).0, next_active(listed).1, rest),
        failed,
        none,
    ) by {
        assert forall|done: DispatcherView|
            done.queue.len() == 0 && done.target == listed.target && done.seen == listed.seen
                && done.device == listed.device implies changed(
            run_from((#[trigger] choose_access_point(done)).0, choose_access_point(done).1, after),
            failed,
            none,
        ) by {
            let (d1, b1) = choose_access_point(done);
            assert(after[0] == ResponseView::Paths(profile_paths));
            let (d2, b2) = step(d1, after[0]);
            let listing = DispatcherView { items: profile_paths, ..d1 };
            assert((d2, b2) == next_candidate_profile(listing));
            assert(after.drop_first() =~= name_answers(ids) + more);
            assert(listing.chosen.network == target);
            lemma_no_profile(listing, ids, more);
            let u2 = run_from(d2, b2, after.drop_first());
            let u1 = run_from(d1, b1, after);
            assert(u1 == u2.after(seq![b1.next->Ask_0], b1.effects));
            lemma_read_before(u2, b1.next->Ask_0, b1.effects, failed, none);
        }
        lemma_target_not_in_use(listed, connections, after, failed, none);
    }
    lemma_survey(
        target,
        device,
        device_type,
        device_state,
        paths,
        access_points,
        connection_paths,
        rest,
        failed,
        none,
    );
    assert(survey_answers(
        device,
        device_type,
        device_state,
        paths,
        access_points,
        connection_paths,
        connections,
    ) + seq![ResponseView::Paths(profile_paths)] + name_answers(ids) + more =~= seq![
        ResponseView::Paths(seq![device]),
        ResponseView::Code(device_type),
        ResponseView::Code(device_state),
        ResponseView::Paths(paths),
    ] + access_point_answers(access_points) + seq![ResponseView::Paths(connection_paths)] + rest);
}

/// An access-point change to a network in sight that is not in use
/// activates the configured connection for it. The action reads the names
/// of the configured connections of the device up to the first that carries
/// the name of the network; then it asks for one change and no other: to
/// activate that connection on the wifi device, bound to the first access
/// point in sight that offers the network. It ends in good order if the
/// service accepts the change, and fails if not.
pub proof fn law_change_activates_configured_connection(
    target: WifiConnectionView,
    device: Seq<char>,
    device_type: u32,
    device_state: u32,
    paths: Seq<Seq<char>>,
    access_points: Seq<AccessPointAnswers>,
    connection_paths: Seq<Seq<char>>,
    connections: Seq<ConnectionAnswers>,
    profile_paths: Seq<Seq<char>>,
    ids: Seq<Seq<char>>,
    answer: ResponseView,
    more: Seq<ResponseView>,
)
    requires
        DeviceType::of_code(device_type) == DeviceType::Wifi,
        DeviceState::of_code(device_state) == DeviceState::Activated,
        paths.len() == access_points.len(),
        connection_paths.len() == connections.len(),
        1 <= ids.len() <= profile_paths.len(),
        !already_active(target, seen_of(paths, access_points), connections),
        spec_find_access_point(seen_of(paths, access_points), target) is Some,
        ids.last() == target.ssid,
        forall|i: int| 0 <= i < ids.len() - 1 ==> #[trigger] ids[i] != target.ssid,
    ensures
        changed(
            run(
                ActionView::ChangeAccessPoint(target),
                survey_answers(
                    device,
                    device_type,
                    device_state,
                    paths,
                    access_points,
                    connection_paths,
                    connections,
                ) + seq![ResponseView::Paths(profile_paths)] + name_answers(ids) + seq![answer]
                    + more,
            ),
            activation_outcome(answer),
            seq![
                RequestView::Activate {
                    connection: profile_paths[ids.len() - 1],
                    device,
                    specific_object: spec_find_access_point(
                        seen_of(paths, access_points),
                        target,
                    )->0.path,
                },
            ],
        ),
{
    reveal(step);
    let seen = seen_of(paths, access_points);
    let found = spec_find_access_point(seen, target)->0;
    let outcome = activation_outcome(answer);
    let writes = seq![
        RequestView::Activate {
            connection: profile_paths[ids.len() - 1],
            device,
            specific_object: found.path,
        },
    ];
    let after = seq![ResponseView::Paths(profile_paths)] + name_answers(ids) + seq![answer] + more;
    let rest = connection_answers(connections) + after;
    crate::dispatcher::rules::law_access_point_is_found_by_name_and_address(seen, target);
    assert forall|listed: DispatcherView|
        listed.queue == connection_paths && listed.target == target && listed.device == device
            && listed.seen == seen implies changed(
        run_from((#[trigger] next_active(listed)).0, next_active(listed).1, rest),
        outcome,
        writes,
    ) by {
        assert forall|done: DispatcherView|
            done.queue.len() == 0 && done.target == listed.target && done.seen == listed.seen
                && done.device == listed.device implies changed(
            run_from((#[trigger] choose_access_point(done)).0, choose_access_point(done).1, after),
            outcome,
            writes,
        ) by {
            let (d1, b1) = choose_access_point(done);
            assert(after[0] == ResponseView::Paths(profile_paths));
            let (d2, b2) = step(d1, after[0]);
            let listing = DispatcherView { items: profile_paths, ..d1 };
            assert((d2, b2) == next_candidate_profile(listing));
            assert(after.drop_first() =~= name_answers(ids) + seq![answer] + more);
            assert(listing.chosen == found);
            lemma_profile_found(listing, ids, answer, more);
            let u2 = run_from(d2, b2, after.drop_first());
            let u1 = run_from(d1, b1, after);
            assert(u1 == u2.after(seq![b1.next->Ask_0], b1.effects));
            lemma_read_before(u2, b1.next->Ask_0, b1.effects, outcome, writes);
        }
        lemma_target_not_in_use(listed, connections, after, outcome, writes);
    }
    lemma_survey(
        target,
        device,
        device_type,
        device_state,
        paths,
        access_points,
        connection_paths,
        rest,
        outcome,
        writes,
    );
    assert(survey_answers(
        device,
        device_type,
        device_state,
        paths,
        access_points,
        connection_paths,
        connections,
    ) + seq![ResponseView::Paths(profile_paths)] + name_answers(ids) + seq![answer] + more =~= seq![
        ResponseView::Paths(seq![device]),
        ResponseView::Code(device_type),
        ResponseView::Code(device_state),
        ResponseView::Paths(paths),
    ] + access_point_answers(access_points) + seq![ResponseView::Paths(connection_paths)] + rest);
}

/// A wifi toggle against a service held in memory reads the radio, writes
/// the opposite, and asks for a fresh status pass.
pub proof fn lemma_toggle_wifi_flips_radio(service: NetworkManagerView, patience: nat)
    requires
        patience >= 2,
    ensures
        run_against(ActionView::ToggleWifi, service, patience).0 == (TranscriptView {
            requests: seq![
                RequestView::Manager(ManagerProperty::WirelessEnabled),
                RequestView::SetWirelessEnabled(!service.wireless_enabled),
            ],
            effects: seq![EffectView::Notify(Event::Update)],
            outcome: Some(Outcome::Completed),
        }),
        run_against(ActionView::ToggleWifi, service, patience).1 == (NetworkManagerView {
            wireless_enabled: !service.wireless_enabled,
            ..service
        }),
{
    reveal(step);
    let (s0, a0) = begin(ActionView::ToggleWifi);
    let read = RequestView::Manager(ManagerProperty::WirelessEnabled);
    let write = RequestView::SetWirelessEnabled(!service.wireless_enabled);
    let (s1, a1) = step(s0, service.answer(read));
    let (s2, a2) = step(s1, service.answer(write));
    let flipped = service.after(write);
    let third = run_against_from(s2, a2, flipped, (patience - 2) as nat);
    let second = run_against_from(s1, a1, service, (patience - 1) as nat);
    let first = run_against_from(s0, a0, service, patience);
    assert(third.0.requests =~= Seq::empty());
    assert(second.0 == third.0.after(seq![write], a1.effects));
    assert(first.0 == second.0.after(seq![read], a0.effects));
    assert(first.0.requests =~= seq![read, write]);
    assert(first.0.effects =~= seq![EffectView::Notify(Event::Update)]);
}

/// Two wifi toggles in a row put the radio back where it was, and leave the
/// service as it was: the first writes the opposite of what it read, and the
/// second the opposite of that.
pub proof fn law_toggle_wifi_round_trip(service: NetworkManagerView, patience: nat)
    requires
        patience >= 2,
    ensures
        ({
            let (first, between) = run_against(ActionView::ToggleWifi, service, patience);
            let (second, after) = run_against(ActionView::ToggleWifi, between, patience);
            &&& first.outcome == Some(Outcome::Completed)
            &&& second.outcome == Some(Outcome::Completed)
            &&& between.wireless_enabled == !service.wireless_enabled
            &&& after == service
        }),
{
    lemma_toggle_wifi_flips_radio(service, patience);
    let between = run_against(ActionView::ToggleWifi, service, patience).1;
    lemma_toggle_wifi_flips_radio(between, patience);
}

/// The answers that an action gets from a service held in memory, up to
/// `patience` of them.
pub open spec fn answers_of(
    s: DispatcherView,
    last: StepView,
    service: NetworkManagerView,
    patience: nat,
) -> Seq<ResponseView>
    decreases patience,
{
    match last.next {
        NextView::Ask(request) => if patience == 0 {
            Seq::empty()
        } else {
            seq![service.answer(request)] + answers_of(
                step(s, service.answer(request)).0,
                step(s, service.answer(request)).1,
                service.after(request),
                (patience - 1) as nat,
            )
        },
        NextView::Finished(_) => Seq::empty(),
    }
}

proof fn lemma_run_against_is_run(
    s: DispatcherView,
    last: StepView,
    service: NetworkManagerView,
    patience: nat,
)
    ensures
        run_against_from(s, last, service, patience).0 == run_from(
            s,
            last,
            answers_of(s, last, service, patience),
        ),
    decreases patience,
{
    if let NextView::Ask(request) = last.next {
        if patience > 0 {
            let answer = service.answer(request);
            let (s2, next) = step(s, answer);
            let later = answers_of(s2, next, service.after(request), (patience - 1) as nat);
            lemma_run_against_is_run(s2, next, service.after(request), (patience - 1) as nat);
            assert((seq![answer] + later).drop_first() =~= later);
        }
    }
}

/// An action against a service held in memory is an action like any other:
/// it is the action against the answers that the service gives. So whatever
/// holds of every action holds of it.
pub proof fn law_performed_action_is_an_action(
    action: ActionView,
    service: NetworkManagerView,
    patience: nat,
)
    ensures
        run_against(action, service, patience).0 == run(
            action,
            answers_of(begin(action).0, begin(action).1, service, patience),
        ),
{
    lemma_run_against_is_run(begin(action).0, begin(action).1, service, patience);
}

} // verus!
