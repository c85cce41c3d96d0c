//! The evaluator's global guarantees, stated and proved once for all
//! inputs: monotone high-water marks across any run of events, at most
//! one alert per rule per cycle, idempotence on a repeated snapshot,
//! and the wholesale discard of snapshots with indexing errors.

use vstd::prelude::*;

use crate::evaluator::{
    arrival_silver, artifact_fires, congestion_alerts, congestion_fires, departure_alerts,
    departure_fires, duration_alerts, duration_fires, duration_leader, duration_leader_upto,
    elapsed_secs, graph_alerts, graph_dirty, graph_step, hat_alerts, hat_fires, artifact_alerts,
    lemma_norm_duration_nonneg, max_duration, max_duration_upto, max_silver, max_silver_upto,
    norm_duration, players_step,
    radius_step, silver_leader, silver_leader_upto, whale_alerts, whale_fires,
};
use crate::graph::SophonQueryData;
use crate::messages::{spec_voyage_message, spec_whale_message};
use crate::state::{keeps_prefix, pump_step, StateModel};

verus! {

/// One thing that can happen to the monitor state: a snapshot from one
/// of the sources arrives, or the delivery pump makes one attempt.
pub ghost enum MonitorEvent {
    /// An event-log snapshot was fetched.
    GraphSnapshot(SophonQueryData),
    /// A world-radius reading was fetched.
    RadiusReading(u64),
    /// A player-count reading was fetched.
    PlayerReading(u32),
    /// The delivery pump attempted the queue head, with this outcome.
    DeliveryAttempt(bool),
}

/// The state after one event.
pub open spec fn monitor_step(s: StateModel, e: MonitorEvent) -> StateModel {
    match e {
        MonitorEvent::GraphSnapshot(q) => graph_step(s, q),
        MonitorEvent::RadiusReading(r) => radius_step(s, r),
        MonitorEvent::PlayerReading(c) => players_step(s, c),
        MonitorEvent::DeliveryAttempt(ok) => pump_step(s, ok),
    }
}

/// The state after a whole run of events, oldest first.
pub open spec fn monitor_run(s: StateModel, events: Seq<MonitorEvent>) -> StateModel
    decreases events.len(),
{
    if events.len() == 0 {
        s
    } else {
        monitor_run(monitor_step(s, events[0]), events.drop_first())
    }
}

/// Law: one evaluation cycle never lowers a high-water mark, and only
/// appends to the alert queue.
pub proof fn lemma_graph_step_monotonic(s: StateModel, q: SophonQueryData)
    ensures
        s.most_arrivals_in_motion <= graph_step(s, q).most_arrivals_in_motion,
        s.significant_arrival <= graph_step(s, q).significant_arrival,
        s.longest_move <= graph_step(s, q).longest_move,
        s.most_millisilver_in_motion <= graph_step(s, q).most_millisilver_in_motion,
        s.significant_user <= graph_step(s, q).significant_user,
        s.hat_level <= graph_step(s, q).hat_level,
        s.planet_level <= graph_step(s, q).planet_level,
        s.significant_radius <= graph_step(s, q).significant_radius,
        keeps_prefix(s.tweets, graph_step(s, q).tweets),
{
}

/// Law: no single event lowers a high-water mark. The delivery pump
/// only pops alert texts; the evaluators only advance marks.
pub proof fn lemma_monitor_step_monotonic(s: StateModel, e: MonitorEvent)
    ensures
        s.most_arrivals_in_motion <= monitor_step(s, e).most_arrivals_in_motion,
        s.significant_arrival <= monitor_step(s, e).significant_arrival,
        s.longest_move <= monitor_step(s, e).longest_move,
        s.most_millisilver_in_motion <= monitor_step(s, e).most_millisilver_in_motion,
        s.significant_user <= monitor_step(s, e).significant_user,
        s.hat_level <= monitor_step(s, e).hat_level,
        s.planet_level <= monitor_step(s, e).planet_level,
        s.significant_radius <= monitor_step(s, e).significant_radius,
{
    match e {
        MonitorEvent::GraphSnapshot(q) => lemma_graph_step_monotonic(s, q),
        _ => {},
    }
}

/// Law: every high-water mark is non-decreasing across any sequence of
/// snapshots and delivery attempts fed to the monitor — an alert, once
/// fired for a milestone, can never re-fire for the same or a smaller
/// value.
pub proof fn lemma_high_water_monotonic(s: StateModel, events: Seq<MonitorEvent>)
    ensures
        s.most_arrivals_in_motion <= monitor_run(s, events).most_arrivals_in_motion,
        s.significant_arrival <= monitor_run(s, events).significant_arrival,
        s.longest_move <= monitor_run(s, events).longest_move,
        s.most_millisilver_in_motion <= monitor_run(s, events).most_millisilver_in_motion,
        s.significant_user <= monitor_run(s, events).significant_user,
        s.hat_level <= monitor_run(s, events).hat_level,
        s.planet_level <= monitor_run(s, events).planet_level,
        s.significant_radius <= monitor_run(s, events).significant_radius,
    decreases events.len(),
{
    if events.len() > 0 {
        lemma_monitor_step_monotonic(s, events[0]);
        lemma_high_water_monotonic(monitor_step(s, events[0]), events.drop_first());
    }
}

/// Law: each rule contributes at most one alert per cycle, so a cycle
/// appends at most six alerts, however large the batch.
pub proof fn lemma_one_alert_per_rule(s: StateModel, q: SophonQueryData)
    ensures
        departure_alerts(s, q).len() <= 1,
        congestion_alerts(s, q).len() <= 1,
        hat_alerts(s, q).len() <= 1,
        artifact_alerts(s, q).len() <= 1,
        duration_alerts(s, q).len() <= 1,
        whale_alerts(s, q).len() <= 1,
        graph_alerts(s, q).len() <= 6,
        graph_step(s, q).tweets.len() <= s.tweets.len() + 6,
{
    assert(graph_step(s, q).tweets.len() <= s.tweets.len() + 6);
}

/// Law: an evaluation cycle appends to the queue exactly the alerts of
/// the thresholds it crossed, in rule order, and touches nothing that
/// was already queued.
pub proof fn lemma_cycle_appends_exactly_its_alerts(s: StateModel, q: SophonQueryData)
    requires
        !q.graph_meta.hasIndexingErrors,
    ensures
        graph_step(s, q).tweets == s.tweets + graph_alerts(s, q),
{
    assert(graph_step(s, q).tweets =~= s.tweets + graph_alerts(s, q));
}

proof fn lemma_silver_extremes(arr: Seq<crate::graph::Arrival>, n: int)
    requires
        1 <= n <= arr.len(),
    ensures
        forall|i: int| 0 <= i < n ==> arrival_silver(arr[i]) <= max_silver_upto(arr, n),
        0 <= silver_leader_upto(arr, n) < n,
        arrival_silver(arr[silver_leader_upto(arr, n)]) == max_silver_upto(arr, n),
    decreases n,
{
    if n == 1 {
        assert(max_silver_upto(arr, 0) == 0);
    } else {
        lemma_silver_extremes(arr, n - 1);
    }
}

/// Law: at most one value alert per cycle, naming the batch maximum. A
/// batch of transfers that each exceed the stored value record yields
/// exactly one largest-value alert; it names the batch's maximal value
/// (in display units) and an actor whose transfer attains that maximum,
/// and the stored record advances to the batch maximum.
pub proof fn lemma_value_alert_names_batch_max(s: StateModel, q: SophonQueryData)
    requires
        !q.graph_meta.hasIndexingErrors,
        q.arrivals@.len() > 0,
        forall|i: int|
            0 <= i < q.arrivals@.len() ==> arrival_silver(q.arrivals@[i])
                > s.most_millisilver_in_motion,
    ensures
        whale_fires(s, q),
        whale_alerts(s, q) == seq![
            spec_whale_message(
                (max_silver(q.arrivals@) / 1000) as nat,
                q.arrivals@[silver_leader(q.arrivals@)].player.id@,
            ),
        ],
        graph_step(s, q).most_millisilver_in_motion == max_silver(q.arrivals@),
        arrival_silver(q.arrivals@[silver_leader(q.arrivals@)]) == max_silver(q.arrivals@),
{
    lemma_silver_extremes(q.arrivals@, q.arrivals@.len() as int);
    assert(arrival_silver(q.arrivals@[0]) <= max_silver(q.arrivals@));
}

proof fn lemma_duration_extremes(arr: Seq<crate::graph::Arrival>, n: int)
    requires
        1 <= n <= arr.len(),
    ensures
        forall|i: int| 0 <= i < n ==> norm_duration(arr[i]) <= max_duration_upto(arr, n),
        0 <= duration_leader_upto(arr, n) < n,
        norm_duration(arr[duration_leader_upto(arr, n)]) == max_duration_upto(arr, n),
    decreases n,
{
    if n == 1 {
        assert(max_duration_upto(arr, 0) == 0);
        lemma_norm_duration_nonneg(arr[0]);
    } else {
        lemma_duration_extremes(arr, n - 1);
    }
}

/// Law: at most one duration alert per cycle, naming an actor whose
/// transfer attains the batch's largest normalized duration. A batch
/// whose transfers each exceed the stored duration record yields
/// exactly one longest-transfer alert, and the stored record advances
/// to the batch maximum.
pub proof fn lemma_duration_alert_names_batch_max(s: StateModel, q: SophonQueryData)
    requires
        !q.graph_meta.hasIndexingErrors,
        q.arrivals@.len() > 0,
        forall|i: int| 0 <= i < q.arrivals@.len() ==> norm_duration(q.arrivals@[i]) > s.longest_move,
    ensures
        duration_fires(s, q),
        duration_alerts(s, q) == seq![
            spec_voyage_message(
                elapsed_secs(q.arrivals@[duration_leader(q.arrivals@)]) as nat,
                q.arrivals@[duration_leader(q.arrivals@)].player.id@,
            ),
        ],
        graph_step(s, q).longest_move == max_duration(q.arrivals@),
        norm_duration(q.arrivals@[duration_leader(q.arrivals@)]) == max_duration(q.arrivals@),
{
    lemma_duration_extremes(q.arrivals@, q.arrivals@.len() as int);
    assert(norm_duration(q.arrivals@[0]) <= max_duration(q.arrivals@));
}

/// Law: milestone idempotence. Evaluating the same snapshot twice
/// changes nothing the second time: every mark was already advanced to
/// what the snapshot shows, so no threshold is newly crossed. Snapshots
/// carrying an artifact record are excluded: the artifact rule fires on
/// presence alone, because the live source re-filters its records by
/// the advanced tier floor on every fetch.
pub proof fn lemma_snapshot_idempotent(s: StateModel, q: SophonQueryData)
    requires
        q.artifacts@.len() == 0,
    ensures
        graph_step(graph_step(s, q), q) == graph_step(s, q),
{
    let t = graph_step(s, q);
    if !q.graph_meta.hasIndexingErrors {
        assert(!departure_fires(t, q));
        assert(!congestion_fires(t, q));
        assert(!hat_fires(t, q));
        assert(!artifact_fires(t, q));
        assert(!duration_fires(t, q));
        assert(!whale_fires(t, q));
        assert(graph_step(t, q).tweets =~= t.tweets);
        assert(graph_step(t, q) =~~= t);
    }
}

/// Law: radius idempotence. A second evaluation of the same radius
/// reading produces no alert and no change.
pub proof fn lemma_radius_idempotent(s: StateModel, radius: u64)
    ensures
        radius_step(radius_step(s, radius), radius) == radius_step(s, radius),
{
}

/// Law: player-count idempotence. A second evaluation of the same
/// count reading produces no alert and no change.
pub proof fn lemma_players_idempotent(s: StateModel, count: u32)
    ensures
        players_step(players_step(s, count), count) == players_step(s, count),
{
}

/// Law: indexing-error short-circuit. A snapshot flagged as having
/// indexing errors is discarded wholesale: zero alerts, zero state
/// mutation, whatever else it contains.
pub proof fn lemma_indexing_errors_discard(s: StateModel, q: SophonQueryData)
    requires
        q.graph_meta.hasIndexingErrors,
    ensures
        graph_step(s, q) == s,
        !graph_dirty(s, q),
{
}

} // verus!
