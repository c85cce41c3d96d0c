//! The threshold evaluator: pure decision rules over snapshots.
//!
//! Each rule compares one reading of a snapshot against one high-water
//! mark of the monitor state; a newly crossed threshold appends exactly
//! one alert text to the queue and advances that mark. The whole cycle
//! is specified by `graph_step`, `radius_step` and `players_step`, and
//! the executable observers are proved to implement those functions
//! exactly. The laws at the end of this module state the evaluator's
//! global guarantees: monotone high-water marks, at most one alert per
//! rule per cycle, idempotence on a repeated snapshot, and wholesale
//! discard of snapshots with indexing errors.

use vstd::prelude::*;

use crate::graph::{Arrival, SophonQueryData};
use crate::messages::{
    artifact_message, congestion_message, departure_message, hat_message, spec_artifact_message,
    spec_congestion_message, spec_departure_message, spec_hat_message, spec_players_message,
    spec_radius_message, spec_voyage_message, spec_whale_message, players_message, radius_message,
    voyage_message, whale_message,
};
use crate::state::{keeps_prefix, pump_step, SophonState, StateModel};

verus! {

/// The milestone `v` has reached at step width `step`: `v` rounded down
/// to a multiple of `step` by non-negative integer floor division.
pub open spec fn milestone_of(v: int, step: int) -> int {
    (v / step) * step
}

proof fn lemma_milestone_bounds(v: int, step: int)
    requires
        0 <= v,
        0 < step,
    ensures
        0 <= milestone_of(v, step) <= v,
{
    assert(0 <= (v / step) * step <= v) by (nonlinear_arith)
        requires
            0 <= v,
            0 < step,
    ;
}

/// Raw travel time of a transfer, in seconds; zero if the reported
/// arrival precedes the reported departure.
pub open spec fn elapsed_secs(a: Arrival) -> int {
    if a.arrivalTime >= a.departureTime {
        a.arrivalTime - a.departureTime
    } else {
        0
    }
}

/// Speed-normalized duration of a transfer: the raw travel time divided
/// by the origin's speed in hundredths — computed as time times 100,
/// then integer floor division by the speed, saturating at the u32
/// bound (an origin slower than 100 stretches the duration beyond the
/// raw time, and for very slow origins the quotient can leave the
/// field's range). A zero-speed origin saturates too, unless the raw
/// time is zero as well, which normalizes to zero.
pub open spec fn norm_duration(a: Arrival) -> int {
    if a.fromPlanet.speed == 0 {
        if elapsed_secs(a) == 0 {
            0
        } else {
            u32::MAX as int
        }
    } else {
        let d = elapsed_secs(a) * 100 / (a.fromPlanet.speed as int);
        if d > u32::MAX {
            u32::MAX as int
        } else {
            d
        }
    }
}

pub(crate) proof fn lemma_norm_duration_nonneg(a: Arrival)
    ensures
        0 <= norm_duration(a),
{
    if a.fromPlanet.speed != 0 {
        assert(0 <= elapsed_secs(a) * 100 / (a.fromPlanet.speed as int)) by (nonlinear_arith)
            requires
                0 <= elapsed_secs(a),
                0 < a.fromPlanet.speed as int,
        ;
    }
}

/// The value a transfer moves, in the smallest currency unit.
pub open spec fn arrival_silver(a: Arrival) -> int {
    a.milliSilverMoved as int
}

/// Largest speed-normalized duration among the first `n` transfers.
pub open spec fn max_duration_upto(arr: Seq<Arrival>, n: int) -> int
    decreases n,
{
    if n <= 0 {
        0
    } else {
        let prev = max_duration_upto(arr, n - 1);
        let cur = norm_duration(arr[n - 1]);
        if cur > prev {
            cur
        } else {
            prev
        }
    }
}

/// Largest speed-normalized duration in the whole batch.
pub open spec fn max_duration(arr: Seq<Arrival>) -> int {
    max_duration_upto(arr, arr.len() as int)
}

/// Index of the first transfer among the first `n` whose normalized
/// duration reaches the running maximum.
pub open spec fn duration_leader_upto(arr: Seq<Arrival>, n: int) -> int
    decreases n,
{
    if n <= 1 {
        0
    } else {
        if norm_duration(arr[n - 1]) > max_duration_upto(arr, n - 1) {
            n - 1
        } else {
            duration_leader_upto(arr, n - 1)
        }
    }
}

/// Index of the first transfer attaining the batch's largest duration.
pub open spec fn duration_leader(arr: Seq<Arrival>) -> int {
    duration_leader_upto(arr, arr.len() as int)
}

/// Largest transfer value among the first `n` transfers.
pub open spec fn max_silver_upto(arr: Seq<Arrival>, n: int) -> int
    decreases n,
{
    if n <= 0 {
        0
    } else {
        let prev = max_silver_upto(arr, n - 1);
        let cur = arrival_silver(arr[n - 1]);
        if cur > prev {
            cur
        } else {
            prev
        }
    }
}

/// Largest transfer value in the whole batch.
pub open spec fn max_silver(arr: Seq<Arrival>) -> int {
    max_silver_upto(arr, arr.len() as int)
}

/// Index of the first transfer among the first `n` whose value reaches
/// the running maximum.
pub open spec fn silver_leader_upto(arr: Seq<Arrival>, n: int) -> int
    decreases n,
{
    if n <= 1 {
        0
    } else {
        if arrival_silver(arr[n - 1]) > max_silver_upto(arr, n - 1) {
            n - 1
        } else {
            silver_leader_upto(arr, n - 1)
        }
    }
}

/// Index of the first transfer attaining the batch's largest value.
pub open spec fn silver_leader(arr: Seq<Arrival>) -> int {
    silver_leader_upto(arr, arr.len() as int)
}

/// The artifact tier floor after one artifact alert: two tiers up,
/// unless that would leave the field's range, in which case the floor
/// stays where it is.
pub open spec fn tier_bump(t: int) -> int {
    if t + 2 <= u32::MAX {
        t + 2
    } else {
        t
    }
}

/// Milestone transfer count: the last-arriving transfer's sequence id
/// has crossed a new multiple of 100000.
pub open spec fn departure_fires(s: StateModel, q: SophonQueryData) -> bool {
    &&& q.arrivals@.len() > 0
    &&& milestone_of(q.arrivals@.last().arrivalId as int, 100000) > s.significant_arrival
}

pub open spec fn departure_alerts(s: StateModel, q: SophonQueryData) -> Seq<Seq<char>> {
    if departure_fires(s, q) {
        seq![
            spec_departure_message(
                milestone_of(q.arrivals@.last().arrivalId as int, 100000) as nat,
            ),
        ]
    } else {
        Seq::empty()
    }
}

/// Congestion spike: more transfers are pending at once than ever before.
pub open spec fn congestion_fires(s: StateModel, q: SophonQueryData) -> bool {
    q.arrivals@.len() > s.most_arrivals_in_motion
}

pub open spec fn congestion_alerts(s: StateModel, q: SophonQueryData) -> Seq<Seq<char>> {
    if congestion_fires(s, q) {
        seq![spec_congestion_message(q.arrivals@.len())]
    } else {
        Seq::empty()
    }
}

/// Achievement escalation: the fetched top achievement outranks the
/// highest rank already alerted.
pub open spec fn hat_fires(s: StateModel, q: SophonQueryData) -> bool {
    &&& q.hats@.len() > 0
    &&& q.hats@[0].hatLevel > s.hat_level
}

pub open spec fn hat_alerts(s: StateModel, q: SophonQueryData) -> Seq<Seq<char>> {
    if hat_fires(s, q) {
        seq![
            spec_hat_message(
                q.hats@[0].player.id@,
                q.hats@[0].hatLevel as nat,
                q.hats@[0].planet.id@,
            ),
        ]
    } else {
        Seq::empty()
    }
}

/// Artifact discovery: any artifact record is present (the source only
/// returns records above the tracked tier floor).
pub open spec fn artifact_fires(s: StateModel, q: SophonQueryData) -> bool {
    q.artifacts@.len() > 0
}

pub open spec fn artifact_alerts(s: StateModel, q: SophonQueryData) -> Seq<Seq<char>> {
    if artifact_fires(s, q) {
        seq![
            spec_artifact_message(
                q.artifacts@[0].rarity@,
                q.artifacts@[0].planetDiscoveredOn.id@,
                q.artifacts@[0].discoverer.id@,
            ),
        ]
    } else {
        Seq::empty()
    }
}

/// Longest transfer: the batch's largest normalized duration exceeds the
/// longest already alerted. One alert for the batch, naming the first
/// transfer that attains the maximum.
pub open spec fn duration_fires(s: StateModel, q: SophonQueryData) -> bool {
    max_duration(q.arrivals@) > s.longest_move
}

pub open spec fn duration_alerts(s: StateModel, q: SophonQueryData) -> Seq<Seq<char>> {
    if duration_fires(s, q) {
        seq![
            spec_voyage_message(
                elapsed_secs(q.arrivals@[duration_leader(q.arrivals@)]) as nat,
                q.arrivals@[duration_leader(q.arrivals@)].player.id@,
            ),
        ]
    } else {
        Seq::empty()
    }
}

/// Largest value moved: the batch's largest transfer value exceeds the
/// largest already alerted. One alert for the batch, naming the batch
/// maximum in display units and the first transfer that attains it.
pub open spec fn whale_fires(s: StateModel, q: SophonQueryData) -> bool {
    max_silver(q.arrivals@) > s.most_millisilver_in_motion
}

pub open spec fn whale_alerts(s: StateModel, q: SophonQueryData) -> Seq<Seq<char>> {
    if whale_fires(s, q) {
        seq![
            spec_whale_message(
                (max_silver(q.arrivals@) / 1000) as nat,
                q.arrivals@[silver_leader(q.arrivals@)].player.id@,
            ),
        ]
    } else {
        Seq::empty()
    }
}

/// All alerts of one evaluation cycle, in rule order.
pub open spec fn graph_alerts(s: StateModel, q: SophonQueryData) -> Seq<Seq<char>> {
    departure_alerts(s, q) + congestion_alerts(s, q) + hat_alerts(s, q) + artifact_alerts(s, q)
        + duration_alerts(s, q) + whale_alerts(s, q)
}

/// One full evaluation cycle over an event-log snapshot: a snapshot
/// flagged with indexing errors is discarded wholesale; otherwise every
/// rule is checked independently, each appending at most one alert and
/// advancing its own high-water mark.
pub open spec fn graph_step(s: StateModel, q: SophonQueryData) -> StateModel {
    if q.graph_meta.hasIndexingErrors {
        s
    } else {
        StateModel {
            most_arrivals_in_motion: if congestion_fires(s, q) {
                q.arrivals@.len() as int
            } else {
                s.most_arrivals_in_motion
            },
            significant_arrival: if departure_fires(s, q) {
                milestone_of(q.arrivals@.last().arrivalId as int, 100000)
            } else {
                s.significant_arrival
            },
            longest_move: if duration_fires(s, q) {
                max_duration(q.arrivals@)
            } else {
                s.longest_move
            },
            most_millisilver_in_motion: if whale_fires(s, q) {
                max_silver(q.arrivals@)
            } else {
                s.most_millisilver_in_motion
            },
            significant_user: s.significant_user,
            hat_level: if hat_fires(s, q) {
                q.hats@[0].hatLevel as int
            } else {
                s.hat_level
            },
            planet_level: if artifact_fires(s, q) {
                tier_bump(s.planet_level)
            } else {
                s.planet_level
            },
            significant_radius: s.significant_radius,
            tweets: s.tweets + departure_alerts(s, q) + congestion_alerts(s, q) + hat_alerts(s, q)
                + artifact_alerts(s, q) + duration_alerts(s, q) + whale_alerts(s, q),
        }
    }
}

/// Whether an evaluation cycle changed the state (and so must be
/// persisted).
pub open spec fn graph_dirty(s: StateModel, q: SophonQueryData) -> bool {
    &&& !q.graph_meta.hasIndexingErrors
    &&& {
        ||| departure_fires(s, q)
        ||| congestion_fires(s, q)
        ||| hat_fires(s, q)
        ||| artifact_fires(s, q)
        ||| duration_fires(s, q)
        ||| whale_fires(s, q)
    }
}

/// World-radius expansion: the radius has crossed a new multiple of 1000.
pub open spec fn radius_fires(s: StateModel, radius: u64) -> bool {
    milestone_of(radius as int, 1000) > s.significant_radius
}

/// One evaluation of a world-radius reading: the alert names the raw
/// radius, the stored mark advances to the milestone.
pub open spec fn radius_step(s: StateModel, radius: u64) -> StateModel {
    if radius_fires(s, radius) {
        StateModel {
            significant_radius: milestone_of(radius as int, 1000),
            tweets: s.tweets.push(spec_radius_message(radius as nat)),
            ..s
        }
    } else {
        s
    }
}

/// Player-count milestone: the count has crossed a new multiple of 10.
pub open spec fn players_fires(s: StateModel, count: u32) -> bool {
    milestone_of(count as int, 10) > s.significant_user
}

/// One evaluation of a player-count reading: the alert names the raw
/// count, the stored mark advances to the milestone.
pub open spec fn players_step(s: StateModel, count: u32) -> StateModel {
    if players_fires(s, count) {
        StateModel {
            significant_user: milestone_of(count as int, 10),
            tweets: s.tweets.push(spec_players_message(count as nat)),
            ..s
        }
    } else {
        s
    }
}

fn elapsed_of(a: &Arrival) -> (e: u32)
    ensures
        e as int == elapsed_secs(*a),
{
    if a.arrivalTime >= a.departureTime {
        a.arrivalTime - a.departureTime
    } else {
        0
    }
}

fn normalized_duration(a: &Arrival) -> (d: u32)
    ensures
        d as int == norm_duration(*a),
{
    let e = elapsed_of(a);
    let speed = a.fromPlanet.speed;
    if speed == 0 {
        if e == 0 {
            0
        } else {
            u32::MAX
        }
    } else {
        let wide = (e as u64) * 100 / (speed as u64);
        if wide > u32::MAX as u64 {
            u32::MAX
        } else {
            wide as u32
        }
    }
}

/// Scans a non-empty batch once and returns the largest normalized
/// duration, the index of its first holder, the largest value moved,
/// and the index of its first holder, in that order.
fn batch_extremes(arr: &Vec<Arrival>) -> (r: (u32, usize, u32, usize))
    requires
        arr@.len() > 0,
    ensures
        r.0 as int == max_duration(arr@),
        r.1 < arr@.len(),
        r.1 as int == duration_leader(arr@),
        r.2 as int == max_silver(arr@),
        r.3 < arr@.len(),
        r.3 as int == silver_leader(arr@),
{
    let mut bd = normalized_duration(&arr[0]);
    let mut bdi: usize = 0;
    let mut bs = arr[0].milliSilverMoved;
    let mut bsi: usize = 0;
    let mut i: usize = 1;
    proof {
        lemma_norm_duration_nonneg(arr@[0]);
        assert(max_duration_upto(arr@, 0) == 0);
        assert(max_silver_upto(arr@, 0) == 0);
    }
    while i < arr.len()
        invariant
            1 <= i <= arr@.len(),
            bd as int == max_duration_upto(arr@, i as int),
            bdi < i,
            bdi as int == duration_leader_upto(arr@, i as int),
            bs as int == max_silver_upto(arr@, i as int),
            bsi < i,
            bsi as int == silver_leader_upto(arr@, i as int),
        decreases arr@.len() - i,
    {
        let d = normalized_duration(&arr[i]);
        if d > bd {
            bd = d;
            bdi = i;
        }
        let sv = arr[i].milliSilverMoved;
        if sv > bs {
            bs = sv;
            bsi = i;
        }
        i = i + 1;
    }
    (bd, bdi, bs, bsi)
}

impl SophonState {
    /// Evaluates one event-log snapshot: appends the alerts of every
    /// newly crossed threshold, in rule order, and advances the
    /// corresponding high-water marks, exactly as `graph_step` says.
    /// Returns whether the state changed.
    pub fn observe_graph(&mut self, snap: &SophonQueryData) -> (dirty: bool)
        ensures
            final(self)@ == graph_step(old(self)@, *snap),
            dirty == graph_dirty(old(self)@, *snap),
            old(self)@.most_arrivals_in_motion <= final(self)@.most_arrivals_in_motion,
            old(self)@.significant_arrival <= final(self)@.significant_arrival,
            old(self)@.longest_move <= final(self)@.longest_move,
            old(self)@.most_millisilver_in_motion <= final(self)@.most_millisilver_in_motion,
            old(self)@.hat_level <= final(self)@.hat_level,
            old(self)@.planet_level <= final(self)@.planet_level,
            old(self)@.significant_user == final(self)@.significant_user,
            old(self)@.significant_radius == final(self)@.significant_radius,
            keeps_prefix(old(self)@.tweets, final(self)@.tweets),
    {
        let ghost s0: StateModel = self@;
        let ghost q: SophonQueryData = *snap;
        if snap.graph_meta.hasIndexingErrors {
            return false;
        }
        let mut dirty = false;

        if snap.arrivals.len() > 0 {
            let id = snap.arrivals[snap.arrivals.len() - 1].arrivalId;
            proof {
                lemma_milestone_bounds(id as int, 100000);
            }
            let m = (id / 100000) * 100000;
            if m > self.significant_arrival {
                let msg = departure_message(m);
                self.tweets.push_back(msg);
                self.significant_arrival = m;
                dirty = true;
            }
        }
        proof {
            assert(self@.tweets =~= s0.tweets + departure_alerts(s0, q));
        }

        if snap.arrivals.len() > self.most_arrivals_in_motion {
            let msg = congestion_message(snap.arrivals.len());
            self.tweets.push_back(msg);
            self.most_arrivals_in_motion = snap.arrivals.len();
            dirty = true;
        }
        proof {
            assert(self@.tweets =~= s0.tweets + departure_alerts(s0, q) + congestion_alerts(
                s0,
                q,
            ));
        }

        if snap.hats.len() > 0 {
            let level = snap.hats[0].hatLevel;
            if level > self.hat_level {
                let msg = hat_message(&snap.hats[0].player.id, level, &snap.hats[0].planet.id);
                self.tweets.push_back(msg);
                self.hat_level = level;
                dirty = true;
            }
        }
        proof {
            assert(self@.tweets =~= s0.tweets + departure_alerts(s0, q) + congestion_alerts(s0, q)
                + hat_alerts(s0, q));
        }

        if snap.artifacts.len() > 0 {
            let msg = artifact_message(
                &snap.artifacts[0].rarity,
                &snap.artifacts[0].planetDiscoveredOn.id,
                &snap.artifacts[0].discoverer.id,
            );
            self.tweets.push_back(msg);
            if self.planet_level <= u32::MAX - 2 {
                self.planet_level = self.planet_level + 2;
            }
            dirty = true;
        }
        proof {
            assert(self@.tweets =~= s0.tweets + departure_alerts(s0, q) + congestion_alerts(s0, q)
                + hat_alerts(s0, q) + artifact_alerts(s0, q));
        }

        if snap.arrivals.len() > 0 {
            let ex = batch_extremes(&snap.arrivals);
            if ex.0 > self.longest_move {
                let winner = &snap.arrivals[ex.1];
                let e = elapsed_of(winner);
                let msg = voyage_message(e, &winner.player.id);
                self.tweets.push_back(msg);
                self.longest_move = ex.0;
                dirty = true;
            }
            proof {
                assert(self@.tweets =~= s0.tweets + departure_alerts(s0, q) + congestion_alerts(
                    s0,
                    q,
                ) + hat_alerts(s0, q) + artifact_alerts(s0, q) + duration_alerts(s0, q));
            }
            if ex.2 > self.most_millisilver_in_motion {
                let winner = &snap.arrivals[ex.3];
                let msg = whale_message(ex.2 / 1000, &winner.player.id);
                self.tweets.push_back(msg);
                self.most_millisilver_in_motion = ex.2;
                dirty = true;
            }
        }
        proof {
            assert(self@.tweets =~= s0.tweets + departure_alerts(s0, q) + congestion_alerts(s0, q)
                + hat_alerts(s0, q) + artifact_alerts(s0, q) + duration_alerts(s0, q)
                + whale_alerts(s0, q));
            assert(self@ =~~= graph_step(s0, q));
        }
        dirty
    }

    /// Evaluates one world-radius reading, exactly as `radius_step`
    /// says. Returns whether the state changed.
    pub fn observe_radius(&mut self, radius: u64) -> (dirty: bool)
        ensures
            final(self)@ == radius_step(old(self)@, radius),
            dirty == radius_fires(old(self)@, radius),
            old(self)@.significant_radius <= final(self)@.significant_radius,
            keeps_prefix(old(self)@.tweets, final(self)@.tweets),
    {
        proof {
            lemma_milestone_bounds(radius as int, 1000);
        }
        let m = (radius / 1000) * 1000;
        if m > self.significant_radius {
            let msg = radius_message(radius);
            self.tweets.push_back(msg);
            self.significant_radius = m;
            proof {
                assert(self@ =~~= radius_step(old(self)@, radius));
            }
            true
        } else {
            false
        }
    }

    /// Evaluates one player-count reading, exactly as `players_step`
    /// says. Returns whether the state changed.
    pub fn observe_players(&mut self, count: u32) -> (dirty: bool)
        ensures
            final(self)@ == players_step(old(self)@, count),
            dirty == players_fires(old(self)@, count),
            old(self)@.significant_user <= final(self)@.significant_user,
            keeps_prefix(old(self)@.tweets, final(self)@.tweets),
    {
        proof {
            lemma_milestone_bounds(count as int, 10);
        }
        let m = (count / 10) * 10;
        if m > self.significant_user {
            let msg = players_message(count);
            self.tweets.push_back(msg);
            self.significant_user = m;
            proof {
                assert(self@ =~~= players_step(old(self)@, count));
            }
            true
        } else {
            false
        }
    }
}

} // verus!
