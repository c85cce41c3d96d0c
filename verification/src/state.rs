//! The monitor's persisted state and its alert queue.
//!
//! `SophonState` is the single record the monitor keeps: one high-water
//! mark per threshold rule, plus the FIFO queue of alert texts that were
//! produced but not yet delivered. `StateModel` is its mathematical
//! shadow; every contract in the crate speaks of that model.

use vstd::prelude::*;
use std::collections::VecDeque;

verus! {

/// Mathematical model of `SophonState`: unbounded integers for the
/// high-water marks and a sequence of character sequences for the queue.
#[verifier::ext_equal]
pub ghost struct StateModel {
    /// Most simultaneous pending transfers ever observed.
    pub most_arrivals_in_motion: int,
    /// Largest transfer-id milestone (step 100000) already alerted.
    pub significant_arrival: int,
    /// Longest speed-normalized transfer duration already alerted.
    pub longest_move: int,
    /// Largest single transfer value already alerted.
    pub most_millisilver_in_motion: int,
    /// Largest player-count milestone (step 10) already alerted.
    pub significant_user: int,
    /// Highest achievement rank already alerted.
    pub hat_level: int,
    /// Artifact tier floor; advances by a fixed step per alert.
    pub planet_level: int,
    /// Largest world-radius milestone (step 1000) already alerted.
    pub significant_radius: int,
    /// Not-yet-delivered alert texts, oldest first.
    pub tweets: Seq<Seq<char>>,
}

/// `newer` keeps every entry of `older`, in place, and only appends:
/// the append-only discipline of the alert queue.
pub open spec fn keeps_prefix(older: Seq<Seq<char>>, newer: Seq<Seq<char>>) -> bool {
    &&& older.len() <= newer.len()
    &&& forall|i: int| 0 <= i < older.len() ==> newer[i] == older[i]
}

/// The state a fresh monitor starts from: every mark at zero, no
/// pending alerts. Also what loading falls back to when the persisted
/// record is missing or unreadable.
pub open spec fn initial_state() -> StateModel {
    StateModel {
        most_arrivals_in_motion: 0,
        significant_arrival: 0,
        longest_move: 0,
        most_millisilver_in_motion: 0,
        significant_user: 0,
        hat_level: 0,
        planet_level: 0,
        significant_radius: 0,
        tweets: Seq::empty(),
    }
}

/// The monitor's sole persisted record.
pub struct SophonState {
    /// Most simultaneous pending transfers ever observed.
    pub most_arrivals_in_motion: usize,
    /// Largest transfer-id milestone (step 100000) already alerted.
    pub significant_arrival: u32,
    /// Longest speed-normalized transfer duration already alerted.
    pub longest_move: u32,
    /// Largest single transfer value already alerted.
    pub most_millisilver_in_motion: u32,
    /// Largest player-count milestone (step 10) already alerted.
    pub significant_user: u32,
    /// Highest achievement rank already alerted.
    pub hat_level: u32,
    /// Artifact tier floor; advances by a fixed step per alert.
    pub planet_level: u32,
    /// Largest world-radius milestone (step 1000) already alerted.
    pub significant_radius: u64,
    /// Not-yet-delivered alert texts, oldest first.
    pub tweets: VecDeque<String>,
}

impl View for SophonState {
    type V = StateModel;

    open spec fn view(&self) -> StateModel {
        StateModel {
            most_arrivals_in_motion: self.most_arrivals_in_motion as int,
            significant_arrival: self.significant_arrival as int,
            longest_move: self.longest_move as int,
            most_millisilver_in_motion: self.most_millisilver_in_motion as int,
            significant_user: self.significant_user as int,
            hat_level: self.hat_level as int,
            planet_level: self.planet_level as int,
            significant_radius: self.significant_radius as int,
            tweets: self.tweets@.map_values(|t: String| t@),
        }
    }
}

impl Default for SophonState {
    /// A fresh state: every high-water mark at zero, empty queue.
    fn default() -> (s: Self)
        ensures
            s@ == initial_state(),
    {
        let s = SophonState {
            most_arrivals_in_motion: 0,
            significant_arrival: 0,
            longest_move: 0,
            most_millisilver_in_motion: 0,
            significant_user: 0,
            hat_level: 0,
            planet_level: 0,
            significant_radius: 0,
            tweets: VecDeque::new(),
        };
        proof {
            assert(s@ =~~= initial_state());
        }
        s
    }
}

/// The shared record the periodic tasks hand around under one lock.
pub struct SophonShare {
    pub state: SophonState,
}

/// One attempt of the delivery pump: when a head alert exists and the
/// attempt succeeded, the head leaves the queue; on a failure, or with
/// an empty queue, nothing changes at all.
pub open spec fn pump_step(s: StateModel, delivered: bool) -> StateModel {
    if delivered && s.tweets.len() > 0 {
        StateModel { tweets: s.tweets.drop_first(), ..s }
    } else {
        s
    }
}

/// The state after a whole run of pump attempts with the given outcomes.
pub open spec fn pump_run(s: StateModel, outcomes: Seq<bool>) -> StateModel
    decreases outcomes.len(),
{
    if outcomes.len() == 0 {
        s
    } else {
        pump_run(pump_step(s, outcomes[0]), outcomes.drop_first())
    }
}

/// The alerts actually delivered during a run of pump attempts with the
/// given outcomes, in the order they were delivered.
pub open spec fn pump_deliveries(s: StateModel, outcomes: Seq<bool>) -> Seq<Seq<char>>
    decreases outcomes.len(),
{
    if outcomes.len() == 0 {
        Seq::empty()
    } else {
        let rest = pump_deliveries(pump_step(s, outcomes[0]), outcomes.drop_first());
        if outcomes[0] && s.tweets.len() > 0 {
            seq![s.tweets[0]] + rest
        } else {
            rest
        }
    }
}

/// Law: the pump delivers alerts strictly in append order. Whatever the
/// pattern of successes and failures, the delivered alerts followed by
/// the alerts still queued are exactly the starting queue — so a failure
/// at the head leaves the queue untouched and every alert behind the
/// head waits until the head has gone.
pub proof fn lemma_pump_in_order(s: StateModel, outcomes: Seq<bool>)
    ensures
        pump_deliveries(s, outcomes) + pump_run(s, outcomes).tweets == s.tweets,
        pump_run(s, outcomes).most_arrivals_in_motion == s.most_arrivals_in_motion,
        pump_run(s, outcomes).significant_arrival == s.significant_arrival,
        pump_run(s, outcomes).longest_move == s.longest_move,
        pump_run(s, outcomes).most_millisilver_in_motion == s.most_millisilver_in_motion,
        pump_run(s, outcomes).significant_user == s.significant_user,
        pump_run(s, outcomes).hat_level == s.hat_level,
        pump_run(s, outcomes).planet_level == s.planet_level,
        pump_run(s, outcomes).significant_radius == s.significant_radius,
    decreases outcomes.len(),
{
    if outcomes.len() == 0 {
        assert(pump_deliveries(s, outcomes) + pump_run(s, outcomes).tweets =~= s.tweets);
    } else {
        let s2 = pump_step(s, outcomes[0]);
        lemma_pump_in_order(s2, outcomes.drop_first());
        if outcomes[0] && s.tweets.len() > 0 {
            let rest = pump_deliveries(s2, outcomes.drop_first());
            assert(pump_deliveries(s, outcomes) == seq![s.tweets[0]] + rest);
            assert(rest + pump_run(s2, outcomes.drop_first()).tweets == s2.tweets);
            assert(s2.tweets =~= s.tweets.drop_first());
            assert(pump_run(s, outcomes) == pump_run(s2, outcomes.drop_first()));
            assert((seq![s.tweets[0]] + rest) + pump_run(s, outcomes).tweets =~= seq![
                s.tweets[0],
            ] + (rest + pump_run(s2, outcomes.drop_first()).tweets));
            assert(seq![s.tweets[0]] + s2.tweets =~= s.tweets);
        } else {
            assert(pump_deliveries(s, outcomes) + pump_run(s, outcomes).tweets =~= s.tweets);
        }
    }
}

impl SophonState {
    /// The alert the pump should attempt next: a copy of the queue head,
    /// or nothing when the queue is empty.
    pub fn next_alert(&self) -> (r: Option<String>)
        ensures
            match r {
                Some(t) => self@.tweets.len() > 0 && t@ == self@.tweets[0],
                None => self@.tweets.len() == 0,
            },
    {
        if self.tweets.len() > 0 {
            let t = self.tweets[0].clone();
            proof {
                assert(t@ == self@.tweets[0]);
            }
            Some(t)
        } else {
            None
        }
    }

    /// Records the outcome of one delivery attempt of the queue head:
    /// a success removes exactly the head, a failure changes nothing.
    pub fn record_delivery(&mut self, delivered: bool)
        ensures
            final(self)@ == pump_step(old(self)@, delivered),
            !delivered ==> final(self)@ == old(self)@,
    {
        if delivered && self.tweets.len() > 0 {
            self.tweets.pop_front();
            proof {
                assert(self@ =~~= pump_step(old(self)@, delivered));
            }
        }
    }
}

} // verus!
