//! End-to-end tests of the threshold evaluator and the delivery queue.

use sophon::graph::{
    Arrival, Artifact, Block, DarkForestMeta, GraphMeta, Hat, Planet, Player, SophonQueryData,
};
use sophon::state::SophonState;

fn arrival(arrival_id: u32, silver: u32, depart: u32, arrive: u32, speed: u32) -> Arrival {
    Arrival {
        id: String::from("a"),
        arrivalId: arrival_id,
        arrivalTime: arrive,
        departureTime: depart,
        receivedAt: 0,
        milliEnergyArriving: 0,
        processedAt: None,
        milliSilverMoved: silver,
        fromPlanet: Planet {
            id: String::from("origin"),
            speed,
        },
        player: Player {
            id: String::from("bob"),
            initTimestamp: 0,
        },
    }
}

fn snapshot(arrivals: Vec<Arrival>) -> SophonQueryData {
    SophonQueryData {
        arrivals,
        graph_meta: GraphMeta {
            hasIndexingErrors: false,
            deployment: String::from("d"),
            block: Block {
                number: 1,
                hash: String::from("h"),
            },
        },
        df_meta: DarkForestMeta { lastProcessed: 0 },
        hats: Vec::new(),
        artifacts: Vec::new(),
    }
}

fn queued(state: &SophonState) -> Vec<String> {
    state.tweets.iter().cloned().collect()
}

#[test]
fn whale_batch_yields_single_alert_naming_maximum() {
    let mut st = SophonState::default();
    st.most_arrivals_in_motion = 5;
    st.most_millisilver_in_motion = 1000;
    let q = snapshot(vec![arrival(1, 500, 0, 0, 0), arrival(2, 1500, 0, 0, 0)]);
    let dirty = st.observe_graph(&q);
    assert!(dirty);
    assert_eq!(st.most_millisilver_in_motion, 1500);
    assert_eq!(
        queued(&st),
        vec![String::from("Whale alert: 1 silver in motion via bob")]
    );
}

#[test]
fn whale_batch_all_exceeding_still_one_alert() {
    let mut st = SophonState::default();
    st.most_arrivals_in_motion = 5;
    st.most_millisilver_in_motion = 1000;
    let q = snapshot(vec![
        arrival(1, 2000, 0, 0, 0),
        arrival(2, 9000, 0, 0, 0),
        arrival(3, 5000, 0, 0, 0),
    ]);
    assert!(st.observe_graph(&q));
    assert_eq!(st.most_millisilver_in_motion, 9000);
    assert_eq!(
        queued(&st),
        vec![String::from("Whale alert: 9 silver in motion via bob")]
    );
}

#[test]
fn transfer_milestone_crossed() {
    let mut st = SophonState::default();
    st.significant_arrival = 200000;
    st.most_arrivals_in_motion = 5;
    let q = snapshot(vec![arrival(410000, 0, 0, 0, 0)]);
    let dirty = st.observe_graph(&q);
    assert!(dirty);
    assert_eq!(st.significant_arrival, 400000);
    assert_eq!(queued(&st), vec![String::from("400000th departure detected")]);
}

#[test]
fn transfer_milestone_not_exceeded() {
    let mut st = SophonState::default();
    st.significant_arrival = 300000;
    st.most_arrivals_in_motion = 5;
    let q = snapshot(vec![arrival(305000, 0, 0, 0, 0)]);
    let dirty = st.observe_graph(&q);
    assert!(!dirty);
    assert_eq!(st.significant_arrival, 300000);
    assert!(queued(&st).is_empty());
}

#[test]
fn congestion_spike_names_new_count() {
    let mut st = SophonState::default();
    st.most_arrivals_in_motion = 1;
    let q = snapshot(vec![arrival(1, 0, 0, 0, 0), arrival(2, 0, 0, 0, 0)]);
    assert!(st.observe_graph(&q));
    assert_eq!(st.most_arrivals_in_motion, 2);
    assert_eq!(
        queued(&st),
        vec![String::from(
            "Unusually high activity: 2 movements detected"
        )]
    );
}

#[test]
fn hat_escalation_fires_only_above_stored_rank() {
    let mut st = SophonState::default();
    st.hat_level = 2;
    let mut q = snapshot(Vec::new());
    q.hats.push(Hat {
        id: String::from("h1"),
        planet: Planet {
            id: String::from("p1"),
            speed: 0,
        },
        player: Player {
            id: String::from("alice"),
            initTimestamp: 0,
        },
        hatLevel: 3,
        timestamp: 0,
    });
    assert!(st.observe_graph(&q));
    assert_eq!(st.hat_level, 3);
    assert_eq!(
        queued(&st),
        vec![String::from(
            "alice has discovered lvl 3 hat technology at p1"
        )]
    );

    // An equal rank does not fire again.
    let mut st2 = SophonState::default();
    st2.hat_level = 3;
    assert!(!st2.observe_graph(&q));
    assert!(queued(&st2).is_empty());
}

#[test]
fn artifact_discovery_advances_tier_floor_by_two() {
    let mut st = SophonState::default();
    let mut q = snapshot(Vec::new());
    q.artifacts.push(Artifact {
        id: String::from("art"),
        planetLevel: 9,
        rarity: String::from("Mythic"),
        discoverer: Player {
            id: String::from("carol"),
            initTimestamp: 0,
        },
        planetDiscoveredOn: Planet {
            id: String::from("p2"),
            speed: 0,
        },
    });
    assert!(st.observe_graph(&q));
    assert_eq!(st.planet_level, 2);
    assert_eq!(
        queued(&st),
        vec![String::from(
            "Mythic artifact technology discovered at p2 via carol"
        )]
    );
}

#[test]
fn artifact_tier_floor_saturates_at_type_bound() {
    let mut st = SophonState::default();
    st.planet_level = u32::MAX - 1;
    let mut q = snapshot(Vec::new());
    q.artifacts.push(Artifact {
        id: String::from("art"),
        planetLevel: 9,
        rarity: String::from("Epic"),
        discoverer: Player {
            id: String::from("carol"),
            initTimestamp: 0,
        },
        planetDiscoveredOn: Planet {
            id: String::from("p2"),
            speed: 0,
        },
    });
    assert!(st.observe_graph(&q));
    assert_eq!(st.planet_level, u32::MAX - 1);
    assert_eq!(queued(&st).len(), 1);
}

#[test]
fn longest_transfer_normalized_by_speed() {
    let mut st = SophonState::default();
    st.most_arrivals_in_motion = 5;
    // elapsed 200 seconds, origin speed 200 -> normalized 100.
    let q = snapshot(vec![arrival(1, 0, 100, 300, 200)]);
    assert!(st.observe_graph(&q));
    assert_eq!(st.longest_move, 100);
    assert_eq!(
        queued(&st),
        vec![String::from(
            "Record interstellar voyage arriving in 200 seconds via bob"
        )]
    );
}

#[test]
fn slow_origin_stretches_duration_beyond_raw_time() {
    let mut st = SophonState::default();
    st.most_arrivals_in_motion = 5;
    // elapsed 200 seconds at speed 50 -> normalized 200 * 100 / 50 = 400.
    let q = snapshot(vec![arrival(1, 0, 100, 300, 50)]);
    assert!(st.observe_graph(&q));
    assert_eq!(st.longest_move, 400);
    assert_eq!(
        queued(&st),
        vec![String::from(
            "Record interstellar voyage arriving in 200 seconds via bob"
        )]
    );
}

#[test]
fn fractional_speed_floors_duration() {
    // elapsed 200 seconds at speed 150 -> normalized 200 * 100 / 150 = 133.
    let mut st = SophonState::default();
    st.most_arrivals_in_motion = 5;
    st.longest_move = 150;
    let q = snapshot(vec![arrival(1, 0, 100, 300, 150)]);
    assert!(!st.observe_graph(&q));
    assert_eq!(st.longest_move, 150);
    assert!(queued(&st).is_empty());

    let mut st2 = SophonState::default();
    st2.most_arrivals_in_motion = 5;
    st2.longest_move = 100;
    assert!(st2.observe_graph(&q));
    assert_eq!(st2.longest_move, 133);
    assert_eq!(
        queued(&st2),
        vec![String::from(
            "Record interstellar voyage arriving in 200 seconds via bob"
        )]
    );
}

#[test]
fn zero_speed_origin_saturates_duration() {
    let mut st = SophonState::default();
    st.most_arrivals_in_motion = 5;
    let q = snapshot(vec![arrival(1, 0, 0, 10, 0)]);
    assert!(st.observe_graph(&q));
    assert_eq!(st.longest_move, u32::MAX);
    assert_eq!(
        queued(&st),
        vec![String::from(
            "Record interstellar voyage arriving in 10 seconds via bob"
        )]
    );
}

#[test]
fn very_slow_origin_saturates_at_type_bound() {
    let mut st = SophonState::default();
    st.most_arrivals_in_motion = 5;
    // elapsed u32::MAX at speed 1 -> quotient leaves the field's range.
    let q = snapshot(vec![arrival(1, 0, 0, u32::MAX, 1)]);
    assert!(st.observe_graph(&q));
    assert_eq!(st.longest_move, u32::MAX);
    assert_eq!(queued(&st).len(), 1);
}

#[test]
fn indexing_errors_discard_whole_snapshot() {
    let mut st = SophonState::default();
    let mut q = snapshot(vec![
        arrival(999999, 123456, 0, 1000, 200),
        arrival(7, 50, 0, 0, 0),
    ]);
    q.graph_meta.hasIndexingErrors = true;
    let dirty = st.observe_graph(&q);
    assert!(!dirty);
    assert_eq!(st.significant_arrival, 0);
    assert_eq!(st.most_arrivals_in_motion, 0);
    assert_eq!(st.longest_move, 0);
    assert_eq!(st.most_millisilver_in_motion, 0);
    assert!(queued(&st).is_empty());
}

#[test]
fn repeated_snapshot_alerts_only_once() {
    let mut st = SophonState::default();
    let q = snapshot(vec![arrival(100000, 700, 100, 300, 200)]);
    let dirty = st.observe_graph(&q);
    assert!(dirty);
    let alerts_after_first = queued(&st).len();
    assert!(alerts_after_first > 0);
    let dirty_again = st.observe_graph(&q);
    assert!(!dirty_again);
    assert_eq!(queued(&st).len(), alerts_after_first);
}

#[test]
fn high_water_marks_never_decrease() {
    let mut st = SophonState::default();
    let snaps = vec![
        snapshot(vec![arrival(100000, 700, 100, 300, 200)]),
        snapshot(vec![arrival(7, 50, 0, 10, 100)]),
        snapshot(vec![arrival(250000, 9000, 0, 1000, 400)]),
        snapshot(Vec::new()),
    ];
    let mut prev = (0usize, 0u32, 0u32, 0u32);
    for q in &snaps {
        st.observe_graph(q);
        let cur = (
            st.most_arrivals_in_motion,
            st.significant_arrival,
            st.longest_move,
            st.most_millisilver_in_motion,
        );
        assert!(cur.0 >= prev.0);
        assert!(cur.1 >= prev.1);
        assert!(cur.2 >= prev.2);
        assert!(cur.3 >= prev.3);
        prev = cur;
    }
}

#[test]
fn radius_milestone_edges() {
    let mut st = SophonState::default();
    st.significant_radius = 12000;
    // Milestone 12000 is not strictly greater than the stored mark.
    assert!(!st.observe_radius(12345));
    assert_eq!(st.significant_radius, 12000);
    assert!(queued(&st).is_empty());
    // Milestone 13000 is; the alert names the raw radius.
    assert!(st.observe_radius(13500));
    assert_eq!(st.significant_radius, 13000);
    assert_eq!(
        queued(&st),
        vec![String::from("The universe has expanded to 13500")]
    );
    // Feeding the same reading again changes nothing.
    assert!(!st.observe_radius(13500));
    assert_eq!(st.significant_radius, 13000);
    assert_eq!(queued(&st).len(), 1);
}

#[test]
fn player_count_milestone_edges() {
    let mut st = SophonState::default();
    // Milestone 0 is not strictly greater than the fresh mark.
    assert!(!st.observe_players(9));
    assert_eq!(st.significant_user, 0);
    assert!(st.observe_players(25));
    assert_eq!(st.significant_user, 20);
    assert_eq!(
        queued(&st),
        vec![String::from("25 civilizations have achieved ftl travel")]
    );
    // A count within the same milestone does not fire.
    assert!(!st.observe_players(29));
    assert_eq!(st.significant_user, 20);
    assert_eq!(queued(&st).len(), 1);
}

#[test]
fn delivery_failure_blocks_queue_and_success_pops_head() {
    let mut st = SophonState::default();
    st.observe_players(10);
    st.observe_radius(5500);
    let all = queued(&st);
    assert_eq!(all.len(), 2);
    assert_eq!(st.next_alert().as_deref(), Some(all[0].as_str()));

    // A failed attempt leaves everything in place.
    st.record_delivery(false);
    assert_eq!(queued(&st), all);
    assert_eq!(st.next_alert().as_deref(), Some(all[0].as_str()));

    // A success removes exactly the head; the next alert is the second.
    st.record_delivery(true);
    assert_eq!(queued(&st), all[1..].to_vec());
    assert_eq!(st.next_alert().as_deref(), Some(all[1].as_str()));

    st.record_delivery(true);
    assert!(queued(&st).is_empty());
    assert_eq!(st.next_alert(), None);

    // Recording a success on an empty queue is a no-op.
    st.record_delivery(true);
    assert!(queued(&st).is_empty());
}

#[test]
fn one_cycle_appends_alerts_in_rule_order() {
    let mut st = SophonState::default();
    let mut q = snapshot(vec![arrival(100000, 7000, 100, 300, 200)]);
    q.hats.push(Hat {
        id: String::from("h1"),
        planet: Planet {
            id: String::from("p1"),
            speed: 0,
        },
        player: Player {
            id: String::from("alice"),
            initTimestamp: 0,
        },
        hatLevel: 1,
        timestamp: 0,
    });
    q.artifacts.push(Artifact {
        id: String::from("art"),
        planetLevel: 4,
        rarity: String::from("Mythic"),
        discoverer: Player {
            id: String::from("carol"),
            initTimestamp: 0,
        },
        planetDiscoveredOn: Planet {
            id: String::from("p2"),
            speed: 0,
        },
    });
    assert!(st.observe_graph(&q));
    assert_eq!(
        queued(&st),
        vec![
            String::from("100000th departure detected"),
            String::from("Unusually high activity: 1 movements detected"),
            String::from("alice has discovered lvl 1 hat technology at p1"),
            String::from("Mythic artifact technology discovered at p2 via carol"),
            String::from("Record interstellar voyage arriving in 200 seconds via bob"),
            String::from("Whale alert: 7 silver in motion via bob"),
        ]
    );
    assert_eq!(st.significant_arrival, 100000);
    assert_eq!(st.most_arrivals_in_motion, 1);
    assert_eq!(st.hat_level, 1);
    assert_eq!(st.planet_level, 2);
    assert_eq!(st.longest_move, 100);
    assert_eq!(st.most_millisilver_in_motion, 7000);
}

#[test]
fn fresh_state_is_all_zero() {
    let st = SophonState::default();
    assert_eq!(st.most_arrivals_in_motion, 0);
    assert_eq!(st.significant_arrival, 0);
    assert_eq!(st.longest_move, 0);
    assert_eq!(st.most_millisilver_in_motion, 0);
    assert_eq!(st.significant_user, 0);
    assert_eq!(st.hat_level, 0);
    assert_eq!(st.planet_level, 0);
    assert_eq!(st.significant_radius, 0);
    assert!(st.tweets.is_empty());
    assert_eq!(st.next_alert(), None);
}

#[test]
fn empty_snapshot_changes_nothing() {
    let mut st = SophonState::default();
    let q = snapshot(Vec::new());
    assert!(!st.observe_graph(&q));
    assert!(queued(&st).is_empty());
}
