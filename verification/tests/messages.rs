//! Tests of the alert text builders and the decimal renderer.

use sophon::messages::{
    artifact_message, congestion_message, counts_message, departure_message, hat_message,
    players_message, radius_message, u64_to_dec, voyage_message, whale_message,
};

#[test]
fn decimal_rendering_exact() {
    assert_eq!(u64_to_dec(0), "0");
    assert_eq!(u64_to_dec(7), "7");
    assert_eq!(u64_to_dec(10), "10");
    assert_eq!(u64_to_dec(100000), "100000");
    assert_eq!(u64_to_dec(305000), "305000");
    assert_eq!(u64_to_dec(u64::MAX), "18446744073709551615");
}

#[test]
fn alert_texts_exact() {
    assert_eq!(departure_message(400000), "400000th departure detected");
    assert_eq!(
        congestion_message(17),
        "Unusually high activity: 17 movements detected"
    );
    assert_eq!(
        hat_message(&String::from("alice"), 3, &String::from("p1")),
        "alice has discovered lvl 3 hat technology at p1"
    );
    assert_eq!(
        artifact_message(
            &String::from("Mythic"),
            &String::from("p2"),
            &String::from("carol")
        ),
        "Mythic artifact technology discovered at p2 via carol"
    );
    assert_eq!(
        voyage_message(200, &String::from("bob")),
        "Record interstellar voyage arriving in 200 seconds via bob"
    );
    assert_eq!(
        whale_message(9, &String::from("bob")),
        "Whale alert: 9 silver in motion via bob"
    );
    assert_eq!(radius_message(13500), "The universe has expanded to 13500");
    assert_eq!(
        players_message(25),
        "25 civilizations have achieved ftl travel"
    );
}

#[test]
fn counts_summary_exact() {
    let counts: Vec<u64> = vec![10, 20, 30, 40, 50, 60, 70, 80];
    assert_eq!(
        counts_message(&counts),
        "Universe planet totals: lvl0:10, lvl1:20, lvl2:30, lvl3:40, \
         lvl4:50, lvl5:60, lvl6:70, lvl7:80"
    );
}

#[test]
fn counts_summary_zeroes() {
    let counts: Vec<u64> = vec![0; 8];
    assert_eq!(
        counts_message(&counts),
        "Universe planet totals: lvl0:0, lvl1:0, lvl2:0, lvl3:0, \
         lvl4:0, lvl5:0, lvl6:0, lvl7:0"
    );
}
