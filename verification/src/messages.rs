//! Alert message texts.
//!
//! Every alert the monitor can emit is built here, and each builder's
//! contract pins the exact character sequence of the text it returns,
//! down to the decimal rendering of the numbers it names.

use vstd::prelude::*;
use vstd::string::StringExecFns;

verus! {

/// The decimal digit character for `d` (meaningful for `0 <= d <= 9`).
pub open spec fn digit_char(d: nat) -> char {
    if d == 0 {
        '0'
    } else if d == 1 {
        '1'
    } else if d == 2 {
        '2'
    } else if d == 3 {
        '3'
    } else if d == 4 {
        '4'
    } else if d == 5 {
        '5'
    } else if d == 6 {
        '6'
    } else if d == 7 {
        '7'
    } else if d == 8 {
        '8'
    } else {
        '9'
    }
}

/// Decimal representation of `n`, most significant digit first, no sign
/// and no leading zeros (`0` is rendered as the single digit `0`).
pub open spec fn dec_rep(n: nat) -> Seq<char>
    decreases n,
{
    if n < 10 {
        seq![digit_char(n)]
    } else {
        dec_rep(n / 10) + seq![digit_char(n % 10)]
    }
}

fn digit_string(d: u64) -> (s: String)
    requires
        d < 10,
    ensures
        s@ == seq![digit_char(d as nat)],
{
    if d == 0 {
        let s = "0".to_owned();
        proof {
            reveal_strlit("0");
            assert(s@ =~= seq![digit_char(d as nat)]);
        }
        s
    } else if d == 1 {
        let s = "1".to_owned();
        proof {
            reveal_strlit("1");
            assert(s@ =~= seq![digit_char(d as nat)]);
        }
        s
    } else if d == 2 {
        let s = "2".to_owned();
        proof {
            reveal_strlit("2");
            assert(s@ =~= seq![digit_char(d as nat)]);
        }
        s
    } else if d == 3 {
        let s = "3".to_owned();
        proof {
            reveal_strlit("3");
            assert(s@ =~= seq![digit_char(d as nat)]);
        }
        s
    } else if d == 4 {
        let s = "4".to_owned();
        proof {
            reveal_strlit("4");
            assert(s@ =~= seq![digit_char(d as nat)]);
        }
        s
    } else if d == 5 {
        let s = "5".to_owned();
        proof {
            reveal_strlit("5");
            assert(s@ =~= seq![digit_char(d as nat)]);
        }
        s
    } else if d == 6 {
        let s = "6".to_owned();
        proof {
            reveal_strlit("6");
            assert(s@ =~= seq![digit_char(d as nat)]);
        }
        s
    } else if d == 7 {
        let s = "7".to_owned();
        proof {
            reveal_strlit("7");
            assert(s@ =~= seq![digit_char(d as nat)]);
        }
        s
    } else if d == 8 {
        let s = "8".to_owned();
        proof {
            reveal_strlit("8");
            assert(s@ =~= seq![digit_char(d as nat)]);
        }
        s
    } else {
        let s = "9".to_owned();
        proof {
            reveal_strlit("9");
            assert(s@ =~= seq![digit_char(d as nat)]);
        }
        s
    }
}

/// Text of the transfer-count milestone alert.
pub open spec fn spec_departure_message(milestone: nat) -> Seq<char> {
    dec_rep(milestone) + "th departure detected"@
}

/// Text of the congestion-spike alert.
pub open spec fn spec_congestion_message(count: nat) -> Seq<char> {
    "Unusually high activity: "@ + dec_rep(count) + " movements detected"@
}

/// Text of the achievement-escalation alert.
pub open spec fn spec_hat_message(player: Seq<char>, level: nat, planet: Seq<char>) -> Seq<char> {
    player + " has discovered lvl "@ + dec_rep(level) + " hat technology at "@ + planet
}

/// Text of the artifact-discovery alert.
pub open spec fn spec_artifact_message(
    rarity: Seq<char>,
    planet: Seq<char>,
    discoverer: Seq<char>,
) -> Seq<char> {
    rarity + " artifact technology discovered at "@ + planet + " via "@ + discoverer
}

/// Text of the longest-transfer alert; `secs` is the raw travel time.
pub open spec fn spec_voyage_message(secs: nat, player: Seq<char>) -> Seq<char> {
    "Record interstellar voyage arriving in "@ + dec_rep(secs) + " seconds via "@ + player
}

/// Text of the largest-value alert; `silver` is in display units.
pub open spec fn spec_whale_message(silver: nat, player: Seq<char>) -> Seq<char> {
    "Whale alert: "@ + dec_rep(silver) + " silver in motion via "@ + player
}

/// Text of the world-radius expansion alert; names the raw radius.
pub open spec fn spec_radius_message(radius: nat) -> Seq<char> {
    "The universe has expanded to "@ + dec_rep(radius)
}

/// Text of the player-count milestone alert; names the raw count.
pub open spec fn spec_players_message(count: nat) -> Seq<char> {
    dec_rep(count) + " civilizations have achieved ftl travel"@
}

/// Text of the per-level object-count summary; `counts` has one entry
/// per level, lowest level first.
pub open spec fn spec_counts_message(counts: Seq<u64>) -> Seq<char> {
    "Universe planet totals: lvl0:"@ + dec_rep(counts[0] as nat) + ", lvl1:"@ + dec_rep(
        counts[1] as nat,
    ) + ", lvl2:"@ + dec_rep(counts[2] as nat) + ", lvl3:"@ + dec_rep(counts[3] as nat)
        + ", lvl4:"@ + dec_rep(counts[4] as nat) + ", lvl5:"@ + dec_rep(counts[5] as nat)
        + ", lvl6:"@ + dec_rep(counts[6] as nat) + ", lvl7:"@ + dec_rep(counts[7] as nat)
}

/// Renders `n` in decimal, exactly as `dec_rep` describes it.
pub fn u64_to_dec(n: u64) -> (s: String)
    ensures
        s@ == dec_rep(n as nat),
    decreases n,
{
    if n < 10 {
        digit_string(n)
    } else {
        proof {
            assert(n / 10 < n) by (nonlinear_arith)
                requires
                    n >= 10,
            ;
        }
        let mut s = u64_to_dec(n / 10);
        let d = digit_string(n % 10);
        s.append(d.as_str());
        s
    }
}

/// Builds the transfer-count milestone alert.
pub fn departure_message(milestone: u32) -> (s: String)
    ensures
        s@ == spec_departure_message(milestone as nat),
{
    let mut s = u64_to_dec(milestone as u64);
    s.append("th departure detected");
    s
}

/// Builds the congestion-spike alert.
pub fn congestion_message(count: usize) -> (s: String)
    ensures
        s@ == spec_congestion_message(count as nat),
{
    let mut s = "Unusually high activity: ".to_owned();
    let d = u64_to_dec(count as u64);
    s.append(d.as_str());
    s.append(" movements detected");
    s
}

/// Builds the achievement-escalation alert.
pub fn hat_message(player: &String, level: u32, planet: &String) -> (s: String)
    ensures
        s@ == spec_hat_message(player@, level as nat, planet@),
{
    let mut s = player.clone();
    s.append(" has discovered lvl ");
    let d = u64_to_dec(level as u64);
    s.append(d.as_str());
    s.append(" hat technology at ");
    s.append(planet.as_str());
    s
}

/// Builds the artifact-discovery alert.
pub fn artifact_message(rarity: &String, planet: &String, discoverer: &String) -> (s: String)
    ensures
        s@ == spec_artifact_message(rarity@, planet@, discoverer@),
{
    let mut s = rarity.clone();
    s.append(" artifact technology discovered at ");
    s.append(planet.as_str());
    s.append(" via ");
    s.append(discoverer.as_str());
    s
}

/// Builds the longest-transfer alert.
pub fn voyage_message(secs: u32, player: &String) -> (s: String)
    ensures
        s@ == spec_voyage_message(secs as nat, player@),
{
    let mut s = "Record interstellar voyage arriving in ".to_owned();
    let d = u64_to_dec(secs as u64);
    s.append(d.as_str());
    s.append(" seconds via ");
    s.append(player.as_str());
    s
}

/// Builds the largest-value alert.
pub fn whale_message(silver: u32, player: &String) -> (s: String)
    ensures
        s@ == spec_whale_message(silver as nat, player@),
{
    let mut s = "Whale alert: ".to_owned();
    let d = u64_to_dec(silver as u64);
    s.append(d.as_str());
    s.append(" silver in motion via ");
    s.append(player.as_str());
    s
}

/// Builds the world-radius expansion alert.
pub fn radius_message(radius: u64) -> (s: String)
    ensures
        s@ == spec_radius_message(radius as nat),
{
    let mut s = "The universe has expanded to ".to_owned();
    let d = u64_to_dec(radius);
    s.append(d.as_str());
    s
}

/// Builds the player-count milestone alert.
pub fn players_message(count: u32) -> (s: String)
    ensures
        s@ == spec_players_message(count as nat),
{
    let mut s = u64_to_dec(count as u64);
    s.append(" civilizations have achieved ftl travel");
    s
}

/// Builds the per-level object-count summary.
pub fn counts_message(counts: &Vec<u64>) -> (s: String)
    requires
        counts@.len() == 8,
    ensures
        s@ == spec_counts_message(counts@),
{
    let mut s = "Universe planet totals: lvl0:".to_owned();
    let d = u64_to_dec(counts[0]);
    s.append(d.as_str());
    s.append(", lvl1:");
    let d = u64_to_dec(counts[1]);
    s.append(d.as_str());
    s.append(", lvl2:");
    let d = u64_to_dec(counts[2]);
    s.append(d.as_str());
    s.append(", lvl3:");
    let d = u64_to_dec(counts[3]);
    s.append(d.as_str());
    s.append(", lvl4:");
    let d = u64_to_dec(counts[4]);
    s.append(d.as_str());
    s.append(", lvl5:");
    let d = u64_to_dec(counts[5]);
    s.append(d.as_str());
    s.append(", lvl6:");
    let d = u64_to_dec(counts[6]);
    s.append(d.as_str());
    s.append(", lvl7:");
    let d = u64_to_dec(counts[7]);
    s.append(d.as_str());
    s
}

} // verus!
