//! Start-up choices of the simulation service.

use vstd::prelude::*;

use crate::text::str_eq;

verus! {

/// Index of the first tile id equal to `zone`, or -1.
pub open spec fn first_match(ids: Seq<Seq<char>>, zone: Seq<char>, i: int) -> int
    decreases ids.len() - i,
{
    if i < 0 || i >= ids.len() {
        -1
    } else if ids[i] == zone {
        i
    } else {
        first_match(ids, zone, i + 1)
    }
}

/// The tile to simulate: the first tile whose id is the zone's id, else the
/// first tile; none when the server offers no tile.
pub open spec fn tile_choice(ids: Seq<Seq<char>>, zone: Seq<char>) -> Option<int> {
    if first_match(ids, zone, 0) >= 0 {
        Some(first_match(ids, zone, 0))
    } else if ids.len() > 0 {
        Some(0)
    } else {
        None
    }
}

/// Picks which tile of the server's manifest to load for a zone.
pub fn choose_tile(tile_ids: &Vec<String>, zone: &str) -> (r: Option<usize>)
    ensures
        r matches Some(i) ==> tile_choice(tile_ids@.map_values(|s: String| s@), zone@) == Some(i as int),
        r is None ==> tile_choice(tile_ids@.map_values(|s: String| s@), zone@) is None,
{
    let ghost ids = tile_ids@.map_values(|s: String| s@);
    let n = tile_ids.len();
    let mut i: usize = 0;
    while i < n
        invariant
            n == tile_ids@.len(),
            ids == tile_ids@.map_values(|s: String| s@),
            i <= n,
            first_match(ids, zone@, 0) == first_match(ids, zone@, i as int),
        decreases n - i,
    {
        if str_eq(tile_ids[i].as_str(), zone) {
            return Some(i);
        }
        i = i + 1;
    }
    if n > 0 {
        Some(0)
    } else {
        None
    }
}

/// Seconds to wait after a failed terrain fetch: twice the attempt number,
/// except after the last attempt.
pub fn retry_delay_secs(attempt: u32, max_retries: u32) -> (d: Option<u64>)
    ensures
        attempt < max_retries ==> d == Some((2 * attempt) as u64),
        attempt >= max_retries ==> d is None,
{
    if attempt < max_retries {
        Some(attempt as u64 * 2)
    } else {
        None
    }
}

/// The zone simulated offline: the configured zone, or `test_zone` when the
/// configuration asks for all zones.
pub fn offline_zone_id(zone: &str) -> (z: String)
    ensures
        zone@ == "all"@ ==> z@ == "test_zone"@,
        zone@ != "all"@ ==> z@ == zone@,
{
    if str_eq(zone, "all") {
        String::from_str("test_zone")
    } else {
        String::from_str(zone)
    }
}

/// Indices, in order, of the first `n` players whose zone is `zone`.
pub open spec fn players_of(zones: Seq<Seq<char>>, zone: Seq<char>, n: int) -> Seq<usize>
    decreases n,
{
    if n <= 0 {
        Seq::empty()
    } else if zones[n - 1] == zone {
        players_of(zones, zone, n - 1).push((n - 1) as usize)
    } else {
        players_of(zones, zone, n - 1)
    }
}

/// The players (by index) that a zone receives from a position update: those
/// whose zone id is the zone's, in update order.
pub fn players_in_zone(player_zones: &Vec<String>, zone: &str) -> (r: Vec<usize>)
    ensures
        r@ == players_of(player_zones@.map_values(|s: String| s@), zone@, player_zones@.len() as int),
{
    let ghost ids = player_zones@.map_values(|s: String| s@);
    let n = player_zones.len();
    let mut r: Vec<usize> = Vec::new();
    let mut i: usize = 0;
    while i < n
        invariant
            n == player_zones@.len(),
            ids == player_zones@.map_values(|s: String| s@),
            i <= n,
            r@ == players_of(ids, zone@, i as int),
        decreases n - i,
    {
        if str_eq(player_zones[i].as_str(), zone) {
            r.push(i);
        }
        i = i + 1;
    }
    r
}

/// A position update reaches each zone with exactly its own players: every
/// index listed for a zone is a player of that zone, and every player of
/// that zone is listed, in update order.
pub proof fn lemma_players_in_zone_exact(zones: Seq<Seq<char>>, zone: Seq<char>, n: int)
    requires
        0 <= n <= zones.len(),
        n <= usize::MAX,
    ensures
        forall|k: int|
            0 <= k < players_of(zones, zone, n).len() ==> {
                let p = #[trigger] players_of(zones, zone, n)[k];
                &&& p < n
                &&& zones[p as int] == zone
            },
        forall|p: int| 0 <= p < n && zones[p] == zone ==> players_of(zones, zone, n).contains(p as usize),
        forall|k: int, l: int|
            0 <= k < l < players_of(zones, zone, n).len() ==> players_of(zones, zone, n)[k]
                < players_of(zones, zone, n)[l],
    decreases n,
{
    if n > 0 {
        lemma_players_in_zone_exact(zones, zone, n - 1);
        let prev = players_of(zones, zone, n - 1);
        if zones[n - 1] == zone {
            let cur = prev.push((n - 1) as usize);
            assert forall|k: int| 0 <= k < cur.len() implies #[trigger] cur[k] < n && zones[cur[k] as int] == zone by {
                if k < prev.len() {
                    assert(cur[k] == prev[k]);
                }
            }
            assert forall|k: int, l: int| 0 <= k < l < cur.len() implies cur[k] < cur[l] by {
                assert(cur[k] == prev[k]);
                if l < prev.len() {
                    assert(cur[l] == prev[l]);
                }
            }
            assert forall|p: int| 0 <= p < n && zones[p] == zone implies cur.contains(p as usize) by {
                if p < n - 1 {
                    let k = choose|k: int| 0 <= k < prev.len() && prev[k] == p as usize;
                    assert(cur[k] == prev[k]);
                } else {
                    assert(cur[prev.len() as int] == (n - 1) as usize);
                }
            }
        }
    }
}

} // verus!
