//! Where a zone's flora cache lives.

use vstd::prelude::*;

verus! {

/// Relative path of the flora position cache of a zone:
/// `data/<zone_id>/flora_v5.json`.
pub fn flora_cache_path(zone_id: &str) -> (p: String)
    ensures
        p@ == "data/"@ + zone_id@ + "/flora_v5.json"@,
{
    let p = String::from_str("data/");
    let p = p.concat(zone_id);
    p.concat("/flora_v5.json")
}

} // verus!
