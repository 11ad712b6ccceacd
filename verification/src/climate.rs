//! The calendar of a zone: seasons by day of year and the day rollover.

use vstd::prelude::*;

verus! {

/// Last day of the simulated year.
pub const DAYS_PER_YEAR: u16 = 365;

/// The four seasons (northern hemisphere).
#[derive(Debug, Clone, Copy, PartialEq, Eq, Hash, Structural)]
pub enum Season {
    Spring,
    Summer,
    Fall,
    Winter,
}

/// Season of a day of the year: winter until day 79, spring 80-171,
/// summer 172-265, fall 266-354, winter again from 355 to 365. Days outside
/// 1..=365 count as spring.
pub open spec fn season_of_day(day: int) -> Season {
    if 1 <= day <= 79 {
        Season::Winter
    } else if 80 <= day <= 171 {
        Season::Spring
    } else if 172 <= day <= 265 {
        Season::Summer
    } else if 266 <= day <= 354 {
        Season::Fall
    } else if 355 <= day <= 365 {
        Season::Winter
    } else {
        Season::Spring
    }
}

/// The season that follows `s`.
pub open spec fn following_season(s: Season) -> Season {
    match s {
        Season::Winter => Season::Spring,
        Season::Spring => Season::Summer,
        Season::Summer => Season::Fall,
        Season::Fall => Season::Winter,
    }
}

/// Current season for a day of the year.
pub fn season_for_day(day_of_year: u16) -> (s: Season)
    ensures
        s == season_of_day(day_of_year as int),
{
    if 1 <= day_of_year && day_of_year <= 79 {
        Season::Winter
    } else if 80 <= day_of_year && day_of_year <= 171 {
        Season::Spring
    } else if 172 <= day_of_year && day_of_year <= 265 {
        Season::Summer
    } else if 266 <= day_of_year && day_of_year <= 354 {
        Season::Fall
    } else if 355 <= day_of_year && day_of_year <= 365 {
        Season::Winter
    } else {
        Season::Spring
    }
}

/// Seasons in which tornadoes can form (given enough heat): spring and
/// summer.
pub fn tornado_season(season: Season) -> (r: bool)
    ensures
        r == (season == Season::Spring || season == Season::Summer),
{
    match season {
        Season::Spring | Season::Summer => true,
        _ => false,
    }
}

/// A requested starting day, clamped into 1..=365.
pub fn clamp_day_of_year(day_of_year: u16) -> (d: u16)
    ensures
        1 <= d <= 365,
        1 <= day_of_year <= 365 ==> d == day_of_year,
        day_of_year < 1 ==> d == 1,
        day_of_year > 365 ==> d == 365,
{
    if day_of_year < 1 {
        1
    } else if day_of_year > DAYS_PER_YEAR {
        DAYS_PER_YEAR
    } else {
        day_of_year
    }
}

/// The date (day of year, year) after one full day has passed.
pub open spec fn next_date(day: int, year: int) -> (int, int) {
    if day + 1 > 365 {
        (1, year + 1)
    } else {
        (day + 1, year)
    }
}

/// The date `n` days after (`day`, `year`).
pub open spec fn date_after(day: int, year: int, n: nat) -> (int, int)
    decreases n,
{
    if n == 0 {
        (day, year)
    } else {
        let nd = next_date(day, year);
        date_after(nd.0, nd.1, (n - 1) as nat)
    }
}

/// Rolls the calendar over by one day: the day of year advances, and after
/// day 365 the year advances and the day restarts at 1.
pub fn next_calendar_day(day_of_year: u16, year: u32) -> (r: (u16, u32))
    requires
        day_of_year < u16::MAX,
        day_of_year + 1 > 365 ==> year < u32::MAX,
    ensures
        r.0 == next_date(day_of_year as int, year as int).0,
        r.1 == next_date(day_of_year as int, year as int).1,
{
    let d = day_of_year + 1;
    if d > DAYS_PER_YEAR {
        (1, year + 1)
    } else {
        (d, year)
    }
}

/// Passing `a` days and then `b` days is passing `a + b` days.
pub proof fn lemma_date_after_compose(day: int, year: int, a: nat, b: nat)
    ensures
        date_after(day, year, a + b) == date_after(date_after(day, year, a).0, date_after(day, year, a).1, b),
    decreases a,
{
    if a > 0 {
        let nd = next_date(day, year);
        lemma_date_after_compose(nd.0, nd.1, (a - 1) as nat, b);
        assert((a + b - 1) as nat == ((a - 1) as nat + b) as nat);
    }
}

/// Within one year, passing `k` days just adds `k` to the day of year.
pub proof fn lemma_date_after_within_year(day: int, year: int, k: nat)
    requires
        1 <= day,
        day + k <= 365,
    ensures
        date_after(day, year, k) == (day + k, year),
    decreases k,
{
    if k > 0 {
        lemma_date_after_within_year(day + 1, year, (k - 1) as nat);
    }
}

/// A full year of 365 day rollovers brings every valid date back to the same
/// day of year in the following year.
pub proof fn lemma_full_year_returns_to_same_day(day: int, year: int)
    requires
        1 <= day <= 365,
    ensures
        date_after(day, year, 365) == (day, year + 1),
{
    let first = (365 - day) as nat;
    lemma_date_after_within_year(day, year, first);
    assert(date_after(day, year, first) == (365int, year));
    lemma_date_after_compose(day, year, first, 1);
    assert(date_after(365, year, 1) == (1int, year + 1)) by {
        assert(next_date(365, year) == (1int, year + 1));
        reveal_with_fuel(date_after, 2);
    }
    let rest = (day - 1) as nat;
    lemma_date_after_compose(day, year, (first + 1) as nat, rest);
    lemma_date_after_within_year(1, year + 1, rest);
    assert((first + 1 + rest) as nat == 365nat);
}

/// A day rollover never skips a season: the next day is either in the same
/// season or in the one that follows it.
pub proof fn lemma_rollover_never_skips_a_season(day: int, year: int)
    requires
        1 <= day <= 365,
    ensures
        ({
            let nd = next_date(day, year);
            season_of_day(nd.0) == season_of_day(day) || season_of_day(nd.0) == following_season(
                season_of_day(day),
            )
        }),
        1 <= next_date(day, year).0 <= 365,
{
}

} // verus!
