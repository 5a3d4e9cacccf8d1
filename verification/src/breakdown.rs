//! Decomposition of a non-negative number of elapsed seconds into days,
//! hours, minutes and seconds by repeated floor division.

use vstd::prelude::*;
use vstd::arithmetic::div_mod::{
    lemma_div_is_ordered, lemma_fundamental_div_mod, lemma_mod_bound, lemma_div_pos_is_pos,
};

verus! {

/// How many whole days a total of `total` elapsed seconds contains.
pub open spec fn days_of(total: int) -> int {
    total / 86400
}

/// The whole hours left after the whole days are taken out.
pub open spec fn hours_of(total: int) -> int {
    (total % 86400) / 3600
}

/// The whole minutes left after the whole days and hours are taken out.
pub open spec fn minutes_of(total: int) -> int {
    ((total % 86400) % 3600) / 60
}

/// The seconds left after the whole days, hours and minutes are taken out.
pub open spec fn seconds_of(total: int) -> int {
    ((total % 86400) % 3600) % 60
}

/// The elapsed breakdown: a total number of seconds split into whole days,
/// hours, minutes and seconds.
pub struct Breakdown {
    pub days: u64,
    pub hours: u64,
    pub minutes: u64,
    pub seconds: u64,
}

/// For a non-negative total, every unit of the breakdown is non-negative and
/// each unit below days is strictly smaller than its modulus.
pub proof fn lemma_breakdown_bounds(total: int)
    requires
        total >= 0,
    ensures
        0 <= days_of(total),
        0 <= hours_of(total) < 24,
        0 <= minutes_of(total) < 60,
        0 <= seconds_of(total) < 60,
{
    lemma_mod_bound(total, 86400);
    lemma_mod_bound(total % 86400, 3600);
    lemma_mod_bound((total % 86400) % 3600, 60);
    lemma_div_pos_is_pos(total, 86400);
    lemma_div_pos_is_pos(total % 86400, 3600);
    lemma_div_pos_is_pos((total % 86400) % 3600, 60);
    assert((total % 86400) / 3600 < 24) by (nonlinear_arith)
        requires 0 <= total % 86400 < 86400;
    assert(((total % 86400) % 3600) / 60 < 60) by (nonlinear_arith)
        requires 0 <= (total % 86400) % 3600 < 3600;
}

/// Round-trip law: recombining the four units of the breakdown by
/// `days * 86400 + hours * 3600 + minutes * 60 + seconds` gives back exactly
/// the total they were derived from.
pub proof fn lemma_breakdown_round_trip(total: int)
    requires
        total >= 0,
    ensures
        days_of(total) * 86400 + hours_of(total) * 3600 + minutes_of(total) * 60
            + seconds_of(total) == total,
{
    lemma_fundamental_div_mod(total, 86400);
    lemma_fundamental_div_mod(total % 86400, 3600);
    lemma_fundamental_div_mod((total % 86400) % 3600, 60);
}

/// As the elapsed total grows the day count never falls back: with the
/// epoch fixed in the past, the leading unit of the breakdown is
/// monotonically non-decreasing as time advances.
pub proof fn lemma_days_monotone(earlier: int, later: int)
    requires
        0 <= earlier <= later,
    ensures
        days_of(earlier) <= days_of(later),
{
    lemma_div_is_ordered(earlier, later, 86400);
}

impl Breakdown {
    /// The breakdown is the canonical one for a total of `total` seconds.
    pub open spec fn is_for(self, total: int) -> bool {
        &&& self.days == days_of(total)
        &&& self.hours == hours_of(total)
        &&& self.minutes == minutes_of(total)
        &&& self.seconds == seconds_of(total)
    }

    /// Decomposes a total number of elapsed seconds into whole days, hours,
    /// minutes and seconds, each lower unit counting only what the higher
    /// units left over.
    pub fn decompose(total: u64) -> (b: Breakdown)
        ensures
            b.is_for(total as int),
    {
        let days: u64 = total / 86400;
        let day_rem: u64 = total % 86400;
        let hours: u64 = day_rem / 3600;
        let hour_rem: u64 = day_rem % 3600;
        let minutes: u64 = hour_rem / 60;
        let seconds: u64 = hour_rem % 60;
        Breakdown { days, hours, minutes, seconds }
    }
}

} // verus!
