//! The refresh driver: owns the displayed phrase, recomputes it at startup
//! and on every timer tick, and books the single repeating timer that the
//! surrounding event loop schedules on its behalf. The event loop performs
//! the scheduling itself; the driver decides, and its model counts the
//! timers so that re-initialization provably never leaves two running.

use vstd::prelude::*;
use crate::clock::rfc3339_unix_seconds;
use crate::phrase::{elapsed_clamped, elapsed_phrase};
use crate::sleep::{epoch_text, get_last_sleep};

verus! {

/// The model of the refresh driver: the text it currently displays and how
/// many repeating timers stand scheduled, not yet cancelled, on its behalf.
pub struct DriverModel {
    pub display: Seq<char>,
    pub timers: int,
}

/// One `start_ticking` transition on the model: any previously scheduled
/// timer is cancelled before the new one is scheduled, so exactly one
/// timer remains whatever stood before.
pub open spec fn start_ticking_spec(m: DriverModel) -> DriverModel {
    DriverModel { display: m.display, timers: 1 }
}

/// Re-initialization law: two consecutive `start_ticking` transitions, as
/// on a reactive re-render boundary that re-runs the scheduling effect,
/// leave exactly one timer active, never two.
pub proof fn lemma_reinitialize_single_timer(m: DriverModel)
    ensures
        start_ticking_spec(start_ticking_spec(m)).timers == 1,
{
}

/// The display text holds the elapsed phrase for the fixed epoch and some
/// instant the wall clock reported.
pub open spec fn shows_elapsed_phrase(display: Seq<char>) -> bool {
    exists|n: i64|
        display == elapsed_phrase(
            elapsed_clamped(rfc3339_unix_seconds(epoch_text()).unwrap() as int, n as int),
        )
}

/// The refresh driver.
pub struct RefreshDriver {
    display: String,
    timers: u64,
}

impl View for RefreshDriver {
    type V = DriverModel;

    closed spec fn view(&self) -> DriverModel {
        DriverModel { display: self.display@, timers: self.timers as int }
    }
}

impl RefreshDriver {
    /// A fresh, idle driver: empty display, no timer scheduled.
    pub fn new() -> (d: RefreshDriver)
        ensures
            d@.display == Seq::<char>::empty(),
            d@.timers == 0,
    {
        let d = RefreshDriver { display: String::new(), timers: 0 };
        proof {
            assert(d@.display =~= Seq::<char>::empty());
        }
        d
    }

    /// One tick: recomputes the elapsed phrase against the wall clock and
    /// overwrites the display with it. Returns `false`, leaving the display
    /// unchanged, exactly where the hardcoded epoch text fails to parse.
    pub fn on_tick(&mut self) -> (ok: bool)
        ensures
            ok <==> rfc3339_unix_seconds(epoch_text()) is Some,
            ok ==> shows_elapsed_phrase(final(self)@.display),
            !ok ==> final(self)@.display == old(self)@.display,
            final(self)@.timers == old(self)@.timers,
    {
        match get_last_sleep() {
            Some(text) => {
                self.display = text;
                true
            },
            None => false,
        }
    }

    /// Sets the display synchronously, before the first paint, to the
    /// elapsed phrase for the fixed epoch and the current instant. Returns
    /// `false`, aborting initialization, exactly where the hardcoded epoch
    /// text fails to parse.
    pub fn initialize(&mut self) -> (ok: bool)
        ensures
            ok <==> rfc3339_unix_seconds(epoch_text()) is Some,
            ok ==> shows_elapsed_phrase(final(self)@.display),
            !ok ==> final(self)@.display == old(self)@.display,
            final(self)@.timers == old(self)@.timers,
    {
        self.on_tick()
    }

    /// Books the repeating timer. The returned flag tells the caller to
    /// clear the previously scheduled timer before scheduling the new one,
    /// so that exactly one timer remains active afterwards.
    pub fn start_ticking(&mut self) -> (cancel_previous: bool)
        ensures
            final(self)@ == start_ticking_spec(old(self)@),
            cancel_previous <==> old(self)@.timers >= 1,
    {
        let cancel_previous = self.timers >= 1;
        self.timers = 1;
        cancel_previous
    }

    /// Cancels the scheduled timer, if any; afterwards none is active. The
    /// returned flag tells the caller whether a previously scheduled timer
    /// must be cleared.
    pub fn stop_ticking(&mut self) -> (had_timer: bool)
        ensures
            final(self)@.timers == 0,
            final(self)@.display == old(self)@.display,
            had_timer <==> old(self)@.timers >= 1,
    {
        let had_timer = self.timers >= 1;
        self.timers = 0;
        had_timer
    }

    /// The text the driver currently displays.
    pub fn display_text(&self) -> (r: &String)
        ensures
            r@ == self@.display,
    {
        &self.display
    }

    /// How many repeating timers stand scheduled, not yet cancelled.
    pub fn active_timers(&self) -> (r: u64)
        ensures
            r as int == self@.timers,
    {
        self.timers
    }
}

} // verus!
