//! The day/night cycle. Each time the half-day timer runs out the phase
//! flips; entering the day sends everyone to work, entering the night sends
//! everyone home.
use vstd::prelude::*;
use crate::pheeple::{Destination, Behavior, arrived, travelling_to, resting_at};

verus! {

/// The phase of the simulated day.
#[derive(Clone, Copy, PartialEq, Eq, Structural, Debug)]
pub enum DayNight {
    Day,
    Night,
}

/// The other phase.
pub open spec fn spec_flipped(p: DayNight) -> DayNight {
    match p {
        DayNight::Day => DayNight::Night,
        DayNight::Night => DayNight::Day,
    }
}

/// Where the pheeple are sent when a phase begins: to work by day, home by night.
pub open spec fn spec_destination(p: DayNight) -> Destination {
    match p {
        DayNight::Day => Destination::Work,
        DayNight::Night => Destination::Home,
    }
}

/// The phase after `n` half days, starting from `start`.
pub open spec fn phase_after(start: DayNight, n: nat) -> DayNight
    decreases n,
{
    if n == 0 {
        start
    } else {
        spec_flipped(phase_after(start, (n - 1) as nat))
    }
}

impl Default for DayNight {
    /// The simulation starts by day.
    fn default() -> (p: DayNight)
        ensures
            p == DayNight::Day,
    {
        DayNight::Day
    }
}

impl DayNight {
    /// The other phase.
    pub fn flipped(self) -> (p: DayNight)
        ensures
            p == spec_flipped(self),
    {
        match self {
            DayNight::Day => DayNight::Night,
            DayNight::Night => DayNight::Day,
        }
    }

    /// Where the pheeple are sent when this phase begins.
    pub fn destination(self) -> (d: Destination)
        ensures
            d == spec_destination(self),
    {
        match self {
            DayNight::Day => Destination::Work,
            DayNight::Night => Destination::Home,
        }
    }
}

/// One tick of the cycle: when the half-day timer has just run out, the
/// next phase is the other one; otherwise no change is asked for.
pub fn day_night_cycle(current: DayNight, timer_just_finished: bool) -> (next: Option<DayNight>)
    ensures
        timer_just_finished ==> next == Some(spec_flipped(current)),
        !timer_just_finished ==> next.is_none(),
{
    if timer_just_finished {
        Some(current.flipped())
    } else {
        None
    }
}

/// Two flips bring the phase back, and a flip always changes it.
pub proof fn lemma_flip_twice(p: DayNight)
    ensures
        spec_flipped(spec_flipped(p)) == p,
        spec_flipped(p) != p,
{
}

/// After an even number of half days the phase is the one it started
/// with; after an odd number it is the other.
pub proof fn lemma_phase_parity(start: DayNight, n: nat)
    ensures
        phase_after(start, n) == (if n % 2 == 0 { start } else { spec_flipped(start) }),
    decreases n,
{
    if n > 0 {
        lemma_phase_parity(start, (n - 1) as nat);
    }
}

/// A pheeple that was sent off when phase `p` began, and has arrived, is at
/// work by day and at home by night (sending off ignores what it was doing).
pub proof fn lemma_phase_rest(p: DayNight)
    ensures
        arrived(travelling_to(spec_destination(p))) == (match p {
            DayNight::Day => Behavior::Working,
            DayNight::Night => Behavior::AtHome,
        }),
        resting_at(spec_destination(p)) == arrived(travelling_to(spec_destination(p))),
{
}

} // verus!
