//! Cell towers and the decision to place a call.
use vstd::prelude::*;
use crate::ids::{is_random_id, new_random_id};
use crate::chance::random_ratio;
use crate::pheeple::Pheeple;
use crate::call_log::CallStarted;

verus! {

/// How many towers are scattered over each area.
pub const TOWERS_PER_AREA: i32 = 3;

/// The chance, in units of one in ten thousand, that a pheeple places a
/// call in one frame.
pub const CALL_CHANCE: u32 = 1;

/// The denominator of call chances.
pub const CALL_CHANCE_SCALE: u32 = 10000;

/// A cell tower and its identifier.
#[derive(Clone, Copy, Debug)]
pub struct Tower {
    id: u128,
}

impl Tower {
    pub closed spec fn spec_id(&self) -> u128 {
        self.id
    }

    /// A new tower with a fresh random identifier.
    pub fn new() -> (t: Tower)
        ensures
            is_random_id(t.spec_id()),
    {
        Tower { id: new_random_id() }
    }

    /// The tower's identifier.
    pub fn id(&self) -> (id: u128)
        ensures
            id == self.spec_id(),
    {
        self.id
    }
}

/// Whether a pheeple places a call in this frame: true with a chance of
/// `chance` in ten thousand, never for a zero chance, always for a chance of
/// ten thousand.
pub fn places_call(chance: u32) -> (r: bool)
    requires
        chance <= CALL_CHANCE_SCALE,
    ensures
        chance == 0 ==> !r,
        chance == CALL_CHANCE_SCALE ==> r,
{
    random_ratio(chance, CALL_CHANCE_SCALE)
}

/// The event of a call from `caller` through `tower`.
pub fn call_started(caller: &Pheeple, tower: &Tower) -> (c: CallStarted)
    ensures
        c.caller == caller.spec_phone_id(),
        c.tower == tower.spec_id(),
{
    CallStarted { caller: caller.phone_id(), tower: tower.id }
}

} // verus!
