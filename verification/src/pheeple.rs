//! The pheeple: phone owners who commute between a home and a workplace.
//! What they are doing is a small state machine; where they walk to, and
//! how fast, is the renderer's business.
use vstd::prelude::*;
use crate::ids::{is_random_id, new_random_id};
use crate::chance::random_below;

verus! {

/// What a pheeple is doing.
#[derive(Clone, Copy, PartialEq, Eq, Structural, Debug)]
pub enum Behavior {
    Working,
    AtHome,
    TravellingToWork,
    TravellingToHome,
}

/// Where a pheeple is sent: its home or its workplace.
#[derive(Clone, Copy, PartialEq, Eq, Structural, Debug)]
pub enum Destination {
    Home,
    Work,
}

/// A pheeple: its behavior and the identifier of its phone.
#[derive(Clone, Copy, Debug)]
pub struct Pheeple {
    behavior: Behavior,
    phone_id: u128,
}

/// The behavior once a pheeple reaches the place it was walking to: a
/// traveller comes to rest there, a resting pheeple stays as it is.
pub open spec fn arrived(b: Behavior) -> Behavior {
    match b {
        Behavior::TravellingToWork => Behavior::Working,
        Behavior::TravellingToHome => Behavior::AtHome,
        Behavior::AtHome => Behavior::AtHome,
        Behavior::Working => Behavior::Working,
    }
}

/// The behavior of a pheeple sent off towards `d`.
pub open spec fn travelling_to(d: Destination) -> Behavior {
    match d {
        Destination::Home => Behavior::TravellingToHome,
        Destination::Work => Behavior::TravellingToWork,
    }
}

/// The behavior of a pheeple that rests at `d`.
pub open spec fn resting_at(d: Destination) -> Behavior {
    match d {
        Destination::Home => Behavior::AtHome,
        Destination::Work => Behavior::Working,
    }
}

impl Pheeple {
    pub closed spec fn spec_behavior(&self) -> Behavior {
        self.behavior
    }

    pub closed spec fn spec_phone_id(&self) -> u128 {
        self.phone_id
    }

    /// A new pheeple: it starts at home, with a fresh random phone
    /// identifier, and is sent off towards its workplace.
    pub fn spawn() -> (res: (Pheeple, Destination))
        ensures
            res.0.spec_behavior() == Behavior::AtHome,
            is_random_id(res.0.spec_phone_id()),
            res.1 == Destination::Work,
    {
        let id = new_random_id();
        (Pheeple { behavior: Behavior::AtHome, phone_id: id }, Destination::Work)
    }

    /// The identifier of the pheeple's phone.
    pub fn phone_id(&self) -> (id: u128)
        ensures
            id == self.spec_phone_id(),
    {
        self.phone_id
    }

    /// What the pheeple is doing.
    pub fn behavior(&self) -> (b: Behavior)
        ensures
            b == self.spec_behavior(),
    {
        self.behavior
    }

    /// Sends the pheeple off towards `d`, whatever it was doing.
    pub fn set_off(&mut self, d: Destination)
        ensures
            final(self).spec_behavior() == travelling_to(d),
            final(self).spec_phone_id() == old(self).spec_phone_id(),
    {
        self.behavior = match d {
            Destination::Home => Behavior::TravellingToHome,
            Destination::Work => Behavior::TravellingToWork,
        };
    }

    /// The pheeple has reached the place it was walking to.
    pub fn arrive(&mut self)
        ensures
            final(self).spec_behavior() == arrived(old(self).spec_behavior()),
            final(self).spec_phone_id() == old(self).spec_phone_id(),
    {
        self.behavior = match self.behavior {
            Behavior::TravellingToWork => Behavior::Working,
            Behavior::TravellingToHome => Behavior::AtHome,
            Behavior::AtHome => Behavior::AtHome,
            Behavior::Working => Behavior::Working,
        };
    }
}

/// Sends every pheeple off towards `d`; their phones stay theirs.
pub fn set_off_all(pheeples: &mut Vec<Pheeple>, d: Destination)
    ensures
        final(pheeples)@.len() == old(pheeples)@.len(),
        forall|i: int|
            0 <= i < final(pheeples)@.len() ==> {
                &&& (#[trigger] final(pheeples)@[i]).spec_behavior() == travelling_to(d)
                &&& final(pheeples)@[i].spec_phone_id() == old(pheeples)@[i].spec_phone_id()
            },
{
    let n = pheeples.len();
    let mut i: usize = 0;
    while i < n
        invariant
            n == old(pheeples)@.len(),
            pheeples@.len() == n,
            i <= n,
            forall|j: int|
                0 <= j < i ==> {
                    &&& (#[trigger] pheeples@[j]).spec_behavior() == travelling_to(d)
                    &&& pheeples@[j].spec_phone_id() == old(pheeples)@[j].spec_phone_id()
                },
            forall|j: int| i <= j < n ==> #[trigger] pheeples@[j] == old(pheeples)@[j],
        decreases n - i,
    {
        let mut p = pheeples[i];
        p.set_off(d);
        pheeples.set(i, p);
        i = i + 1;
    }
}

/// Evening: every pheeple sets off home.
pub fn hometime(pheeples: &mut Vec<Pheeple>)
    ensures
        final(pheeples)@.len() == old(pheeples)@.len(),
        forall|i: int|
            0 <= i < final(pheeples)@.len() ==> {
                &&& (#[trigger] final(pheeples)@[i]).spec_behavior() == Behavior::TravellingToHome
                &&& final(pheeples)@[i].spec_phone_id() == old(pheeples)@[i].spec_phone_id()
            },
{
    set_off_all(pheeples, Destination::Home);
}

/// Morning: every pheeple sets off to work.
pub fn worktime(pheeples: &mut Vec<Pheeple>)
    ensures
        final(pheeples)@.len() == old(pheeples)@.len(),
        forall|i: int|
            0 <= i < final(pheeples)@.len() ==> {
                &&& (#[trigger] final(pheeples)@[i]).spec_behavior() == Behavior::TravellingToWork
                &&& final(pheeples)@[i].spec_phone_id() == old(pheeples)@[i].spec_phone_id()
            },
{
    set_off_all(pheeples, Destination::Work);
}

/// How many pheeple to place in one area: a random number below
/// `max_per_area`.
pub fn pheeple_count(max_per_area: i32) -> (n: i32)
    requires
        max_per_area > 0,
    ensures
        0 <= n < max_per_area,
{
    random_below(max_per_area)
}

/// Arriving twice is arriving once.
pub proof fn lemma_arrive_idempotent(b: Behavior)
    ensures
        arrived(arrived(b)) == arrived(b),
{
}

/// A pheeple at rest stays at rest when it arrives.
pub proof fn lemma_arrive_keeps_rest(d: Destination)
    ensures
        arrived(resting_at(d)) == resting_at(d),
{
}

/// Whatever a pheeple was doing, once sent towards `d` and arrived it rests at `d`.
pub proof fn lemma_set_off_then_arrive(d: Destination)
    ensures
        arrived(travelling_to(d)) == resting_at(d),
{
}

} // verus!
