//! Animals: the identified, sexed individuals that the placement engine
//! distributes among enclosures.

use rand::Rng;
use vstd::prelude::*;

verus! {

/// The sex of an animal.  For this simulation every animal is either
/// male or female.
#[derive(Debug, PartialEq, Eq, Copy, Clone, Structural)]
pub enum Sex {
    /// A male animal.
    Male,
    /// A female animal.
    Female,
}

/// One animal in the zoo.  Each animal carries an id that its creator
/// keeps unique (the factory checks nothing: ids are typically handed
/// out sequentially from 0).  An animal is immutable after creation.
#[derive(Debug, PartialEq, Eq, Copy, Clone, Structural)]
pub struct Animal {
    /// The identifier of the animal, unique within a run.
    pub id: u32,
    /// The sex of the animal.
    pub sex: Sex,
}

/// Relies on `rand::rng` and `rand::Rng::random_range`: a uniform draw
/// from the non-empty range `0..2` returns a value of that range.
#[verifier::external_body]
fn random_below_two() -> (r: u32)
    ensures
        r < 2,
{
    rand::rng().random_range(0..2)
}

/// Draw a sex from the process-wide random source, each outcome equally
/// likely.  Nothing is promised about which one comes back.
fn random_sex() -> Sex {
    let draw = random_below_two();
    if draw == 0 {
        Sex::Male
    } else {
        Sex::Female
    }
}

impl Animal {
    /// A new animal with the given id and a randomly drawn sex.
    pub fn new(id: u32) -> (animal: Animal)
        ensures
            animal.id == id,
    {
        Animal { id, sex: random_sex() }
    }

    /// A new animal with the given id and the given sex: the
    /// deterministic variant of the factory, useful wherever a fixed
    /// sex is needed.
    pub fn new_specific_sex(id: u32, sex: Sex) -> (animal: Animal)
        ensures
            animal.id == id,
            animal.sex == sex,
    {
        Animal { id, sex }
    }
}

} // verus!
