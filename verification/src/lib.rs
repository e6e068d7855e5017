//! Engine for a small zoo-placement simulation.
//!
//! A pool of identified animals, each with a randomly assigned sex, is
//! distributed into capacity-limited enclosures under an admission rule.
//! The core is the placement engine: an atomic move of one animal from an
//! optional source enclosure into a target enclosure, which either fully
//! succeeds or changes nothing.

use vstd::prelude::*;

pub mod animal;
pub mod decimal;
pub mod enclosure;

verus! {

use crate::animal::Animal;
use crate::enclosure::move_animal_into_enclosure;
use crate::enclosure::Enclosure;
use crate::enclosure::TEMPORARY_ENCLOSURE_ID;

/// Build the initial population: `how_many` animals with ids `0` up to
/// `how_many - 1`, in that order, each with a randomly drawn sex, all
/// placed in the holding enclosure through the placement engine.
pub fn generate_initial_animal_list(how_many: u32) -> (holding: Enclosure)
    ensures
        holding.id == TEMPORARY_ENCLOSURE_ID,
        holding.occupancy() == how_many,
        forall|k: int| 0 <= k < how_many ==> holding.animals_in_enclosure@[k].id == k,
        forall|k: int|
            0 <= k < how_many ==> (holding.animals_in_enclosure@[k].sex is Male
                || holding.animals_in_enclosure@[k].sex is Female),
        holding.wf(),
{
    let animal_list: Vec<Animal> = {
        let mut t_animals: Vec<Animal> = Vec::new();
        let mut i: u32 = 0;
        while i < how_many
            invariant
                i <= how_many,
                t_animals@.len() == i,
                forall|k: int| 0 <= k < i ==> t_animals@[k].id == k,
            decreases how_many - i,
        {
            let t_animal = Animal::new(i);
            t_animals.push(t_animal);
            i += 1;
        }
        t_animals
    };
    let mut temporary_enclosure = Enclosure::new(TEMPORARY_ENCLOSURE_ID);
    let mut j: usize = 0;
    while j < animal_list.len()
        invariant
            j <= animal_list@.len(),
            animal_list@.len() == how_many,
            forall|k: int| 0 <= k < how_many ==> animal_list@[k].id == k,
            temporary_enclosure.id == TEMPORARY_ENCLOSURE_ID,
            temporary_enclosure.animals_in_enclosure@ == animal_list@.subrange(0, j as int),
        decreases animal_list@.len() - j,
    {
        let a = animal_list[j];
        proof {
            if temporary_enclosure.spec_contains_id(a.id) {
                let members = temporary_enclosure.animals_in_enclosure@;
                let k = choose|k: int| 0 <= k < members.len() && members[k].id == a.id;
                assert(members[k] == animal_list@[k]);
                assert(false);
            }
        }
        let _r = move_animal_into_enclosure(None, a, &mut temporary_enclosure);
        proof {
            assert(temporary_enclosure.animals_in_enclosure@ =~= animal_list@.subrange(
                0,
                j as int + 1,
            ));
        }
        j += 1;
    }
    proof {
        assert(temporary_enclosure.animals_in_enclosure@ =~= animal_list@);
    }
    temporary_enclosure
}

/// Build the initial set of regular enclosures: ids are assigned
/// sequentially starting at 1, because id 0 is reserved for the holding
/// enclosure, which is not part of the list.  So for a positive count
/// the list holds `how_many - 1` enclosures, every one of them empty.
pub fn generate_enclosure_list(how_many: u32) -> (enclosure_list: Vec<Enclosure>)
    ensures
        how_many == 0 ==> enclosure_list@.len() == 0,
        how_many >= 1 ==> enclosure_list@.len() == how_many - 1,
        forall|k: int| 0 <= k < enclosure_list@.len() ==> enclosure_list@[k].id == k + 1,
        forall|k: int| 0 <= k < enclosure_list@.len() ==> enclosure_list@[k].occupancy() == 0,
        forall|k: int|
            0 <= k < enclosure_list@.len() ==> enclosure_list@[k].animals_in_enclosure@
                == Seq::<Animal>::empty(),
        forall|k: int| 0 <= k < enclosure_list@.len() ==> enclosure_list@[k].wf(),
        forall|p: int, q: int|
            0 <= p < q < enclosure_list@.len() ==> enclosure_list@[p].id
                != enclosure_list@[q].id,
{
    let mut t_enclosures: Vec<Enclosure> = Vec::new();
    let mut i: u32 = 1;
    while i < how_many
        invariant
            1 <= i,
            how_many >= 1 ==> i <= how_many,
            how_many == 0 ==> i == 1,
            t_enclosures@.len() == i - 1,
            forall|k: int| 0 <= k < t_enclosures@.len() ==> t_enclosures@[k].id == k + 1,
            forall|k: int| 0 <= k < t_enclosures@.len() ==> t_enclosures@[k].occupancy() == 0,
            forall|k: int|
                0 <= k < t_enclosures@.len() ==> t_enclosures@[k].animals_in_enclosure@
                    == Seq::<Animal>::empty(),
            forall|k: int| 0 <= k < t_enclosures@.len() ==> t_enclosures@[k].wf(),
        decreases how_many - i,
    {
        t_enclosures.push(Enclosure::new(i));
        i += 1;
    }
    t_enclosures
}

} // verus!
