//! Enclosures and the placement engine: capacity-limited containers of
//! animals, a pluggable admission rule, and an atomic move operation.

use vstd::prelude::*;

verus! {

use crate::animal::Animal;
use crate::decimal::decimal_digits;
use crate::decimal::u32_to_decimal;

/// How many animals a regular enclosure can hold.
pub const ENCLOSURE_CAPACITY: usize = 3;

/// The id reserved for the temporary (holding) enclosure.  The holding
/// enclosure is unbounded: its admission rule skips the capacity check,
/// though it still rejects duplicate ids.
pub const TEMPORARY_ENCLOSURE_ID: u32 = 0;

/// A container of animals.  A regular enclosure holds at most
/// [`ENCLOSURE_CAPACITY`] animals; the holding enclosure (id
/// [`TEMPORARY_ENCLOSURE_ID`]) is unbounded.  Within one enclosure each
/// animal id occurs at most once.  Enclosures are meant to be mutated
/// only through the placement engine's admission operations, which keep
/// those invariants.
#[derive(Debug, Clone)]
pub struct Enclosure {
    /// The identifier of the enclosure, unique within a run; id 0 is
    /// reserved for the holding enclosure.
    pub id: u32,
    /// The animals currently in the enclosure, in insertion order.
    pub animals_in_enclosure: Vec<Animal>,
}

/// Whether some animal of `s` carries the given id.
pub open spec fn seq_contains_id(s: Seq<Animal>, id: u32) -> bool {
    exists|i: int| 0 <= i < s.len() && s[i].id == id
}

/// Whether no two animals of `s` share an id.
pub open spec fn distinct_ids(s: Seq<Animal>) -> bool {
    forall|i: int, j: int| 0 <= i < j < s.len() ==> s[i].id != s[j].id
}

/// `s` with the first animal that carries the given id taken out;
/// `s` itself when no animal carries it.
pub open spec fn remove_first_with_id(s: Seq<Animal>, id: u32) -> Seq<Animal>
    decreases s.len(),
{
    if s.len() == 0 {
        s
    } else if s[0].id == id {
        s.drop_first()
    } else {
        seq![s[0]] + remove_first_with_id(s.drop_first(), id)
    }
}

impl Enclosure {
    /// Whether this is the unbounded holding enclosure.
    pub open spec fn is_holding(self) -> bool {
        self.id == TEMPORARY_ENCLOSURE_ID
    }

    /// How many animals the enclosure currently holds.
    pub open spec fn occupancy(self) -> nat {
        self.animals_in_enclosure@.len()
    }

    /// Whether some member of the enclosure carries the given id.
    pub open spec fn spec_contains_id(self, id: u32) -> bool {
        seq_contains_id(self.animals_in_enclosure@, id)
    }

    /// Well-formedness: no two members share an id, and a regular
    /// enclosure is within its capacity.
    pub open spec fn wf(self) -> bool {
        &&& distinct_ids(self.animals_in_enclosure@)
        &&& !self.is_holding() ==> self.occupancy() <= ENCLOSURE_CAPACITY
    }

    /// The admission rule this enclosure applies: the holding enclosure
    /// admits by the duplicate-only rule, every other enclosure by the
    /// default capacity-and-duplicate rule.
    pub open spec fn admission_rule(self) -> AdmissionRule {
        if self.is_holding() {
            AdmissionRule::DuplicateOnly
        } else {
            AdmissionRule::CapacityAndDuplicate
        }
    }

    /// Whether this enclosure's own admission rule lets the candidate in.
    pub open spec fn spec_admits(self, candidate: Animal) -> bool {
        self.admission_rule().spec_admits(self, candidate)
    }

    /// An empty enclosure with the given id.  Storage for a regular
    /// enclosure is pre-sized to the capacity.
    pub fn new(id: u32) -> (enclosure: Enclosure)
        ensures
            enclosure.id == id,
            enclosure.animals_in_enclosure@ == Seq::<Animal>::empty(),
            enclosure.occupancy() == 0,
            enclosure.wf(),
    {
        if id == TEMPORARY_ENCLOSURE_ID {
            Enclosure { id, animals_in_enclosure: Vec::<Animal>::new() }
        } else {
            Enclosure { id, animals_in_enclosure: Vec::<Animal>::with_capacity(ENCLOSURE_CAPACITY) }
        }
    }
}

/// An admission rule decides whether a candidate animal may join a
/// target enclosure.  The rule is a pluggable strategy: the move
/// protocol is the same whichever rule the target applies.
/// [`AdmissionRule::CapacityAndDuplicate`] is the default for regular
/// enclosures; the holding enclosure applies
/// [`AdmissionRule::DuplicateOnly`].
#[derive(Debug, PartialEq, Eq, Copy, Clone, Structural)]
pub enum AdmissionRule {
    /// Reject a candidate only when a member of the target already
    /// carries its id.  The rule of the unbounded holding enclosure.
    DuplicateOnly,
    /// Reject a candidate when the target is at capacity, and reject
    /// duplicate ids.  The default rule of regular enclosures.
    CapacityAndDuplicate,
}

impl AdmissionRule {
    /// What the rule decides of a candidate and a target enclosure.
    pub open spec fn spec_admits(self, enclosure: Enclosure, candidate: Animal) -> bool {
        match self {
            AdmissionRule::DuplicateOnly => !enclosure.spec_contains_id(candidate.id),
            AdmissionRule::CapacityAndDuplicate => !enclosure.spec_contains_id(candidate.id)
                && enclosure.occupancy() < ENCLOSURE_CAPACITY,
        }
    }

    /// Evaluate the rule on a candidate and a target enclosure.
    pub fn admits(&self, enclosure: &Enclosure, candidate: &Animal) -> (admitted: bool)
        ensures
            admitted == self.spec_admits(*enclosure, *candidate),
    {
        let already_there = matches!(
            is_animal_in_enclosure(candidate, enclosure),
            EnclosureError::AnimalFoundInEnclosure
        );
        match self {
            AdmissionRule::DuplicateOnly => !already_there,
            AdmissionRule::CapacityAndDuplicate => !already_there
                && enclosure.animals_in_enclosure.len() < ENCLOSURE_CAPACITY,
        }
    }
}

/// The outcome of looking an animal up in an enclosure.
enum EnclosureError {
    /// The animal is not in the enclosure.
    NotInEnclosure,
    /// The enclosure holds no animal at all.
    EnclosureIsEmpty,
    /// The animal was found in the enclosure.
    AnimalFoundInEnclosure,
}

/// Look the animal up in the enclosure by its id.
fn is_animal_in_enclosure(
    animal_to_check: &Animal,
    enclosure_to_be_checked: &Enclosure,
) -> (found: EnclosureError)
    ensures
        found is AnimalFoundInEnclosure <==> enclosure_to_be_checked.spec_contains_id(
            animal_to_check.id,
        ),
        found is EnclosureIsEmpty <==> enclosure_to_be_checked.occupancy() == 0,
{
    let members = &enclosure_to_be_checked.animals_in_enclosure;
    if members.len() == 0 {
        return EnclosureError::EnclosureIsEmpty;
    }
    let mut i: usize = 0;
    while i < members.len()
        invariant
            i <= members@.len(),
            members@ == enclosure_to_be_checked.animals_in_enclosure@,
            forall|k: int| 0 <= k < i ==> members@[k].id != animal_to_check.id,
        decreases members@.len() - i,
    {
        if members[i].id == animal_to_check.id {
            proof {
                assert(enclosure_to_be_checked.animals_in_enclosure@[i as int].id
                    == animal_to_check.id);
            }
            return EnclosureError::AnimalFoundInEnclosure;
        }
        i += 1;
    }
    EnclosureError::NotInEnclosure
}

proof fn lemma_remove_first_with_id_absent(s: Seq<Animal>, id: u32)
    requires
        !seq_contains_id(s, id),
    ensures
        remove_first_with_id(s, id) == s,
    decreases s.len(),
{
    if s.len() > 0 {
        assert(s[0].id != id);
        assert(!seq_contains_id(s.drop_first(), id)) by {
            if seq_contains_id(s.drop_first(), id) {
                let k = choose|k: int|
                    0 <= k < s.drop_first().len() && s.drop_first()[k].id == id;
                assert(s[k + 1].id == id);
            }
        }
        lemma_remove_first_with_id_absent(s.drop_first(), id);
        assert(seq![s[0]] + s.drop_first() =~= s);
    }
}

proof fn lemma_remove_first_with_id_at(s: Seq<Animal>, id: u32, i: int)
    requires
        0 <= i < s.len(),
        s[i].id == id,
        forall|k: int| 0 <= k < i ==> s[k].id != id,
    ensures
        remove_first_with_id(s, id) == s.remove(i),
    decreases i,
{
    if i == 0 {
        assert(s.drop_first() =~= s.remove(0));
    } else {
        assert forall|k: int| 0 <= k < i - 1 implies s.drop_first()[k].id != id by {
            assert(s.drop_first()[k] == s[k + 1]);
        }
        assert(s.drop_first()[i - 1].id == id);
        lemma_remove_first_with_id_at(s.drop_first(), id, i - 1);
        assert(seq![s[0]] + s.drop_first().remove(i - 1) =~= s.remove(i));
    }
}

proof fn lemma_seq_remove_properties(s: Seq<Animal>, i: int)
    requires
        0 <= i < s.len(),
    ensures
        forall|other: u32|
            other != s[i].id ==> (seq_contains_id(s.remove(i), other) <==> seq_contains_id(
                s,
                other,
            )),
        distinct_ids(s) ==> distinct_ids(s.remove(i)),
        distinct_ids(s) ==> !seq_contains_id(s.remove(i), s[i].id),
{
    let r = s.remove(i);
    assert forall|other: u32|
        other != s[i].id implies (seq_contains_id(r, other) <==> seq_contains_id(s, other)) by {
        if seq_contains_id(r, other) {
            let k = choose|k: int| 0 <= k < r.len() && r[k].id == other;
            if k < i {
                assert(s[k].id == other);
            } else {
                assert(s[k + 1].id == other);
            }
        }
        if seq_contains_id(s, other) {
            let k = choose|k: int| 0 <= k < s.len() && s[k].id == other;
            if k < i {
                assert(r[k].id == other);
            } else {
                assert(k != i);
                assert(r[k - 1].id == other);
            }
        }
    }
    if distinct_ids(s) {
        assert forall|a: int, b: int| 0 <= a < b < r.len() implies r[a].id != r[b].id by {
            if a < i {
                assert(r[a] == s[a]);
            } else {
                assert(r[a] == s[a + 1]);
            }
            if b < i {
                assert(r[b] == s[b]);
            } else {
                assert(r[b] == s[b + 1]);
            }
        }
        if seq_contains_id(r, s[i].id) {
            let k = choose|k: int| 0 <= k < r.len() && r[k].id == s[i].id;
            if k < i {
                assert(s[k].id == s[i].id);
                assert(false);
            } else {
                assert(s[k + 1].id == s[i].id);
                assert(false);
            }
        }
    }
}

/// Take the animal with the given id out of the enclosure: the first
/// member that carries the id is removed, and nothing changes when no
/// member does.  Removal is idempotent and never errors.
fn remove_animal_from_enclosure(enclosure: &mut Enclosure, animal_to_remove: Animal)
    ensures
        final(enclosure).id == old(enclosure).id,
        final(enclosure).animals_in_enclosure@ == remove_first_with_id(
            old(enclosure).animals_in_enclosure@,
            animal_to_remove.id,
        ),
        !old(enclosure).spec_contains_id(animal_to_remove.id)
            ==> final(enclosure).animals_in_enclosure@ == old(enclosure).animals_in_enclosure@,
        old(enclosure).spec_contains_id(animal_to_remove.id) ==> final(enclosure).occupancy()
            == old(enclosure).occupancy() - 1,
        final(enclosure).occupancy() <= old(enclosure).occupancy(),
        forall|other: u32|
            other != animal_to_remove.id ==> (final(enclosure).spec_contains_id(other)
                <==> old(enclosure).spec_contains_id(other)),
        distinct_ids(old(enclosure).animals_in_enclosure@)
            ==> (distinct_ids(final(enclosure).animals_in_enclosure@)
                && !final(enclosure).spec_contains_id(animal_to_remove.id)),
{
    let n = enclosure.animals_in_enclosure.len();
    let mut i: usize = 0;
    while i < n
        invariant
            i <= n,
            n == enclosure.animals_in_enclosure@.len(),
            *enclosure == *old(enclosure),
            forall|k: int|
                0 <= k < i ==> enclosure.animals_in_enclosure@[k].id != animal_to_remove.id,
        decreases n - i,
    {
        if enclosure.animals_in_enclosure[i].id == animal_to_remove.id {
            let ghost s = enclosure.animals_in_enclosure@;
            enclosure.animals_in_enclosure.remove(i);
            proof {
                assert(s[i as int].id == animal_to_remove.id);
                lemma_remove_first_with_id_at(s, animal_to_remove.id, i as int);
                lemma_seq_remove_properties(s, i as int);
            }
            return;
        }
        i += 1;
    }
    proof {
        lemma_remove_first_with_id_absent(
            enclosure.animals_in_enclosure@,
            animal_to_remove.id,
        );
    }
}

proof fn lemma_push_preserves_distinct(s: Seq<Animal>, a: Animal)
    requires
        distinct_ids(s),
        !seq_contains_id(s, a.id),
    ensures
        distinct_ids(s.push(a)),
{
    assert forall|i: int, j: int|
        0 <= i < j < s.push(a).len() implies s.push(a)[i].id != s.push(a)[j].id by {
        if j == s.len() {
            assert(s.push(a)[i] == s[i]);
            assert(s.push(a)[j] == a);
            if s[i].id == a.id {
                assert(seq_contains_id(s, a.id));
            }
        } else {
            assert(s.push(a)[i] == s[i]);
            assert(s.push(a)[j] == s[j]);
        }
    }
}

/// Whether the enclosure's own admission rule lets the animal in:
/// no member may already carry the animal's id, and a regular
/// enclosure must be below its capacity (the holding enclosure skips
/// the capacity check).
fn ok_to_add_animal(animal_to_add: &Animal, enclosure_to_be_checked: &Enclosure) -> (admitted:
    bool)
    ensures
        admitted == enclosure_to_be_checked.spec_admits(*animal_to_add),
{
    let rule = if enclosure_to_be_checked.id == TEMPORARY_ENCLOSURE_ID {
        AdmissionRule::DuplicateOnly
    } else {
        AdmissionRule::CapacityAndDuplicate
    };
    rule.admits(enclosure_to_be_checked, animal_to_add)
}

/// The placement engine rejected a move: the target enclosure's
/// admission rule refused the animal, because a member already carried
/// its id or because the target had no room.
#[derive(Debug, PartialEq, Eq, Copy, Clone, Structural)]
pub enum PlacementError {
    /// The target enclosure with the first id rejected the animal with
    /// the second id.
    TargetRejected {
        /// The id of the rejecting target enclosure.
        enclosure_id: u32,
        /// The id of the rejected animal.
        animal_id: u32,
    },
}

impl PlacementError {
    /// The id of the enclosure that rejected the move.
    pub open spec fn spec_enclosure_id(self) -> u32 {
        match self {
            PlacementError::TargetRejected { enclosure_id, .. } => enclosure_id,
        }
    }

    /// The id of the animal that was rejected.
    pub open spec fn spec_animal_id(self) -> u32 {
        match self {
            PlacementError::TargetRejected { animal_id, .. } => animal_id,
        }
    }

    /// The characters of the human-readable message for this error.
    pub open spec fn spec_message(self) -> Seq<char> {
        "Animal "@ + decimal_digits(self.spec_animal_id() as nat)
            + " is already in the target list"@
    }

    /// Render the error as human-readable text.
    pub fn message(&self) -> (text: String)
        ensures
            text@ == self.spec_message(),
    {
        match self {
            PlacementError::TargetRejected { enclosure_id: _, animal_id } => {
                let mut text = String::from_str("Animal ");
                let digits = u32_to_decimal(*animal_id);
                text.append(digits.as_str());
                text.append(" is already in the target list");
                text
            },
        }
    }
}

/// An enclosure refused a direct admission: its admission rule rejected
/// the candidate.  The error names the refusing enclosure.
#[derive(Debug, PartialEq, Eq, Copy, Clone, Structural)]
pub struct EnclosureFull {
    /// The id of the enclosure that refused the animal.
    pub enclosure_id: u32,
}

impl EnclosureFull {
    /// The characters of the human-readable message for this error.
    pub open spec fn spec_message(self) -> Seq<char> {
        "Enclosure "@ + decimal_digits(self.enclosure_id as nat) + " is full"@
    }

    /// Render the error as human-readable text.
    pub fn message(&self) -> (text: String)
        ensures
            text@ == self.spec_message(),
    {
        let mut text = String::from_str("Enclosure ");
        let digits = u32_to_decimal(self.enclosure_id);
        text.append(digits.as_str());
        text.append(" is full");
        text
    }
}

impl Enclosure {
    /// Admit one animal directly into this enclosure.  The admission
    /// succeeds exactly when the enclosure's own rule lets the animal
    /// in; the animal is then appended, preserving insertion order.  On
    /// rejection the enclosure is unchanged and the error names it.
    pub fn add_animal(&mut self, animal: Animal) -> (result: Result<(), EnclosureFull>)
        ensures
            final(self).id == old(self).id,
            result is Ok <==> old(self).spec_admits(animal),
            result is Ok ==> final(self).animals_in_enclosure@ == old(
                self,
            ).animals_in_enclosure@.push(animal),
            result is Err ==> *final(self) == *old(self),
            result matches Err(e) ==> e == (EnclosureFull { enclosure_id: old(self).id }),
            old(self).wf() ==> final(self).wf(),
    {
        if ok_to_add_animal(&animal, self) {
            proof {
                if old(self).wf() {
                    lemma_push_preserves_distinct(self.animals_in_enclosure@, animal);
                }
            }
            self.animals_in_enclosure.push(animal);
            Ok(())
        } else {
            Err(EnclosureFull { enclosure_id: self.id })
        }
    }
}

/// Move an animal from an optional source enclosure into a target
/// enclosure, atomically.
///
/// Admissibility into the target is evaluated first, by the target's
/// own admission rule.  When the target rejects, the move returns
/// [`PlacementError::TargetRejected`] and neither enclosure changes.
/// When the target admits, the animal is first removed by id from the
/// source, if one is given (a no-op when it is not present there), and
/// then appended to the target.
pub fn move_animal_into_enclosure(
    source: Option<&mut Enclosure>,
    animal_to_move_into_enclosure: Animal,
    target: &mut Enclosure,
) -> (result: Result<(), PlacementError>)
    ensures
        result is Ok <==> old(target).spec_admits(animal_to_move_into_enclosure),
        final(target).id == old(target).id,
        result is Ok ==> final(target).animals_in_enclosure@ == old(
            target,
        ).animals_in_enclosure@.push(animal_to_move_into_enclosure),
        result is Ok ==> final(target).spec_contains_id(animal_to_move_into_enclosure.id),
        result is Err ==> *final(target) == *old(target),
        result matches Err(e) ==> e == (PlacementError::TargetRejected {
            enclosure_id: old(target).id,
            animal_id: animal_to_move_into_enclosure.id,
        }),
        old(target).spec_contains_id(animal_to_move_into_enclosure.id) ==> result is Err,
        !old(target).is_holding() && old(target).occupancy() >= ENCLOSURE_CAPACITY
            ==> result is Err,
        old(target).wf() ==> final(target).wf(),
        source matches Some(s) ==> final(s).id == s.id,
        source matches Some(s) ==> (result is Ok ==> final(s).animals_in_enclosure@
            == remove_first_with_id(
            s.animals_in_enclosure@,
            animal_to_move_into_enclosure.id,
        )),
        source matches Some(s) ==> (result is Err ==> *final(s) == *s),
        source matches Some(s) ==> (result is Err && s.spec_contains_id(
            animal_to_move_into_enclosure.id,
        ) ==> final(s).spec_contains_id(animal_to_move_into_enclosure.id)),
        source matches Some(s) ==> (forall|other: u32|
            other != animal_to_move_into_enclosure.id ==> (final(s).spec_contains_id(other)
                <==> s.spec_contains_id(other))),
        source matches Some(s) ==> (s.wf() ==> final(s).wf()),
        source matches Some(s) ==> (result is Ok && s.wf() ==> !final(s).spec_contains_id(
            animal_to_move_into_enclosure.id,
        )),
{
    if ok_to_add_animal(&animal_to_move_into_enclosure, target) {
        match source {
            Some(s) => remove_animal_from_enclosure(s, animal_to_move_into_enclosure),
            None => (),
        }
        proof {
            if old(target).wf() {
                lemma_push_preserves_distinct(
                    target.animals_in_enclosure@,
                    animal_to_move_into_enclosure,
                );
            }
        }
        target.animals_in_enclosure.push(animal_to_move_into_enclosure);
        proof {
            let members = target.animals_in_enclosure@;
            assert(members[members.len() - 1].id == animal_to_move_into_enclosure.id);
        }
        Ok(())
    } else {
        Err(
            PlacementError::TargetRejected {
                enclosure_id: target.id,
                animal_id: animal_to_move_into_enclosure.id,
            },
        )
    }
}

} // verus!
