use zoo_engine::animal::Animal;
use zoo_engine::animal::Sex;
use zoo_engine::decimal::u32_to_decimal;
use zoo_engine::enclosure::move_animal_into_enclosure;
use zoo_engine::enclosure::AdmissionRule;
use zoo_engine::enclosure::Enclosure;
use zoo_engine::enclosure::EnclosureFull;
use zoo_engine::enclosure::PlacementError;
use zoo_engine::generate_enclosure_list;
use zoo_engine::generate_initial_animal_list;

#[test]
fn deterministic_factory_sets_id_and_sex() {
    let a = Animal::new_specific_sex(17, Sex::Male);
    assert_eq!(a.id, 17);
    assert_eq!(a.sex, Sex::Male);
    let b = Animal::new_specific_sex(17, Sex::Female);
    assert_eq!(b.sex, Sex::Female);
}

#[test]
fn population_ids_are_sequential() {
    let holding = generate_initial_animal_list(5);
    assert_eq!(holding.id, 0);
    assert_eq!(holding.animals_in_enclosure.len(), 5);
    for (i, a) in holding.animals_in_enclosure.iter().enumerate() {
        assert_eq!(a.id, i as u32);
        assert!(a.sex == Sex::Male || a.sex == Sex::Female);
    }
}

#[test]
fn enclosures_are_distinct_and_empty() {
    let el = generate_enclosure_list(6);
    assert_eq!(el.len(), 5);
    for (i, e) in el.iter().enumerate() {
        assert_eq!(e.id, i as u32 + 1);
        assert!(e.animals_in_enclosure.is_empty());
    }
    for i in 0..el.len() {
        for j in (i + 1)..el.len() {
            assert_ne!(el[i].id, el[j].id);
        }
    }
}

#[test]
fn rejection_is_idempotent_and_keeps_contents() {
    let mut target = Enclosure::new(1);
    let resident = Animal::new_specific_sex(1, Sex::Female);
    assert!(target.add_animal(resident).is_ok());
    let snapshot = target.animals_in_enclosure.clone();
    let intruder = Animal::new_specific_sex(1, Sex::Male);
    for _ in 0..3 {
        let result = move_animal_into_enclosure(None, intruder, &mut target);
        assert_eq!(
            result.unwrap_err(),
            PlacementError::TargetRejected {
                enclosure_id: 1,
                animal_id: 1,
            }
        );
        assert_eq!(target.animals_in_enclosure, snapshot);
    }
}

#[test]
fn capacity_boundary_three_in_fourth_out() {
    let mut target = Enclosure::new(2);
    for id in 1..=3u32 {
        let result = move_animal_into_enclosure(None, Animal::new_specific_sex(id, Sex::Male), &mut target);
        assert!(result.is_ok());
    }
    let fourth = Animal::new_specific_sex(4, Sex::Male);
    let result = move_animal_into_enclosure(None, fourth, &mut target);
    assert_eq!(
        result.unwrap_err(),
        PlacementError::TargetRejected {
            enclosure_id: 2,
            animal_id: 4,
        }
    );
    assert_eq!(target.animals_in_enclosure.len(), 3);
}

#[test]
fn rejected_move_leaves_source_untouched() {
    let mut source = Enclosure::new(5);
    let wanderer = Animal::new_specific_sex(9, Sex::Female);
    assert!(source.add_animal(wanderer).is_ok());

    // Target already holds the same id: the move is rejected.
    let mut target = Enclosure::new(1);
    assert!(target.add_animal(Animal::new_specific_sex(9, Sex::Male)).is_ok());
    let result = move_animal_into_enclosure(Some(&mut source), wanderer, &mut target);
    assert!(result.is_err());
    assert_eq!(source.animals_in_enclosure.len(), 1);
    assert_eq!(source.animals_in_enclosure[0].id, 9);

    // Target is full: the move is rejected and the source keeps the animal.
    let mut full_target = Enclosure::new(2);
    for id in 1..=3u32 {
        assert!(full_target.add_animal(Animal::new_specific_sex(id, Sex::Male)).is_ok());
    }
    let result = move_animal_into_enclosure(Some(&mut source), wanderer, &mut full_target);
    assert!(result.is_err());
    assert_eq!(source.animals_in_enclosure.len(), 1);
    assert_eq!(source.animals_in_enclosure[0].id, 9);
    assert_eq!(full_target.animals_in_enclosure.len(), 3);
}

#[test]
fn move_takes_the_animal_out_of_the_source() {
    let mut source = generate_initial_animal_list(3);
    let moved = source.animals_in_enclosure[1];
    let mut target = Enclosure::new(1);
    let result = move_animal_into_enclosure(Some(&mut source), moved, &mut target);
    assert!(result.is_ok());
    assert_eq!(source.animals_in_enclosure.len(), 2);
    assert!(source.animals_in_enclosure.iter().all(|a| a.id != moved.id));
    assert_eq!(target.animals_in_enclosure.len(), 1);
    assert_eq!(target.animals_in_enclosure[0].id, moved.id);
}

#[test]
fn admissions_fill_enclosure_then_reject() {
    let mut e = Enclosure::new(1);
    assert!(e.add_animal(Animal::new_specific_sex(1, Sex::Male)).is_ok());
    assert!(e.add_animal(Animal::new_specific_sex(2, Sex::Female)).is_ok());
    assert!(e.add_animal(Animal::new_specific_sex(3, Sex::Male)).is_ok());
    let ids: Vec<u32> = e.animals_in_enclosure.iter().map(|a| a.id).collect();
    assert_eq!(ids, vec![1, 2, 3]);
    let rejected = e.add_animal(Animal::new_specific_sex(4, Sex::Female));
    let err = rejected.unwrap_err();
    assert_eq!(err, EnclosureFull { enclosure_id: 1 });
    assert_eq!(err.message(), "Enclosure 1 is full");
    assert_eq!(e.animals_in_enclosure.len(), 3);
}

#[test]
fn each_animal_fits_into_its_own_enclosure() {
    let population = generate_initial_animal_list(10);
    let mut enclosures = generate_enclosure_list(11);
    assert_eq!(enclosures.len(), 10);
    for (a, e) in population
        .animals_in_enclosure
        .into_iter()
        .zip(enclosures.iter_mut())
    {
        assert!(move_animal_into_enclosure(None, a, e).is_ok());
    }
    for e in enclosures.iter() {
        assert_eq!(e.animals_in_enclosure.len(), 1);
    }
}

#[test]
fn holding_enclosure_is_unbounded_but_rejects_duplicates() {
    let mut holding = Enclosure::new(0);
    for id in 0..50u32 {
        assert!(holding.add_animal(Animal::new_specific_sex(id, Sex::Male)).is_ok());
    }
    assert_eq!(holding.animals_in_enclosure.len(), 50);
    let duplicate = holding.add_animal(Animal::new_specific_sex(7, Sex::Female));
    assert_eq!(duplicate.unwrap_err(), EnclosureFull { enclosure_id: 0 });
    assert_eq!(holding.animals_in_enclosure.len(), 50);
}

#[test]
fn admission_rules_differ_only_on_capacity() {
    let mut e = Enclosure::new(4);
    for id in 1..=3u32 {
        assert!(e.add_animal(Animal::new_specific_sex(id, Sex::Male)).is_ok());
    }
    let newcomer = Animal::new_specific_sex(8, Sex::Female);
    assert!(AdmissionRule::DuplicateOnly.admits(&e, &newcomer));
    assert!(!AdmissionRule::CapacityAndDuplicate.admits(&e, &newcomer));
    let duplicate = Animal::new_specific_sex(2, Sex::Female);
    assert!(!AdmissionRule::DuplicateOnly.admits(&e, &duplicate));
    assert!(!AdmissionRule::CapacityAndDuplicate.admits(&e, &duplicate));
}

#[test]
fn placement_error_message_names_the_animal() {
    let err = PlacementError::TargetRejected {
        enclosure_id: 3,
        animal_id: 7,
    };
    assert_eq!(err.message(), "Animal 7 is already in the target list");
    assert_eq!(
        err.message(),
        format!("Animal {} is already in the target list", 7)
    );
}

#[test]
fn enclosure_full_message_names_the_enclosure() {
    let err = EnclosureFull { enclosure_id: 12 };
    assert_eq!(err.message(), "Enclosure 12 is full");
}

#[test]
fn decimal_rendering_matches_formatting() {
    assert_eq!(u32_to_decimal(0), "0");
    assert_eq!(u32_to_decimal(7), "7");
    assert_eq!(u32_to_decimal(10), "10");
    assert_eq!(u32_to_decimal(305), "305");
    assert_eq!(u32_to_decimal(4294967295), "4294967295");
    for n in [0u32, 1, 9, 10, 99, 100, 12345, u32::MAX] {
        assert_eq!(u32_to_decimal(n), format!("{}", n));
    }
}
