use domain_registry::{derive_key, Error, Event, Pubkey, Registry};

const ALICE: Pubkey = [7u8; 32];
const BOB: Pubkey = [9u8; 32];

fn ready() -> Registry {
    let mut registry = Registry::new();
    assert_eq!(registry.initialize(), Ok(()));
    registry
}

#[test]
fn new_registry_is_empty_and_uninitialized() {
    let registry = Registry::new();
    assert!(!registry.is_initialized());
    assert_eq!(registry.next_id(), 0);
    assert_eq!(registry.events().len(), 0);
    assert!(registry.get(&derive_key(0)).is_none());
}

#[test]
fn initialize_starts_the_counter_at_zero() {
    let registry = ready();
    assert!(registry.is_initialized());
    assert_eq!(registry.next_id(), 0);
    assert_eq!(registry.events().len(), 0);
}

#[test]
fn second_initialize_fails_and_leaves_next_id() {
    let mut registry = ready();
    assert_eq!(registry.initialize(), Err(Error::AlreadyInitialized));
    assert_eq!(registry.next_id(), 0);

    assert_eq!(registry.create_domain(ALICE, 1, "one".to_string()), Ok(0));
    assert_eq!(registry.create_domain(ALICE, 1, "two".to_string()), Ok(1));
    let before = registry.clone();
    assert_eq!(registry.initialize(), Err(Error::AlreadyInitialized));
    assert_eq!(registry.next_id(), 2);
    assert_eq!(registry, before);
}

#[test]
fn create_before_initialize_is_refused() {
    let mut registry = Registry::new();
    let before = registry.clone();
    assert_eq!(
        registry.create_domain(ALICE, 3, "alpha".to_string()),
        Err(Error::NotInitialized)
    );
    assert_eq!(registry, before);
    assert_eq!(registry.next_id(), 0);
    assert_eq!(registry.events().len(), 0);
    assert!(registry.get(&derive_key(0)).is_none());
}

#[test]
fn created_record_is_found_at_the_derived_key() {
    let mut registry = ready();
    assert_eq!(registry.create_domain(ALICE, 3, "alpha".to_string()), Ok(0));

    let record = registry.get(&derive_key(0)).expect("record of id 0");
    assert_eq!(record.domain.owner, ALICE);
    assert_eq!(record.domain.name, "alpha");
    assert_eq!(record.domain.dom_type, 3);
    assert_eq!(record.space, 50);
    assert_eq!(registry.next_id(), 1);
    assert!(registry.get(&derive_key(1)).is_none());
}

#[test]
fn update_changes_only_the_type() {
    let mut registry = ready();
    assert_eq!(registry.create_domain(ALICE, 3, "alpha".to_string()), Ok(0));
    assert_eq!(registry.update_domain(0, 7), Ok(()));

    let record = registry.get(&derive_key(0)).expect("record of id 0");
    assert_eq!(record.domain.dom_type, 7);
    assert_eq!(record.domain.owner, ALICE);
    assert_eq!(record.domain.name, "alpha");
    assert_eq!(record.space, 50);
    assert_eq!(registry.next_id(), 1);
}

#[test]
fn update_of_unknown_id_fails_and_changes_nothing() {
    let mut registry = ready();
    let before = registry.clone();
    assert_eq!(registry.update_domain(999, 1), Err(Error::RecordNotFound));
    assert_eq!(registry, before);

    assert_eq!(registry.create_domain(ALICE, 3, "alpha".to_string()), Ok(0));
    let before = registry.clone();
    assert_eq!(registry.update_domain(999, 1), Err(Error::RecordNotFound));
    assert_eq!(registry.update_domain(1, 1), Err(Error::RecordNotFound));
    assert_eq!(registry, before);
    assert_eq!(registry.events().len(), 1);
}

#[test]
fn update_before_initialize_finds_no_record() {
    let mut registry = Registry::new();
    assert_eq!(registry.update_domain(0, 1), Err(Error::RecordNotFound));
    assert_eq!(registry.events().len(), 0);
}

#[test]
fn update_asks_for_no_owner() {
    // The record belongs to ALICE; the update names no caller at all and
    // still takes place, and the record stays ALICE's.
    let mut registry = ready();
    assert_eq!(registry.create_domain(ALICE, 3, "alpha".to_string()), Ok(0));
    assert_eq!(registry.create_domain(BOB, 4, "beta".to_string()), Ok(1));
    assert_eq!(registry.update_domain(0, 200), Ok(()));
    assert_eq!(registry.update_domain(1, 201), Ok(()));
    assert_eq!(registry.get(&derive_key(0)).unwrap().domain.owner, ALICE);
    assert_eq!(registry.get(&derive_key(0)).unwrap().domain.dom_type, 200);
    assert_eq!(registry.get(&derive_key(1)).unwrap().domain.owner, BOB);
    assert_eq!(registry.get(&derive_key(1)).unwrap().domain.dom_type, 201);
}

#[test]
fn ids_count_up_from_zero_without_gaps() {
    let mut registry = ready();
    for expected in 0..20u64 {
        let name = format!("domain-{}", expected);
        assert_eq!(registry.create_domain(ALICE, 1, name), Ok(expected));
        assert_eq!(registry.next_id(), expected + 1);
    }
    for id in 0..20u64 {
        let record = registry.get(&derive_key(id)).expect("record");
        assert_eq!(record.domain.name, format!("domain-{}", id));
    }
    assert!(registry.get(&derive_key(20)).is_none());
}

#[test]
fn refused_operations_use_up_no_id() {
    let mut registry = ready();
    assert_eq!(registry.create_domain(ALICE, 1, "a".to_string()), Ok(0));
    assert_eq!(registry.update_domain(5, 1), Err(Error::RecordNotFound));
    assert_eq!(registry.initialize(), Err(Error::AlreadyInitialized));
    assert_eq!(registry.update_domain(0, 2), Ok(()));
    assert_eq!(registry.create_domain(ALICE, 1, "b".to_string()), Ok(1));
    assert_eq!(registry.next_id(), 2);
}

#[test]
fn one_event_per_successful_mutation() {
    let mut registry = ready();
    assert_eq!(registry.events().len(), 0);

    assert_eq!(registry.create_domain(ALICE, 3, "alpha".to_string()), Ok(0));
    assert_eq!(registry.events().len(), 1);
    assert_eq!(
        registry.events().get(0),
        Some(&Event::DomainCreated { id: 0, owner: ALICE, name: "alpha".to_string(), dom_type: 3 })
    );

    assert_eq!(registry.update_domain(0, 7), Ok(()));
    assert_eq!(registry.events().len(), 2);
    assert_eq!(registry.events().get(1), Some(&Event::DomainUpdated { id: 0, dom_type: 7 }));

    assert_eq!(registry.create_domain(BOB, 9, "beta".to_string()), Ok(1));
    assert_eq!(
        registry.events().entries(),
        [
            Event::DomainCreated { id: 0, owner: ALICE, name: "alpha".to_string(), dom_type: 3 },
            Event::DomainUpdated { id: 0, dom_type: 7 },
            Event::DomainCreated { id: 1, owner: BOB, name: "beta".to_string(), dom_type: 9 },
        ]
    );
    assert_eq!(registry.events().get(3), None);
}

#[test]
fn events_match_the_records_after_the_mutation() {
    let mut registry = ready();
    assert_eq!(registry.create_domain(ALICE, 3, "alpha".to_string()), Ok(0));
    assert_eq!(registry.update_domain(0, 7), Ok(()));
    assert_eq!(registry.update_domain(0, 8), Ok(()));
    let record = registry.get(&derive_key(0)).unwrap().clone();
    match registry.events().get(2) {
        Some(Event::DomainUpdated { id, dom_type }) => {
            assert_eq!(*id, 0);
            assert_eq!(*dom_type, record.domain.dom_type);
        }
        other => panic!("unexpected event {:?}", other),
    }
    match registry.events().get(0) {
        Some(Event::DomainCreated { id, owner, name, dom_type }) => {
            assert_eq!(*id, 0);
            assert_eq!(*owner, record.domain.owner);
            assert_eq!(*name, record.domain.name);
            assert_eq!(*dom_type, 3);
        }
        other => panic!("unexpected event {:?}", other),
    }
}

#[test]
fn failures_emit_nothing() {
    let mut registry = Registry::new();
    assert!(registry.create_domain(ALICE, 3, "alpha".to_string()).is_err());
    assert!(registry.update_domain(0, 1).is_err());
    assert_eq!(registry.initialize(), Ok(()));
    assert!(registry.initialize().is_err());
    assert!(registry.update_domain(0, 1).is_err());
    assert_eq!(registry.events().len(), 0);
}

#[test]
fn interleaved_creations_get_distinct_ids() {
    // Two parties take turns in uneven bursts; each creation is one step.
    let mut registry = ready();
    let turns = [ALICE, BOB, BOB, ALICE, ALICE, ALICE, BOB, ALICE, BOB, BOB];
    let mut ids = Vec::new();
    for (n, who) in turns.iter().enumerate() {
        let id = registry.create_domain(*who, n as u8, format!("name-{}", n)).unwrap();
        ids.push(id);
    }
    for i in 0..ids.len() {
        for j in 0..ids.len() {
            if i != j {
                assert_ne!(ids[i], ids[j]);
                assert_ne!(derive_key(ids[i]), derive_key(ids[j]));
            }
        }
    }
    assert_eq!(ids, (0..10u64).collect::<Vec<u64>>());
    for (n, who) in turns.iter().enumerate() {
        let record = registry.get(&derive_key(ids[n])).unwrap();
        assert_eq!(record.domain.owner, *who);
        assert_eq!(record.domain.dom_type, n as u8);
        assert_eq!(record.domain.name, format!("name-{}", n));
    }
}

#[test]
fn lookup_with_a_key_of_another_length_finds_nothing() {
    let mut registry = ready();
    assert_eq!(registry.create_domain(ALICE, 3, "alpha".to_string()), Ok(0));
    assert!(registry.get(&[]).is_none());
    assert!(registry.get(&[0u8; 7]).is_none());
    assert!(registry.get(&[0u8; 9]).is_none());
    assert!(registry.get(&[0u8; 8]).is_some());
}

#[test]
fn storage_fits_the_name_exactly() {
    let mut registry = ready();
    assert_eq!(registry.create_domain(ALICE, 0, String::new()), Ok(0));
    assert_eq!(registry.create_domain(ALICE, 0, "a".to_string()), Ok(1));
    assert_eq!(registry.create_domain(ALICE, 0, "\u{e9}".to_string()), Ok(2));
    assert_eq!(registry.create_domain(ALICE, 0, "\u{1F600}".to_string()), Ok(3));
    assert_eq!(registry.get(&derive_key(0)).unwrap().space, 45);
    assert_eq!(registry.get(&derive_key(1)).unwrap().space, 46);
    assert_eq!(registry.get(&derive_key(2)).unwrap().space, 47);
    assert_eq!(registry.get(&derive_key(3)).unwrap().space, 49);
}

#[test]
fn clone_is_a_snapshot() {
    let mut registry = ready();
    assert_eq!(registry.create_domain(ALICE, 3, "alpha".to_string()), Ok(0));
    let snapshot = registry.clone();
    assert_eq!(snapshot, registry);
    assert_eq!(registry.update_domain(0, 7), Ok(()));
    assert_ne!(snapshot, registry);
    assert_eq!(snapshot.get(&derive_key(0)).unwrap().domain.dom_type, 3);
    assert_eq!(snapshot.events().len(), 1);
}
