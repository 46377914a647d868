use zk_census::errors::CensusError;
use zk_census::registry::NullifierRegistry;
use zk_census::state::NullifierEntry;

#[test]
fn new_registry_holds_nothing() {
    let registry = NullifierRegistry::new();
    assert_eq!(registry.len(), 0);
    assert!(!registry.contains(&"c1".to_string(), &[1u8; 32]));
    assert_eq!(registry.get(&"c1".to_string(), &[1u8; 32]), None);
}

#[test]
fn claim_records_the_entry_and_returns_the_ordinal() {
    let mut registry = NullifierRegistry::new();
    let census = "c1".to_string();
    assert_eq!(registry.claim(&census, [1u8; 32], 1_700_000_000, 0), Ok(0));
    assert_eq!(registry.len(), 1);
    assert!(registry.contains(&census, &[1u8; 32]));
    assert_eq!(
        registry.get(&census, &[1u8; 32]),
        Some(NullifierEntry {
            nullifier: [1u8; 32],
            census_id: "c1".to_string(),
            timestamp: 1_700_000_000,
            index: 0,
        })
    );
}

#[test]
fn second_claim_of_a_nullifier_is_a_duplicate() {
    let mut registry = NullifierRegistry::new();
    let census = "c1".to_string();
    assert_eq!(registry.claim(&census, [1u8; 32], 10, 0), Ok(0));
    assert_eq!(
        registry.claim(&census, [1u8; 32], 20, 1),
        Err(CensusError::DuplicateNullifier)
    );
    assert_eq!(
        registry.claim(&census, [1u8; 32], 30, 2),
        Err(CensusError::DuplicateNullifier)
    );
    assert_eq!(registry.len(), 1);
    let kept = registry.get(&census, &[1u8; 32]).unwrap();
    assert_eq!(kept.timestamp, 10);
    assert_eq!(kept.index, 0);
}

#[test]
fn other_nullifiers_and_other_censuses_do_not_contend() {
    let mut registry = NullifierRegistry::new();
    let first = "c1".to_string();
    let second = "c2".to_string();
    assert_eq!(registry.claim(&first, [1u8; 32], 10, 0), Ok(0));
    assert_eq!(registry.claim(&first, [2u8; 32], 11, 1), Ok(1));
    assert_eq!(registry.claim(&second, [1u8; 32], 12, 0), Ok(0));
    assert_eq!(registry.len(), 3);
    assert!(registry.contains(&second, &[1u8; 32]));
    assert!(!registry.contains(&second, &[2u8; 32]));
    assert_eq!(registry.get(&second, &[1u8; 32]).unwrap().timestamp, 12);
    assert_eq!(registry.get(&first, &[2u8; 32]).unwrap().index, 1);
}

#[test]
fn a_copy_of_the_registry_holds_the_same_records() {
    let mut registry = NullifierRegistry::new();
    let census = "c1".to_string();
    assert_eq!(registry.claim(&census, [9u8; 32], 5, 7), Ok(7));
    let mut copy = registry.clone();
    assert_eq!(copy.len(), 1);
    assert_eq!(copy.get(&census, &[9u8; 32]), registry.get(&census, &[9u8; 32]));
    assert_eq!(copy.claim(&census, [9u8; 32], 6, 8), Err(CensusError::DuplicateNullifier));
    assert_eq!(copy.claim(&census, [8u8; 32], 6, 8), Ok(8));
    assert_eq!(registry.len(), 1);
}
