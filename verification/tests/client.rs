use registry_client::contracts::{
    Address, Contracts, Diagnostic, DomainError, InsertIdentityStep, MemberAddedEvent, Options,
};
use registry_client::field::FieldElement;

/// A 32-byte big-endian word holding a small value.
fn word(v: u64) -> [u8; 32] {
    let mut bytes = [0u8; 32];
    bytes[24..32].copy_from_slice(&v.to_be_bytes());
    bytes
}

fn addr(fill: u8) -> Address {
    Address { bytes: [fill; 20] }
}

fn connect(mock: bool, signer: Address, code: Vec<u8>, manager: Address) -> (Contracts, Vec<Diagnostic>) {
    let options = Options { semaphore_address: addr(0xA0), mock };
    Contracts::new(&options, signer, &code, manager)
}

fn plain_handle() -> Contracts {
    connect(false, addr(1), vec![0x60, 0x80], addr(1)).0
}

fn mock_handle() -> Contracts {
    connect(true, addr(1), vec![0x60, 0x80], addr(1)).0
}

#[test]
fn field_round_trip_small_value() {
    let v = word(42);
    let element = FieldElement::from_be_bytes(&v);
    assert_eq!(element.to_be_bytes(), v);
}

#[test]
fn field_round_trip_largest_canonical_value() {
    let largest = semaphore_rs::MODULUS - semaphore_rs::Field::from(1u64);
    let v: [u8; 32] = largest.to_be_bytes();
    let element = FieldElement::from_be_bytes(&v);
    assert_eq!(element.to_be_bytes(), v);
}

#[test]
fn field_reduces_value_at_order() {
    let v: [u8; 32] = semaphore_rs::MODULUS.to_be_bytes();
    let element = FieldElement::from_be_bytes(&v);
    assert_eq!(element.to_be_bytes(), word(0));
}

#[test]
fn field_reduces_value_beyond_order() {
    let beyond = semaphore_rs::MODULUS + semaphore_rs::Field::from(5u64);
    let v: [u8; 32] = beyond.to_be_bytes();
    let element = FieldElement::from_be_bytes(&v);
    assert_eq!(element.to_be_bytes(), word(5));
}

#[test]
fn fetch_events_empty_batch() {
    let handle = plain_handle();
    let assignments = handle.fetch_events(&Vec::new(), 5);
    assert!(assignments.is_empty());
}

#[test]
fn fetch_events_two_events() {
    // Two membership-change events read in chain order, first local index 5.
    let c1 = word(101);
    let r1 = word(201);
    let c2 = word(102);
    let r2 = word(202);
    let events = vec![
        MemberAddedEvent { identity_commitment: c1, root: r1 },
        MemberAddedEvent { identity_commitment: c2, root: r2 },
    ];
    let handle = plain_handle();
    let assignments = handle.fetch_events(&events, 5);
    assert_eq!(assignments.len(), 2);
    assert_eq!(assignments[0].0, 5);
    assert_eq!(assignments[0].1.to_be_bytes(), c1);
    assert_eq!(assignments[0].2.to_be_bytes(), r1);
    assert_eq!(assignments[1].0, 6);
    assert_eq!(assignments[1].1.to_be_bytes(), c2);
    assert_eq!(assignments[1].2.to_be_bytes(), r2);
}

#[test]
fn fetch_events_indices_count_up_from_zero() {
    let events = vec![
        MemberAddedEvent { identity_commitment: word(1), root: word(2) },
        MemberAddedEvent { identity_commitment: word(3), root: word(4) },
        MemberAddedEvent { identity_commitment: word(5), root: word(6) },
    ];
    let handle = plain_handle();
    let assignments = handle.fetch_events(&events, 0);
    assert_eq!(assignments.len(), 3);
    for (i, assignment) in assignments.iter().enumerate() {
        assert_eq!(assignment.0, i);
    }
}

#[test]
fn fetch_events_indices_at_the_top_of_the_range() {
    let events = vec![
        MemberAddedEvent { identity_commitment: word(1), root: word(2) },
        MemberAddedEvent { identity_commitment: word(3), root: word(4) },
    ];
    let handle = plain_handle();
    let assignments = handle.fetch_events(&events, usize::MAX - 2);
    assert_eq!(assignments[0].0, usize::MAX - 2);
    assert_eq!(assignments[1].0, usize::MAX - 1);
}

#[test]
fn create_group_logical_depth_one_gives_on_chain_depth_zero() {
    let handle = plain_handle();
    let call = handle.create_group(9, 1).unwrap();
    assert_eq!(call.group_id, 9);
    assert_eq!(call.depth, 0);
    assert_eq!(call.initial_value, 0);
}

#[test]
fn create_group_logical_depth_zero_is_a_domain_error() {
    let handle = plain_handle();
    let result = handle.create_group(9, 0);
    assert_eq!(result, Err(DomainError::InvalidTreeDepth { tree_depth: 0 }));
}

#[test]
fn create_group_subtracts_one_level() {
    let handle = plain_handle();
    let call = handle.create_group(2, 21).unwrap();
    assert_eq!(call.depth, 20);
}

#[test]
fn insert_identity_mock_mode_succeeds_without_chain_calls() {
    // Mock mode short-circuits before the group-existence check, so success
    // is reported even though no group was ever created.
    let handle = mock_handle();
    let commitment = FieldElement::from_be_bytes(&word(7));
    let step = handle.insert_identity(3, &commitment, 20, 0);
    assert_eq!(step, InsertIdentityStep::MockSuccess);
}

#[test]
fn insert_identity_live_mode_asks_for_the_group_depth() {
    let handle = plain_handle();
    let commitment = FieldElement::from_be_bytes(&word(7));
    let step = handle.insert_identity(3, &commitment, 20, 0);
    assert_eq!(step, InsertIdentityStep::QueryDepth { group_id: 3 });
}

#[test]
fn insert_identity_submit_rejects_missing_group() {
    let handle = plain_handle();
    let commitment = FieldElement::from_be_bytes(&word(7));
    let result = handle.insert_identity_submit(3, &commitment, 0);
    assert_eq!(result, Err(DomainError::GroupNotCreated { group_id: 3 }));
}

#[test]
fn insert_identity_submit_encodes_the_commitment() {
    let handle = plain_handle();
    let commitment = FieldElement::from_be_bytes(&word(7));
    let call = handle.insert_identity_submit(3, &commitment, 20).unwrap();
    assert_eq!(call.group_id, 3);
    assert_eq!(call.commitment, word(7));
}

#[test]
fn connect_with_code_and_matching_manager_reports_nothing() {
    let signer = addr(1);
    let (handle, diagnostics) = connect(false, signer, vec![0x60, 0x80], signer);
    assert!(diagnostics.is_empty());
    assert!(handle.is_manager(signer));
}

#[test]
fn connect_with_other_manager_still_succeeds_with_a_warning() {
    let signer = addr(1);
    let manager = addr(2);
    let (handle, diagnostics) = connect(false, signer, vec![0x60, 0x80], manager);
    assert_eq!(diagnostics, vec![Diagnostic::SignerNotManager]);
    assert!(!handle.is_manager(manager));
    // The connection is advisory-only degraded, not failed: it still works.
    assert!(handle.create_group(1, 2).is_ok());
}

#[test]
fn connect_with_no_code_reports_the_empty_bytecode() {
    let signer = addr(1);
    let (_, diagnostics) = connect(false, signer, Vec::new(), signer);
    assert_eq!(diagnostics, vec![Diagnostic::NoCodeAtAddress]);
}

#[test]
fn connect_with_no_code_and_other_manager_reports_both_in_order() {
    let (_, diagnostics) = connect(false, addr(1), Vec::new(), addr(2));
    assert_eq!(
        diagnostics,
        vec![Diagnostic::NoCodeAtAddress, Diagnostic::SignerNotManager]
    );
}
