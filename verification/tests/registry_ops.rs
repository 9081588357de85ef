//! Directory operations: the grand authority record and per-creator
//! permission entries, all gated on the grand authority's signature.

use octo_program::address::Address;
use octo_program::errors::ErrorCode;
use octo_program::registry::{
    add_pool_creator, initialize_program, update_pool_creator, update_program_grand_authority,
    PoolCreatorData, ProjectData,
};

fn addr(n: u8) -> Address {
    Address::new(n as u128, n as u128 + 1)
}

#[test]
fn initialize_program_records_the_grand_authority() {
    let project = initialize_program(addr(1));
    assert_eq!(project, ProjectData { grand_authority: addr(1) });
}

#[test]
fn grand_authority_can_be_handed_over() {
    let mut project = initialize_program(addr(1));
    let holder = addr(1);
    assert_eq!(update_program_grand_authority(&mut project, &holder, addr(2)), Ok(()));
    assert_eq!(project.grand_authority, addr(2));
}

#[test]
fn grand_authority_handover_rejects_a_stranger() {
    let mut project = initialize_program(addr(1));
    let stranger = addr(50);
    assert_eq!(
        update_program_grand_authority(&mut project, &stranger, addr(2)),
        Err(ErrorCode::SignerNotAuthorized)
    );
    assert_eq!(project.grand_authority, addr(1));
}

#[test]
fn creators_are_added_by_the_grand_authority() {
    let project = initialize_program(addr(1));
    let holder = addr(1);
    let entry = add_pool_creator(&project, &holder, addr(7), true);
    assert_eq!(entry, Ok(PoolCreatorData { creator: addr(7), can_create: true }));
    let stranger = addr(50);
    assert_eq!(
        add_pool_creator(&project, &stranger, addr(7), true),
        Err(ErrorCode::SignerNotAuthorized)
    );
}

#[test]
fn creator_permission_is_updated_by_the_grand_authority() {
    let project = initialize_program(addr(1));
    let holder = addr(1);
    let mut entry = add_pool_creator(&project, &holder, addr(7), true).expect("authorized");
    assert_eq!(update_pool_creator(&project, &mut entry, &holder, false), Ok(()));
    assert!(!entry.can_create);
    assert_eq!(entry.creator, addr(7));
    let stranger = addr(50);
    assert_eq!(
        update_pool_creator(&project, &mut entry, &stranger, true),
        Err(ErrorCode::SignerNotAuthorized)
    );
    assert!(!entry.can_create);
}
