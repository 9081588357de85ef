//! The directory of program-wide authority and creator permissions.
//!
//! One record holds the grand authority of the whole program; one record
//! per creator says whether that creator may open pools.  The core only
//! consults these records: every edit is gated on the caller presenting
//! the grand authority's address.

use vstd::prelude::*;

use crate::address::Address;
use crate::errors::ErrorCode;

verus! {

/// The program-wide record: who holds the grand authority.
#[derive(Clone, Copy, Debug, PartialEq, Eq, Structural)]
pub struct ProjectData {
    /// The address permitted to edit this directory.
    pub grand_authority: Address,
}

/// One creator's entry in the directory.
#[derive(Clone, Copy, Debug, PartialEq, Eq, Structural)]
pub struct PoolCreatorData {
    /// The creator this entry is about.
    pub creator: Address,
    /// Whether this creator may open pools.
    pub can_create: bool,
}

/// Creates the program-wide record with its initial grand authority.
pub fn initialize_program(grand_authority: Address) -> (r: ProjectData)
    ensures
        r == (ProjectData { grand_authority }),
{
    ProjectData { grand_authority }
}

/// Hands the grand authority to a new address.  Only the current grand
/// authority may do so; any other signer is rejected and the record is
/// left unchanged.
pub fn update_program_grand_authority(
    project: &mut ProjectData,
    signer: &Address,
    new_grand_authority: Address,
) -> (r: Result<(), ErrorCode>)
    ensures
        *signer == old(project).grand_authority ==> r == Ok::<(), ErrorCode>(())
            && *final(project) == (ProjectData { grand_authority: new_grand_authority }),
        *signer != old(project).grand_authority ==> r == Err::<(), ErrorCode>(
            ErrorCode::SignerNotAuthorized,
        ) && *final(project) == *old(project),
{
    if !(*signer == project.grand_authority) {
        return Err(ErrorCode::SignerNotAuthorized);
    }
    project.grand_authority = new_grand_authority;
    Ok(())
}

/// Adds a creator entry to the directory.  Only the grand authority may do
/// so; any other signer is rejected.
pub fn add_pool_creator(
    project: &ProjectData,
    signer: &Address,
    creator: Address,
    can_create: bool,
) -> (r: Result<PoolCreatorData, ErrorCode>)
    ensures
        *signer == project.grand_authority ==> r == Ok::<PoolCreatorData, ErrorCode>(
            PoolCreatorData { creator, can_create },
        ),
        *signer != project.grand_authority ==> r == Err::<PoolCreatorData, ErrorCode>(
            ErrorCode::SignerNotAuthorized,
        ),
{
    if !(*signer == project.grand_authority) {
        return Err(ErrorCode::SignerNotAuthorized);
    }
    Ok(PoolCreatorData { creator, can_create })
}

/// Flips whether an existing creator entry may open pools.  Only the grand
/// authority may do so; any other signer is rejected and the entry is left
/// unchanged.
pub fn update_pool_creator(
    project: &ProjectData,
    entry: &mut PoolCreatorData,
    signer: &Address,
    can_create: bool,
) -> (r: Result<(), ErrorCode>)
    ensures
        *signer == project.grand_authority ==> r == Ok::<(), ErrorCode>(())
            && *final(entry) == (PoolCreatorData { can_create, ..*old(entry) }),
        *signer != project.grand_authority ==> r == Err::<(), ErrorCode>(
            ErrorCode::SignerNotAuthorized,
        ) && *final(entry) == *old(entry),
{
    if !(*signer == project.grand_authority) {
        return Err(ErrorCode::SignerNotAuthorized);
    }
    entry.can_create = can_create;
    Ok(())
}

} // verus!
