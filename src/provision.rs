//! Provisioning of an asset's extra-accounts metadata record: the record lists
//! the accounts that every hook call must pass beyond the four the interface
//! fixes. This hook asks for none, so the list is empty.

use vstd::prelude::*;
use crate::address::Address;
use crate::dispatch::execute_tag;
use crate::error::HookError;
use crate::pda::{derived_view, find_metadata_address, metadata_address_for};
use spl_tlv_account_resolution::state::ExtraAccountMetaList;
use spl_transfer_hook_interface::instruction::ExecuteInstruction;

verus! {

/// What provisioning reads of the account at the record's address.
#[derive(Clone, Copy, Debug, PartialEq, Eq)]
pub struct MetaListAccountState {
    pub address: Address,
    pub lamports: u64,
    pub data_len: u64,
}

/// The accounts of a provisioning call.
#[derive(Clone, Copy, Debug, PartialEq, Eq)]
pub struct InitializeExtraAccountMetaList {
    pub payer: Address,
    pub extra_account_meta_list: MetaListAccountState,
    pub mint: Address,
    pub token_program: Address,
    pub associated_token_program: Address,
    pub system_program: Address,
}

/// The record to create: at `address`, signed for with `bump`, `space` bytes
/// long and holding `data`.
#[derive(Clone, Debug, PartialEq, Eq)]
pub struct MetaListCreation {
    pub address: Address,
    pub bump: u8,
    pub space: u64,
    pub data: Vec<u8>,
}

/// The size of a record that lists `count` accounts: an eight-byte type, a
/// four-byte length, a four-byte item count and thirty-five bytes per account.
pub open spec fn meta_list_size(count: nat) -> nat {
    16 + 35 * count
}

/// Whether the size of a record of `count` accounts fits in a `usize`.
pub open spec fn size_fits(count: usize) -> bool {
    meta_list_size(count as nat) <= usize::MAX
}

/// The size of a record of `count` accounts, as the size computation returns it.
pub open spec fn size_result(count: usize) -> Result<usize, HookError> {
    Ok(meta_list_size(count as nat) as usize)
}

/// The encoding of an empty list: the "execute" selector as the entry's type,
/// the entry's length 4 and the item count 0, both as little-endian `u32`.
pub open spec fn empty_meta_list_bytes() -> Seq<u8> {
    execute_tag() + seq![4u8, 0u8, 0u8, 0u8, 0u8, 0u8, 0u8, 0u8]
}

/// A fresh record of an empty list: sixteen zero bytes.
pub open spec fn is_fresh_empty_record(data: Seq<u8>) -> bool {
    data.len() == meta_list_size(0) && forall|i: int| 0 <= i < data.len() ==> data[i] == 0u8
}

/// Relies on `ExtraAccountMetaList::size_of` of spl-tlv-account-resolution:
/// twelve bytes of entry header plus the pod slice's four-byte count and
/// thirty-five bytes per account; it fails where that product overflows.
#[verifier::external_body]
fn extra_account_meta_list_size(count: usize) -> (r: Result<usize, HookError>)
    ensures
        size_fits(count) ==> r == size_result(count),
{
    match ExtraAccountMetaList::size_of(count) {
        Ok(n) => Ok(n),
        Err(e) => Err(HookError::Program(u64::from(e))),
    }
}

/// Relies on `ExtraAccountMetaList::init::<ExecuteInstruction>` of
/// spl-tlv-account-resolution with an empty list: on sixteen zero bytes it
/// allocates the "execute" entry at the start, writes its length 4 and a zero
/// item count, and succeeds.
#[verifier::external_body]
fn write_empty_meta_list(data: &mut Vec<u8>) -> (r: Result<(), HookError>)
    requires
        is_fresh_empty_record(old(data)@),
    ensures
        r is Ok,
        final(data)@ == empty_meta_list_bytes(),
{
    match ExtraAccountMetaList::init::<ExecuteInstruction>(data.as_mut_slice(), &[]) {
        Ok(()) => Ok(()),
        Err(e) => Err(HookError::Program(u64::from(e))),
    }
}

/// Whether an account already exists at the record's address.
pub open spec fn is_allocated(acc: MetaListAccountState) -> bool {
    acc.lamports > 0 || acc.data_len > 0
}

/// The outcome of provisioning, as (address, bump, space, data), given where
/// the record of the asset is derived to live.
pub open spec fn provision_outcome(
    ctx: InitializeExtraAccountMetaList,
    derived: Option<(Seq<u8>, u8)>,
) -> Result<(Seq<u8>, u8, nat, Seq<u8>), HookError> {
    match derived {
        None => Err(HookError::MetadataAddressMismatch),
        Some((a, bump)) => if a != ctx.extra_account_meta_list.address.bytes@ {
            Err(HookError::MetadataAddressMismatch)
        } else if is_allocated(ctx.extra_account_meta_list) {
            Err(HookError::AccountAlreadyInitialized)
        } else {
            Ok((a, bump, meta_list_size(0), empty_meta_list_bytes()))
        },
    }
}

/// A planned creation as (address, bump, space, data).
pub open spec fn creation_view(r: Result<MetaListCreation, HookError>) -> Result<(Seq<u8>, u8, nat, Seq<u8>), HookError> {
    match r {
        Ok(c) => Ok((c.address.bytes@, c.bump, c.space as nat, c.data@)),
        Err(e) => Err(e),
    }
}

/// The accounts of a provisioning call once the record's account has been
/// created with `lamports` and `space` bytes.
pub open spec fn after_creation(ctx: InitializeExtraAccountMetaList, lamports: u64, space: nat) -> InitializeExtraAccountMetaList {
    InitializeExtraAccountMetaList {
        extra_account_meta_list: MetaListAccountState {
            lamports,
            data_len: space as u64,
            ..ctx.extra_account_meta_list
        },
        ..ctx
    }
}

/// Provisioning once the record's derived address and bump are known: the
/// passed account must be at that address and still unallocated; the record
/// is then planned with the size of an empty list and its encoding.
pub fn plan_meta_list(ctx: &InitializeExtraAccountMetaList, derived: &Option<(Address, u8)>) -> (r: Result<MetaListCreation, HookError>)
    ensures
        creation_view(r) == provision_outcome(*ctx, derived_view(*derived)),
{
    let (address, bump) = match derived {
        Some(d) => *d,
        None => {
            return Err(HookError::MetadataAddressMismatch);
        },
    };
    if !address.same_as(&ctx.extra_account_meta_list.address) {
        return Err(HookError::MetadataAddressMismatch);
    }
    if ctx.extra_account_meta_list.lamports > 0 || ctx.extra_account_meta_list.data_len > 0 {
        return Err(HookError::AccountAlreadyInitialized);
    }
    let space = match extra_account_meta_list_size(0) {
        Ok(n) => n,
        Err(e) => {
            return Err(e);
        },
    };
    let mut data: Vec<u8> = Vec::new();
    while data.len() < space
        invariant
            space == meta_list_size(0),
            data@.len() <= space,
            forall|i: int| 0 <= i < data@.len() ==> data@[i] == 0u8,
        decreases space - data@.len(),
    {
        data.push(0u8);
    }
    match write_empty_meta_list(&mut data) {
        Ok(()) => {},
        Err(e) => {
            return Err(e);
        },
    }
    Ok(MetaListCreation { address, bump, space: space as u64, data })
}

/// Provisions the metadata record of the call's asset: derives its address and
/// plans its creation.
pub fn initialize_extra_account_meta_list(ctx: &InitializeExtraAccountMetaList, program_id: &Address) -> (r: Result<MetaListCreation, HookError>)
    ensures
        exists|d: Option<(Address, u8)>|
            derived_view(d) == metadata_address_for(ctx.mint.bytes@, program_id.bytes@)
                && creation_view(r) == provision_outcome(*ctx, derived_view(d)),
{
    let derived = find_metadata_address(&ctx.mint, program_id);
    plan_meta_list(ctx, &derived)
}

/// Provisioning cannot be repeated: once the record planned by a successful
/// provisioning exists at its address, provisioning the same asset again is
/// refused, so no asset ever gets a second record.
pub proof fn provisioning_twice_fails(
    ctx: InitializeExtraAccountMetaList,
    derived: Option<(Seq<u8>, u8)>,
    lamports: u64,
)
    requires
        provision_outcome(ctx, derived) is Ok,
    ensures
        provision_outcome(
            after_creation(ctx, lamports, provision_outcome(ctx, derived)->Ok_0.2),
            derived,
        ) == Err::<(Seq<u8>, u8, nat, Seq<u8>), HookError>(HookError::AccountAlreadyInitialized),
{
}

} // verus!
