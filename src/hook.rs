//! The royalty transfer handler: checks the accounts of a call and plans the
//! two transfers that split the amount between the royalty recipient and the
//! destination.

use vstd::prelude::*;
use crate::address::Address;
use crate::error::HookError;
use crate::pda::{derived_view, find_metadata_address, metadata_address_for};
use crate::royalty::{checked_split_royalty, net_of, royalty_of, split_fits};

verus! {

/// What the handler reads of a holding account.
#[derive(Clone, Copy, Debug, PartialEq, Eq)]
pub struct TokenAccountState {
    pub address: Address,
    /// The asset the account holds.
    pub mint: Address,
    /// The authority that may debit the account.
    pub owner: Address,
    pub amount: u64,
}

/// The accounts of a hook call, in the order the token program passes them.
#[derive(Clone, Copy, Debug, PartialEq, Eq)]
pub struct TransferHook {
    pub source_token: TokenAccountState,
    pub mint: Address,
    pub destination_token: TokenAccountState,
    pub royalty_token_account: TokenAccountState,
    pub owner: Address,
    pub extra_account_meta_list: Address,
    pub token_program: Address,
}

/// A transfer of `amount` from `from` to `to`, authorized by `authority`.
#[derive(Clone, Copy, Debug, PartialEq, Eq)]
pub struct TokenTransfer {
    pub from: Address,
    pub to: Address,
    pub authority: Address,
    pub amount: u64,
}

/// Whether the three holding accounts all hold the call's asset.
pub open spec fn mints_agree(ctx: TransferHook) -> bool {
    &&& ctx.source_token.mint.bytes@ == ctx.mint.bytes@
    &&& ctx.destination_token.mint.bytes@ == ctx.mint.bytes@
    &&& ctx.royalty_token_account.mint.bytes@ == ctx.mint.bytes@
}

/// Whether the declared owner is the authority of the source account.
pub open spec fn owner_agrees(ctx: TransferHook) -> bool {
    ctx.source_token.owner.bytes@ == ctx.owner.bytes@
}

/// Whether the metadata record passed is at the address `expected`.
pub open spec fn meta_list_agrees(ctx: TransferHook, expected: Option<Address>) -> bool {
    expected matches Some(a) && a.bytes@ == ctx.extra_account_meta_list.bytes@
}

/// The outcome of the account checks, in the order they are made.
pub open spec fn accounts_check(ctx: TransferHook, expected: Option<Address>) -> Result<(), HookError> {
    if !mints_agree(ctx) {
        Err(HookError::MintMismatch)
    } else if !owner_agrees(ctx) {
        Err(HookError::OwnerMismatch)
    } else if !meta_list_agrees(ctx, expected) {
        Err(HookError::MetadataAddressMismatch)
    } else {
        Ok(())
    }
}

/// The two transfers of a call for `amount`: the royalty first, then the rest.
pub open spec fn royalty_plan(ctx: TransferHook, amount: u64) -> Seq<TokenTransfer> {
    seq![
        TokenTransfer {
            from: ctx.source_token.address,
            to: ctx.royalty_token_account.address,
            authority: ctx.owner,
            amount: royalty_of(amount as int) as u64,
        },
        TokenTransfer {
            from: ctx.source_token.address,
            to: ctx.destination_token.address,
            authority: ctx.owner,
            amount: net_of(amount as int) as u64,
        },
    ]
}

/// The outcome of a call whose metadata record is expected at `expected`.
pub open spec fn hook_outcome(ctx: TransferHook, expected: Option<Address>, amount: u64) -> Result<Seq<TokenTransfer>, HookError> {
    if accounts_check(ctx, expected) is Err {
        Err(accounts_check(ctx, expected)->Err_0)
    } else if !split_fits(amount) {
        Err(HookError::ArithmeticOverflow)
    } else {
        Ok(royalty_plan(ctx, amount))
    }
}

/// A planned outcome with its transfers as a sequence.
pub open spec fn outcome_view(r: Result<Vec<TokenTransfer>, HookError>) -> Result<Seq<TokenTransfer>, HookError> {
    match r {
        Ok(v) => Ok(v@),
        Err(e) => Err(e),
    }
}

/// The address part of a derivation.
pub open spec fn expected_address(d: Option<(Address, u8)>) -> Option<Address> {
    match d {
        Some((a, _)) => Some(a),
        None => None,
    }
}

/// Checks the accounts of a call: every holding account holds the call's
/// asset, the owner is the source's authority, and the metadata record is at
/// `expected`.
pub fn validate_transfer_hook_accounts(ctx: &TransferHook, expected: &Option<Address>) -> (r: Result<(), HookError>)
    ensures
        r == accounts_check(*ctx, *expected),
{
    if !ctx.source_token.mint.same_as(&ctx.mint) || !ctx.destination_token.mint.same_as(&ctx.mint)
        || !ctx.royalty_token_account.mint.same_as(&ctx.mint) {
        return Err(HookError::MintMismatch);
    }
    if !ctx.source_token.owner.same_as(&ctx.owner) {
        return Err(HookError::OwnerMismatch);
    }
    match expected {
        Some(a) => {
            if a.same_as(&ctx.extra_account_meta_list) {
                Ok(())
            } else {
                Err(HookError::MetadataAddressMismatch)
            }
        },
        None => Err(HookError::MetadataAddressMismatch),
    }
}

/// The two transfers that split `amount`: the royalty to the royalty
/// recipient, then the rest to the destination, both from the source and
/// authorized by the owner.
pub fn royalty_transfers(ctx: &TransferHook, amount: u64) -> (r: Result<Vec<TokenTransfer>, HookError>)
    ensures
        outcome_view(r) == (if split_fits(amount) {
            Ok(royalty_plan(*ctx, amount))
        } else {
            Err(HookError::ArithmeticOverflow)
        }),
{
    match checked_split_royalty(amount) {
        Some((royalty_amount, transfer_amount)) => {
            let mut v: Vec<TokenTransfer> = Vec::new();
            v.push(
                TokenTransfer {
                    from: ctx.source_token.address,
                    to: ctx.royalty_token_account.address,
                    authority: ctx.owner,
                    amount: royalty_amount,
                },
            );
            v.push(
                TokenTransfer {
                    from: ctx.source_token.address,
                    to: ctx.destination_token.address,
                    authority: ctx.owner,
                    amount: transfer_amount,
                },
            );
            assert(v@ =~= royalty_plan(*ctx, amount));
            Ok(v)
        },
        None => Err(HookError::ArithmeticOverflow),
    }
}

/// The handler's decision once the metadata record's address is known: the
/// accounts are checked first, and only then are transfers planned.
pub fn plan_transfer_hook(ctx: &TransferHook, expected: &Option<Address>, amount: u64) -> (r: Result<Vec<TokenTransfer>, HookError>)
    ensures
        outcome_view(r) == hook_outcome(*ctx, *expected, amount),
        !mints_agree(*ctx) ==> r matches Err(HookError::MintMismatch),
{
    match validate_transfer_hook_accounts(ctx, expected) {
        Ok(()) => royalty_transfers(ctx, amount),
        Err(e) => Err(e),
    }
}

/// The royalty handler: derives the metadata record's address from the asset,
/// checks the accounts, and returns the transfers to perform, in order.
pub fn transfer_hook(ctx: &TransferHook, program_id: &Address, amount: u64) -> (r: Result<Vec<TokenTransfer>, HookError>)
    ensures
        exists|d: Option<(Address, u8)>|
            derived_view(d) == metadata_address_for(ctx.mint.bytes@, program_id.bytes@)
                && outcome_view(r) == hook_outcome(*ctx, expected_address(d), amount),
{
    let derived = find_metadata_address(&ctx.mint, program_id);
    let expected = match derived {
        Some((a, _)) => Some(a),
        None => None,
    };
    plan_transfer_hook(ctx, &expected, amount)
}

/// A call that succeeds moves exactly `amount` out of the source in two
/// transfers authorized by the owner: first the royalty, truncated toward zero,
/// to the royalty recipient, then the rest to the destination.
pub proof fn hook_moves_exact_amount(ctx: TransferHook, expected: Option<Address>, amount: u64)
    requires
        hook_outcome(ctx, expected, amount) is Ok,
    ensures
        ({
            let p = hook_outcome(ctx, expected, amount)->Ok_0;
            &&& p.len() == 2
            &&& p[0].from == ctx.source_token.address && p[1].from == ctx.source_token.address
            &&& p[0].authority == ctx.owner && p[1].authority == ctx.owner
            &&& p[0].to == ctx.royalty_token_account.address
            &&& p[1].to == ctx.destination_token.address
            &&& p[0].amount == royalty_of(amount as int)
            &&& p[0].amount + p[1].amount == amount
        }),
{
    crate::royalty::split_conserves_amount(amount);
}

} // verus!
