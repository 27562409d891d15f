//! The authorization checker: the sole gate between an incoming call and
//! the forwarder. Nothing downstream re-checks consent, so this pass alone
//! decides whether the end user authorized the operation and whether every
//! pinned policy slot carries its required identity.

use vstd::prelude::*;
use crate::account::AccountRef;
use crate::addr::{fee_beneficiary_address, fee_beneficiary_id, eq_address, Address};
use crate::error::ErrorCode;
use crate::slot_map::{entry_wf, SlotMapEntry};
use crate::substitute::substituted;

verus! {

/// The end user named by the entry's identity slot signed the call.
pub open spec fn user_signed(accounts: Seq<AccountRef>, e: SlotMapEntry) -> bool {
    accounts[e.identity_slot as int].is_signer
}

/// Every pinned policy slot of the entry carries the fee beneficiary.
pub open spec fn policy_ok(accounts: Seq<AccountRef>, e: SlotMapEntry) -> bool {
    match e.policy_slot {
        Some(p) => accounts[p as int].identity@ == fee_beneficiary_id(),
        None => true,
    }
}

/// Validate one decoded call against its slot map entry and extract the
/// (market, user) pair every later stage works from. Purely a validation
/// pass: no rewrite happens here, and substitution without the consent
/// proved here is forbidden.
///
/// A missing signature is reported over a bad policy slot, so an entirely
/// unauthorized call never learns how its policy slots fared.
pub fn authorize(accounts: &Vec<AccountRef>, e: &SlotMapEntry) -> (r: Result<
    (Address, Address),
    ErrorCode,
>)
    requires
        accounts@.len() >= e.required_accounts,
        entry_wf(*e),
    ensures
        !user_signed(accounts@, *e) ==> r == Err::<(Address, Address), ErrorCode>(
            ErrorCode::UnauthorizedUser,
        ),
        user_signed(accounts@, *e) && !policy_ok(accounts@, *e) ==> r == Err::<
            (Address, Address),
            ErrorCode,
        >(ErrorCode::InvalidFixedAccount),
        user_signed(accounts@, *e) && policy_ok(accounts@, *e) ==> r == Ok::<
            (Address, Address),
            ErrorCode,
        >(
            (
                accounts@[e.market_slot as int].identity,
                accounts@[e.identity_slot as int].identity,
            ),
        ),
{
    let user = accounts[e.identity_slot];
    if !user.is_signer {
        return Err(ErrorCode::UnauthorizedUser);
    }
    match e.policy_slot {
        Some(p) => {
            let expected = fee_beneficiary_address();
            if !eq_address(&accounts[p].identity, &expected) {
                return Err(ErrorCode::InvalidFixedAccount);
            }
        },
        None => {},
    }
    let market = accounts[e.market_slot];
    Ok((market.identity, user.identity))
}

/// For a sound entry the policy verdict is the same before and after
/// substitution: the rewrite touches only the identity slot, and no
/// entry's policy slot is its identity slot. Evaluating fixed-slot
/// constraints on the original list is therefore equivalent to evaluating
/// them on the forwarded one.
pub proof fn lemma_policy_check_order_insensitive(accounts: Seq<AccountRef>, e: SlotMapEntry)
    requires
        entry_wf(e),
        accounts.len() >= e.required_accounts,
    ensures
        policy_ok(substituted(accounts, e), e) == policy_ok(accounts, e),
{
    match e.policy_slot {
        Some(p) => {
            assert(substituted(accounts, e)[p as int] == accounts[p as int]);
        },
        None => {},
    }
}

} // verus!
