//! The identity substitution engine: swaps the relay's proxy account into
//! the one slot the engine reads as owner/authority, and touches nothing
//! else. The engine's ABI is positional and order-sensitive, so every other
//! slot must come through bit-identical.

use vstd::prelude::*;
use crate::account::AccountRef;
use crate::slot_map::{entry_wf, SlotMapEntry};

verus! {

/// The rewritten list as a value: the identity slot's entry replaced by a
/// copy of the proxy source slot's entry, everything else untouched.
pub open spec fn substituted(accounts: Seq<AccountRef>, e: SlotMapEntry) -> Seq<AccountRef> {
    accounts.update(e.identity_slot as int, accounts[e.proxy_source_slot as int])
}

/// Rewrite an account list per its slot map entry: the identity slot's
/// entry becomes a copy of the proxy source slot's entry, every other slot
/// (identity, signer flag, writable flag) is unchanged, and the order and
/// length are kept. The end user's own account is not removed: it may still
/// be needed elsewhere in the list, for example as the fee payer.
pub fn substitute(accounts: &Vec<AccountRef>, e: &SlotMapEntry) -> (r: Vec<AccountRef>)
    requires
        accounts@.len() >= e.required_accounts,
        entry_wf(*e),
    ensures
        r@ == substituted(accounts@, *e),
        r@.len() == accounts@.len(),
        r@[e.identity_slot as int] == accounts@[e.proxy_source_slot as int],
        forall|i: int|
            0 <= i < r@.len() && i != e.identity_slot ==> r@[i] == accounts@[i],
{
    let n = accounts.len();
    let mut r: Vec<AccountRef> = Vec::new();
    let mut i: usize = 0;
    while i < n
        invariant
            i <= n,
            n == accounts@.len(),
            n >= e.required_accounts,
            entry_wf(*e),
            r@.len() == i,
            forall|j: int|
                0 <= j < i && j != e.identity_slot ==> r@[j] == accounts@[j],
            i > e.identity_slot ==> r@[e.identity_slot as int] == accounts@[
                e.proxy_source_slot as int
            ],
        decreases n - i,
    {
        if i == e.identity_slot {
            r.push(accounts[e.proxy_source_slot]);
        } else {
            r.push(accounts[i]);
        }
        i += 1;
    }
    proof {
        assert(r@ =~= substituted(accounts@, *e));
    }
    r
}

} // verus!
