//! The slot map table: for each relayable variant, which positional account
//! slot means what under the engine's ABI. This table is the single source
//! of truth for the whole relay; every index in it mirrors the engine's
//! published account layout for that operation.

use vstd::prelude::*;
use crate::instruction::InstructionVariant;

verus! {

/// Where the meaningful slots of one variant sit in its account list.
///
/// `policy_slot`, when present, is the one position that must carry the
/// hardcoded fee beneficiary identity. Fixed infrastructure slots whose
/// identity the engine checks itself impose no constraint here and are not
/// listed.
#[derive(Clone, Copy, Debug, PartialEq, Eq, Structural)]
pub struct SlotMapEntry {
    /// The fewest accounts the variant's schema admits; no slot below is
    /// read before this length is checked.
    pub required_accounts: usize,
    /// The slot holding the market (resource) identity.
    pub market_slot: usize,
    /// The slot the engine reads as owner/authority: the real end user,
    /// who must have signed, and whose entry gets swapped out.
    pub identity_slot: usize,
    /// The slot whose entry is copied over the identity slot: the proxy
    /// resource account standing in for the user.
    pub proxy_source_slot: usize,
    /// The slot that must equal the fee beneficiary, if the variant has one.
    pub policy_slot: Option<usize>,
}

/// The table itself, one entry per relayable variant.
pub open spec fn spec_entry_of(v: InstructionVariant) -> SlotMapEntry {
    match v {
        InstructionVariant::InitOpenOrders => SlotMapEntry {
            required_accounts: 4,
            market_slot: 2,
            identity_slot: 1,
            proxy_source_slot: 0,
            policy_slot: None,
        },
        InstructionVariant::CloseOpenOrders => SlotMapEntry {
            required_accounts: 4,
            market_slot: 3,
            identity_slot: 1,
            proxy_source_slot: 0,
            policy_slot: None,
        },
        InstructionVariant::NewOrderV3 => SlotMapEntry {
            required_accounts: 13,
            market_slot: 0,
            identity_slot: 7,
            proxy_source_slot: 1,
            policy_slot: None,
        },
        InstructionVariant::CancelOrderV2 => SlotMapEntry {
            required_accounts: 6,
            market_slot: 0,
            identity_slot: 4,
            proxy_source_slot: 3,
            policy_slot: None,
        },
        InstructionVariant::CancelOrderByClientIdV2 => SlotMapEntry {
            required_accounts: 6,
            market_slot: 0,
            identity_slot: 4,
            proxy_source_slot: 3,
            policy_slot: None,
        },
        InstructionVariant::SettleFunds => SlotMapEntry {
            required_accounts: 11,
            market_slot: 0,
            identity_slot: 2,
            proxy_source_slot: 1,
            policy_slot: Some(10),
        },
    }
}

/// Look one variant up. Total over the allow-list: every variant the
/// decoder accepts has exactly this one entry.
pub fn lookup(v: InstructionVariant) -> (e: SlotMapEntry)
    ensures
        e == spec_entry_of(v),
{
    match v {
        InstructionVariant::InitOpenOrders => SlotMapEntry {
            required_accounts: 4,
            market_slot: 2,
            identity_slot: 1,
            proxy_source_slot: 0,
            policy_slot: None,
        },
        InstructionVariant::CloseOpenOrders => SlotMapEntry {
            required_accounts: 4,
            market_slot: 3,
            identity_slot: 1,
            proxy_source_slot: 0,
            policy_slot: None,
        },
        InstructionVariant::NewOrderV3 => SlotMapEntry {
            required_accounts: 13,
            market_slot: 0,
            identity_slot: 7,
            proxy_source_slot: 1,
            policy_slot: None,
        },
        InstructionVariant::CancelOrderV2 => SlotMapEntry {
            required_accounts: 6,
            market_slot: 0,
            identity_slot: 4,
            proxy_source_slot: 3,
            policy_slot: None,
        },
        InstructionVariant::CancelOrderByClientIdV2 => SlotMapEntry {
            required_accounts: 6,
            market_slot: 0,
            identity_slot: 4,
            proxy_source_slot: 3,
            policy_slot: None,
        },
        InstructionVariant::SettleFunds => SlotMapEntry {
            required_accounts: 11,
            market_slot: 0,
            identity_slot: 2,
            proxy_source_slot: 1,
            policy_slot: Some(10),
        },
    }
}

/// A sound entry: every named slot lies inside the checked length, and the
/// slot that gets overwritten is distinct from the slot that is copied in
/// and from the policy slot, so a rewrite can never disturb either.
pub open spec fn entry_wf(e: SlotMapEntry) -> bool {
    &&& e.market_slot < e.required_accounts
    &&& e.identity_slot < e.required_accounts
    &&& e.proxy_source_slot < e.required_accounts
    &&& e.proxy_source_slot != e.identity_slot
    &&& (e.policy_slot matches Some(p) ==> p < e.required_accounts && p != e.identity_slot)
}

/// Every entry of the table is sound. With the decoder's tag bijection this
/// is the allow-list totality guarantee: each accepted tag has exactly one
/// entry, and that entry's indices all lie within its checked schema.
pub proof fn lemma_table_wf()
    ensures
        forall|v: InstructionVariant| #[trigger] entry_wf(spec_entry_of(v)),
{
    assert forall|v: InstructionVariant| #[trigger] entry_wf(spec_entry_of(v)) by {
        match v {
            InstructionVariant::InitOpenOrders => {},
            InstructionVariant::CloseOpenOrders => {},
            InstructionVariant::NewOrderV3 => {},
            InstructionVariant::CancelOrderV2 => {},
            InstructionVariant::CancelOrderByClientIdV2 => {},
            InstructionVariant::SettleFunds => {},
        }
    }
}

} // verus!
