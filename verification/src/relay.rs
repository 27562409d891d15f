//! The relay pipeline: decode, look the variant up, check authorization,
//! substitute the proxy identity, derive the signing credentials, and hand
//! back everything the forwarder needs for the sub-call. One incoming call
//! produces at most one sub-call plan; any failure aborts the whole call
//! with no effect.

use vstd::prelude::*;
use vstd::slice::slice_to_vec;
use crate::account::AccountRef;
use crate::addr::{engine_address, engine_id, eq_address, fee_beneficiary_id, Address};
use crate::authorize::{authorize, policy_ok, user_signed};
use crate::derive::{
    credential_seeds, credential_wf, pda_search, CredentialKind, DerivedCredential,
};
use crate::error::ErrorCode;
use crate::instruction::{decode, lemma_tag_bijection, relayable_tag, spec_variant_of_tag,
    InstructionVariant};
use crate::slot_map::{lemma_table_wf, lookup, spec_entry_of, SlotMapEntry};
use crate::substitute::{substitute, substituted};

verus! {

/// The variant an incoming payload names, if its tag is on the allow-list
/// and its operand payload is well formed.
pub open spec fn recognized(data: Seq<u8>) -> Option<InstructionVariant> {
    match relayable_tag(data) {
        Some(t) => spec_variant_of_tag(t),
        None => None,
    }
}

/// Everything the forwarder needs to issue the rewritten call: the
/// rewritten account list, the original payload bytes unchanged, the
/// engine's fixed identity as target, and both derived credentials. Both
/// credentials are attached even when the variant strictly needs only one,
/// so an operation that creates a proxy resource mid-flow is always
/// authorized.
#[derive(Clone, Debug)]
pub struct RelayPlan {
    pub variant: InstructionVariant,
    pub entry: SlotMapEntry,
    pub accounts: Vec<AccountRef>,
    pub data: Vec<u8>,
    pub engine: Address,
    pub market: Address,
    pub user: Address,
    pub proxy: DerivedCredential,
    pub init: DerivedCredential,
}

/// Both credential derivations settle on a bump for this call's market and
/// user under the relay's identity.
pub open spec fn derivations_found(
    relay: Seq<u8>,
    accounts: Seq<AccountRef>,
    v: InstructionVariant,
) -> bool {
    let e = spec_entry_of(v);
    let m = accounts[e.market_slot as int].identity;
    let u = accounts[e.identity_slot as int].identity;
    &&& pda_search(credential_seeds(CredentialKind::ResourceProxy, m@, u@), relay) is Some
    &&& pda_search(credential_seeds(CredentialKind::Initializer, m@, Seq::empty()), relay)
        is Some
}

/// A plan is exactly the forwarding of this call: right variant, the
/// account list rewritten at the identity slot alone, the payload carried
/// through byte for byte, the engine as target, and both credentials
/// genuinely derived for this market and user under the relay's identity.
pub open spec fn plan_matches(
    p: RelayPlan,
    relay: Seq<u8>,
    accounts: Seq<AccountRef>,
    data: Seq<u8>,
    v: InstructionVariant,
) -> bool {
    let e = spec_entry_of(v);
    let m = accounts[e.market_slot as int].identity;
    let u = accounts[e.identity_slot as int].identity;
    &&& p.variant == v
    &&& p.entry == e
    &&& p.accounts@ == substituted(accounts, e)
    &&& p.data@ == data
    &&& p.engine@ == engine_id()
    &&& p.market == m
    &&& p.user == u
    &&& credential_wf(p.proxy, CredentialKind::ResourceProxy, relay, m@, u@)
    &&& pda_search(credential_seeds(CredentialKind::ResourceProxy, m@, u@), relay) == Some(
        (p.proxy.address@, p.proxy.bump),
    )
    &&& credential_wf(p.init, CredentialKind::Initializer, relay, m@, Seq::empty())
    &&& pda_search(credential_seeds(CredentialKind::Initializer, m@, Seq::empty()), relay)
        == Some((p.init.address@, p.init.bump))
}

/// The whole decision, case by case: which single outcome the relay owes
/// for each incoming call.
pub open spec fn plan_relay_post(
    r: Result<Option<RelayPlan>, ErrorCode>,
    relay: Seq<u8>,
    caller: Seq<u8>,
    accounts: Seq<AccountRef>,
    data: Seq<u8>,
) -> bool {
    if caller != engine_id() {
        r == Err::<Option<RelayPlan>, ErrorCode>(ErrorCode::InvalidCallerIdentity)
    } else {
        match recognized(data) {
            None => r == Err::<Option<RelayPlan>, ErrorCode>(ErrorCode::UnrecognizedInstruction),
            Some(v) => {
                let e = spec_entry_of(v);
                if accounts.len() < e.required_accounts {
                    r == Err::<Option<RelayPlan>, ErrorCode>(ErrorCode::UnrecognizedInstruction)
                } else if !user_signed(accounts, e) {
                    r == Err::<Option<RelayPlan>, ErrorCode>(ErrorCode::UnauthorizedUser)
                } else if !policy_ok(accounts, e) {
                    r == Err::<Option<RelayPlan>, ErrorCode>(ErrorCode::InvalidFixedAccount)
                } else {
                    match r {
                        Ok(Some(p)) => plan_matches(p, relay, accounts, data, v)
                            && derivations_found(relay, accounts, v),
                        Ok(None) => !derivations_found(relay, accounts, v),
                        Err(_) => false,
                    }
                }
            },
        }
    }
}

/// Decide one incoming call, start to finish.
///
/// The caller identity must be the engine facade; the payload must decode
/// to an allow-listed variant whose account schema fits the list; the end
/// user named by the identity slot must have signed; every pinned policy
/// slot must match. Only then is the rewritten sub-call plan produced.
/// `Ok(None)` is the statistically improbable case that no bump derives a
/// valid credential for this market and user; the enclosing runtime could
/// not sign such a sub-call either.
pub fn plan_relay(relay: &Address, caller: &Address, accounts: &Vec<AccountRef>, data: &[u8]) -> (r:
    Result<Option<RelayPlan>, ErrorCode>)
    ensures
        plan_relay_post(r, relay@, caller@, accounts@, data@),
{
    let engine = engine_address();
    if !eq_address(caller, &engine) {
        return Err(ErrorCode::InvalidCallerIdentity);
    }
    let variant = match decode(data) {
        Err(e) => {
            return Err(e);
        },
        Ok(v) => v,
    };
    proof {
        lemma_tag_bijection();
        lemma_table_wf();
        assert(recognized(data@) == Some(variant));
    }
    let entry = lookup(variant);
    if accounts.len() < entry.required_accounts {
        return Err(ErrorCode::UnrecognizedInstruction);
    }
    let (market, user) = match authorize(accounts, &entry) {
        Err(e) => {
            return Err(e);
        },
        Ok(p) => p,
    };
    let rewritten = substitute(accounts, &entry);
    let proxy = match crate::derive::derive(CredentialKind::ResourceProxy, relay, &market, Some(&user)) {
        None => {
            return Ok(None);
        },
        Some(c) => c,
    };
    let init = match crate::derive::derive(CredentialKind::Initializer, relay, &market, None) {
        None => {
            return Ok(None);
        },
        Some(c) => c,
    };
    Ok(
        Some(
            RelayPlan {
                variant,
                entry,
                accounts: rewritten,
                data: slice_to_vec(data),
                engine,
                market,
                user,
                proxy,
                init,
            },
        ),
    )
}

/// Substitution without verified consent is forbidden: whenever a plan
/// exists at all, the caller was the engine facade, the payload named the
/// plan's variant, the schema fitted, the end user signed, every policy
/// slot matched, and the plan is exactly that call's forwarding.
pub proof fn lemma_forwarding_implies_consent(
    r: Result<Option<RelayPlan>, ErrorCode>,
    relay: Seq<u8>,
    caller: Seq<u8>,
    accounts: Seq<AccountRef>,
    data: Seq<u8>,
    p: RelayPlan,
)
    requires
        plan_relay_post(r, relay, caller, accounts, data),
        r == Ok::<Option<RelayPlan>, ErrorCode>(Some(p)),
    ensures
        caller == engine_id(),
        recognized(data) == Some(p.variant),
        accounts.len() >= spec_entry_of(p.variant).required_accounts,
        user_signed(accounts, spec_entry_of(p.variant)),
        policy_ok(accounts, spec_entry_of(p.variant)),
        plan_matches(p, relay, accounts, data, p.variant),
{
}

/// The authorization gate: for every recognized variant, a call whose
/// identity-slot account did not sign fails with `UnauthorizedUser` — it
/// never reaches the forwarder, whatever the rest of the call looks like.
pub proof fn lemma_authorization_gate(
    r: Result<Option<RelayPlan>, ErrorCode>,
    relay: Seq<u8>,
    caller: Seq<u8>,
    accounts: Seq<AccountRef>,
    data: Seq<u8>,
    v: InstructionVariant,
)
    requires
        plan_relay_post(r, relay, caller, accounts, data),
        caller == engine_id(),
        recognized(data) == Some(v),
        accounts.len() >= spec_entry_of(v).required_accounts,
        !user_signed(accounts, spec_entry_of(v)),
    ensures
        r == Err::<Option<RelayPlan>, ErrorCode>(ErrorCode::UnauthorizedUser),
{
}

/// Fixed-slot enforcement for the settlement variant: a beneficiary slot
/// that is not the hardcoded constant fails with `InvalidFixedAccount`
/// before any sub-call plan exists; with the right constant and a signing
/// user the call proceeds.
pub proof fn lemma_fixed_slot_enforcement(
    r: Result<Option<RelayPlan>, ErrorCode>,
    relay: Seq<u8>,
    caller: Seq<u8>,
    accounts: Seq<AccountRef>,
    data: Seq<u8>,
)
    requires
        plan_relay_post(r, relay, caller, accounts, data),
        caller == engine_id(),
        recognized(data) == Some(InstructionVariant::SettleFunds),
        accounts.len() >= spec_entry_of(InstructionVariant::SettleFunds).required_accounts,
        user_signed(accounts, spec_entry_of(InstructionVariant::SettleFunds)),
    ensures
        accounts[10].identity@ != fee_beneficiary_id() ==> r == Err::<
            Option<RelayPlan>,
            ErrorCode,
        >(ErrorCode::InvalidFixedAccount),
        accounts[10].identity@ == fee_beneficiary_id() ==> r matches Ok(_),
{
    assert(spec_entry_of(InstructionVariant::SettleFunds).policy_slot == Some(10usize));
}

} // verus!
