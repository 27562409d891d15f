//! The two relay-native entry points that bypass decoding and
//! substitution: creating a proxy resource for an end user on a market,
//! and destroying it to reclaim its deposit. Each derives the credentials
//! and lays out the engine's own create / close sub-call directly.

use vstd::prelude::*;
use crate::account::AccountRef;
use crate::addr::{engine_address, engine_id, rent_sysvar_address, rent_sysvar_id, Address};
use crate::derive::{
    credential_seeds, credential_wf, derive_with_bump, pda_exact, pda_search, CredentialKind,
    DerivedCredential,
};
use crate::error::ErrorCode;

verus! {

/// The engine's wire encoding of its create-resource operation: the
/// version byte, then the tag as four little-endian bytes, no operands.
pub open spec fn create_sub_call_data() -> Seq<u8> {
    seq![0u8, 15, 0, 0, 0]
}

/// The engine's wire encoding of its close-resource operation.
pub open spec fn destroy_sub_call_data() -> Seq<u8> {
    seq![0u8, 14, 0, 0, 0]
}

/// The engine's account layout for creating an owner-held resource: the
/// resource, its owner as signer, the market, the rent sysvar, and the
/// market's resource-creation authority as signer. Here the resource is
/// the relay's proxy, which is its own owner, and the creation authority
/// is the relay's initializer credential.
pub open spec fn create_sub_call_accounts_ok(
    accs: Seq<AccountRef>,
    proxy: Address,
    init: Address,
    market: Address,
) -> bool {
    &&& accs.len() == 5
    &&& accs[0] == (AccountRef { identity: proxy, is_signer: false, is_writable: true })
    &&& accs[1] == (AccountRef { identity: proxy, is_signer: true, is_writable: false })
    &&& accs[2] == (AccountRef { identity: market, is_signer: false, is_writable: false })
    &&& accs[3].identity@ == rent_sysvar_id()
    &&& !accs[3].is_signer
    &&& !accs[3].is_writable
    &&& accs[4] == (AccountRef { identity: init, is_signer: true, is_writable: false })
}

/// The engine's account layout for closing an owner-held resource: the
/// resource, its owner as signer, the destination for the reclaimed
/// deposit, and the market.
pub open spec fn destroy_sub_call_accounts_ok(
    accs: Seq<AccountRef>,
    proxy: Address,
    destination: Address,
    market: Address,
) -> bool {
    &&& accs.len() == 4
    &&& accs[0] == (AccountRef { identity: proxy, is_signer: false, is_writable: true })
    &&& accs[1] == (AccountRef { identity: proxy, is_signer: true, is_writable: false })
    &&& accs[2] == (AccountRef { identity: destination, is_signer: false, is_writable: true })
    &&& accs[3] == (AccountRef { identity: market, is_signer: false, is_writable: false })
}

/// A fully laid out relay-native sub-call: target, accounts, payload, and
/// the credentials that sign it.
#[derive(Clone, Debug)]
pub struct ProxyPlan {
    pub accounts: Vec<AccountRef>,
    pub data: Vec<u8>,
    pub engine: Address,
    pub proxy: DerivedCredential,
    pub init: Option<DerivedCredential>,
}

/// What creating a proxy resource owes for each input.
pub open spec fn create_post(
    r: Result<Option<ProxyPlan>, ErrorCode>,
    relay: Seq<u8>,
    market: Address,
    user: AccountRef,
    bump: u8,
    init_bump: u8,
) -> bool {
    if !user.is_signer {
        r == Err::<Option<ProxyPlan>, ErrorCode>(ErrorCode::UnauthorizedUser)
    } else {
        match r {
            Ok(Some(p)) => match p.init {
                Some(c) => {
                    &&& credential_wf(
                        p.proxy,
                        CredentialKind::ResourceProxy,
                        relay,
                        market@,
                        user.identity@,
                    )
                    &&& p.proxy.bump == bump
                    &&& credential_wf(c, CredentialKind::Initializer, relay, market@, Seq::empty())
                    &&& c.bump == init_bump
                    &&& p.engine@ == engine_id()
                    &&& p.data@ == create_sub_call_data()
                    &&& create_sub_call_accounts_ok(p.accounts@, p.proxy.address, c.address, market)
                },
                None => false,
            },
            Ok(None) => pda_exact(
                credential_seeds(CredentialKind::ResourceProxy, market@, user.identity@).push(
                    seq![bump],
                ),
                relay,
            ) is None || pda_exact(
                credential_seeds(CredentialKind::Initializer, market@, Seq::empty()).push(
                    seq![init_bump],
                ),
                relay,
            ) is None,
            Err(_) => false,
        }
    }
}

/// Create a proxy resource for one end user on one market: derive the
/// per-user proxy credential and the market-wide initializer credential
/// from the caller-supplied bumps, and lay out the engine's create
/// sub-call with the proxy as owner, to be signed by both credentials.
/// The end user must have signed the top-level call. `Ok(None)` means a
/// supplied bump derives no valid address for these seeds.
pub fn create_proxy_resource(
    relay: &Address,
    market: &Address,
    user: &AccountRef,
    bump: u8,
    init_bump: u8,
) -> (r: Result<Option<ProxyPlan>, ErrorCode>)
    ensures
        create_post(r, relay@, *market, *user, bump, init_bump),
{
    if !user.is_signer {
        return Err(ErrorCode::UnauthorizedUser);
    }
    let proxy = match derive_with_bump(
        CredentialKind::ResourceProxy,
        relay,
        market,
        Some(&user.identity),
        bump,
    ) {
        None => {
            return Ok(None);
        },
        Some(c) => c,
    };
    let init = match derive_with_bump(CredentialKind::Initializer, relay, market, None, init_bump) {
        None => {
            return Ok(None);
        },
        Some(c) => c,
    };
    let mut accounts: Vec<AccountRef> = Vec::new();
    accounts.push(AccountRef::new(proxy.address, false, true));
    accounts.push(AccountRef::new(proxy.address, true, false));
    accounts.push(AccountRef::new(*market, false, false));
    accounts.push(AccountRef::new(rent_sysvar_address(), false, false));
    accounts.push(AccountRef::new(init.address, true, false));
    let mut data: Vec<u8> = Vec::new();
    data.push(0);
    data.push(15);
    data.push(0);
    data.push(0);
    data.push(0);
    proof {
        assert(data@ =~= create_sub_call_data());
    }
    Ok(Some(ProxyPlan { accounts, data, engine: engine_address(), proxy, init: Some(init) }))
}

/// What destroying a proxy resource owes for each input.
pub open spec fn destroy_post(
    r: Result<Option<ProxyPlan>, ErrorCode>,
    relay: Seq<u8>,
    market: Address,
    user: AccountRef,
    destination: Address,
) -> bool {
    if !user.is_signer {
        r == Err::<Option<ProxyPlan>, ErrorCode>(ErrorCode::UnauthorizedUser)
    } else {
        match r {
            Ok(Some(p)) => {
                &&& credential_wf(
                    p.proxy,
                    CredentialKind::ResourceProxy,
                    relay,
                    market@,
                    user.identity@,
                )
                &&& pda_search(
                    credential_seeds(CredentialKind::ResourceProxy, market@, user.identity@),
                    relay,
                ) == Some((p.proxy.address@, p.proxy.bump))
                &&& p.init is None
                &&& p.engine@ == engine_id()
                &&& p.data@ == destroy_sub_call_data()
                &&& destroy_sub_call_accounts_ok(
                    p.accounts@,
                    p.proxy.address,
                    destination,
                    market,
                )
            },
            Ok(None) => pda_search(
                credential_seeds(CredentialKind::ResourceProxy, market@, user.identity@),
                relay,
            ) is None,
            Err(_) => false,
        }
    }
}

/// Destroy one end user's proxy resource on one market: re-derive the
/// proxy credential, and lay out the engine's close sub-call so the
/// reclaimed deposit goes to the caller-specified destination. The end
/// user must have signed the top-level call.
pub fn destroy_proxy_resource(
    relay: &Address,
    market: &Address,
    user: &AccountRef,
    destination: &Address,
) -> (r: Result<Option<ProxyPlan>, ErrorCode>)
    ensures
        destroy_post(r, relay@, *market, *user, *destination),
{
    if !user.is_signer {
        return Err(ErrorCode::UnauthorizedUser);
    }
    let proxy = match crate::derive::derive(
        CredentialKind::ResourceProxy,
        relay,
        market,
        Some(&user.identity),
    ) {
        None => {
            return Ok(None);
        },
        Some(c) => c,
    };
    let mut accounts: Vec<AccountRef> = Vec::new();
    accounts.push(AccountRef::new(proxy.address, false, true));
    accounts.push(AccountRef::new(proxy.address, true, false));
    accounts.push(AccountRef::new(*destination, false, true));
    accounts.push(AccountRef::new(*market, false, false));
    let mut data: Vec<u8> = Vec::new();
    data.push(0);
    data.push(14);
    data.push(0);
    data.push(0);
    data.push(0);
    proof {
        assert(data@ =~= destroy_sub_call_data());
    }
    Ok(Some(ProxyPlan { accounts, data, engine: engine_address(), proxy, init: None }))
}

} // verus!
