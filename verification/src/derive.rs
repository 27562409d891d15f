//! The deterministic credential deriver. The relay holds no long-lived
//! state: its authority over a proxy resource is a program-derived address,
//! recomputed on every call from stable seed components. Two flavors exist,
//! told apart by their seed prefix: the per-user resource proxy, and the
//! relay-wide initializer that may create new proxy resources market-wide.

use vstd::prelude::*;
use vstd::slice::slice_to_vec;
use crate::addr::Address;

verus! {

/// Which credential flavor is being derived.
#[derive(Clone, Copy, Debug, PartialEq, Eq, Structural)]
pub enum CredentialKind {
    /// Stands in for one end user's ownership record on one market.
    ResourceProxy,
    /// Authorizes creating new proxy resources on a market; no user part.
    Initializer,
}

/// Seed prefix of the resource-proxy flavor.
pub open spec fn proxy_prefix() -> Seq<u8> {
    seq![111u8, 112, 101, 110, 45, 111, 114, 100, 101, 114, 115]
}

/// Seed prefix of the initializer flavor. Distinct from `proxy_prefix`
/// so the two derivations can never start from the same components.
pub open spec fn init_prefix() -> Seq<u8> {
    seq![111u8, 112, 101, 110, 45, 111, 114, 100, 101, 114, 115, 45, 105, 110, 105, 116]
}

/// The ordered seed components of a credential, bump not yet appended.
/// The user identity is part of the seeds exactly for the per-user flavor:
/// leaving it out there would let one user's credential authorize another
/// user's resource.
pub open spec fn credential_seeds(kind: CredentialKind, market: Seq<u8>, user: Seq<u8>) -> Seq<
    Seq<u8>,
> {
    match kind {
        CredentialKind::ResourceProxy => seq![proxy_prefix(), market, user],
        CredentialKind::Initializer => seq![init_prefix(), market],
    }
}

/// What the engine's address derivation returns for seed components that
/// still lack a bump: the derived address and the bump it settled on, or
/// nothing in the statistically improbable event that no bump works.
pub uninterp spec fn pda_search(seeds: Seq<Seq<u8>>, program: Seq<u8>) -> Option<(Seq<u8>, u8)>;

/// What the engine's address derivation returns for a complete seed list,
/// bump included: the derived address, or nothing when a seed breaks the
/// engine's seed limits or the result lands on the open address curve.
pub uninterp spec fn pda_exact(seeds: Seq<Seq<u8>>, program: Seq<u8>) -> Option<Seq<u8>>;

/// Relies on solana_program::pubkey::Pubkey::try_find_program_address: the
/// result is a function of the seeds and the program identity alone, and a
/// returned pair is the one create_program_address accepts once the found
/// bump is appended to the seeds.
#[verifier::external_body]
fn find_derived(seeds: &Vec<Vec<u8>>, relay: &Address) -> (r: Option<(Address, u8)>)
    ensures
        r matches Some(p) ==> pda_search(seeds.deep_view(), relay@) == Some((p.0@, p.1)),
        r matches Some(p) ==> pda_exact(seeds.deep_view().push(seq![p.1]), relay@) == Some(p.0@),
        r is None ==> pda_search(seeds.deep_view(), relay@) is None,
{
    let seed_slices: Vec<&[u8]> = seeds.iter().map(|s| s.as_slice()).collect();
    let program = solana_program::pubkey::Pubkey::from(relay.bytes);
    solana_program::pubkey::Pubkey::try_find_program_address(&seed_slices, &program)
        .map(|(pk, bump)| (Address { bytes: pk.to_bytes() }, bump))
}

/// Relies on solana_program::pubkey::Pubkey::create_program_address: the
/// result is a function of the seeds and the program identity alone; an
/// error (seed over the limits, or an on-curve result) maps to None.
#[verifier::external_body]
fn create_derived(seeds: &Vec<Vec<u8>>, relay: &Address) -> (r: Option<Address>)
    ensures
        r matches Some(a) ==> pda_exact(seeds.deep_view(), relay@) == Some(a@),
        r is None ==> pda_exact(seeds.deep_view(), relay@) is None,
{
    let seed_slices: Vec<&[u8]> = seeds.iter().map(|s| s.as_slice()).collect();
    let program = solana_program::pubkey::Pubkey::from(relay.bytes);
    solana_program::pubkey::Pubkey::create_program_address(&seed_slices, &program)
        .ok()
        .map(|pk| Address { bytes: pk.to_bytes() })
}

/// A derived, relay-only-signable credential: the address the engine will
/// see as owner, the bump that made it valid, and the seed components it
/// was derived from.
#[derive(Clone, Debug)]
pub struct DerivedCredential {
    pub address: Address,
    pub bump: u8,
    pub seed_components: Vec<Vec<u8>>,
}

/// The seed view of an optional user identity; empty when absent.
pub open spec fn opt_user_view(user: Option<&Address>) -> Seq<u8> {
    match user {
        Some(u) => u@,
        None => Seq::empty(),
    }
}

/// A credential that genuinely belongs to (kind, relay, market, user): its
/// components are that derivation's seeds, and appending its bump derives
/// exactly its address under the relay's identity.
pub open spec fn credential_wf(
    c: DerivedCredential,
    kind: CredentialKind,
    relay: Seq<u8>,
    market: Seq<u8>,
    user: Seq<u8>,
) -> bool {
    &&& c.seed_components.deep_view() == credential_seeds(kind, market, user)
    &&& pda_exact(credential_seeds(kind, market, user).push(seq![c.bump]), relay) == Some(
        c.address@,
    )
}

fn proxy_prefix_bytes() -> (r: Vec<u8>)
    ensures
        r@ == proxy_prefix(),
{
    let r: Vec<u8> = vec![111u8, 112, 101, 110, 45, 111, 114, 100, 101, 114, 115];
    proof {
        assert(r@ =~= proxy_prefix());
    }
    r
}

fn init_prefix_bytes() -> (r: Vec<u8>)
    ensures
        r@ == init_prefix(),
{
    let r: Vec<u8> = vec![
        111u8, 112, 101, 110, 45, 111, 114, 100, 101, 114, 115, 45, 105, 110, 105, 116,
    ];
    proof {
        assert(r@ =~= init_prefix());
    }
    r
}

/// Build the seed components of one credential as byte vectors.
pub fn build_seed_components(kind: CredentialKind, market: &Address, user: Option<&Address>) -> (r:
    Vec<Vec<u8>>)
    requires
        kind matches CredentialKind::ResourceProxy ==> user is Some,
    ensures
        r.deep_view() == credential_seeds(kind, market@, opt_user_view(user)),
{
    let mut r: Vec<Vec<u8>> = Vec::new();
    match kind {
        CredentialKind::ResourceProxy => {
            r.push(proxy_prefix_bytes());
            r.push(slice_to_vec(market.bytes.as_slice()));
            match user {
                Some(u) => r.push(slice_to_vec(u.bytes.as_slice())),
                None => {},
            }
        },
        CredentialKind::Initializer => {
            r.push(init_prefix_bytes());
            r.push(slice_to_vec(market.bytes.as_slice()));
        },
    }
    proof {
        assert(r.deep_view() =~~= credential_seeds(kind, market@, opt_user_view(user)));
    }
    r
}

/// Derive a credential, searching for the bump. Deterministic: the same
/// (kind, relay, market, user) always yields the same address and bump.
/// None only when no bump at all derives a valid address for these seeds,
/// in which case the enclosing runtime could not sign for them either.
pub fn derive(
    kind: CredentialKind,
    relay: &Address,
    market: &Address,
    user: Option<&Address>,
) -> (r: Option<DerivedCredential>)
    requires
        kind matches CredentialKind::ResourceProxy ==> user is Some,
    ensures
        r matches Some(c) ==> credential_wf(c, kind, relay@, market@, opt_user_view(user))
            && pda_search(credential_seeds(kind, market@, opt_user_view(user)), relay@) == Some(
            (c.address@, c.bump),
        ),
        r is None ==> pda_search(credential_seeds(kind, market@, opt_user_view(user)), relay@)
            is None,
{
    let components = build_seed_components(kind, market, user);
    match find_derived(&components, relay) {
        Some((address, bump)) => Some(
            DerivedCredential { address, bump, seed_components: components },
        ),
        None => None,
    }
}

/// Derive a credential from a caller-supplied bump, without searching.
/// None when that bump does not yield a valid address for these seeds.
pub fn derive_with_bump(
    kind: CredentialKind,
    relay: &Address,
    market: &Address,
    user: Option<&Address>,
    bump: u8,
) -> (r: Option<DerivedCredential>)
    requires
        kind matches CredentialKind::ResourceProxy ==> user is Some,
    ensures
        r matches Some(c) ==> credential_wf(c, kind, relay@, market@, opt_user_view(user))
            && c.bump == bump,
        r is None ==> pda_exact(
            credential_seeds(kind, market@, opt_user_view(user)).push(seq![bump]),
            relay@,
        ) is None,
{
    let components = build_seed_components(kind, market, user);
    let mut with_bump: Vec<Vec<u8>> = clone_seed_list(&components);
    let mut bump_seed: Vec<u8> = Vec::new();
    bump_seed.push(bump);
    with_bump.push(bump_seed);
    proof {
        assert(with_bump.deep_view() =~~= components.deep_view().push(seq![bump]));
    }
    match create_derived(&with_bump, relay) {
        Some(address) => Some(DerivedCredential { address, bump, seed_components: components }),
        None => None,
    }
}

/// Copy a seed list byte for byte.
fn clone_seed_list(seeds: &Vec<Vec<u8>>) -> (r: Vec<Vec<u8>>)
    ensures
        r.deep_view() == seeds.deep_view(),
{
    let mut r: Vec<Vec<u8>> = Vec::new();
    let mut i: usize = 0;
    while i < seeds.len()
        invariant
            i <= seeds@.len(),
            r@.len() == i,
            forall|j: int| 0 <= j < i ==> r@[j]@ == #[trigger] seeds@[j]@,
        decreases seeds@.len() - i,
    {
        r.push(slice_to_vec(seeds[i].as_slice()));
        i += 1;
    }
    proof {
        assert(r.deep_view() =~~= seeds.deep_view());
    }
    r
}

impl DerivedCredential {
    /// The full seed list this credential signs with: its components with
    /// the bump appended as the final one-byte seed.
    pub open spec fn spec_signer_seeds(&self) -> Seq<Seq<u8>> {
        self.seed_components.deep_view().push(seq![self.bump])
    }

    pub fn signer_seeds(&self) -> (r: Vec<Vec<u8>>)
        ensures
            r.deep_view() == self.spec_signer_seeds(),
    {
        let mut r = clone_seed_list(&self.seed_components);
        let mut bump_seed: Vec<u8> = Vec::new();
        bump_seed.push(self.bump);
        r.push(bump_seed);
        proof {
            assert(r.deep_view() =~~= self.spec_signer_seeds());
        }
        r
    }
}

/// Derivation is deterministic: one seed list under one relay identity
/// settles exactly one (address, bump) pair, so recomputing a credential
/// can never hand authority to a different address.
pub proof fn lemma_derivation_deterministic(
    seeds: Seq<Seq<u8>>,
    relay: Seq<u8>,
    a1: Seq<u8>,
    b1: u8,
    a2: Seq<u8>,
    b2: u8,
)
    requires
        pda_search(seeds, relay) == Some((a1, b1)),
        pda_search(seeds, relay) == Some((a2, b2)),
    ensures
        a1 == a2,
        b1 == b2,
{
}

/// The two flavors never start from the same seeds, whatever market or
/// user each is given: their component lists differ in arity, and their
/// prefixes differ. Address-level distinctness then rests on the engine's
/// derivation, which maps these seed lists through a collision-resistant
/// hash.
pub proof fn lemma_flavor_seeds_distinct(m1: Seq<u8>, u1: Seq<u8>, m2: Seq<u8>, u2: Seq<u8>)
    ensures
        credential_seeds(CredentialKind::ResourceProxy, m1, u1) != credential_seeds(
            CredentialKind::Initializer,
            m2,
            u2,
        ),
        proxy_prefix() != init_prefix(),
{
    assert(credential_seeds(CredentialKind::ResourceProxy, m1, u1).len() == 3);
    assert(credential_seeds(CredentialKind::Initializer, m2, u2).len() == 2);
    assert(proxy_prefix().len() != init_prefix().len());
}

/// Within one flavor the seed components pin every input: two distinct
/// (market, user) pairs never share a resource-proxy seed list, and two
/// distinct markets never share an initializer seed list.
pub proof fn lemma_seeds_injective(m1: Seq<u8>, u1: Seq<u8>, m2: Seq<u8>, u2: Seq<u8>)
    ensures
        credential_seeds(CredentialKind::ResourceProxy, m1, u1) == credential_seeds(
            CredentialKind::ResourceProxy,
            m2,
            u2,
        ) ==> m1 == m2 && u1 == u2,
        credential_seeds(CredentialKind::Initializer, m1, u1) == credential_seeds(
            CredentialKind::Initializer,
            m2,
            u2,
        ) ==> m1 == m2,
{
    if credential_seeds(CredentialKind::ResourceProxy, m1, u1) == credential_seeds(
        CredentialKind::ResourceProxy,
        m2,
        u2,
    ) {
        assert(credential_seeds(CredentialKind::ResourceProxy, m1, u1)[1] == m1);
        assert(credential_seeds(CredentialKind::ResourceProxy, m1, u1)[2] == u1);
        assert(credential_seeds(CredentialKind::ResourceProxy, m2, u2)[1] == m2);
        assert(credential_seeds(CredentialKind::ResourceProxy, m2, u2)[2] == u2);
    }
    if credential_seeds(CredentialKind::Initializer, m1, u1) == credential_seeds(
        CredentialKind::Initializer,
        m2,
        u2,
    ) {
        assert(credential_seeds(CredentialKind::Initializer, m1, u1)[1] == m1);
        assert(credential_seeds(CredentialKind::Initializer, m2, u2)[1] == m2);
    }
}

} // verus!
