use permissioned_markets::account::AccountRef;
use permissioned_markets::addr::{engine_address, fee_beneficiary_address, Address};
use permissioned_markets::error::ErrorCode;
use permissioned_markets::instruction::InstructionVariant;
use permissioned_markets::relay::plan_relay;
use permissioned_markets::slot_map::lookup;
use serum_dex::instruction::{
    CancelOrderInstructionV2, MarketInstruction, NewOrderInstructionV3, SelfTradeBehavior,
};
use serum_dex::matching::{OrderType, Side};
use solana_program::pubkey::Pubkey;
use std::num::NonZeroU64;

fn addr(n: u8) -> Address {
    Address::new([n; 32])
}

fn plain(n: u8) -> AccountRef {
    AccountRef::new(addr(n), false, false)
}

fn new_order_v3_data() -> Vec<u8> {
    MarketInstruction::NewOrderV3(NewOrderInstructionV3 {
        side: Side::Bid,
        limit_price: NonZeroU64::new(100).unwrap(),
        max_coin_qty: NonZeroU64::new(5).unwrap(),
        max_native_pc_qty_including_fees: NonZeroU64::new(500).unwrap(),
        self_trade_behavior: SelfTradeBehavior::DecrementTake,
        order_type: OrderType::Limit,
        client_order_id: 7,
        limit: 10,
    })
    .pack()
}

fn wire_for(v: InstructionVariant) -> Vec<u8> {
    match v {
        InstructionVariant::InitOpenOrders => MarketInstruction::InitOpenOrders.pack(),
        InstructionVariant::CloseOpenOrders => MarketInstruction::CloseOpenOrders.pack(),
        InstructionVariant::NewOrderV3 => new_order_v3_data(),
        InstructionVariant::CancelOrderV2 => MarketInstruction::CancelOrderV2(
            CancelOrderInstructionV2 { side: Side::Ask, order_id: 42 },
        )
        .pack(),
        InstructionVariant::CancelOrderByClientIdV2 => {
            MarketInstruction::CancelOrderByClientIdV2(7).pack()
        }
        InstructionVariant::SettleFunds => MarketInstruction::SettleFunds.pack(),
    }
}

/// A minimal account list matching one variant's schema, with the market in
/// its market slot, a distinct proxy-source account, the user signing in
/// the identity slot, and the fee beneficiary in any policy slot.
fn accounts_for(v: InstructionVariant, market: Address, user: Address) -> Vec<AccountRef> {
    let e = lookup(v);
    let mut accs: Vec<AccountRef> = (0..e.required_accounts)
        .map(|i| plain(100 + i as u8))
        .collect();
    accs[e.market_slot] = AccountRef::new(market, false, false);
    accs[e.proxy_source_slot] = AccountRef::new(addr(50), false, true);
    accs[e.identity_slot] = AccountRef::new(user, true, false);
    if let Some(p) = e.policy_slot {
        accs[p] = AccountRef::new(fee_beneficiary_address(), false, true);
    }
    accs
}

#[test]
fn rejects_wrong_caller_identity() {
    let accs = accounts_for(InstructionVariant::NewOrderV3, addr(1), addr(2));
    let r = plan_relay(&addr(9), &addr(8), &accs, &new_order_v3_data());
    assert_eq!(r.unwrap_err(), ErrorCode::InvalidCallerIdentity);
}

#[test]
fn rejects_unrecognized_tag_before_reading_accounts() {
    // Scenario: an allow-list miss is refused outright; even an empty
    // account list is never inspected.
    let empty: Vec<AccountRef> = Vec::new();
    let data = MarketInstruction::Prune(5).pack();
    let r = plan_relay(&addr(9), &engine_address(), &empty, &data);
    assert_eq!(r.unwrap_err(), ErrorCode::UnrecognizedInstruction);
}

#[test]
fn rejects_account_list_shorter_than_schema() {
    let mut accs = accounts_for(InstructionVariant::SettleFunds, addr(1), addr(2));
    accs.truncate(10);
    let r = plan_relay(&addr(9), &engine_address(), &accs, &MarketInstruction::SettleFunds.pack());
    assert_eq!(r.unwrap_err(), ErrorCode::UnrecognizedInstruction);
}

#[test]
fn unsigned_user_fails_for_every_variant() {
    let variants = [
        InstructionVariant::InitOpenOrders,
        InstructionVariant::CloseOpenOrders,
        InstructionVariant::NewOrderV3,
        InstructionVariant::CancelOrderV2,
        InstructionVariant::CancelOrderByClientIdV2,
        InstructionVariant::SettleFunds,
    ];
    for v in variants {
        let e = lookup(v);
        let mut accs = accounts_for(v, addr(1), addr(2));
        accs[e.identity_slot] = AccountRef::new(addr(2), false, false);
        let r = plan_relay(&addr(9), &engine_address(), &accs, &wire_for(v));
        assert_eq!(r.unwrap_err(), ErrorCode::UnauthorizedUser, "variant {:?}", v);
    }
}

#[test]
fn missing_signature_reported_before_policy_mismatch() {
    // Both defects at once: the consent check comes first, so the caller
    // learns nothing about policy slots without a signature.
    let e = lookup(InstructionVariant::SettleFunds);
    let mut accs = accounts_for(InstructionVariant::SettleFunds, addr(1), addr(2));
    accs[e.identity_slot] = AccountRef::new(addr(2), false, false);
    accs[e.policy_slot.unwrap()] = AccountRef::new(addr(77), false, true);
    let r = plan_relay(&addr(9), &engine_address(), &accs, &MarketInstruction::SettleFunds.pack());
    assert_eq!(r.unwrap_err(), ErrorCode::UnauthorizedUser);
}

#[test]
fn settlement_with_wrong_beneficiary_is_rejected() {
    // Scenario: a settle call whose beneficiary slot is not the hardcoded
    // constant fails before any sub-call plan exists.
    let e = lookup(InstructionVariant::SettleFunds);
    let mut accs = accounts_for(InstructionVariant::SettleFunds, addr(1), addr(2));
    accs[e.policy_slot.unwrap()] = AccountRef::new(addr(77), false, true);
    let r = plan_relay(&addr(9), &engine_address(), &accs, &MarketInstruction::SettleFunds.pack());
    assert_eq!(r.unwrap_err(), ErrorCode::InvalidFixedAccount);
}

#[test]
fn settlement_with_correct_beneficiary_proceeds() {
    let accs = accounts_for(InstructionVariant::SettleFunds, addr(1), addr(2));
    let r = plan_relay(&addr(9), &engine_address(), &accs, &MarketInstruction::SettleFunds.pack());
    let plan = r.unwrap().unwrap();
    assert_eq!(plan.variant, InstructionVariant::SettleFunds);
}

#[test]
fn relayed_order_swaps_only_the_identity_slot() {
    // Scenario: a trade order is relayed; the engine must observe the
    // proxy, not the user, as order owner, and nothing else may move.
    let relay = addr(9);
    let market = addr(1);
    let user = addr(2);
    let accs = accounts_for(InstructionVariant::NewOrderV3, market, user);
    let data = new_order_v3_data();
    let plan = plan_relay(&relay, &engine_address(), &accs, &data).unwrap().unwrap();

    let e = lookup(InstructionVariant::NewOrderV3);
    assert_eq!(plan.accounts.len(), accs.len());
    assert_eq!(plan.accounts[e.identity_slot], accs[e.proxy_source_slot]);
    for i in 0..accs.len() {
        if i != e.identity_slot {
            assert_eq!(plan.accounts[i], accs[i], "slot {} must be untouched", i);
        }
    }
    assert_eq!(plan.data, data);
    assert_eq!(plan.engine, engine_address());
    assert_eq!(plan.market, market);
    assert_eq!(plan.user, user);

    // The credentials are the engine's own derivation for these seeds.
    let relay_pk = Pubkey::from(relay.bytes);
    let (proxy_pk, proxy_bump) = Pubkey::find_program_address(
        &[b"open-orders", &market.bytes, &user.bytes],
        &relay_pk,
    );
    assert_eq!(plan.proxy.address.bytes, proxy_pk.to_bytes());
    assert_eq!(plan.proxy.bump, proxy_bump);
    let (init_pk, init_bump) = Pubkey::find_program_address(
        &[b"open-orders-init", &market.bytes],
        &relay_pk,
    );
    assert_eq!(plan.init.address.bytes, init_pk.to_bytes());
    assert_eq!(plan.init.bump, init_bump);

    // The signer seed lists are ready for the runtime: components then bump.
    let seeds = plan.proxy.signer_seeds();
    assert_eq!(seeds.len(), 4);
    assert_eq!(seeds[0], b"open-orders".to_vec());
    assert_eq!(seeds[1], market.bytes.to_vec());
    assert_eq!(seeds[2], user.bytes.to_vec());
    assert_eq!(seeds[3], vec![proxy_bump]);
    let init_seeds = plan.init.signer_seeds();
    assert_eq!(init_seeds.len(), 3);
    assert_eq!(init_seeds[0], b"open-orders-init".to_vec());
    assert_eq!(init_seeds[1], market.bytes.to_vec());
    assert_eq!(init_seeds[2], vec![init_bump]);
}

#[test]
fn every_variant_relays_with_a_signing_user() {
    let variants = [
        InstructionVariant::InitOpenOrders,
        InstructionVariant::CloseOpenOrders,
        InstructionVariant::NewOrderV3,
        InstructionVariant::CancelOrderV2,
        InstructionVariant::CancelOrderByClientIdV2,
        InstructionVariant::SettleFunds,
    ];
    for v in variants {
        let accs = accounts_for(v, addr(1), addr(2));
        let plan = plan_relay(&addr(9), &engine_address(), &accs, &wire_for(v))
            .unwrap()
            .unwrap();
        assert_eq!(plan.variant, v);
        let e = lookup(v);
        assert_eq!(plan.accounts[e.identity_slot], accs[e.proxy_source_slot]);
    }
}
