//! The instruction decoder: an allow-list over the engine's wire format.
//! Only the six operations whose account schemas the relay understands are
//! ever forwarded; everything else is refused outright.

use vstd::prelude::*;
use crate::error::ErrorCode;

verus! {

/// The engine operations the relay is willing to relay. Deliberately a
/// closed allow-list: an operation the relay does not understand must never
/// be forwarded, since its owner slot would be unaccounted for.
#[derive(Clone, Copy, Debug, PartialEq, Eq, Structural)]
pub enum InstructionVariant {
    InitOpenOrders,
    CloseOpenOrders,
    NewOrderV3,
    CancelOrderV2,
    CancelOrderByClientIdV2,
    SettleFunds,
}

pub const TAG_SETTLE_FUNDS: u32 = 5;

pub const TAG_NEW_ORDER_V3: u32 = 10;

pub const TAG_CANCEL_ORDER_V2: u32 = 11;

pub const TAG_CANCEL_ORDER_BY_CLIENT_ID_V2: u32 = 12;

pub const TAG_CLOSE_OPEN_ORDERS: u32 = 14;

pub const TAG_INIT_OPEN_ORDERS: u32 = 15;

/// The wire tag the engine assigns to each relayable operation.
pub open spec fn spec_tag_of(v: InstructionVariant) -> u32 {
    match v {
        InstructionVariant::SettleFunds => TAG_SETTLE_FUNDS,
        InstructionVariant::NewOrderV3 => TAG_NEW_ORDER_V3,
        InstructionVariant::CancelOrderV2 => TAG_CANCEL_ORDER_V2,
        InstructionVariant::CancelOrderByClientIdV2 => TAG_CANCEL_ORDER_BY_CLIENT_ID_V2,
        InstructionVariant::CloseOpenOrders => TAG_CLOSE_OPEN_ORDERS,
        InstructionVariant::InitOpenOrders => TAG_INIT_OPEN_ORDERS,
    }
}

pub fn tag_of(v: InstructionVariant) -> (r: u32)
    ensures
        r == spec_tag_of(v),
{
    match v {
        InstructionVariant::SettleFunds => TAG_SETTLE_FUNDS,
        InstructionVariant::NewOrderV3 => TAG_NEW_ORDER_V3,
        InstructionVariant::CancelOrderV2 => TAG_CANCEL_ORDER_V2,
        InstructionVariant::CancelOrderByClientIdV2 => TAG_CANCEL_ORDER_BY_CLIENT_ID_V2,
        InstructionVariant::CloseOpenOrders => TAG_CLOSE_OPEN_ORDERS,
        InstructionVariant::InitOpenOrders => TAG_INIT_OPEN_ORDERS,
    }
}

/// The variant behind a wire tag, if the tag is on the allow-list.
pub open spec fn spec_variant_of_tag(t: u32) -> Option<InstructionVariant> {
    if t == TAG_SETTLE_FUNDS {
        Some(InstructionVariant::SettleFunds)
    } else if t == TAG_NEW_ORDER_V3 {
        Some(InstructionVariant::NewOrderV3)
    } else if t == TAG_CANCEL_ORDER_V2 {
        Some(InstructionVariant::CancelOrderV2)
    } else if t == TAG_CANCEL_ORDER_BY_CLIENT_ID_V2 {
        Some(InstructionVariant::CancelOrderByClientIdV2)
    } else if t == TAG_CLOSE_OPEN_ORDERS {
        Some(InstructionVariant::CloseOpenOrders)
    } else if t == TAG_INIT_OPEN_ORDERS {
        Some(InstructionVariant::InitOpenOrders)
    } else {
        None
    }
}

/// What the engine's own decoder makes of a payload, restricted to the
/// allow-list: the wire tag when the bytes decode to a relayable operation
/// with a well-formed operand payload, and nothing otherwise.
pub uninterp spec fn relayable_tag(data: Seq<u8>) -> Option<u32>;

/// Relies on serum_dex::instruction::MarketInstruction::unpack, the
/// engine's own wire-format decoder: it reads the version byte, the
/// little-endian tag and the variant's operand layout, and returns the
/// decoded variant only when all three are well formed. The result depends
/// on the bytes alone. This wrapper keeps the tag of the six relayable
/// variants and drops everything else.
#[verifier::external_body]
fn unpack_relayable_tag(data: &[u8]) -> (r: Option<u32>)
    ensures
        r == relayable_tag(data@),
        r matches Some(t) ==> spec_variant_of_tag(t) is Some,
{
    match serum_dex::instruction::MarketInstruction::unpack(data) {
        Some(serum_dex::instruction::MarketInstruction::SettleFunds) => Some(5),
        Some(serum_dex::instruction::MarketInstruction::NewOrderV3(_)) => Some(10),
        Some(serum_dex::instruction::MarketInstruction::CancelOrderV2(_)) => Some(11),
        Some(serum_dex::instruction::MarketInstruction::CancelOrderByClientIdV2(_)) => Some(12),
        Some(serum_dex::instruction::MarketInstruction::CloseOpenOrders) => Some(14),
        Some(serum_dex::instruction::MarketInstruction::InitOpenOrders) => Some(15),
        _ => None,
    }
}

/// Decode a payload against the allow-list. Total: every payload either
/// names exactly one relayable variant or is refused.
pub fn decode(data: &[u8]) -> (r: Result<InstructionVariant, ErrorCode>)
    ensures
        r matches Ok(v) ==> relayable_tag(data@) == Some(spec_tag_of(v)),
        r matches Err(e) ==> e == ErrorCode::UnrecognizedInstruction && relayable_tag(data@) is None,
{
    match unpack_relayable_tag(data) {
        None => Err(ErrorCode::UnrecognizedInstruction),
        Some(t) => {
            if t == TAG_SETTLE_FUNDS {
                Ok(InstructionVariant::SettleFunds)
            } else if t == TAG_NEW_ORDER_V3 {
                Ok(InstructionVariant::NewOrderV3)
            } else if t == TAG_CANCEL_ORDER_V2 {
                Ok(InstructionVariant::CancelOrderV2)
            } else if t == TAG_CANCEL_ORDER_BY_CLIENT_ID_V2 {
                Ok(InstructionVariant::CancelOrderByClientIdV2)
            } else if t == TAG_CLOSE_OPEN_ORDERS {
                Ok(InstructionVariant::CloseOpenOrders)
            } else {
                assert(t == TAG_INIT_OPEN_ORDERS);
                Ok(InstructionVariant::InitOpenOrders)
            }
        },
    }
}

/// Tags and variants are in exact one-to-one correspondence: each variant's
/// tag decodes back to it, and an accepted tag names exactly one variant.
pub proof fn lemma_tag_bijection()
    ensures
        forall|v: InstructionVariant| spec_variant_of_tag(spec_tag_of(v)) == Some(v),
        forall|t: u32| #[trigger] spec_variant_of_tag(t) matches Some(v) ==> spec_tag_of(v) == t,
{
}

} // verus!
