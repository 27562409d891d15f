//! The relay's error taxonomy and its stable wire numbering. Every failure
//! is terminal for the call: the relay applies no partial effect.

use vstd::prelude::*;

verus! {

/// Why a call was refused. `EngineRejected` is the opaque passthrough of a
/// failure the engine itself reported for the forwarded sub-call; the
/// other variants are decided by the relay before any sub-call is issued.
#[derive(Clone, Copy, Debug, PartialEq, Eq, Structural)]
pub enum ErrorCode {
    /// The top-level caller identity is not the engine facade.
    InvalidCallerIdentity,
    /// The payload's tag is outside the allow-list, or the account list is
    /// shorter than the recognized variant's schema.
    UnrecognizedInstruction,
    /// A fixed policy slot did not match its hardcoded identity.
    InvalidFixedAccount,
    /// The identity-slot account did not sign the call.
    UnauthorizedUser,
    /// The engine refused the forwarded sub-call.
    EngineRejected,
}

/// Offset under which the relay's own codes sit, clear of the range the
/// engine and the runtime use for theirs.
pub const CODE_OFFSET: u32 = 6000;

/// The stable numeric code of each variant.
pub open spec fn spec_error_code(e: ErrorCode) -> u32 {
    match e {
        ErrorCode::InvalidCallerIdentity => 6000,
        ErrorCode::UnrecognizedInstruction => 6001,
        ErrorCode::InvalidFixedAccount => 6002,
        ErrorCode::UnauthorizedUser => 6003,
        ErrorCode::EngineRejected => 6004,
    }
}

pub fn error_code(e: ErrorCode) -> (r: u32)
    ensures
        r == spec_error_code(e),
{
    match e {
        ErrorCode::InvalidCallerIdentity => 6000,
        ErrorCode::UnrecognizedInstruction => 6001,
        ErrorCode::InvalidFixedAccount => 6002,
        ErrorCode::UnauthorizedUser => 6003,
        ErrorCode::EngineRejected => 6004,
    }
}

pub fn error_from_code(c: u32) -> (r: Option<ErrorCode>)
    ensures
        r matches Some(e) ==> spec_error_code(e) == c,
        r is None ==> forall|e: ErrorCode| spec_error_code(e) != c,
{
    if c == 6000 {
        Some(ErrorCode::InvalidCallerIdentity)
    } else if c == 6001 {
        Some(ErrorCode::UnrecognizedInstruction)
    } else if c == 6002 {
        Some(ErrorCode::InvalidFixedAccount)
    } else if c == 6003 {
        Some(ErrorCode::UnauthorizedUser)
    } else if c == 6004 {
        Some(ErrorCode::EngineRejected)
    } else {
        None
    }
}

/// What each variant says for itself.
pub open spec fn spec_message(e: ErrorCode) -> Seq<char> {
    match e {
        ErrorCode::InvalidCallerIdentity => "Program ID does not match the Serum DEX"@,
        ErrorCode::UnrecognizedInstruction => "Invalid instruction given"@,
        ErrorCode::InvalidFixedAccount => "Invalid referral address given"@,
        ErrorCode::UnauthorizedUser => "The user didn't sign"@,
        ErrorCode::EngineRejected => "The engine rejected the call"@,
    }
}

pub fn message(e: ErrorCode) -> (r: &'static str)
    ensures
        r@ == spec_message(e),
{
    match e {
        ErrorCode::InvalidCallerIdentity => "Program ID does not match the Serum DEX",
        ErrorCode::UnrecognizedInstruction => "Invalid instruction given",
        ErrorCode::InvalidFixedAccount => "Invalid referral address given",
        ErrorCode::UnauthorizedUser => "The user didn't sign",
        ErrorCode::EngineRejected => "The engine rejected the call",
    }
}

/// The numbering is injective: codes round-trip, so a code reported by the
/// relay names exactly one cause.
pub proof fn lemma_error_code_round_trip(e: ErrorCode, f: ErrorCode)
    ensures
        spec_error_code(e) == spec_error_code(f) ==> e == f,
{
}

} // verus!
