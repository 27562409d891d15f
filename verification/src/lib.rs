//! An authorization relay in front of a fixed, permissionless matching
//! engine. The relay decodes each incoming engine instruction, checks that
//! the real end user consented, rewrites the account list so the engine sees
//! a relay-derived proxy identity in the owner position, and hands back a
//! fully assembled sub-call plan together with the deterministic signing
//! seeds that prove the relay's authority over the proxy.

pub mod account;
pub mod addr;
pub mod error;
pub mod authorize;
pub mod derive;
pub mod instruction;
pub mod proxy_ops;
pub mod relay;
pub mod slot_map;
pub mod substitute;

use vstd::prelude::*;

verus! {

} // verus!
