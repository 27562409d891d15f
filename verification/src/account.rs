//! The account metadata the relay reads and rewrites. The relay never
//! touches account contents; only this metadata list is forwarded.

use vstd::prelude::*;
use crate::addr::Address;

verus! {

/// One entry of a call's ordered account list: an identity plus the two
/// flags the runtime attaches to it.
#[derive(Clone, Copy, Debug, PartialEq, Eq)]
pub struct AccountRef {
    pub identity: Address,
    pub is_signer: bool,
    pub is_writable: bool,
}

impl AccountRef {
    pub fn new(identity: Address, is_signer: bool, is_writable: bool) -> (r: AccountRef)
        ensures
            r.identity == identity,
            r.is_signer == is_signer,
            r.is_writable == is_writable,
    {
        AccountRef { identity, is_signer, is_writable }
    }
}

} // verus!
