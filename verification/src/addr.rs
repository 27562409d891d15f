//! Account addresses and the relay's two fixed identities: the engine
//! program it fronts and the mandatory settlement fee beneficiary.

use vstd::prelude::*;

verus! {

/// A 32-byte account address, the only identity the engine's ABI knows.
#[derive(Clone, Copy, Debug, PartialEq, Eq)]
pub struct Address {
    pub bytes: [u8; 32],
}

impl View for Address {
    type V = Seq<u8>;

    open spec fn view(&self) -> Seq<u8> {
        self.bytes@
    }
}

impl Address {
    pub fn new(bytes: [u8; 32]) -> (r: Address)
        ensures
            r@ == bytes@,
    {
        Address { bytes }
    }
}

/// Address equality, byte for byte.
pub fn eq_address(a: &Address, b: &Address) -> (r: bool)
    ensures
        r <==> a@ == b@,
{
    let mut i: usize = 0;
    while i < 32
        invariant
            i <= 32,
            forall|j: int| 0 <= j < i ==> a@[j] == b@[j],
        decreases 32 - i,
    {
        if a.bytes[i] != b.bytes[i] {
            assert(a@[i as int] != b@[i as int]);
            return false;
        }
        i += 1;
    }
    proof {
        assert(a@ =~= b@);
    }
    true
}

/// The fixed identity of the engine program the relay fronts.
pub open spec fn engine_id() -> Seq<u8> {
    seq![
        133u8, 15, 45, 110, 2, 164, 122, 248, 36, 208, 154, 182, 157, 196, 45, 112,
        203, 40, 203, 250, 36, 159, 183, 238, 87, 185, 210, 86, 193, 39, 98, 239,
    ]
}

/// The one hardcoded beneficiary identity that every settlement call's
/// fee slot must match; rotating it means redeploying the relay.
pub open spec fn fee_beneficiary_id() -> Seq<u8> {
    seq![
        25u8, 224, 86, 2, 56, 181, 128, 159, 234, 84, 223, 205, 12, 219, 114, 70,
        187, 155, 100, 41, 127, 129, 5, 114, 55, 62, 176, 172, 243, 155, 73, 153,
    ]
}

/// The runtime's rent sysvar, a fixed infrastructure account every
/// resource-creating sub-call must name.
pub open spec fn rent_sysvar_id() -> Seq<u8> {
    seq![
        6u8, 167, 213, 23, 25, 44, 92, 81, 33, 140, 201, 76, 61, 74, 241, 127,
        88, 218, 238, 8, 155, 161, 253, 68, 227, 219, 217, 138, 0, 0, 0, 0,
    ]
}

pub fn rent_sysvar_address() -> (r: Address)
    ensures
        r@ == rent_sysvar_id(),
{
    let a = Address {
        bytes: [
            6u8, 167, 213, 23, 25, 44, 92, 81, 33, 140, 201, 76, 61, 74, 241, 127,
            88, 218, 238, 8, 155, 161, 253, 68, 227, 219, 217, 138, 0, 0, 0, 0,
        ],
    };
    proof {
        assert(a@ =~= rent_sysvar_id());
    }
    a
}

pub fn engine_address() -> (r: Address)
    ensures
        r@ == engine_id(),
{
    let a = Address {
        bytes: [
            133u8, 15, 45, 110, 2, 164, 122, 248, 36, 208, 154, 182, 157, 196, 45, 112,
            203, 40, 203, 250, 36, 159, 183, 238, 87, 185, 210, 86, 193, 39, 98, 239,
        ],
    };
    proof {
        assert(a@ =~= engine_id());
    }
    a
}

pub fn fee_beneficiary_address() -> (r: Address)
    ensures
        r@ == fee_beneficiary_id(),
{
    let a = Address {
        bytes: [
            25u8, 224, 86, 2, 56, 181, 128, 159, 234, 84, 223, 205, 12, 219, 114, 70,
            187, 155, 100, 41, 127, 129, 5, 114, 55, 62, 176, 172, 243, 155, 73, 153,
        ],
    };
    proof {
        assert(a@ =~= fee_beneficiary_id());
    }
    a
}

} // verus!
