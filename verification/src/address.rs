//! Hardware addresses of remote devices.

use vstd::prelude::*;

verus! {

/// The 48-bit hardware address of a Bluetooth device, most significant octet
/// first.
#[derive(Clone, Copy, Debug, PartialEq, Eq, Hash)]
pub struct Address {
    pub octets: [u8; 6],
}

impl Address {
    /// The address as one number: the six octets read as a big-endian integer.
    pub open spec fn spec_key(&self) -> u64 {
        (self.octets[0] * 0x100_0000_0000 + self.octets[1] * 0x1_0000_0000 + self.octets[2]
            * 0x100_0000 + self.octets[3] * 0x1_0000 + self.octets[4] * 0x100
            + self.octets[5]) as u64
    }

    /// Wraps six octets.
    pub fn new(octets: [u8; 6]) -> (address: Address)
        ensures
            address.octets == octets,
    {
        Address { octets }
    }

    /// Computes the number that stands for the address in maps and sets.
    #[verifier::when_used_as_spec(spec_key)]
    pub fn key(&self) -> (key: u64)
        ensures
            key == self.spec_key(),
            key < 0x1_0000_0000_0000,
    {
        let b0: u64 = self.octets[0] as u64;
        let b1: u64 = self.octets[1] as u64;
        let b2: u64 = self.octets[2] as u64;
        let b3: u64 = self.octets[3] as u64;
        let b4: u64 = self.octets[4] as u64;
        let b5: u64 = self.octets[5] as u64;
        b0 * 0x100_0000_0000 + b1 * 0x1_0000_0000 + b2 * 0x100_0000 + b3 * 0x1_0000 + b4 * 0x100
            + b5
    }

    /// Whether two addresses name the same device.
    pub fn same(&self, other: &Address) -> (same: bool)
        ensures
            same == (*self == *other),
    {
        proof {
            lemma_key_is_injective(*self, *other);
        }
        self.key() == other.key()
    }
}

/// Distinct addresses have distinct keys.
pub proof fn lemma_key_is_injective(a: Address, b: Address)
    ensures
        a.spec_key() == b.spec_key() <==> a == b,
{
    if a.spec_key() == b.spec_key() {
        assert(a.octets[5] == b.octets[5]);
        assert(a.octets[4] == b.octets[4]);
        assert(a.octets[3] == b.octets[3]);
        assert(a.octets[2] == b.octets[2]);
        assert(a.octets[1] == b.octets[1]);
        assert(a.octets[0] == b.octets[0]);
        assert(a.octets =~= b.octets);
    }
}

} // verus!
