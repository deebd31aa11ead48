use vstd::prelude::*;

verus! {

/// A 20-byte account address, held big-endian as three integers.
#[derive(Clone, Copy, Debug, PartialEq, Eq, Structural)]
pub struct Address {
    /// Bytes 0..4.
    pub hi: u32,
    /// Bytes 4..12.
    pub mid: u64,
    /// Bytes 12..20.
    pub lo: u64,
}

/// A 256-bit word (an amount, a storage slot or a storage value), held as
/// four 64-bit limbs, least significant first.
#[derive(Clone, Copy, Debug, PartialEq, Eq, Structural)]
pub struct Word {
    pub w0: u64,
    pub w1: u64,
    pub w2: u64,
    pub w3: u64,
}

impl Address {
    pub open spec fn spec_zero() -> Address {
        Address { hi: 0, mid: 0, lo: 0 }
    }

    /// The all-zero address.
    pub fn zero() -> (r: Address)
        ensures
            r == Address::spec_zero(),
    {
        Address { hi: 0, mid: 0, lo: 0 }
    }
}

impl Word {
    /// The number that the word stands for.
    pub open spec fn value(self) -> nat {
        self.w0 as nat + self.w1 as nat * 0x1_0000_0000_0000_0000 + self.w2 as nat
            * 0x1_0000_0000_0000_0000_0000_0000_0000_0000 + self.w3 as nat
            * 0x1_0000_0000_0000_0000_0000_0000_0000_0000_0000_0000_0000_0000
    }

    pub open spec fn spec_from_u64(x: u64) -> Word {
        Word { w0: x, w1: 0, w2: 0, w3: 0 }
    }

    pub open spec fn spec_zero() -> Word {
        Word::spec_from_u64(0)
    }

    /// The word that holds `x`.
    pub fn from_u64(x: u64) -> (r: Word)
        ensures
            r == Word::spec_from_u64(x),
            r.value() == x,
    {
        Word { w0: x, w1: 0, w2: 0, w3: 0 }
    }

    /// The zero word.
    pub fn zero() -> (r: Word)
        ensures
            r == Word::spec_zero(),
            r.value() == 0,
    {
        Word::from_u64(0)
    }
}

} // verus!
