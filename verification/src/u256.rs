use vstd::prelude::*;

verus! {

/// An unsigned 256-bit number, as Ethereum nodes report timestamps and gas.
///
/// The number is held as four 64-bit words, the least significant one first.
#[derive(Clone, Copy, Debug, PartialEq, Eq)]
pub struct U256 {
    pub words: [u64; 4],
}

impl U256 {
    /// The number that the words stand for.
    pub open spec fn value(self) -> nat {
        let base: nat = 0x1_0000_0000_0000_0000;
        self.words[0] as nat + base * (self.words[1] as nat + base * (self.words[2] as nat + base
            * self.words[3] as nat))
    }

    /// Whether the number fits in 64 bits.
    pub fn fits_u64(&self) -> (fits: bool)
        ensures
            fits <==> self.value() <= u64::MAX,
    {
        self.words[1] == 0 && self.words[2] == 0 && self.words[3] == 0
    }

    /// The number as a `u64`.
    pub fn as_u64(&self) -> (n: u64)
        requires
            self.value() <= u64::MAX,
        ensures
            n == self.value(),
    {
        words_as_u64(self.words)
    }
}

/// `ethers::types::U256::as_u64`, which hands out the least significant word of a number and
/// panics unless all the other words are zero.
#[verifier::external_body]
fn words_as_u64(words: [u64; 4]) -> (n: u64)
    requires
        words[1] == 0,
        words[2] == 0,
        words[3] == 0,
    ensures
        n == words[0],
{
    ethers::types::U256(words).as_u64()
}

/// Each word counts for what its place is worth, so that numbers of different words are
/// different numbers.
pub proof fn law_words_make_the_number(a: U256, b: U256)
    ensures
        a.value() == a.words[0] + 0x1_0000_0000_0000_0000 * a.words[1]
            + 0x1_0000_0000_0000_0000_0000_0000_0000_0000 * a.words[2]
            + 0x1_0000_0000_0000_0000_0000_0000_0000_0000_0000_0000_0000_0000 * a.words[3],
        a.value() == b.value() ==> {
            &&& a.words[0] == b.words[0]
            &&& a.words[1] == b.words[1]
            &&& a.words[2] == b.words[2]
            &&& a.words[3] == b.words[3]
        },
{
}

/// A number fits in 64 bits exactly if only its least significant word is not zero, and it is
/// that word then.
pub proof fn law_small_numbers_are_one_word(number: U256, fits: bool, n: u64)
    requires
        call_ensures(U256::fits_u64, (&number,), fits),
        fits ==> call_ensures(U256::as_u64, (&number,), n),
    ensures
        fits <==> number.words[1] == 0 && number.words[2] == 0 && number.words[3] == 0,
        fits ==> n == number.words[0],
{
    law_words_make_the_number(number, number);
}

} // verus!
