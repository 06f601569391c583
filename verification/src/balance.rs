//! Balances of the local chain and their conversion into 128-bit asset amounts.

use vstd::prelude::*;

verus! {

/// The number that four 64-bit words stand for, least significant word first.
pub open spec fn words_value(words: Seq<u64>) -> nat
    recommends
        words.len() == 4,
{
    (words[0] as nat) + (words[1] as nat) * 0x1_0000_0000_0000_0000 + (words[2] as nat)
        * 0x1_0000_0000_0000_0000_0000_0000_0000_0000 + (words[3] as nat)
        * 0x1_0000_0000_0000_0000_0000_0000_0000_0000_0000_0000_0000_0000
}

/// `value` where it fits into 128 bits, and the largest 128-bit number where it
/// does not.
pub open spec fn saturate(value: nat) -> u128 {
    if value > u128::MAX {
        u128::MAX
    } else {
        value as u128
    }
}

/// An amount of the local chain's currency: an unsigned number of up to 256 bits,
/// held as four 64-bit words, least significant first.
#[derive(Clone, Copy, Debug, PartialEq, Eq)]
pub struct Balance {
    pub words: [u64; 4],
}

impl View for Balance {
    type V = nat;

    open spec fn view(&self) -> nat {
        words_value(self.words@)
    }
}

/// The number that the two low words stand for.
pub open spec fn low_value(words: Seq<u64>) -> nat
    recommends
        words.len() == 4,
{
    (words[0] as nat) + (words[1] as nat) * 0x1_0000_0000_0000_0000
}

/// Calls `saturated_into::<u128>` of `sp_runtime::SaturatedConversion` on the
/// `sp_core::U256` whose words are `words`. The conversion tries `u128::try_from`,
/// which gives the number of the two low words where both high words are zero and
/// fails otherwise, and it answers a failure with `u128::MAX`.
#[verifier::external_body]
fn saturated_into_u128(words: [u64; 4]) -> (r: u128)
    ensures
        words@[2] == 0 && words@[3] == 0 ==> r == low_value(words@),
        words@[2] != 0 || words@[3] != 0 ==> r == u128::MAX,
{
    sp_runtime::SaturatedConversion::saturated_into::<u128>(sp_core::U256(words))
}

/// A balance fits into 128 bits exactly when its two high words are zero, and is
/// then the number its two low words stand for.
pub proof fn lemma_fits_iff_high_words_zero(words: Seq<u64>)
    requires
        words.len() == 4,
    ensures
        words_value(words) <= u128::MAX <==> words[2] == 0 && words[3] == 0,
        words_value(words) <= u128::MAX ==> words_value(words) == low_value(words),
{
}

impl Balance {
    /// The balance of the given 128-bit amount.
    pub fn from_u128(amount: u128) -> (r: Balance)
        ensures
            r@ == amount,
    {
        let low: u64 = (amount % 0x1_0000_0000_0000_0000) as u64;
        let high: u64 = (amount / 0x1_0000_0000_0000_0000) as u64;
        Balance { words: [low, high, 0, 0] }
    }

    /// Converts the balance into a 128-bit asset amount. A balance too large for
    /// 128 bits becomes the largest amount; the conversion neither wraps nor fails.
    pub fn saturated_amount(&self) -> (r: u128)
        ensures
            r == saturate(self@),
            self@ <= u128::MAX ==> r == self@,
            self@ > u128::MAX ==> r == u128::MAX,
    {
        proof {
            lemma_fits_iff_high_words_zero(self.words@);
        }
        saturated_into_u128(self.words)
    }
}

} // verus!
