//! The account number generator: a stateless utility producing a candidate
//! external identifier of nine decimal digits.  No uniqueness is promised;
//! collision handling belongs to the storage layer's constraints.

use vstd::prelude::*;
use crate::decimal::{lemma_padded_decimal_len, padded_decimal, push_padded_decimal};

verus! {

/// Relies on rand::random: a value drawn from the thread-local generator.
/// Nothing is assumed about which value comes back.
pub assume_specification<T>[ rand::random::<T> ]() -> (r: T)
    where
        rand::distributions::Standard: rand::distributions::Distribution<T>,
;

/// A candidate external account number: nine decimal digits drawn at random.
pub fn get_random_account_number() -> (r: String)
    ensures
        r@.len() == 9,
        exists|v: int| 0 <= v < 1000000000 && r@ == padded_decimal(v, 9),
{
    let n: u32 = rand::random::<u32>();
    let v: u32 = n % 1000000000;
    let mut s = String::new();
    push_padded_decimal(&mut s, v as u64, 9);
    proof {
        lemma_padded_decimal_len(v as int, 9);
        assert(v < 1000000000);
        assert(s@ == padded_decimal(v as int, 9));
    }
    s
}

} // verus!
