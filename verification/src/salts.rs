//! Batches of random 32-byte salts, generated fresh and regenerated in place.

use vstd::prelude::*;

verus! {

/// Relies on rand::random: a value drawn from the thread-local generator.
/// Nothing is promised of the outcome; every caller must be correct for every
/// drawn value.
pub assume_specification<T>[ rand::random::<T> ]() -> (r: T)
    where rand::distributions::Standard: rand::distributions::Distribution<T>,
;

/// Fills a new batch with `size` independently drawn 32-byte salts.
pub fn generate_batch_salts(size: usize) -> (r: Vec<[u8; 32]>)
    ensures
        r@.len() == size,
{
    let mut salts: Vec<[u8; 32]> = Vec::with_capacity(size);
    let mut i: usize = 0;
    while i < size
        invariant
            i <= size,
            salts@.len() == i,
        decreases size - i,
    {
        salts.push(rand::random());
        i = i + 1;
    }
    salts
}

/// Overwrites every salt in the batch with a fresh draw, reusing the same
/// storage. The batch's length never changes.
pub fn regenerate_in_place(batch: &mut Vec<[u8; 32]>)
    ensures
        final(batch)@.len() == old(batch)@.len(),
{
    let n = batch.len();
    let mut i: usize = 0;
    while i < n
        invariant
            i <= n,
            batch@.len() == n,
        decreases n - i,
    {
        let fresh: [u8; 32] = rand::random();
        batch[i] = fresh;
        i = i + 1;
    }
}

} // verus!
