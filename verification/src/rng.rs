//! Deterministic random number generation, seeded for reproducibility.

use vstd::prelude::*;
use rand::Rng;
use rand::RngCore;
use rand::SeedableRng;
use rand::seq::SliceRandom;
use rand_chacha::ChaCha8Rng;

verus! {

#[verifier::external_type_specification]
#[verifier::external_body]
pub struct ExChaCha8Rng(ChaCha8Rng);

/// `rand_chacha::ChaCha8Rng::seed_from_u64` (from `rand_core::SeedableRng`): a
/// generator seeded from `seed`. Nothing is claimed of its state.
#[verifier::external_body]
fn chacha_from_seed(seed: u64) -> (r: ChaCha8Rng) {
    ChaCha8Rng::seed_from_u64(seed)
}

/// `rand_core::RngCore::next_u64` on the generator: the next 64 random bits.
/// Nothing is claimed of the value.
#[verifier::external_body]
fn chacha_next_u64(rng: &mut ChaCha8Rng) -> (r: u64) {
    rng.next_u64()
}

/// `rand::Rng::gen_ratio(1, 2)`: a fair coin (in rand 0.8 the same draw as
/// `gen_bool(0.5)`). Nothing is claimed of the value.
#[verifier::external_body]
fn chacha_fair_coin(rng: &mut ChaCha8Rng) -> (r: bool) {
    rng.gen_ratio(1, 2)
}

/// `rand::seq::SliceRandom::shuffle`: a Fisher-Yates shuffle of the slice in place.
/// Claimed: the slice afterwards holds the same elements, each as often as before.
#[verifier::external_body]
fn chacha_shuffle<T>(rng: &mut ChaCha8Rng, slice: &mut [T])
    ensures
        final(slice)@.len() == old(slice)@.len(),
        final(slice)@.to_multiset() == old(slice)@.to_multiset(),
{
    slice.shuffle(rng)
}

/// Game RNG with seed support for reproducibility.
#[derive(Debug)]
pub struct GameRng {
    rng: ChaCha8Rng,
}

impl Default for GameRng {
    fn default() -> (r: Self) {
        GameRng::new(0)
    }
}

impl GameRng {
    /// A generator seeded with `seed`.
    pub fn new(seed: u64) -> (r: Self) {
        GameRng { rng: chacha_from_seed(seed) }
    }

    pub fn next_u64(&mut self) -> (r: u64) {
        chacha_next_u64(&mut self.rng)
    }

    /// A value in `[0, n)`; 0 when `n` is 0.
    pub fn next_usize(&mut self, n: usize) -> (r: usize)
        ensures
            n == 0 ==> r == 0,
            n > 0 ==> r < n,
    {
        if n == 0 {
            return 0;
        }
        (chacha_next_u64(&mut self.rng) as usize) % n
    }

    /// A fair coin.
    pub fn coin_flip(&mut self) -> (r: bool) {
        chacha_fair_coin(&mut self.rng)
    }

    /// Permute `slice` in place.
    pub fn shuffle<T>(&mut self, slice: &mut [T])
        ensures
            final(slice)@.len() == old(slice)@.len(),
            final(slice)@.to_multiset() == old(slice)@.to_multiset(),
    {
        chacha_shuffle(&mut self.rng, slice)
    }

    /// Permute the elements of `v` in place.
    pub fn shuffle_vec<T>(&mut self, v: &mut Vec<T>)
        ensures
            final(v)@.len() == old(v)@.len(),
            final(v)@.to_multiset() == old(v)@.to_multiset(),
    {
        chacha_shuffle(&mut self.rng, v.as_mut_slice())
    }

    /// A random element of `slice`, `None` when it is empty.
    pub fn pick<T: Clone>(&mut self, slice: &[T]) -> (r: Option<T>)
        ensures
            r is None <==> slice@.len() == 0,
            r matches Some(x) ==> exists|i: int| 0 <= i < slice@.len() && cloned(slice@[i], x),
    {
        if slice.len() == 0 {
            return None;
        }
        let i = self.next_usize(slice.len());
        Some(slice[i].clone())
    }

    /// `min(n, len)` elements of `slice` taken at distinct random positions.
    pub fn pick_n<T: Clone>(&mut self, slice: &[T], n: usize) -> (r: Vec<T>)
        ensures
            r@.len() == if n < slice@.len() {
                n as nat
            } else {
                slice@.len()
            },
            exists|idx: Seq<int>|
                #![trigger idx.len()]
                idx.len() == r@.len() && idx.no_duplicates() && forall|k: int|
                    0 <= k < idx.len() ==> 0 <= #[trigger] idx[k] < slice@.len() && cloned(slice@[idx[k]], r@[k]),
    {
        let n = if n < slice.len() {
            n
        } else {
            slice.len()
        };
        let mut indices: Vec<usize> = Vec::new();
        let mut i: usize = 0;
        while i < slice.len()
            invariant
                i <= slice@.len(),
                indices@.len() == i,
                forall|k: int| 0 <= k < i ==> #[trigger] indices@[k] == k,
            decreases slice@.len() - i,
        {
            indices.push(i);
            i = i + 1;
        }
        proof {
            assert(indices@.no_duplicates());
            indices@.lemma_multiset_has_no_duplicates();
        }
        let ghost before = indices@;
        self.shuffle_vec(&mut indices);
        proof {
            assert forall|x: usize| indices@.to_multiset().contains(x) implies indices@.to_multiset().count(x) == 1 by {
                assert(before.to_multiset().contains(x));
            }
            indices@.lemma_multiset_has_no_duplicates_conv();
            assert forall|k: int| 0 <= k < indices@.len() implies #[trigger] indices@[k] < slice@.len() by {
                let x = indices@[k];
                assert(indices@.to_multiset().count(x) > 0) by {
                    indices@.to_multiset_ensures();
                }
                before.to_multiset_ensures();
                assert(before.contains(x));
            }
        }
        let mut r: Vec<T> = Vec::new();
        let mut k: usize = 0;
        while k < n
            invariant
                k <= n,
                n <= slice@.len(),
                indices@.len() == slice@.len(),
                indices@.no_duplicates(),
                forall|j: int| 0 <= j < indices@.len() ==> #[trigger] indices@[j] < slice@.len(),
                r@.len() == k,
                forall|j: int| 0 <= j < k ==> cloned(slice@[indices@[j] as int], #[trigger] r@[j]),
            decreases n - k,
        {
            let x = slice[indices[k]].clone();
            r.push(x);
            k = k + 1;
        }
        proof {
            let idx = indices@.take(n as int).map_values(|u: usize| u as int);
            assert(idx.len() == r@.len());
            assert(idx.no_duplicates()) by {
                assert forall|a: int, b: int| 0 <= a < idx.len() && 0 <= b < idx.len() && a != b implies idx[a] != idx[b] by {
                    assert(indices@[a] != indices@[b]);
                }
            }
            assert forall|j: int| 0 <= j < idx.len() implies 0 <= #[trigger] idx[j] < slice@.len() && cloned(slice@[idx[j]], r@[j]) by {
                assert(idx[j] == indices@[j] as int);
            }
        }
        r
    }

    /// The underlying generator.
    pub fn inner(&mut self) -> (r: &mut ChaCha8Rng) {
        &mut self.rng
    }
}

} // verus!
