//! Generators on a seed held by the caller: the xorshift generator on a bare
//! `u64`, and a xoshiro256+ generator seeded from it.
use vstd::prelude::*;

use crate::model::{
    lemma_small_shape, lemma_xorshift_iter_add, seeded_seed, seeded_xoshi, splitmix_out,
    splitmix_seed, splitmix_seed_iter, unit_of, xorshift_iter, xorshift_next, xoshi_iter,
    xoshi_unit_at, GOLDEN_GAMMA, MIX_MUL1, MIX_MUL2,
};
use crate::xoshi_step;

verus! {

/// One xorshift step (shifts 13, 7, 17) on the caller's seed, which is
/// updated. Returns the numerator `n < 2^53` of the value `n / 2^53` in [0,1).
pub fn ranf64_numerator(rseed: &mut u64) -> (r: u64)
    ensures
        *final(rseed) == xorshift_next(*old(rseed)),
        r == unit_of(*final(rseed)),
        r < 0x20_0000_0000_0000,
{
    let mut seed = *rseed;
    seed ^= seed << 13;
    seed ^= seed >> 7;
    seed ^= seed << 17;
    *rseed = seed;
    assert(seed >> 11u64 < 0x20_0000_0000_0000u64) by (bit_vector);
    seed >> 11
}

/// A byte from a [0,1) numerator: the integer part of 256 times the value.
fn byte_of_unit(u: u64) -> (r: u8)
    requires
        u < 0x20_0000_0000_0000,
    ensures
        r == u >> 45u64,
{
    assert(u >> 45u64 < 256u64) by (bit_vector)
        requires
            u < 0x20_0000_0000_0000u64,
    ;
    (u >> 45) as u8
}

/// A vector of `size` bytes in [0,255], each the integer part of 256 times
/// a xorshift value in [0,1). The caller's seed keeps advancing, so it can
/// be used again. `size` is positive.
pub fn ranvu8(size: usize, seed: &mut u64) -> (r: Vec<u8>)
    requires
        size > 0,
    ensures
        r@.len() == size,
        forall|i: int|
            0 <= i < size ==> r@[i] == unit_of(#[trigger] xorshift_iter(*old(seed), (i + 1) as nat))
                >> 45u64,
        *final(seed) == xorshift_iter(*old(seed), size as nat),
{
    let ghost s0 = *seed;
    let mut resvec: Vec<u8> = Vec::with_capacity(size);
    let mut i: usize = 0;
    while i < size
        invariant
            i <= size,
            resvec@.len() == i,
            *seed == xorshift_iter(s0, i as nat),
            forall|k: int|
                0 <= k < i ==> resvec@[k] == unit_of(#[trigger] xorshift_iter(s0, (k + 1) as nat))
                    >> 45u64,
        decreases size - i,
    {
        let u = ranf64_numerator(seed);
        resvec.push(byte_of_unit(u));
        i += 1;
    }
    resvec
}

/// `n` vectors of `d` bytes each, as `ranvu8` fills them, from one
/// advancing seed. `n * d` is positive.
pub fn ranvvu8(d: usize, n: usize, seed: &mut u64) -> (r: Vec<Vec<u8>>)
    requires
        (n as int) * (d as int) >= 1,
    ensures
        r@.len() == n,
        forall|i: int| 0 <= i < n ==> (#[trigger] r@[i])@.len() == d,
        forall|i: int, j: int|
            0 <= i < n && 0 <= j < d ==> #[trigger] r@[i]@[j] == unit_of(
                xorshift_iter(*old(seed), (i * d + j + 1) as nat),
            ) >> 45u64,
        *final(seed) == xorshift_iter(*old(seed), (n * d) as nat),
{
    proof {
        lemma_small_shape(n as int, d as int);
    }
    let ghost s0 = *seed;
    let mut v: Vec<Vec<u8>> = Vec::with_capacity(n);
    let mut i: usize = 0;
    while i < n
        invariant
            i <= n,
            d > 0,
            v@.len() == i,
            *seed == xorshift_iter(s0, (i * d) as nat),
            forall|k: int| 0 <= k < i ==> (#[trigger] v@[k])@.len() == d,
            forall|k: int, j: int|
                0 <= k < i && 0 <= j < d ==> #[trigger] v@[k]@[j] == unit_of(
                    xorshift_iter(s0, (k * d + j + 1) as nat),
                ) >> 45u64,
        decreases n - i,
    {
        let ghost si = *seed;
        let row = ranvu8(d, seed);
        proof {
            assert forall|j: int| 0 <= j < d implies row@[j] == unit_of(
                xorshift_iter(s0, (i * d + j + 1) as nat),
            ) >> 45u64 by {
                assert(row@[j] == unit_of(xorshift_iter(si, (j + 1) as nat)) >> 45u64);
                lemma_xorshift_iter_add(s0, (i * d) as nat, (j + 1) as nat);
            }
            lemma_xorshift_iter_add(s0, (i * d) as nat, d as nat);
            assert((i + 1) * d == i * d + d) by (nonlinear_arith);
        }
        v.push(row);
        i += 1;
    }
    v
}

/// The splitmix64 generator on the caller's seed, which is updated.
fn init_one(x: &mut u64) -> (r: u64)
    ensures
        *final(x) == splitmix_seed(*old(x)),
        r == splitmix_out(*old(x)),
{
    let mut z = x.wrapping_add(GOLDEN_GAMMA);
    *x = z;
    z = (z ^ (z >> 30)).wrapping_mul(MIX_MUL1);
    z = (z ^ (z >> 27)).wrapping_mul(MIX_MUL2);
    z ^ (z >> 31)
}

/// The four xoshiro256 words derived from the caller's seed by four
/// successive splitmix64 calls.
fn init_xoshiro(x: &mut u64) -> (r: [u64; 4])
    ensures
        r@ == seeded_xoshi(*old(x)),
        *final(x) == seeded_seed(*old(x)),
{
    let a = init_one(x);
    let b = init_one(x);
    let c = init_one(x);
    let d = init_one(x);
    let r = [a, b, c, d];
    proof {
        reveal_with_fuel(splitmix_seed_iter, 5);
        assert(r@ =~= seeded_xoshi(*old(x)));
    }
    r
}

/// A vector of `size` bytes in [0,255] from a xoshiro256+ generator seeded
/// from the caller's seed: each is the integer part of 256 times a value in
/// [0,1). `size` is positive.
pub fn ranvu(size: usize, seed: &mut u64) -> (r: Vec<u8>)
    requires
        size > 0,
    ensures
        r@.len() == size,
        forall|i: int|
            0 <= i < size ==> r@[i] == #[trigger] xoshi_unit_at(seeded_xoshi(*old(seed)), i)
                >> 45u64,
        *final(seed) == seeded_seed(*old(seed)),
{
    let mut s = init_xoshiro(seed);
    let ghost s0 = s@;
    let mut resvec: Vec<u8> = Vec::with_capacity(size);
    let mut i: usize = 0;
    while i < size
        invariant
            i <= size,
            resvec@.len() == i,
            s0 == seeded_xoshi(*old(seed)),
            s@ == xoshi_iter(s0, i as nat),
            forall|k: int| 0 <= k < i ==> resvec@[k] == #[trigger] xoshi_unit_at(s0, k) >> 45u64,
        decreases size - i,
    {
        let w = s[0].wrapping_add(s[3]);
        assert(w >> 11u64 < 0x20_0000_0000_0000u64) by (bit_vector);
        resvec.push(byte_of_unit(w >> 11));
        xoshi_step(&mut s);
        i += 1;
    }
    resvec
}

} // verus!
