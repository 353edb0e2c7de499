//! The generators under their short names: dimensions are given as
//! `(d, n)`, and ranges as `min, max`.
use vstd::prelude::*;

use crate::error::Re;
use crate::model::{
    irange_of, seeded_seed, seeded_xoshi, splitmix_out, splitmix_seed, top_bits, urange_of,
    valid_irange, valid_urange, xoshi_iter, xoshi_next, xoshi_out_at, xoshi_u64,
};
use crate::{map_irange, map_urange, RanState};

verus! {

/// Seeds the context: a nonzero `seed` is the base seed, zero takes one from the clock.
pub fn set_seeds(g: &mut RanState, seed: u64)
    ensures
        seed != 0 ==> final(g).seed == seeded_seed(seed) && final(g).xoshi@ == seeded_xoshi(seed),
        seed == 0 ==> exists|base: u64|
            final(g).seed == seeded_seed(base) && final(g).xoshi@ == seeded_xoshi(base),
        seed == 0 ==> final(g).seed != 0,
{
    crate::set_seeds(g, seed)
}

/// The four xoshiro256 words, read at once.
pub fn get_xoshi(g: &RanState) -> (r: [u64; 4])
    ensures
        r@ == g.xoshi@,
{
    crate::get_xoshi(g)
}

/// Replaces the four xoshiro256 words at once.
pub fn put_xoshi(g: &mut RanState, seeds: &[u64; 4])
    ensures
        final(g).xoshi@ == seeds@,
        final(g).seed == old(g).seed,
{
    crate::put_xoshi(g, seeds)
}

/// One state advance of the xoshiro256 generator.
pub fn xoshi_step(s: &mut [u64; 4])
    ensures
        final(s)@ == xoshi_next(old(s)@),
{
    crate::xoshi_step(s)
}

/// Top `bits` bits of a xoshiro256** output, e.g. `ran_ubits(g, 16) as u16`.
pub fn ran_ubits(g: &mut RanState, bits: u8) -> (r: u64)
    requires
        1 <= bits <= 64,
    ensures
        r == top_bits(xoshi_u64(old(g).xoshi@), bits as u64),
        final(g).xoshi@ == xoshi_next(old(g).xoshi@),
        final(g).seed == old(g).seed,
{
    crate::ran_ubits(g, bits)
}

/// An `i64`: a xoshiro256** output reinterpreted as signed.
pub fn ran_i64(g: &mut RanState) -> (r: i64)
    ensures
        r == xoshi_u64(old(g).xoshi@) as i64,
        final(g).xoshi@ == xoshi_next(old(g).xoshi@),
        final(g).seed == old(g).seed,
{
    crate::ran_i64(g)
}

/// The splitmix64 generator on the scalar seed.
pub fn splitmix(g: &mut RanState) -> (r: u64)
    ensures
        final(g).seed == splitmix_seed(old(g).seed),
        final(g).xoshi == old(g).xoshi,
        r == splitmix_out(old(g).seed),
{
    crate::splitmix(g)
}

/// The full 64-bit xoshiro256** generator.
pub fn xoshiu64(g: &mut RanState) -> (r: u64)
    ensures
        r == xoshi_u64(old(g).xoshi@),
        final(g).xoshi@ == xoshi_next(old(g).xoshi@),
        final(g).seed == old(g).seed,
{
    crate::ran_u64(g)
}

/// A vector of `d` full-range `u64` values.
pub fn ranvu64(g: &mut RanState, d: usize) -> (r: Result<Vec<u64>, Re>)
    ensures
        d == 0 ==> (r matches Err(e) && e.is_dimensions()) && *final(g) == *old(g),
        d > 0 ==> r is Ok,
        r matches Ok(v) ==> v@.len() == d && forall|k: int|
            0 <= k < d ==> v@[k] == #[trigger] xoshi_out_at(old(g).xoshi@, k),
        r is Ok ==> final(g).xoshi@ == xoshi_iter(old(g).xoshi@, d as nat),
        final(g).seed == old(g).seed,
{
    crate::ranv_u64(g, d)
}

/// A vector of `d` `u16` values in [0,65535].
pub fn ranvu16(g: &mut RanState, d: usize) -> (r: Result<Vec<u16>, Re>)
    ensures
        d == 0 ==> (r matches Err(e) && e.is_dimensions()) && *final(g) == *old(g),
        d > 0 ==> r is Ok,
        r matches Ok(v) ==> v@.len() == d && forall|k: int|
            0 <= k < d ==> v@[k] == #[trigger] top_bits(xoshi_out_at(old(g).xoshi@, k), 16),
        r is Ok ==> final(g).xoshi@ == xoshi_iter(old(g).xoshi@, d as nat),
        final(g).seed == old(g).seed,
{
    crate::ranv_u16(g, d)
}

/// A vector of `d` `u8` values in [0,255].
pub fn ranvu8(g: &mut RanState, d: usize) -> (r: Result<Vec<u8>, Re>)
    ensures
        d == 0 ==> (r matches Err(e) && e.is_dimensions()) && *final(g) == *old(g),
        d > 0 ==> r is Ok,
        r matches Ok(v) ==> v@.len() == d && forall|k: int|
            0 <= k < d ==> v@[k] == #[trigger] top_bits(xoshi_out_at(old(g).xoshi@, k), 8),
        r is Ok ==> final(g).xoshi@ == xoshi_iter(old(g).xoshi@, d as nat),
        final(g).seed == old(g).seed,
{
    crate::ranv_u8(g, d)
}

/// A vector of `d` `i64` values.
pub fn ranvi64(g: &mut RanState, d: usize) -> (r: Result<Vec<i64>, Re>)
    ensures
        d == 0 ==> (r matches Err(e) && e.is_dimensions()) && *final(g) == *old(g),
        d > 0 ==> r is Ok,
        r matches Ok(v) ==> v@.len() == d && forall|k: int|
            0 <= k < d ==> v@[k] == #[trigger] xoshi_out_at(old(g).xoshi@, k) as i64,
        r is Ok ==> final(g).xoshi@ == xoshi_iter(old(g).xoshi@, d as nat),
        final(g).seed == old(g).seed,
{
    crate::ranv_i64(g, d)
}

/// A vector of `d` `i64` values in the inclusive range `[min, max]`.
pub fn ranvi64_in(g: &mut RanState, d: usize, min: i64, max: i64) -> (r: Result<Vec<i64>, Re>)
    ensures
        d == 0 ==> (r matches Err(e) && e.is_dimensions()) && *final(g) == *old(g),
        d > 0 && !valid_irange(min, max)
            ==> (r matches Err(e) && e.is_range()) && *final(g) == *old(g),
        d > 0 && valid_irange(min, max) ==> r is Ok,
        r matches Ok(v) ==> v@.len() == d && forall|k: int|
            0 <= k < d ==> v@[k] == #[trigger] irange_of(xoshi_out_at(old(g).xoshi@, k), min, max),
        r is Ok ==> final(g).xoshi@ == xoshi_iter(old(g).xoshi@, d as nat),
        final(g).seed == old(g).seed,
{
    crate::ranv_i64_range(g, d, min, max)
}

/// `n` vectors of `d` full-range `u64` values each.
pub fn ranvvu64(g: &mut RanState, d: usize, n: usize) -> (r: Result<Vec<Vec<u64>>, Re>)
    ensures
        (n as int) * (d as int) <= 1 ==> (r matches Err(e) && e.is_dimensions()) && *final(g)
            == *old(g),
        (n as int) * (d as int) > 1 ==> r is Ok,
        r matches Ok(m)
            ==> m@.len() == n && forall|i: int| 0 <= i < n ==> (#[trigger] m@[i])@.len() == d,
        r matches Ok(m) ==> forall|i: int, j: int|
            0 <= i < n && 0 <= j < d
                ==> #[trigger] m@[i]@[j] == xoshi_out_at(old(g).xoshi@, i * d + j),
        r is Ok ==> final(g).xoshi@ == xoshi_iter(old(g).xoshi@, (n * d) as nat),
        final(g).seed == old(g).seed,
{
    crate::ranvv_u64(g, n, d)
}

/// `n` vectors of `d` `u16` values each.
pub fn ranvvu16(g: &mut RanState, d: usize, n: usize) -> (r: Result<Vec<Vec<u16>>, Re>)
    ensures
        (n as int) * (d as int) <= 1 ==> (r matches Err(e) && e.is_dimensions()) && *final(g)
            == *old(g),
        (n as int) * (d as int) > 1 ==> r is Ok,
        r matches Ok(m)
            ==> m@.len() == n && forall|i: int| 0 <= i < n ==> (#[trigger] m@[i])@.len() == d,
        r matches Ok(m) ==> forall|i: int, j: int|
            0 <= i < n && 0 <= j < d
                ==> #[trigger] m@[i]@[j] == top_bits(xoshi_out_at(old(g).xoshi@, i * d + j), 16),
        r is Ok ==> final(g).xoshi@ == xoshi_iter(old(g).xoshi@, (n * d) as nat),
        final(g).seed == old(g).seed,
{
    crate::ranvv_u16(g, n, d)
}

/// `n` vectors of `d` `u8` values each.
pub fn ranvvu8(g: &mut RanState, d: usize, n: usize) -> (r: Result<Vec<Vec<u8>>, Re>)
    ensures
        (n as int) * (d as int) <= 1 ==> (r matches Err(e) && e.is_dimensions()) && *final(g)
            == *old(g),
        (n as int) * (d as int) > 1 ==> r is Ok,
        r matches Ok(m)
            ==> m@.len() == n && forall|i: int| 0 <= i < n ==> (#[trigger] m@[i])@.len() == d,
        r matches Ok(m) ==> forall|i: int, j: int|
            0 <= i < n && 0 <= j < d
                ==> #[trigger] m@[i]@[j] == top_bits(xoshi_out_at(old(g).xoshi@, i * d + j), 8),
        r is Ok ==> final(g).xoshi@ == xoshi_iter(old(g).xoshi@, (n * d) as nat),
        final(g).seed == old(g).seed,
{
    crate::ranvv_u8(g, n, d)
}

/// `n` vectors of `d` `i64` values each.
pub fn ranvvi64(g: &mut RanState, d: usize, n: usize) -> (r: Result<Vec<Vec<i64>>, Re>)
    ensures
        (n as int) * (d as int) <= 1 ==> (r matches Err(e) && e.is_dimensions()) && *final(g)
            == *old(g),
        (n as int) * (d as int) > 1 ==> r is Ok,
        r matches Ok(m)
            ==> m@.len() == n && forall|i: int| 0 <= i < n ==> (#[trigger] m@[i])@.len() == d,
        r matches Ok(m) ==> forall|i: int, j: int|
            0 <= i < n && 0 <= j < d
                ==> #[trigger] m@[i]@[j] == xoshi_out_at(old(g).xoshi@, i * d + j) as i64,
        r is Ok ==> final(g).xoshi@ == xoshi_iter(old(g).xoshi@, (n * d) as nat),
        final(g).seed == old(g).seed,
{
    crate::ranvv_i64(g, n, d)
}

/// `n` vectors of `d` `i64` values in `[min, max]` each.
pub fn ranvvi64_in(
    g: &mut RanState,
    d: usize,
    n: usize,
    min: i64,
    max: i64,
) -> (r: Result<Vec<Vec<i64>>, Re>)
    ensures
        (n as int) * (d as int) <= 1 ==> (r matches Err(e) && e.is_dimensions()) && *final(g)
            == *old(g),
        (n as int) * (d as int) > 1 && !valid_irange(min, max)
            ==> (r matches Err(e) && e.is_range()) && *final(g) == *old(g),
        (n as int) * (d as int) > 1 && valid_irange(min, max) ==> r is Ok,
        r matches Ok(m)
            ==> m@.len() == n && forall|i: int| 0 <= i < n ==> (#[trigger] m@[i])@.len() == d,
        r matches Ok(m) ==> forall|i: int, j: int|
            0 <= i < n && 0 <= j < d
                ==> #[trigger] m@[i]@[j]
                    == irange_of(xoshi_out_at(old(g).xoshi@, i * d + j), min, max),
        r is Ok ==> final(g).xoshi@ == xoshi_iter(old(g).xoshi@, (n * d) as nat),
        final(g).seed == old(g).seed,
{
    crate::ranvv_i64_range(g, n, d, min, max)
}

/// A `u64` in the inclusive range `[min, max]` from one xoshiro256** output;
/// the range must be valid.
pub fn ran_urange(g: &mut RanState, min: u64, max: u64) -> (r: u64)
    requires
        valid_urange(min, max),
    ensures
        r == urange_of(xoshi_u64(old(g).xoshi@), min, max),
        min <= r <= max,
        final(g).xoshi@ == xoshi_next(old(g).xoshi@),
        final(g).seed == old(g).seed,
{
    map_urange(crate::ran_u64(g), min, max)
}

/// An `i64` in the inclusive range `[min, max]` from one xoshiro256** output;
/// the range must be valid.
pub fn ran_irange(g: &mut RanState, min: i64, max: i64) -> (r: i64)
    requires
        valid_irange(min, max),
    ensures
        r == irange_of(xoshi_u64(old(g).xoshi@), min, max),
        min <= r <= max,
        final(g).xoshi@ == xoshi_next(old(g).xoshi@),
        final(g).seed == old(g).seed,
{
    map_irange(crate::ran_u64(g), min, max)
}

} // verus!
