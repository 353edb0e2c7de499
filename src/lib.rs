//! Fast, deterministic pseudo-random number generation: a xorshift scalar
//! generator, a xoshiro256 four-word generator seeded by splitmix64, range
//! mapping, and filling of vectors and matrices.
use vstd::prelude::*;

pub mod error;
pub mod generators;
pub mod impls;
pub mod model;
pub mod random;

use crate::error::dims_message;
pub use crate::error::{rerror, RanError, Re};
use crate::model::{
    irange_of, lemma_small_shape, lemma_xoshi_iter_add, seeded_seed, seeded_xoshi,
    splitmix_out, splitmix_seed, splitmix_seed_iter, top_bits, unit_of, urange_of, valid_irange,
    valid_urange, xorshift_iter, xorshift_next, xoshi_iter, xoshi_next, xoshi_out_at, xoshi_u64,
    xoshi_unit, xoshi_unit_at, GOLDEN_GAMMA, MIX_MUL1, MIX_MUL2,
};

verus! {

/// The state of one generator context: a scalar seed, shared by splitmix64
/// and the xorshift generator, and the four words of the xoshiro256 generator.
#[derive(Clone, Debug, PartialEq, Eq)]
pub struct RanState {
    /// Scalar seed.
    pub seed: u64,
    /// The four xoshiro256 words, in order.
    pub xoshi: [u64; 4],
}

/// Simple splitmix64 generator: advances the scalar seed by the golden gamma
/// and returns the mixed value. Used to derive the xoshiro256 words.
pub fn splitmix(g: &mut RanState) -> (r: u64)
    ensures
        final(g).seed == splitmix_seed(old(g).seed),
        final(g).xoshi == old(g).xoshi,
        r == splitmix_out(old(g).seed),
{
    let mut z = g.seed.wrapping_add(GOLDEN_GAMMA);
    g.seed = z;
    z = (z ^ (z >> 30)).wrapping_mul(MIX_MUL1);
    z = (z ^ (z >> 27)).wrapping_mul(MIX_MUL2);
    z ^ (z >> 31)
}

/// A clock reading that, used as a base seed, would leave the scalar seed at
/// zero after the four splitmix64 calls of seeding.
pub const ZERO_AFTER_SEEDING: u64 = 0x8722191a02d60fac;

/// Relies on `std::time::SystemTime::elapsed` of `UNIX_EPOCH`: nanoseconds
/// since the epoch, truncated to 64 bits; 0 where the clock stands before it.
#[verifier::external_body]
fn clock_nanos() -> (r: u64) {
    match std::time::UNIX_EPOCH.elapsed() {
        Ok(d) => d.as_nanos() as u64,
        Err(_) => 0,
    }
}

impl RanState {
    /// A fresh context, seeded from the clock.
    pub fn new() -> (r: RanState)
        ensures
            exists|base: u64|
                r.seed == seeded_seed(base) && r.xoshi@ == seeded_xoshi(base),
            r.seed != 0,
    {
        let mut g = RanState { seed: 0, xoshi: [0, 0, 0, 0] };
        set_seeds(&mut g, 0);
        g
    }
}

/// The current scalar seed, for reproducing a sequence later.
pub fn get_seed(g: &RanState) -> (r: u64)
    ensures
        r == g.seed,
{
    g.seed
}

/// Seeds the context. A nonzero `seed` becomes the base seed; zero asks for
/// an unpredictable base seed taken from the clock. The scalar seed and the
/// four xoshiro256 words are then derived by four splitmix64 calls.
pub fn set_seeds(g: &mut RanState, seed: u64)
    ensures
        seed != 0 ==> final(g).seed == seeded_seed(seed) && final(g).xoshi@ == seeded_xoshi(seed),
        seed == 0 ==> exists|base: u64|
            final(g).seed == seeded_seed(base) && final(g).xoshi@ == seeded_xoshi(base),
        seed == 0 ==> final(g).seed != 0,
{
    let mut base = seed;
    if base == 0 {
        base = clock_nanos();
        // a zero scalar seed would hold the xorshift generator at zero
        if base == ZERO_AFTER_SEEDING {
            base = base + 1;
        }
    }
    g.seed = base;
    let a = splitmix(g);
    let b = splitmix(g);
    let c = splitmix(g);
    let d = splitmix(g);
    put_xoshi(g, &[a, b, c, d]);
    proof {
        reveal_with_fuel(splitmix_seed_iter, 5);
        assert(g.xoshi@ =~= seeded_xoshi(base));
        if seed == 0 {
            lemma_seeded_seed_nonzero(base);
        }
    }
}

/// Only the base seed `ZERO_AFTER_SEEDING` leaves a zero scalar seed behind.
proof fn lemma_seeded_seed_nonzero(base: u64)
    requires
        base != ZERO_AFTER_SEEDING,
    ensures
        seeded_seed(base) != 0,
{
    reveal_with_fuel(splitmix_seed_iter, 5);
    let m = 0x1_0000_0000_0000_0000nat;
    assert(seeded_seed(base) == (base as nat + 4 * (GOLDEN_GAMMA as nat)) % m);
}

/// Determinism: two contexts that `set_seeds` left with the same nonzero
/// seed hold the same state, so the same calls on them give the same
/// xoshiro256 outputs and the same xorshift seeds, element for element.
pub proof fn lemma_seeding_determines_outputs(a: RanState, b: RanState, s: u64, k: nat)
    requires
        s != 0,
        a.seed == seeded_seed(s) && a.xoshi@ == seeded_xoshi(s),
        b.seed == seeded_seed(s) && b.xoshi@ == seeded_xoshi(s),
    ensures
        a.seed == b.seed,
        a.xoshi@ == b.xoshi@,
        forall|i: int|
            0 <= i < k ==> #[trigger] xoshi_out_at(a.xoshi@, i) == xoshi_out_at(b.xoshi@, i)
                && xoshi_unit_at(a.xoshi@, i) == xoshi_unit_at(b.xoshi@, i),
        forall|i: nat| i < k ==> #[trigger] xorshift_iter(a.seed, i) == xorshift_iter(b.seed, i),
{
}

/// Range containment: every raw word maps into a valid inclusive range,
/// unsigned or signed.
pub proof fn lemma_range_containment(raw: u64, ulo: u64, uhi: u64, ilo: i64, ihi: i64)
    ensures
        valid_urange(ulo, uhi) ==> ulo <= urange_of(raw, ulo, uhi) <= uhi,
        valid_irange(ilo, ihi) ==> ilo <= irange_of(raw, ilo, ihi) <= ihi,
{
    if valid_urange(ulo, uhi) {
        let span = uhi - ulo + 1;
        assert(0 <= (raw as int) % span < span) by (nonlinear_arith)
            requires
                span > 0,
        ;
    }
    if valid_irange(ilo, ihi) {
        let span = ihi - ilo + 1;
        assert(0 <= (raw as int) % span < span) by (nonlinear_arith)
            requires
                span > 0,
        ;
    }
}

/// The four xoshiro256 words, read at once.
pub fn get_xoshi(g: &RanState) -> (r: [u64; 4])
    ensures
        r@ == g.xoshi@,
{
    g.xoshi
}

/// Replaces the four xoshiro256 words at once.
pub fn put_xoshi(g: &mut RanState, seeds: &[u64; 4])
    ensures
        final(g).xoshi@ == seeds@,
        final(g).seed == old(g).seed,
{
    g.xoshi = *seeds;
}

/// One state advance of the xoshiro256 generator.
pub fn xoshi_step(s: &mut [u64; 4])
    ensures
        final(s)@ == xoshi_next(old(s)@),
{
    let t = s[1] << 17;
    s[2] ^= s[0];
    s[3] ^= s[1];
    s[1] ^= s[2];
    s[0] ^= s[3];
    s[2] ^= t;
    s[3] = (s[3] << 45) | (s[3] >> 19);
    assert(s@ =~= xoshi_next(old(s)@));
}

/// The xoshiro256** generator: a full-range `u64` computed from the current
/// words, which then advance.
pub fn ran_u64(g: &mut RanState) -> (r: u64)
    ensures
        r == xoshi_u64(old(g).xoshi@),
        final(g).xoshi@ == xoshi_next(old(g).xoshi@),
        final(g).seed == old(g).seed,
{
    let mut s = get_xoshi(g);
    let m = s[1].wrapping_mul(5);
    let result = ((m << 7) | (m >> 57)).wrapping_mul(9);
    xoshi_step(&mut s);
    put_xoshi(g, &s);
    result
}


/// Top `bits` bits of a xoshiro256** output, for narrower unsigned types;
/// `bits` is between 1 and 64.
pub fn ran_ubits(g: &mut RanState, bits: u8) -> (r: u64)
    requires
        1 <= bits <= 64,
    ensures
        r == top_bits(xoshi_u64(old(g).xoshi@), bits as u64),
        final(g).xoshi@ == xoshi_next(old(g).xoshi@),
        final(g).seed == old(g).seed,
{
    ran_u64(g) >> (64 - bits)
}

/// A `u8` in [0,255]: the top 8 bits of a xoshiro256** output.
pub fn ran_u8(g: &mut RanState) -> (r: u8)
    ensures
        r == top_bits(xoshi_u64(old(g).xoshi@), 8),
        final(g).xoshi@ == xoshi_next(old(g).xoshi@),
        final(g).seed == old(g).seed,
{
    let ghost x = xoshi_u64(g.xoshi@);
    let w = ran_ubits(g, 8);
    assert(w < 256) by (bit_vector)
        requires
            w == x >> 56u64,
    ;
    w as u8
}

/// A `u16` in [0,65535]: the top 16 bits of a xoshiro256** output.
pub fn ran_u16(g: &mut RanState) -> (r: u16)
    ensures
        r == top_bits(xoshi_u64(old(g).xoshi@), 16),
        final(g).xoshi@ == xoshi_next(old(g).xoshi@),
        final(g).seed == old(g).seed,
{
    let ghost x = xoshi_u64(g.xoshi@);
    let w = ran_ubits(g, 16);
    assert(w < 65536) by (bit_vector)
        requires
            w == x >> 48u64,
    ;
    w as u16
}

/// An `i64`: a xoshiro256** output reinterpreted as signed.
pub fn ran_i64(g: &mut RanState) -> (r: i64)
    ensures
        r == xoshi_u64(old(g).xoshi@) as i64,
        final(g).xoshi@ == xoshi_next(old(g).xoshi@),
        final(g).seed == old(g).seed,
{
    ran_u64(g) as i64
}

/// The xorshift scalar generator (shifts 13, 7, 17) on the scalar seed.
/// Returns the numerator `n < 2^53` of the value `n / 2^53` in [0,1).
pub fn ran_fast_unit(g: &mut RanState) -> (r: u64)
    ensures
        final(g).seed == xorshift_next(old(g).seed),
        final(g).xoshi == old(g).xoshi,
        r == unit_of(final(g).seed),
        r < 0x20_0000_0000_0000,
{
    let mut seed = g.seed;
    seed ^= seed << 13;
    seed ^= seed >> 7;
    seed ^= seed << 17;
    g.seed = seed;
    assert(seed >> 11u64 < 0x20_0000_0000_0000u64) by (bit_vector);
    seed >> 11
}

/// The xoshiro256+ generator: the numerator `n < 2^53` of the value
/// `n / 2^53` in [0,1), computed from the current words, which then advance.
pub fn ran_unit(g: &mut RanState) -> (r: u64)
    ensures
        r == xoshi_unit(old(g).xoshi@),
        r < 0x20_0000_0000_0000,
        final(g).xoshi@ == xoshi_next(old(g).xoshi@),
        final(g).seed == old(g).seed,
{
    let mut s = get_xoshi(g);
    let w = s[0].wrapping_add(s[3]);
    assert(w >> 11u64 < 0x20_0000_0000_0000u64) by (bit_vector);
    let result = w >> 11;
    xoshi_step(&mut s);
    put_xoshi(g, &s);
    result
}

/// Maps a raw word into the inclusive range `[lo, hi]`:
/// `raw % (1 + hi - lo) + lo`. The modulo bias of spans that are not powers
/// of two is kept as it is.
pub fn map_urange(raw: u64, lo: u64, hi: u64) -> (r: u64)
    requires
        valid_urange(lo, hi),
    ensures
        r == urange_of(raw, lo, hi),
        lo <= r <= hi,
{
    let span = hi - lo + 1;
    let m = raw % span;
    assert(m < span) by (nonlinear_arith)
        requires
            m == raw % span,
            span > 0,
    ;
    m + lo
}

/// Maps a raw word into the signed inclusive range `[lo, hi]`: the span
/// `1 + (hi - lo)` is taken as unsigned, and `raw % span` is added to `lo`.
pub fn map_irange(raw: u64, lo: i64, hi: i64) -> (r: i64)
    requires
        valid_irange(lo, hi),
    ensures
        r == irange_of(raw, lo, hi),
        lo <= r <= hi,
{
    // hi - lo, computed without leaving the integer types
    let diff: u64 = if lo >= 0 {
        hi as u64 - lo as u64
    } else if hi < 0 {
        (hi - lo) as u64
    } else {
        hi as u64 + (-(lo + 1)) as u64 + 1
    };
    let span = 1 + diff;
    let m = raw % span;
    assert(m < span) by (nonlinear_arith)
        requires
            m == raw % span,
            span > 0,
    ;
    // lo + m, which lies in [lo, hi]
    if lo >= 0 {
        (lo as u64 + m) as i64
    } else if m <= i64::MAX as u64 {
        lo + m as i64
    } else {
        (lo + i64::MAX) + (m - i64::MAX as u64) as i64
    }
}

/// A `u64` in the inclusive range `[lo, hi]` from one xoshiro256** output.
/// Fails with a `Range` error, leaving the state as it was, where `lo > hi`
/// or the range spans all of `u64`.
pub fn ran_u64_range(g: &mut RanState, lo: u64, hi: u64) -> (r: Result<u64, Re>)
    ensures
        valid_urange(lo, hi) ==> r == Ok::<u64, Re>(urange_of(xoshi_u64(old(g).xoshi@), lo, hi))
            && final(g).xoshi@ == xoshi_next(old(g).xoshi@),
        !valid_urange(lo, hi) ==> (r matches Err(e) && e.is_range()) && *final(g) == *old(g),
        r matches Ok(v) ==> lo <= v <= hi,
        final(g).seed == old(g).seed,
{
    if lo > hi || hi - lo == u64::MAX {
        rerror("range", "ran_u64_range: empty or full range".to_string())
    } else {
        Ok(map_urange(ran_u64(g), lo, hi))
    }
}

/// An `i64` in the inclusive range `[lo, hi]` from one xoshiro256** output.
/// Fails with a `Range` error, leaving the state as it was, where `lo > hi`
/// or the range spans all of `i64`.
pub fn ran_i64_range(g: &mut RanState, lo: i64, hi: i64) -> (r: Result<i64, Re>)
    ensures
        valid_irange(lo, hi) ==> r == Ok::<i64, Re>(irange_of(xoshi_u64(old(g).xoshi@), lo, hi))
            && final(g).xoshi@ == xoshi_next(old(g).xoshi@),
        !valid_irange(lo, hi) ==> (r matches Err(e) && e.is_range()) && *final(g) == *old(g),
        r matches Ok(v) ==> lo <= v <= hi,
        final(g).seed == old(g).seed,
{
    if lo > hi || (lo == i64::MIN && hi == i64::MAX) {
        rerror("range", "ran_i64_range: empty or full range".to_string())
    } else {
        Ok(map_irange(ran_u64(g), lo, hi))
    }
}


/// A vector of `d` full-range `u64` values (xoshiro256**), one generator call each, in order.
/// Fails with a `Dimensions` error where `d` is zero, leaving the state as it was.
pub fn ranv_u64(g: &mut RanState, d: usize) -> (r: Result<Vec<u64>, Re>)
    ensures
        d == 0 ==> (r matches Err(e) && e.is_dimensions()) && *final(g) == *old(g),
        d > 0 ==> r is Ok,
        r matches Ok(v) ==> v@.len() == d && forall|k: int|
            0 <= k < d ==> v@[k] == #[trigger] xoshi_out_at(old(g).xoshi@, k),
        r is Ok ==> final(g).xoshi@ == xoshi_iter(old(g).xoshi@, d as nat),
        final(g).seed == old(g).seed,
{
    if d == 0 {
        return rerror("dimensions", "ranv_u64: zero size".to_string());
    }
    let ghost s0 = g.xoshi@;
    let mut v: Vec<u64> = Vec::with_capacity(d);
    let mut i: usize = 0;
    while i < d
        invariant
            i <= d,
            v@.len() == i,
            g.seed == old(g).seed,
            g.xoshi@ == xoshi_iter(s0, i as nat),
            forall|k: int| 0 <= k < i ==> v@[k] == #[trigger] xoshi_out_at(s0, k),
        decreases d - i,
    {
        let x = ran_u64(g);
        v.push(x);
        i += 1;
    }
    Ok(v)
}

/// A vector of `d` `u16` values in [0,65535], the top 16 bits of xoshiro256** outputs, one
/// generator call each, in order.
/// Fails with a `Dimensions` error where `d` is zero, leaving the state as it was.
pub fn ranv_u16(g: &mut RanState, d: usize) -> (r: Result<Vec<u16>, Re>)
    ensures
        d == 0 ==> (r matches Err(e) && e.is_dimensions()) && *final(g) == *old(g),
        d > 0 ==> r is Ok,
        r matches Ok(v) ==> v@.len() == d && forall|k: int|
            0 <= k < d ==> v@[k] == #[trigger] top_bits(xoshi_out_at(old(g).xoshi@, k), 16),
        r is Ok ==> final(g).xoshi@ == xoshi_iter(old(g).xoshi@, d as nat),
        final(g).seed == old(g).seed,
{
    if d == 0 {
        return rerror("dimensions", "ranv_u16: zero size".to_string());
    }
    let ghost s0 = g.xoshi@;
    let mut v: Vec<u16> = Vec::with_capacity(d);
    let mut i: usize = 0;
    while i < d
        invariant
            i <= d,
            v@.len() == i,
            g.seed == old(g).seed,
            g.xoshi@ == xoshi_iter(s0, i as nat),
            forall|k: int| 0 <= k < i ==> v@[k] == #[trigger] top_bits(xoshi_out_at(s0, k), 16),
        decreases d - i,
    {
        let x = ran_u16(g);
        v.push(x);
        i += 1;
    }
    Ok(v)
}

/// A vector of `d` `u8` values in [0,255], the top 8 bits of xoshiro256** outputs, one generator
/// call each, in order.
/// Fails with a `Dimensions` error where `d` is zero, leaving the state as it was.
pub fn ranv_u8(g: &mut RanState, d: usize) -> (r: Result<Vec<u8>, Re>)
    ensures
        d == 0 ==> (r matches Err(e) && e.is_dimensions()) && *final(g) == *old(g),
        d > 0 ==> r is Ok,
        r matches Ok(v) ==> v@.len() == d && forall|k: int|
            0 <= k < d ==> v@[k] == #[trigger] top_bits(xoshi_out_at(old(g).xoshi@, k), 8),
        r is Ok ==> final(g).xoshi@ == xoshi_iter(old(g).xoshi@, d as nat),
        final(g).seed == old(g).seed,
{
    if d == 0 {
        return rerror("dimensions", "ranv_u8: zero size".to_string());
    }
    let ghost s0 = g.xoshi@;
    let mut v: Vec<u8> = Vec::with_capacity(d);
    let mut i: usize = 0;
    while i < d
        invariant
            i <= d,
            v@.len() == i,
            g.seed == old(g).seed,
            g.xoshi@ == xoshi_iter(s0, i as nat),
            forall|k: int| 0 <= k < i ==> v@[k] == #[trigger] top_bits(xoshi_out_at(s0, k), 8),
        decreases d - i,
    {
        let x = ran_u8(g);
        v.push(x);
        i += 1;
    }
    Ok(v)
}

/// A vector of `d` `i64` values, xoshiro256** outputs reinterpreted as signed, one generator call
/// each, in order.
/// Fails with a `Dimensions` error where `d` is zero, leaving the state as it was.
pub fn ranv_i64(g: &mut RanState, d: usize) -> (r: Result<Vec<i64>, Re>)
    ensures
        d == 0 ==> (r matches Err(e) && e.is_dimensions()) && *final(g) == *old(g),
        d > 0 ==> r is Ok,
        r matches Ok(v) ==> v@.len() == d && forall|k: int|
            0 <= k < d ==> v@[k] == #[trigger] xoshi_out_at(old(g).xoshi@, k) as i64,
        r is Ok ==> final(g).xoshi@ == xoshi_iter(old(g).xoshi@, d as nat),
        final(g).seed == old(g).seed,
{
    if d == 0 {
        return rerror("dimensions", "ranv_i64: zero size".to_string());
    }
    let ghost s0 = g.xoshi@;
    let mut v: Vec<i64> = Vec::with_capacity(d);
    let mut i: usize = 0;
    while i < d
        invariant
            i <= d,
            v@.len() == i,
            g.seed == old(g).seed,
            g.xoshi@ == xoshi_iter(s0, i as nat),
            forall|k: int| 0 <= k < i ==> v@[k] == #[trigger] xoshi_out_at(s0, k) as i64,
        decreases d - i,
    {
        let x = ran_i64(g);
        v.push(x);
        i += 1;
    }
    Ok(v)
}

/// A vector of `d` numerators `n < 2^53` of values `n / 2^53` in [0,1) (xoshiro256+), one generator
/// call each, in order.
/// Fails with a `Dimensions` error where `d` is zero, leaving the state as it was.
pub fn ranv_unit(g: &mut RanState, d: usize) -> (r: Result<Vec<u64>, Re>)
    ensures
        d == 0 ==> (r matches Err(e) && e.is_dimensions()) && *final(g) == *old(g),
        d > 0 ==> r is Ok,
        r matches Ok(v) ==> v@.len() == d && forall|k: int|
            0 <= k < d ==> v@[k] == #[trigger] xoshi_unit_at(old(g).xoshi@, k),
        r is Ok ==> final(g).xoshi@ == xoshi_iter(old(g).xoshi@, d as nat),
        final(g).seed == old(g).seed,
{
    if d == 0 {
        return rerror("dimensions", "ranv_unit: zero size".to_string());
    }
    let ghost s0 = g.xoshi@;
    let mut v: Vec<u64> = Vec::with_capacity(d);
    let mut i: usize = 0;
    while i < d
        invariant
            i <= d,
            v@.len() == i,
            g.seed == old(g).seed,
            g.xoshi@ == xoshi_iter(s0, i as nat),
            forall|k: int| 0 <= k < i ==> v@[k] == #[trigger] xoshi_unit_at(s0, k),
        decreases d - i,
    {
        let x = ran_unit(g);
        v.push(x);
        i += 1;
    }
    Ok(v)
}

/// A vector of `d` `u64` values in the inclusive range `[lo, hi]`, one generator call each, in
/// order.
/// Fails with a `Dimensions` error where `d` is zero and with a `Range` error where the range is
/// empty or spans the whole type, leaving the state as it was.
pub fn ranv_u64_range(g: &mut RanState, d: usize, lo: u64, hi: u64) -> (r: Result<Vec<u64>, Re>)
    ensures
        d == 0 ==> (r matches Err(e) && e.is_dimensions()) && *final(g) == *old(g),
        d > 0 && !valid_urange(lo, hi)
            ==> (r matches Err(e) && e.is_range()) && *final(g) == *old(g),
        d > 0 && valid_urange(lo, hi) ==> r is Ok,
        r matches Ok(v) ==> v@.len() == d && forall|k: int|
            0 <= k < d ==> v@[k] == #[trigger] urange_of(xoshi_out_at(old(g).xoshi@, k), lo, hi),
        r is Ok ==> final(g).xoshi@ == xoshi_iter(old(g).xoshi@, d as nat),
        final(g).seed == old(g).seed,
{
    if d == 0 {
        return rerror("dimensions", "ranv_u64_range: zero size".to_string());
    } else if lo > hi || hi - lo == u64::MAX {
        return rerror("range", "ranv_u64_range: empty or full range".to_string());
    }
    let ghost s0 = g.xoshi@;
    let mut v: Vec<u64> = Vec::with_capacity(d);
    let mut i: usize = 0;
    while i < d
        invariant
            i <= d,
            valid_urange(lo, hi),
            v@.len() == i,
            g.seed == old(g).seed,
            g.xoshi@ == xoshi_iter(s0, i as nat),
            forall|k: int| 0 <= k < i
                ==> v@[k] == #[trigger] urange_of(xoshi_out_at(s0, k), lo, hi),
        decreases d - i,
    {
        let x = map_urange(ran_u64(g), lo, hi);
        v.push(x);
        i += 1;
    }
    Ok(v)
}

/// A vector of `d` `i64` values in the inclusive range `[lo, hi]`, one generator call each, in
/// order.
/// Fails with a `Dimensions` error where `d` is zero and with a `Range` error where the range is
/// empty or spans the whole type, leaving the state as it was.
pub fn ranv_i64_range(g: &mut RanState, d: usize, lo: i64, hi: i64) -> (r: Result<Vec<i64>, Re>)
    ensures
        d == 0 ==> (r matches Err(e) && e.is_dimensions()) && *final(g) == *old(g),
        d > 0 && !valid_irange(lo, hi)
            ==> (r matches Err(e) && e.is_range()) && *final(g) == *old(g),
        d > 0 && valid_irange(lo, hi) ==> r is Ok,
        r matches Ok(v) ==> v@.len() == d && forall|k: int|
            0 <= k < d ==> v@[k] == #[trigger] irange_of(xoshi_out_at(old(g).xoshi@, k), lo, hi),
        r is Ok ==> final(g).xoshi@ == xoshi_iter(old(g).xoshi@, d as nat),
        final(g).seed == old(g).seed,
{
    if d == 0 {
        return rerror("dimensions", "ranv_i64_range: zero size".to_string());
    } else if lo > hi || (lo == i64::MIN && hi == i64::MAX) {
        return rerror("range", "ranv_i64_range: empty or full range".to_string());
    }
    let ghost s0 = g.xoshi@;
    let mut v: Vec<i64> = Vec::with_capacity(d);
    let mut i: usize = 0;
    while i < d
        invariant
            i <= d,
            valid_irange(lo, hi),
            v@.len() == i,
            g.seed == old(g).seed,
            g.xoshi@ == xoshi_iter(s0, i as nat),
            forall|k: int| 0 <= k < i
                ==> v@[k] == #[trigger] irange_of(xoshi_out_at(s0, k), lo, hi),
        decreases d - i,
    {
        let x = map_irange(ran_u64(g), lo, hi);
        v.push(x);
        i += 1;
    }
    Ok(v)
}


/// `n` vectors of `d` full-range `u64` values each, filled row after row.
/// Fails with a `Dimensions` error where `n * d <= 1`, leaving the state as it was.
pub fn ranvv_u64(g: &mut RanState, n: usize, d: usize) -> (r: Result<Vec<Vec<u64>>, Re>)
    ensures
        (n as int) * (d as int) <= 1 ==> (r matches Err(e) && e.is_dimensions()) && *final(g)
            == *old(g),
        (n as int) * (d as int) > 1 ==> r is Ok,
        r matches Ok(m)
            ==> m@.len() == n && forall|i: int| 0 <= i < n ==> (#[trigger] m@[i])@.len() == d,
        r matches Ok(m) ==> forall|i: int, j: int|
            0 <= i < n && 0 <= j < d
                ==> #[trigger] m@[i]@[j] == xoshi_out_at(old(g).xoshi@, i * d + j),
        r is Ok ==> final(g).xoshi@ == xoshi_iter(old(g).xoshi@, (n * d) as nat),
        final(g).seed == old(g).seed,
{
    proof {
        lemma_small_shape(n as int, d as int);
    }
    if n == 0 || d == 0 || (n == 1 && d == 1) {
        return rerror("dimensions", dims_message("ranvv_u64", d, n));
    }
    let ghost s0 = g.xoshi@;
    let mut m: Vec<Vec<u64>> = Vec::with_capacity(n);
    let mut i: usize = 0;
    while i < n
        invariant
            i <= n,
            d > 0,
            m@.len() == i,
            g.seed == old(g).seed,
            g.xoshi@ == xoshi_iter(s0, (i * d) as nat),
            forall|k: int| 0 <= k < i ==> (#[trigger] m@[k])@.len() == d,
            forall|k: int, j: int|
                0 <= k < i && 0 <= j < d ==> #[trigger] m@[k]@[j] == xoshi_out_at(s0, k * d + j),
        decreases n - i,
    {
        let ghost si = g.xoshi@;
        let row = match ranv_u64(g, d) {
            Ok(v) => v,
            Err(e) => return Err(e),
        };
        proof {
            assert forall|j: int| 0 <= j < d implies row@[j] == xoshi_out_at(s0, i * d + j) by {
                assert(row@[j] == xoshi_out_at(si, j));
                lemma_xoshi_iter_add(s0, (i * d) as nat, j as nat);
            }
            lemma_xoshi_iter_add(s0, (i * d) as nat, d as nat);
            assert((i + 1) * d == i * d + d) by (nonlinear_arith);
        }
        m.push(row);
        i += 1;
    }
    Ok(m)
}

/// `n` vectors of `d` `u16` values in [0,65535] each, filled row after row.
/// Fails with a `Dimensions` error where `n * d <= 1`, leaving the state as it was.
pub fn ranvv_u16(g: &mut RanState, n: usize, d: usize) -> (r: Result<Vec<Vec<u16>>, Re>)
    ensures
        (n as int) * (d as int) <= 1 ==> (r matches Err(e) && e.is_dimensions()) && *final(g)
            == *old(g),
        (n as int) * (d as int) > 1 ==> r is Ok,
        r matches Ok(m)
            ==> m@.len() == n && forall|i: int| 0 <= i < n ==> (#[trigger] m@[i])@.len() == d,
        r matches Ok(m) ==> forall|i: int, j: int|
            0 <= i < n && 0 <= j < d
                ==> #[trigger] m@[i]@[j] == top_bits(xoshi_out_at(old(g).xoshi@, i * d + j), 16),
        r is Ok ==> final(g).xoshi@ == xoshi_iter(old(g).xoshi@, (n * d) as nat),
        final(g).seed == old(g).seed,
{
    proof {
        lemma_small_shape(n as int, d as int);
    }
    if n == 0 || d == 0 || (n == 1 && d == 1) {
        return rerror("dimensions", dims_message("ranvv_u16", d, n));
    }
    let ghost s0 = g.xoshi@;
    let mut m: Vec<Vec<u16>> = Vec::with_capacity(n);
    let mut i: usize = 0;
    while i < n
        invariant
            i <= n,
            d > 0,
            m@.len() == i,
            g.seed == old(g).seed,
            g.xoshi@ == xoshi_iter(s0, (i * d) as nat),
            forall|k: int| 0 <= k < i ==> (#[trigger] m@[k])@.len() == d,
            forall|k: int, j: int|
                0 <= k < i && 0 <= j < d
                    ==> #[trigger] m@[k]@[j] == top_bits(xoshi_out_at(s0, k * d + j), 16),
        decreases n - i,
    {
        let ghost si = g.xoshi@;
        let row = match ranv_u16(g, d) {
            Ok(v) => v,
            Err(e) => return Err(e),
        };
        proof {
            assert forall|j: int| 0 <= j < d
                implies row@[j] == top_bits(xoshi_out_at(s0, i * d + j), 16) by {
                assert(row@[j] == top_bits(xoshi_out_at(si, j), 16));
                lemma_xoshi_iter_add(s0, (i * d) as nat, j as nat);
            }
            lemma_xoshi_iter_add(s0, (i * d) as nat, d as nat);
            assert((i + 1) * d == i * d + d) by (nonlinear_arith);
        }
        m.push(row);
        i += 1;
    }
    Ok(m)
}

/// `n` vectors of `d` `u8` values in [0,255] each, filled row after row.
/// Fails with a `Dimensions` error where `n * d <= 1`, leaving the state as it was.
pub fn ranvv_u8(g: &mut RanState, n: usize, d: usize) -> (r: Result<Vec<Vec<u8>>, Re>)
    ensures
        (n as int) * (d as int) <= 1 ==> (r matches Err(e) && e.is_dimensions()) && *final(g)
            == *old(g),
        (n as int) * (d as int) > 1 ==> r is Ok,
        r matches Ok(m)
            ==> m@.len() == n && forall|i: int| 0 <= i < n ==> (#[trigger] m@[i])@.len() == d,
        r matches Ok(m) ==> forall|i: int, j: int|
            0 <= i < n && 0 <= j < d
                ==> #[trigger] m@[i]@[j] == top_bits(xoshi_out_at(old(g).xoshi@, i * d + j), 8),
        r is Ok ==> final(g).xoshi@ == xoshi_iter(old(g).xoshi@, (n * d) as nat),
        final(g).seed == old(g).seed,
{
    proof {
        lemma_small_shape(n as int, d as int);
    }
    if n == 0 || d == 0 || (n == 1 && d == 1) {
        return rerror("dimensions", dims_message("ranvv_u8", d, n));
    }
    let ghost s0 = g.xoshi@;
    let mut m: Vec<Vec<u8>> = Vec::with_capacity(n);
    let mut i: usize = 0;
    while i < n
        invariant
            i <= n,
            d > 0,
            m@.len() == i,
            g.seed == old(g).seed,
            g.xoshi@ == xoshi_iter(s0, (i * d) as nat),
            forall|k: int| 0 <= k < i ==> (#[trigger] m@[k])@.len() == d,
            forall|k: int, j: int|
                0 <= k < i && 0 <= j < d
                    ==> #[trigger] m@[k]@[j] == top_bits(xoshi_out_at(s0, k * d + j), 8),
        decreases n - i,
    {
        let ghost si = g.xoshi@;
        let row = match ranv_u8(g, d) {
            Ok(v) => v,
            Err(e) => return Err(e),
        };
        proof {
            assert forall|j: int| 0 <= j < d
                implies row@[j] == top_bits(xoshi_out_at(s0, i * d + j), 8) by {
                assert(row@[j] == top_bits(xoshi_out_at(si, j), 8));
                lemma_xoshi_iter_add(s0, (i * d) as nat, j as nat);
            }
            lemma_xoshi_iter_add(s0, (i * d) as nat, d as nat);
            assert((i + 1) * d == i * d + d) by (nonlinear_arith);
        }
        m.push(row);
        i += 1;
    }
    Ok(m)
}

/// `n` vectors of `d` `i64` values each, filled row after row.
/// Fails with a `Dimensions` error where `n * d <= 1`, leaving the state as it was.
pub fn ranvv_i64(g: &mut RanState, n: usize, d: usize) -> (r: Result<Vec<Vec<i64>>, Re>)
    ensures
        (n as int) * (d as int) <= 1 ==> (r matches Err(e) && e.is_dimensions()) && *final(g)
            == *old(g),
        (n as int) * (d as int) > 1 ==> r is Ok,
        r matches Ok(m)
            ==> m@.len() == n && forall|i: int| 0 <= i < n ==> (#[trigger] m@[i])@.len() == d,
        r matches Ok(m) ==> forall|i: int, j: int|
            0 <= i < n && 0 <= j < d
                ==> #[trigger] m@[i]@[j] == xoshi_out_at(old(g).xoshi@, i * d + j) as i64,
        r is Ok ==> final(g).xoshi@ == xoshi_iter(old(g).xoshi@, (n * d) as nat),
        final(g).seed == old(g).seed,
{
    proof {
        lemma_small_shape(n as int, d as int);
    }
    if n == 0 || d == 0 || (n == 1 && d == 1) {
        return rerror("dimensions", dims_message("ranvv_i64", d, n));
    }
    let ghost s0 = g.xoshi@;
    let mut m: Vec<Vec<i64>> = Vec::with_capacity(n);
    let mut i: usize = 0;
    while i < n
        invariant
            i <= n,
            d > 0,
            m@.len() == i,
            g.seed == old(g).seed,
            g.xoshi@ == xoshi_iter(s0, (i * d) as nat),
            forall|k: int| 0 <= k < i ==> (#[trigger] m@[k])@.len() == d,
            forall|k: int, j: int|
                0 <= k < i && 0 <= j < d
                    ==> #[trigger] m@[k]@[j] == xoshi_out_at(s0, k * d + j) as i64,
        decreases n - i,
    {
        let ghost si = g.xoshi@;
        let row = match ranv_i64(g, d) {
            Ok(v) => v,
            Err(e) => return Err(e),
        };
        proof {
            assert forall|j: int| 0 <= j < d
                implies row@[j] == xoshi_out_at(s0, i * d + j) as i64 by {
                assert(row@[j] == xoshi_out_at(si, j) as i64);
                lemma_xoshi_iter_add(s0, (i * d) as nat, j as nat);
            }
            lemma_xoshi_iter_add(s0, (i * d) as nat, d as nat);
            assert((i + 1) * d == i * d + d) by (nonlinear_arith);
        }
        m.push(row);
        i += 1;
    }
    Ok(m)
}

/// `n` vectors of `d` numerators of values in [0,1) (xoshiro256+) each, filled row after row.
/// Fails with a `Dimensions` error where `n * d <= 1`, leaving the state as it was.
pub fn ranvv_unit(g: &mut RanState, n: usize, d: usize) -> (r: Result<Vec<Vec<u64>>, Re>)
    ensures
        (n as int) * (d as int) <= 1 ==> (r matches Err(e) && e.is_dimensions()) && *final(g)
            == *old(g),
        (n as int) * (d as int) > 1 ==> r is Ok,
        r matches Ok(m)
            ==> m@.len() == n && forall|i: int| 0 <= i < n ==> (#[trigger] m@[i])@.len() == d,
        r matches Ok(m) ==> forall|i: int, j: int|
            0 <= i < n && 0 <= j < d
                ==> #[trigger] m@[i]@[j] == xoshi_unit_at(old(g).xoshi@, i * d + j),
        r is Ok ==> final(g).xoshi@ == xoshi_iter(old(g).xoshi@, (n * d) as nat),
        final(g).seed == old(g).seed,
{
    proof {
        lemma_small_shape(n as int, d as int);
    }
    if n == 0 || d == 0 || (n == 1 && d == 1) {
        return rerror("dimensions", dims_message("ranvv_unit", d, n));
    }
    let ghost s0 = g.xoshi@;
    let mut m: Vec<Vec<u64>> = Vec::with_capacity(n);
    let mut i: usize = 0;
    while i < n
        invariant
            i <= n,
            d > 0,
            m@.len() == i,
            g.seed == old(g).seed,
            g.xoshi@ == xoshi_iter(s0, (i * d) as nat),
            forall|k: int| 0 <= k < i ==> (#[trigger] m@[k])@.len() == d,
            forall|k: int, j: int|
                0 <= k < i && 0 <= j < d ==> #[trigger] m@[k]@[j] == xoshi_unit_at(s0, k * d + j),
        decreases n - i,
    {
        let ghost si = g.xoshi@;
        let row = match ranv_unit(g, d) {
            Ok(v) => v,
            Err(e) => return Err(e),
        };
        proof {
            assert forall|j: int| 0 <= j < d implies row@[j] == xoshi_unit_at(s0, i * d + j) by {
                assert(row@[j] == xoshi_unit_at(si, j));
                lemma_xoshi_iter_add(s0, (i * d) as nat, j as nat);
            }
            lemma_xoshi_iter_add(s0, (i * d) as nat, d as nat);
            assert((i + 1) * d == i * d + d) by (nonlinear_arith);
        }
        m.push(row);
        i += 1;
    }
    Ok(m)
}

/// `n` vectors of `d` `u64` values in the inclusive range `[lo, hi]` each, filled row after row.
/// Fails with a `Dimensions` error where `n * d <= 1` and with a `Range` error where the range is
/// empty or spans the whole type, leaving the state as it was.
pub fn ranvv_u64_range(
    g: &mut RanState,
    n: usize,
    d: usize,
    lo: u64,
    hi: u64,
) -> (r: Result<Vec<Vec<u64>>, Re>)
    ensures
        (n as int) * (d as int) <= 1 ==> (r matches Err(e) && e.is_dimensions()) && *final(g)
            == *old(g),
        (n as int) * (d as int) > 1 && !valid_urange(lo, hi)
            ==> (r matches Err(e) && e.is_range()) && *final(g) == *old(g),
        (n as int) * (d as int) > 1 && valid_urange(lo, hi) ==> r is Ok,
        r matches Ok(m)
            ==> m@.len() == n && forall|i: int| 0 <= i < n ==> (#[trigger] m@[i])@.len() == d,
        r matches Ok(m) ==> forall|i: int, j: int|
            0 <= i < n && 0 <= j < d
                ==> #[trigger] m@[i]@[j]
                    == urange_of(xoshi_out_at(old(g).xoshi@, i * d + j), lo, hi),
        r is Ok ==> final(g).xoshi@ == xoshi_iter(old(g).xoshi@, (n * d) as nat),
        final(g).seed == old(g).seed,
{
    proof {
        lemma_small_shape(n as int, d as int);
    }
    if n == 0 || d == 0 || (n == 1 && d == 1) {
        return rerror("dimensions", dims_message("ranvv_u64_range", d, n));
    } else if lo > hi || hi - lo == u64::MAX {
        return rerror("range", "ranvv_u64_range: empty or full range".to_string());
    }
    let ghost s0 = g.xoshi@;
    let mut m: Vec<Vec<u64>> = Vec::with_capacity(n);
    let mut i: usize = 0;
    while i < n
        invariant
            i <= n,
            d > 0,
            valid_urange(lo, hi),
            m@.len() == i,
            g.seed == old(g).seed,
            g.xoshi@ == xoshi_iter(s0, (i * d) as nat),
            forall|k: int| 0 <= k < i ==> (#[trigger] m@[k])@.len() == d,
            forall|k: int, j: int|
                0 <= k < i && 0 <= j < d
                    ==> #[trigger] m@[k]@[j] == urange_of(xoshi_out_at(s0, k * d + j), lo, hi),
        decreases n - i,
    {
        let ghost si = g.xoshi@;
        let row = match ranv_u64_range(g, d, lo, hi) {
            Ok(v) => v,
            Err(e) => return Err(e),
        };
        proof {
            assert forall|j: int| 0 <= j < d
                implies row@[j] == urange_of(xoshi_out_at(s0, i * d + j), lo, hi) by {
                assert(row@[j] == urange_of(xoshi_out_at(si, j), lo, hi));
                lemma_xoshi_iter_add(s0, (i * d) as nat, j as nat);
            }
            lemma_xoshi_iter_add(s0, (i * d) as nat, d as nat);
            assert((i + 1) * d == i * d + d) by (nonlinear_arith);
        }
        m.push(row);
        i += 1;
    }
    Ok(m)
}

/// `n` vectors of `d` `i64` values in the inclusive range `[lo, hi]` each, filled row after row.
/// Fails with a `Dimensions` error where `n * d <= 1` and with a `Range` error where the range is
/// empty or spans the whole type, leaving the state as it was.
pub fn ranvv_i64_range(
    g: &mut RanState,
    n: usize,
    d: usize,
    lo: i64,
    hi: i64,
) -> (r: Result<Vec<Vec<i64>>, Re>)
    ensures
        (n as int) * (d as int) <= 1 ==> (r matches Err(e) && e.is_dimensions()) && *final(g)
            == *old(g),
        (n as int) * (d as int) > 1 && !valid_irange(lo, hi)
            ==> (r matches Err(e) && e.is_range()) && *final(g) == *old(g),
        (n as int) * (d as int) > 1 && valid_irange(lo, hi) ==> r is Ok,
        r matches Ok(m)
            ==> m@.len() == n && forall|i: int| 0 <= i < n ==> (#[trigger] m@[i])@.len() == d,
        r matches Ok(m) ==> forall|i: int, j: int|
            0 <= i < n && 0 <= j < d
                ==> #[trigger] m@[i]@[j]
                    == irange_of(xoshi_out_at(old(g).xoshi@, i * d + j), lo, hi),
        r is Ok ==> final(g).xoshi@ == xoshi_iter(old(g).xoshi@, (n * d) as nat),
        final(g).seed == old(g).seed,
{
    proof {
        lemma_small_shape(n as int, d as int);
    }
    if n == 0 || d == 0 || (n == 1 && d == 1) {
        return rerror("dimensions", dims_message("ranvv_i64_range", d, n));
    } else if lo > hi || (lo == i64::MIN && hi == i64::MAX) {
        return rerror("range", "ranvv_i64_range: empty or full range".to_string());
    }
    let ghost s0 = g.xoshi@;
    let mut m: Vec<Vec<i64>> = Vec::with_capacity(n);
    let mut i: usize = 0;
    while i < n
        invariant
            i <= n,
            d > 0,
            valid_irange(lo, hi),
            m@.len() == i,
            g.seed == old(g).seed,
            g.xoshi@ == xoshi_iter(s0, (i * d) as nat),
            forall|k: int| 0 <= k < i ==> (#[trigger] m@[k])@.len() == d,
            forall|k: int, j: int|
                0 <= k < i && 0 <= j < d
                    ==> #[trigger] m@[k]@[j] == irange_of(xoshi_out_at(s0, k * d + j), lo, hi),
        decreases n - i,
    {
        let ghost si = g.xoshi@;
        let row = match ranv_i64_range(g, d, lo, hi) {
            Ok(v) => v,
            Err(e) => return Err(e),
        };
        proof {
            assert forall|j: int| 0 <= j < d
                implies row@[j] == irange_of(xoshi_out_at(s0, i * d + j), lo, hi) by {
                assert(row@[j] == irange_of(xoshi_out_at(si, j), lo, hi));
                lemma_xoshi_iter_add(s0, (i * d) as nat, j as nat);
            }
            lemma_xoshi_iter_add(s0, (i * d) as nat, d as nat);
            assert((i + 1) * d == i * d + d) by (nonlinear_arith);
        }
        m.push(row);
        i += 1;
    }
    Ok(m)
}

} // verus!
