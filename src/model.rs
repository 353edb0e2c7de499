//! Mathematical model of the generators: every step of every algorithm as a
//! spec function over plain 64-bit words.
use vstd::prelude::*;

verus! {

/// Increment added to the scalar seed by each splitmix64 call.
pub const GOLDEN_GAMMA: u64 = 0x9e3779b97f4a7c15;

/// First multiplier of the splitmix64 finaliser.
pub const MIX_MUL1: u64 = 0xbf58476d1ce4e5b9;

/// Second multiplier of the splitmix64 finaliser.
pub const MIX_MUL2: u64 = 0x94d049bb133111eb;

/// Addition modulo 2^64.
pub open spec fn add64(a: u64, b: u64) -> u64 {
    ((a as nat + b as nat) % 0x1_0000_0000_0000_0000nat) as u64
}

/// Multiplication modulo 2^64.
pub open spec fn mul64(a: u64, b: u64) -> u64 {
    ((a as nat * b as nat) % 0x1_0000_0000_0000_0000nat) as u64
}

/// Left rotation of a 64-bit word by `k` bits, `0 < k < 64`.
pub open spec fn rotl64(x: u64, k: u64) -> u64 {
    (x << k) | (x >> (64 - k) as u64)
}

/// The splitmix64 finaliser applied to an already incremented seed.
pub open spec fn mix64(z: u64) -> u64 {
    let a = mul64(z ^ (z >> 30u64), MIX_MUL1);
    let b = mul64(a ^ (a >> 27u64), MIX_MUL2);
    b ^ (b >> 31u64)
}

/// The scalar seed after one splitmix64 call.
pub open spec fn splitmix_seed(seed: u64) -> u64 {
    add64(seed, GOLDEN_GAMMA)
}

/// The output of one splitmix64 call on the scalar seed `seed`.
pub open spec fn splitmix_out(seed: u64) -> u64 {
    mix64(splitmix_seed(seed))
}

/// The scalar seed after `k` successive splitmix64 calls.
pub open spec fn splitmix_seed_iter(seed: u64, k: nat) -> u64
    decreases k,
{
    if k == 0 {
        seed
    } else {
        splitmix_seed(splitmix_seed_iter(seed, (k - 1) as nat))
    }
}

/// The four xoshiro256 words derived from `seed` by four splitmix64 calls.
pub open spec fn seeded_xoshi(seed: u64) -> Seq<u64> {
    seq![
        splitmix_out(seed),
        splitmix_out(splitmix_seed_iter(seed, 1)),
        splitmix_out(splitmix_seed_iter(seed, 2)),
        splitmix_out(splitmix_seed_iter(seed, 3)),
    ]
}

/// The scalar seed left behind by seeding with `seed`.
pub open spec fn seeded_seed(seed: u64) -> u64 {
    splitmix_seed_iter(seed, 4)
}

/// One step of the xorshift scalar generator (shifts 13, 7, 17).
pub open spec fn xorshift_next(s: u64) -> u64 {
    let a = s ^ (s << 13u64);
    let b = a ^ (a >> 7u64);
    b ^ (b << 17u64)
}

/// The scalar seed after `k` xorshift steps.
pub open spec fn xorshift_iter(s: u64, k: nat) -> u64
    decreases k,
{
    if k == 0 {
        s
    } else {
        xorshift_next(xorshift_iter(s, (k - 1) as nat))
    }
}

/// Stepping `a` times and then `b` times is stepping `a + b` times.
pub proof fn lemma_xorshift_iter_add(s: u64, a: nat, b: nat)
    ensures
        xorshift_iter(xorshift_iter(s, a), b) == xorshift_iter(s, a + b),
    decreases b,
{
    if b > 0 {
        lemma_xorshift_iter_add(s, a, (b - 1) as nat);
    }
}

/// The 53-bit numerator `n` of the value `n / 2^53` in [0,1) taken from a word.
pub open spec fn unit_of(w: u64) -> u64 {
    w >> 11u64
}

/// One state advance of the xoshiro256 generator.
pub open spec fn xoshi_next(s: Seq<u64>) -> Seq<u64> {
    let t = s[1] << 17u64;
    let x2 = s[2] ^ s[0];
    let x3 = s[3] ^ s[1];
    let x1 = s[1] ^ x2;
    let x0 = s[0] ^ x3;
    seq![x0, x1, x2 ^ t, rotl64(x3, 45)]
}

/// The xoshiro256 state after `k` advances.
pub open spec fn xoshi_iter(s: Seq<u64>, k: nat) -> Seq<u64>
    decreases k,
{
    if k == 0 {
        s
    } else {
        xoshi_next(xoshi_iter(s, (k - 1) as nat))
    }
}

/// The 64-bit output (xoshiro256**) computed from a state before its advance.
pub open spec fn xoshi_u64(s: Seq<u64>) -> u64 {
    mul64(rotl64(mul64(s[1], 5), 7), 9)
}

/// The [0,1) numerator (xoshiro256+) computed from a state before its advance.
pub open spec fn xoshi_unit(s: Seq<u64>) -> u64 {
    unit_of(add64(s[0], s[3]))
}

/// The top `bits` bits of a word, `1 <= bits <= 64`.
pub open spec fn top_bits(w: u64, bits: u64) -> u64 {
    w >> (64 - bits) as u64
}

/// An inclusive unsigned range `[lo, hi]` whose size fits in a `u64`.
pub open spec fn valid_urange(lo: u64, hi: u64) -> bool {
    lo <= hi && hi - lo < u64::MAX
}

/// An inclusive signed range `[lo, hi]` whose size fits in a `u64`.
pub open spec fn valid_irange(lo: i64, hi: i64) -> bool {
    lo <= hi && hi - lo < u64::MAX
}

/// A raw word mapped into `[lo, hi]` by reduction modulo the range's size.
pub open spec fn urange_of(raw: u64, lo: u64, hi: u64) -> u64 {
    (lo + (raw as int) % (hi - lo + 1)) as u64
}

/// A raw word mapped into the signed range `[lo, hi]` by reduction modulo its size.
pub open spec fn irange_of(raw: u64, lo: i64, hi: i64) -> i64 {
    (lo + (raw as int) % (hi - lo + 1)) as i64
}

/// The `k`-th xoshiro256** output from the state `s`.
pub open spec fn xoshi_out_at(s: Seq<u64>, k: int) -> u64 {
    xoshi_u64(xoshi_iter(s, k as nat))
}

/// The `k`-th xoshiro256+ numerator from the state `s`.
pub open spec fn xoshi_unit_at(s: Seq<u64>, k: int) -> u64 {
    xoshi_unit(xoshi_iter(s, k as nat))
}

/// Advancing `a` times and then `b` times is advancing `a + b` times.
pub proof fn lemma_xoshi_iter_add(s: Seq<u64>, a: nat, b: nat)
    ensures
        xoshi_iter(xoshi_iter(s, a), b) == xoshi_iter(s, a + b),
    decreases b,
{
    if b > 0 {
        lemma_xoshi_iter_add(s, a, (b - 1) as nat);
    }
}

/// A shape of `n` rows of `d` holds at most one element exactly when a
/// dimension is zero or both are one.
pub proof fn lemma_small_shape(n: int, d: int)
    requires
        n >= 0,
        d >= 0,
    ensures
        (n * d <= 1) == (n == 0 || d == 0 || (n == 1 && d == 1)),
{
    if n >= 1 && d >= 1 && !(n == 1 && d == 1) {
        assert(n * d >= 2) by (nonlinear_arith)
            requires
                n >= 1,
                d >= 1,
                n >= 2 || d >= 2,
        ;
    }
    if n == 0 || d == 0 {
        assert(n * d == 0) by (nonlinear_arith)
            requires
                n == 0 || d == 0,
        ;
    }
}

} // verus!
