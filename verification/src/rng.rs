//! The linear congruential generator behind the game's randomness.
//!
//! The generator state is a `u64` seed. Each draw advances the seed by
//! `seed * RNG_MULTIPLIER + RNG_INCREMENT` modulo 2^64 and hands out the top
//! 31 bits of the new seed, which the caller scales to a fraction.
//!
//! The step is a bijection on seeds with full period 2^64 (the increment is
//! odd and the multiplier is 1 modulo 4); `lemma_seed_period` and
//! `lemma_step_bijective` prove it from the closed form of `n` steps.

use vstd::prelude::*;
use vstd::arithmetic::power2::{pow2, lemma2_to64, lemma_pow2_adds, lemma_pow2_pos, lemma_pow2_unfold};

verus! {

/// The multiplier of the generator (Knuth's MMIX constant).
pub const RNG_MULTIPLIER: u64 = 6364136223846793005;

/// The increment of the generator.
pub const RNG_INCREMENT: u64 = 1442695040888963407;

/// The seed the generator starts from.
pub const RNG_INITIAL_SEED: u64 = 987654321;

/// 2^64, the modulus of all seed arithmetic.
pub open spec fn seed_modulus() -> int {
    0x1_0000_0000_0000_0000
}

/// One step of the generator: `(seed * multiplier + increment) mod 2^64`.
#[verifier::opaque]
pub open spec fn lcg_step(seed: int) -> int {
    (seed * RNG_MULTIPLIER + RNG_INCREMENT) % seed_modulus()
}

/// The bits a seed hands out: its top 31 bits, `seed / 2^33`.
pub open spec fn top_bits(seed: u64) -> int {
    seed as int / 0x2_0000_0000
}

/// Advances the generator by one step.
pub fn next_seed(seed: u64) -> (next: u64)
    ensures
        next == lcg_step(seed as int),
{
    let m: u64 = seed.wrapping_mul(RNG_MULTIPLIER);
    let next: u64 = m.wrapping_add(RNG_INCREMENT);
    proof {
        reveal(lcg_step);
        let r: int = seed_modulus();
        let p: int = seed * RNG_MULTIPLIER;
        assert(m == p % r);
        vstd::arithmetic::div_mod::lemma_add_mod_noop(p, RNG_INCREMENT as int, r);
        vstd::arithmetic::div_mod::lemma_small_mod(RNG_INCREMENT as nat, r as nat);
        assert(0 <= m < r);
        if m + RNG_INCREMENT >= r {
            vstd::arithmetic::div_mod::lemma_mod_sub_multiples_vanish(
                (m + RNG_INCREMENT) as int, r);
            vstd::arithmetic::div_mod::lemma_small_mod((m + RNG_INCREMENT - r) as nat, r as nat);
        } else {
            vstd::arithmetic::div_mod::lemma_small_mod((m + RNG_INCREMENT) as nat, r as nat);
        }
    }
    next
}

/// The bits that a draw hands out for a seed: its top 31 bits.
pub fn seed_bits(seed: u64) -> (bits: u32)
    ensures
        bits == top_bits(seed),
        bits < 0x8000_0000,
        bits * 0x2_0000_0000 <= seed,
        seed < (bits + 1) * 0x2_0000_0000,
{
    assert(seed >> 33u64 == seed / 0x2_0000_0000 && seed >> 33u64 < 0x8000_0000) by (bit_vector);
    let bits = (seed >> 33u64) as u32;
    proof {
        lemma_top_bits_bounds(seed);
    }
    bits
}

/// The bits a seed hands out are its top 31 bits: the one number `t` below
/// 2^31 with `t * 2^33 <= seed < (t + 1) * 2^33`.
pub proof fn lemma_top_bits_bounds(seed: u64)
    ensures
        0 <= top_bits(seed) < 0x8000_0000,
        top_bits(seed) * 0x2_0000_0000 <= seed,
        seed < (top_bits(seed) + 1) * 0x2_0000_0000,
{
    vstd::arithmetic::div_mod::lemma_fundamental_div_mod(seed as int, 0x2_0000_0000);
}

/// The seed after `n` steps of the generator from `seed`.
pub open spec fn seed_after(seed: int, n: nat) -> int
    decreases n,
{
    if n == 0 {
        seed
    } else {
        lcg_step(seed_after(seed, (n - 1) as nat))
    }
}

/// `multiplier^n`.
spec fn mult_pow(n: nat) -> int
    decreases n,
{
    if n == 0 {
        1
    } else {
        RNG_MULTIPLIER * mult_pow((n - 1) as nat)
    }
}

/// `1 + multiplier + ... + multiplier^(n-1)`.
spec fn mult_geo(n: nat) -> int
    decreases n,
{
    if n == 0 {
        0
    } else {
        RNG_MULTIPLIER * mult_geo((n - 1) as nat) + 1
    }
}

/// `multiplier^n - 1 == (multiplier - 1) * geo(n)`, with the parities that
/// the period needs: `multiplier^n` is 1 modulo 4 and `geo(n)` has the
/// parity of `n`.
proof fn lemma_pow_geo(n: nat)
    ensures
        mult_pow(n) - 1 == (RNG_MULTIPLIER - 1) * mult_geo(n),
        mult_pow(n) % 4 == 1,
        mult_pow(n) >= 1,
        mult_geo(n) >= 0,
        mult_geo(n) % 2 == n % 2,
    decreases n,
{
    if n > 0 {
        let m = (n - 1) as nat;
        lemma_pow_geo(m);
        let p = mult_pow(m);
        let g = mult_geo(m);
        let a = RNG_MULTIPLIER as int;
        assert(a * p - 1 == (a - 1) * (a * g + 1)) by (nonlinear_arith)
            requires
                p - 1 == (a - 1) * g,
        ;
        assert((a * p) % 4 == 1 && a * p >= 1) by (nonlinear_arith)
            requires
                p % 4 == 1,
                p >= 1,
                a % 4 == 1,
                a > 0,
        ;
        let half = a / 2;
        assert(a * g + 1 == 2 * (half * g) + (g + 1) && a * g + 1 >= 0) by (nonlinear_arith)
            requires
                a == 2 * half + 1,
                a > 0,
                g >= 0,
        ;
        vstd::arithmetic::div_mod::lemma_mod_multiples_vanish(half * g, g + 1, 2);
    }
}

/// The closed form of `n` steps: `multiplier^n * seed + increment * geo(n)`,
/// modulo 2^64.
proof fn lemma_seed_after_closed(seed: int, n: nat)
    requires
        0 <= seed < seed_modulus(),
    ensures
        seed_after(seed, n) == (mult_pow(n) * seed + RNG_INCREMENT * mult_geo(n)) % seed_modulus(),
    decreases n,
{
    let r = seed_modulus();
    if n == 0 {
        vstd::arithmetic::div_mod::lemma_small_mod(seed as nat, r as nat);
    } else {
        let m = (n - 1) as nat;
        lemma_seed_after_closed(seed, m);
        let a = RNG_MULTIPLIER as int;
        let c = RNG_INCREMENT as int;
        let x = mult_pow(m) * seed + c * mult_geo(m);
        reveal(lcg_step);
        assert(seed_after(seed, n) == ((x % r) * a + c) % r);
        vstd::arithmetic::div_mod::lemma_mul_mod_noop_left(x, a, r);
        vstd::arithmetic::div_mod::lemma_add_mod_noop((x % r) * a, c, r);
        vstd::arithmetic::div_mod::lemma_add_mod_noop(x * a, c, r);
        assert(x * a + c == mult_pow(n) * seed + c * mult_geo(n)) by (nonlinear_arith)
            requires
                x == mult_pow(m) * seed + c * mult_geo(m),
                mult_pow(n) == a * mult_pow(m),
                mult_geo(n) == a * mult_geo(m) + 1,
        ;
    }
}

/// `geo(m + j) == geo(m) + multiplier^m * geo(j)`.
proof fn lemma_geo_add(m: nat, j: nat)
    ensures
        mult_geo(m + j) == mult_geo(m) + mult_pow(m) * mult_geo(j),
    decreases j,
{
    if j > 0 {
        let j1 = (j - 1) as nat;
        lemma_geo_add(m, j1);
        lemma_pow_geo(m);
        let a = RNG_MULTIPLIER as int;
        let gm = mult_geo(m);
        let pm = mult_pow(m);
        let gj1 = mult_geo(j1);
        assert(mult_geo(m + j) == a * mult_geo((m + j1) as nat) + 1);
        assert(a * (gm + pm * gj1) + 1 == gm + pm * (a * gj1 + 1)) by (nonlinear_arith)
            requires
                pm - 1 == (a - 1) * gm,
        ;
    }
}

/// The product of two positive odd numbers is positive and odd.
proof fn lemma_odd_product(x: int, y: int)
    requires
        x % 2 == 1,
        y % 2 == 1,
        x > 0,
        y > 0,
    ensures
        (x * y) % 2 == 1,
        x * y > 0,
{
    vstd::arithmetic::div_mod::lemma_mul_mod_noop(x, y, 2);
    vstd::arithmetic::mul::lemma_mul_strictly_positive(x, y);
}

/// For `n >= 1`, `n` and `geo(n)` hold the same power of two: `n == 2^k * o`
/// and `geo(n) == 2^k * u` with `o` and `u` odd.
proof fn lemma_geo_valuation(n: nat) -> (r: (nat, int, int))
    requires
        n >= 1,
    ensures
        n == pow2(r.0) * r.1,
        mult_geo(n) == pow2(r.0) * r.2,
        r.1 % 2 == 1,
        r.2 % 2 == 1,
        r.1 > 0,
        r.2 > 0,
    decreases n,
{
    lemma2_to64();
    lemma_pow_geo(n);
    if n % 2 == 1 {
        assert(pow2(0) * n == n);
        assert(pow2(0) * mult_geo(n) == mult_geo(n));
        (0, n as int, mult_geo(n))
    } else {
        let m = n / 2;
        let (k, o, u) = lemma_geo_valuation(m);
        lemma_geo_add(m, m);
        lemma_pow_geo(m);
        lemma_pow2_unfold(k + 1);
        let q = mult_pow(m) / 4;
        let odd = 2 * q + 1;
        assert(1 + mult_pow(m) == 2 * odd);
        assert(q >= 0);
        assert(odd % 2 == 1) by {
            vstd::arithmetic::div_mod::lemma_mod_multiples_vanish(q, 1, 2);
        }
        lemma_odd_product(u, odd);
        let g = mult_geo(m);
        assert(mult_geo(n) == g * (1 + mult_pow(m))) by (nonlinear_arith)
            requires
                mult_geo(n) == g + mult_pow(m) * g,
        ;
        assert(mult_geo(n) == pow2(k + 1) * (u * odd)) by (nonlinear_arith)
            requires
                mult_geo(n) == g * (2 * odd),
                g == pow2(k) * u,
                pow2(k + 1) == 2 * pow2(k),
        ;
        assert(n == pow2(k + 1) * o) by (nonlinear_arith)
            requires
                n == 2 * m,
                m == pow2(k) * o,
                pow2(k + 1) == 2 * pow2(k),
        ;
        let k1 = (k + 1) as nat;
        assert(n == pow2(k1) * o);
        assert(mult_geo(n) == pow2(k1) * (u * odd));
        (k1, o, u * odd)
    }
}

/// `2^k` times an odd number is a multiple of 2^64 exactly when `k >= 64`.
proof fn lemma_pow2_odd_multiple(k: nat, o: int)
    requires
        o % 2 == 1,
        o > 0,
    ensures
        (pow2(k) * o) % seed_modulus() == 0 <==> k >= 64,
{
    lemma2_to64();
    let r = seed_modulus();
    if k >= 64 {
        lemma_pow2_adds(64, (k - 64) as nat);
        assert(pow2(k) * o == (pow2((k - 64) as nat) * o) * r) by (nonlinear_arith)
            requires
                pow2(k) == pow2(64) * pow2((k - 64) as nat),
                pow2(64) == r,
        ;
        vstd::arithmetic::div_mod::lemma_mod_multiples_basic(pow2((k - 64) as nat) * o, r);
    } else {
        let x = pow2(k) * o;
        if x % r == 0 {
            let t = x / r;
            vstd::arithmetic::div_mod::lemma_fundamental_div_mod(x, r);
            let e = (64 - k) as nat;
            lemma_pow2_adds(k, e);
            lemma_pow2_unfold(e);
            lemma_pow2_pos(k);
            let h = pow2((e - 1) as nat) as int;
            assert(o == 2 * (h * t)) by (nonlinear_arith)
                requires
                    x == pow2(k) * o,
                    x == r * t,
                    r == pow2(k) * pow2(e),
                    pow2(e) == 2 * h,
                    pow2(k) > 0,
            ;
            vstd::arithmetic::div_mod::lemma_mod_multiples_basic(h * t, 2);
            assert(false);
        }
    }
}

/// For a seed below `r`, adding `d >= 0` keeps it modulo `r` exactly when
/// `d` is a multiple of `r`.
proof fn lemma_add_keeps_mod(s: int, d: int, r: int)
    requires
        0 <= s < r,
        d >= 0,
    ensures
        (s + d) % r == s <==> d % r == 0,
{
    vstd::arithmetic::div_mod::lemma_add_mod_noop(s, d, r);
    vstd::arithmetic::div_mod::lemma_small_mod(s as nat, r as nat);
    let e = d % r;
    assert(0 <= e < r);
    if s + e < r {
        vstd::arithmetic::div_mod::lemma_small_mod((s + e) as nat, r as nat);
    } else {
        vstd::arithmetic::div_mod::lemma_mod_sub_multiples_vanish(s + e, r);
        vstd::arithmetic::div_mod::lemma_small_mod((s + e - r) as nat, r as nat);
    }
}

/// The generator has full period 2^64: from any seed, `n` steps lead back to
/// that seed exactly when `n` is a multiple of 2^64.
pub proof fn lemma_seed_period(seed: u64, n: nat)
    ensures
        seed_after(seed as int, n) == seed <==> (n as int) % seed_modulus() == 0,
{
    let r = seed_modulus();
    let s = seed as int;
    if n >= 1 {
        lemma_seed_after_closed(s, n);
        lemma_pow_geo(n);
        let a = RNG_MULTIPLIER as int;
        let c = RNG_INCREMENT as int;
        let p = mult_pow(n);
        let g = mult_geo(n);
        let w = (a - 1) * s + c;
        assert(w % 2 == 1 && w > 0) by {
            vstd::arithmetic::div_mod::lemma_mul_mod_noop(a - 1, s, 2);
            vstd::arithmetic::div_mod::lemma_add_mod_noop((a - 1) * s, c, 2);
            assert((a - 1) * s >= 0) by (nonlinear_arith)
                requires
                    a >= 1,
                    s >= 0,
            ;
        }
        let (k, o, u) = lemma_geo_valuation(n);
        lemma_odd_product(u, w);
        assert(p * s + c * g == s + pow2(k) * (u * w)) by (nonlinear_arith)
            requires
                p - 1 == (a - 1) * g,
                g == pow2(k) * u,
                w == (a - 1) * s + c,
        ;
        assert(pow2(k) * (u * w) >= 0) by (nonlinear_arith)
            requires
                u * w > 0,
        ;
        lemma_add_keeps_mod(s, pow2(k) * (u * w), r);
        lemma_pow2_odd_multiple(k, u * w);
        lemma_pow2_odd_multiple(k, o);
    }
}

/// One step, then `n` more, is `n + 1` steps.
proof fn lemma_seed_after_shift(seed: int, n: nat)
    ensures
        seed_after(seed, n + 1) == seed_after(lcg_step(seed), n),
    decreases n,
{
    if n > 0 {
        let n1 = (n - 1) as nat;
        lemma_seed_after_shift(seed, n1);
        assert(seed_after(seed, n + 1) == lcg_step(seed_after(seed, n)));
        assert(seed_after(lcg_step(seed), n) == lcg_step(seed_after(lcg_step(seed), n1)));
    } else {
        assert(seed_after(seed, 1) == lcg_step(seed_after(seed, 0)));
    }
}

/// The step of the generator is a bijection on seeds: no two seeds step to
/// the same seed, and every seed is the step of the seed `2^64 - 1` steps
/// after it.
pub proof fn lemma_step_bijective(a: u64, b: u64)
    ensures
        lcg_step(a as int) == lcg_step(b as int) ==> a == b,
        0 <= seed_after(b as int, (seed_modulus() - 1) as nat) <= u64::MAX,
        lcg_step(seed_after(b as int, (seed_modulus() - 1) as nat)) == b,
{
    let m = (seed_modulus() - 1) as nat;
    reveal(lcg_step);
    vstd::arithmetic::div_mod::lemma_mod_self_0(seed_modulus());
    lemma_seed_period(a, m + 1);
    lemma_seed_period(b, m + 1);
    lemma_seed_after_shift(a as int, m);
    lemma_seed_after_shift(b as int, m);
}

} // verus!
