//! Seeded deterministic random sources.
//!
//! Two interchangeable algorithms: a 48-bit linear-congruential generator
//! with the classic seed scrambling and multiply-add-shift sequence, and a
//! 128-bit xoroshiro generator (two 64-bit words, fixed-point seed mixing,
//! rotate/xor/shift update). Every executable step is pinned to a spec-level
//! model of the same bit mixing, so a state determines the whole output
//! sequence; that model is what the determinism contracts speak of.

use vstd::prelude::*;

verus! {

pub const LCG_MULT: u64 = 0x5DEECE66D;
pub const LCG_ADD: u64 = 0xB;
pub const LCG_MASK: u64 = 0xFFFF_FFFF_FFFF;
pub const SILVER_RATIO: u64 = 0x6A09E667F3BCC909;
pub const GOLDEN_RATIO: u64 = 0x9E3779B97F4A7C15;

/// How many extra draws a bounded draw may reject before it settles for the
/// last remainder; each rejection has probability below one half, so the cap
/// is unreachable in practice and only bounds the loop.
pub const REJECT_FUEL: u64 = 63;

// ------------------------------------------------------------------
// Legacy 48-bit linear-congruential generator
// ------------------------------------------------------------------

/// State of the legacy generator: 48 significant bits.
#[derive(Clone, Copy, PartialEq, Eq, Structural, Debug)]
pub struct LegacyRand {
    pub seed: u64,
}

pub open spec fn lcg_wf(s: u64) -> bool {
    s <= LCG_MASK
}

/// Seed scrambling applied once when a legacy state is created.
pub open spec fn lcg_scramble(seed: u64) -> u64 {
    (seed ^ LCG_MULT) & LCG_MASK
}

/// One multiply-add step of the congruence, kept to 48 bits.
pub open spec fn lcg_step(s: u64) -> u64 {
    ((s * LCG_MULT + LCG_ADD) % 0x1_0000_0000_0000) as u64
}

/// The upper `bits` bits of the next state: the raw output of one draw.
pub open spec fn lcg_out(s: u64, bits: u32) -> u32
    recommends
        1 <= bits <= 32,
{
    ((lcg_step(s) >> ((48 - bits) as u64)) & 0xFFFF_FFFF) as u32
}

proof fn lemma_lcg_out_range(s: u64, bits: u32)
    by (bit_vector)
    requires
        1 <= bits <= 32,
    ensures
        (((((s * LCG_MULT + LCG_ADD) % 0x1_0000_0000_0000) as u64 >> ((48 - bits) as u64)) & 0xFFFF_FFFF) as u32)
            < (1u64 << (bits as u64)),
{
}

impl LegacyRand {
    pub open spec fn wf(self) -> bool {
        lcg_wf(self.seed)
    }

    pub fn from_seed(seed: u64) -> (r: LegacyRand)
        ensures
            r.seed == lcg_scramble(seed),
            r.wf(),
    {
        proof {
            assert((seed ^ LCG_MULT) & LCG_MASK <= LCG_MASK) by (bit_vector);
        }
        LegacyRand { seed: (seed ^ LCG_MULT) & LCG_MASK }
    }

    /// Advance once and return the top `bits` bits of the new state.
    pub fn next_bits(&mut self, bits: u32) -> (r: u32)
        requires
            1 <= bits <= 32,
            old(self).wf(),
        ensures
            final(self).seed == lcg_step(old(self).seed),
            r == lcg_out(old(self).seed, bits),
            r < (1u64 << (bits as u64)),
            bits == 31 ==> r < 0x8000_0000,
            bits == 24 ==> r < 0x100_0000,
            bits == 1 ==> r < 2,
            final(self).wf(),
    {
        let cur: u64 = self.seed;
        proof {
            assert((cur as int) * (LCG_MULT as int) + (LCG_ADD as int)
                < 0x1_0000_0000_0000_0000_0000_0000_0000_0000) by (nonlinear_arith)
                requires
                    cur <= 0xFFFF_FFFF_FFFF,
            ;
        }
        let wide: u128 = (cur as u128) * (LCG_MULT as u128) + (LCG_ADD as u128);
        let next: u128 = wide % 0x1_0000_0000_0000u128;
        assert(next < 0x1_0000_0000_0000);
        let s: u64 = next as u64;
        self.seed = s;
        let shifted: u64 = s >> ((48 - bits) as u64);
        proof {
            assert(shifted & 0xFFFF_FFFF <= 0xFFFF_FFFF) by (bit_vector);
        }
        let r: u32 = (shifted & 0xFFFF_FFFF) as u32;
        proof {
            lemma_lcg_out_range(old(self).seed, bits);
            assert(s <= LCG_MASK);
            assert((1u64 << 31u64) == 0x8000_0000u64) by (bit_vector);
            assert((1u64 << 24u64) == 0x100_0000u64) by (bit_vector);
            assert((1u64 << 1u64) == 2u64) by (bit_vector);
        }
        r
    }
}

/// A bounded legacy draw that is not served by the power-of-two path:
/// draw 31 bits, keep the remainder, and redraw while the draw falls in the
/// incomplete final block of `bound`-sized slices of the 31-bit range.
pub open spec fn lcg_bounded_rec(s: u64, bound: u32, fuel: nat) -> (u32, u64)
    recommends
        1 <= bound <= 0x7FFF_FFFF,
    decreases fuel,
{
    let r = lcg_out(s, 31);
    let s1 = lcg_step(s);
    let v = (r % bound) as u32;
    if r + bound - 1 - v <= 0x7FFF_FFFF {
        (v, s1)
    } else if fuel == 0 {
        (v, s1)
    } else {
        lcg_bounded_rec(s1, bound, (fuel - 1) as nat)
    }
}

/// One bounded legacy draw: a single multiply-shift for a power-of-two
/// bound, the rejection scheme otherwise.
pub open spec fn lcg_bounded(s: u64, bound: u32) -> (u32, u64)
    recommends
        1 <= bound <= 0x7FFF_FFFF,
{
    if bound & (((bound - 1) as int) as u32) == 0 {
        ((((bound * lcg_out(s, 31)) as u64) >> 31) as u32, lcg_step(s))
    } else {
        lcg_bounded_rec(s, bound, REJECT_FUEL as nat)
    }
}

/// Two 32-bit legacy draws joined into one 64-bit value, the second one
/// sign-extended, as the classic `next long` does.
pub open spec fn lcg_u64(s: u64) -> (u64, u64) {
    let a = lcg_out(s, 32);
    let s1 = lcg_step(s);
    let b = lcg_out(s1, 32);
    let s2 = lcg_step(s1);
    let bs: u64 = if b >= 0x8000_0000 {
        (b + 0xFFFF_FFFF_0000_0000) as u64
    } else {
        b as u64
    };
    ((((a * 0x1_0000_0000) + bs) % 0x1_0000_0000_0000_0000) as u64, s2)
}

impl LegacyRand {
    fn bounded_rec(&mut self, bound: u32, fuel: u64) -> (r: u32)
        requires
            1 <= bound <= 0x7FFF_FFFF,
            old(self).wf(),
        ensures
            r == lcg_bounded_rec(old(self).seed, bound, fuel as nat).0,
            final(self).seed == lcg_bounded_rec(old(self).seed, bound, fuel as nat).1,
            r < bound,
            final(self).wf(),
        decreases fuel,
    {
        let r = self.next_bits(31);
        let v = r % bound;
        if r + (bound - 1) - v <= 0x7FFF_FFFF {
            v
        } else if fuel == 0 {
            v
        } else {
            self.bounded_rec(bound, fuel - 1)
        }
    }

    /// One bounded draw in `[0, bound)`.
    pub fn next_bounded(&mut self, bound: u32) -> (r: u32)
        requires
            1 <= bound <= 0x7FFF_FFFF,
            old(self).wf(),
        ensures
            r == lcg_bounded(old(self).seed, bound).0,
            final(self).seed == lcg_bounded(old(self).seed, bound).1,
            r < bound,
            final(self).wf(),
    {
        if bound & (bound - 1) == 0 {
            let d = self.next_bits(31);
            proof {
                assert((bound as int) * (d as int) < 0x4000_0000_0000_0000) by (nonlinear_arith)
                    requires
                        bound <= 0x7FFF_FFFFu32 && d < 0x8000_0000u32,
                ;
            }
            let wide: u64 = (bound as u64) * (d as u64);
            proof {
                assert(wide >> 31 == wide / 0x8000_0000u64) by (bit_vector);
                assert(wide < (bound as u64) * 0x8000_0000) by (nonlinear_arith)
                    requires
                        wide == (bound as u64) * (d as u64) && d < 0x8000_0000u64 && bound >= 1u32,
                ;
                assert(wide / 0x8000_0000u64 < bound as u64) by (nonlinear_arith)
                    requires
                        wide < (bound as u64) * 0x8000_0000,
                ;
            }
            let v: u32 = (wide >> 31) as u32;
            v
        } else {
            self.bounded_rec(bound, REJECT_FUEL)
        }
    }

    /// Two 32-bit draws joined to one 64-bit value.
    pub fn next_u64(&mut self) -> (r: u64)
        requires
            old(self).wf(),
        ensures
            r == lcg_u64(old(self).seed).0,
            final(self).seed == lcg_u64(old(self).seed).1,
            final(self).wf(),
    {
        let a = self.next_bits(32);
        let b = self.next_bits(32);
        let bs: u64 = if b >= 0x8000_0000 {
            (b as u64) + 0xFFFF_FFFF_0000_0000
        } else {
            b as u64
        };
        (((a as u128) * 0x1_0000_0000_u128 + bs as u128) % 0x1_0000_0000_0000_0000_u128) as u64
    }
}

// ------------------------------------------------------------------
// Xoroshiro 128-bit generator
// ------------------------------------------------------------------

/// State of the xoroshiro generator: two 64-bit words.
#[derive(Clone, Copy, PartialEq, Eq, Structural, Debug)]
pub struct XoroshiroRand {
    pub lo: u64,
    pub hi: u64,
}

pub open spec fn rotl64(x: u64, k: u64) -> u64
    recommends
        1 <= k <= 63,
{
    (x << k) | (x >> ((64 - k) as u64))
}

/// Stafford variant 13 of the 64-bit mix function, used to spread a seed
/// over both state words.
pub open spec fn mix64(z: u64) -> u64 {
    let a = (((z ^ (z >> 30)) * 0xBF58476D1CE4E5B9) % 0x1_0000_0000_0000_0000) as u64;
    let b = (((a ^ (a >> 27)) * 0x94D049BB133111EB) % 0x1_0000_0000_0000_0000) as u64;
    b ^ (b >> 31)
}

/// One xoroshiro update: (output, new lo, new hi).
pub open spec fn xoro_step(lo: u64, hi: u64) -> (u64, u64, u64) {
    let n = ((rotl64(((lo + hi) % 0x1_0000_0000_0000_0000) as u64, 17) + lo)
        % 0x1_0000_0000_0000_0000) as u64;
    let m = hi ^ lo;
    let lo2 = rotl64(lo, 49) ^ m ^ (m << 21);
    let hi2 = rotl64(m, 28);
    (n, lo2, hi2)
}

/// A state whose words are both zero would stay zero forever; such a state
/// is replaced by the two seed-mixing constants.
pub open spec fn xoro_guard(lo: u64, hi: u64) -> XoroshiroRand {
    if lo == 0 && hi == 0 {
        XoroshiroRand { lo: GOLDEN_RATIO, hi: SILVER_RATIO }
    } else {
        XoroshiroRand { lo, hi }
    }
}

pub open spec fn xoro_from_seed(seed: u64) -> XoroshiroRand {
    let lo = mix64(seed ^ SILVER_RATIO);
    let hi = mix64(((((seed ^ SILVER_RATIO) + GOLDEN_RATIO) % 0x1_0000_0000_0000_0000)) as u64);
    xoro_guard(lo, hi)
}

fn exec_mix64(z: u64) -> (r: u64)
    ensures
        r == mix64(z),
{
    let a: u64 = (((z ^ (z >> 30)) as u128 * 0xBF58476D1CE4E5B9u128) % 0x1_0000_0000_0000_0000_u128) as u64;
    let b: u64 = (((a ^ (a >> 27)) as u128 * 0x94D049BB133111EBu128) % 0x1_0000_0000_0000_0000_u128) as u64;
    b ^ (b >> 31)
}

fn exec_rotl64(x: u64, k: u64) -> (r: u64)
    requires
        1 <= k <= 63,
    ensures
        r == rotl64(x, k),
{
    (x << k) | (x >> (64 - k))
}

impl XoroshiroRand {
    pub fn from_seed(seed: u64) -> (r: XoroshiroRand)
        ensures
            r == xoro_from_seed(seed),
    {
        let base = seed ^ SILVER_RATIO;
        let lo = exec_mix64(base);
        let hi = exec_mix64(((base as u128 + GOLDEN_RATIO as u128) % 0x1_0000_0000_0000_0000_u128) as u64);
        Self::guarded(lo, hi)
    }

    fn guarded(lo: u64, hi: u64) -> (r: XoroshiroRand)
        ensures
            r == xoro_guard(lo, hi),
    {
        if lo == 0 && hi == 0 {
            XoroshiroRand { lo: GOLDEN_RATIO, hi: SILVER_RATIO }
        } else {
            XoroshiroRand { lo, hi }
        }
    }

    /// One full 64-bit draw.
    pub fn next_u64(&mut self) -> (r: u64)
        ensures
            r == xoro_step(old(self).lo, old(self).hi).0,
            final(self).lo == xoro_step(old(self).lo, old(self).hi).1,
            final(self).hi == xoro_step(old(self).lo, old(self).hi).2,
    {
        let l = self.lo;
        let h = self.hi;
        let sum: u64 = ((l as u128 + h as u128) % 0x1_0000_0000_0000_0000_u128) as u64;
        let n: u64 = ((exec_rotl64(sum, 17) as u128 + l as u128) % 0x1_0000_0000_0000_0000_u128) as u64;
        let m = h ^ l;
        self.lo = exec_rotl64(l, 49) ^ m ^ (m << 21);
        self.hi = exec_rotl64(m, 28);
        n
    }

    /// The low 32 bits of one draw: the reference's 32-bit integer
    /// output, the plain narrowing of the 64-bit value.
    pub fn next_u32(&mut self) -> (r: u32)
        ensures
            r == xoro_out32(old(self).lo, old(self).hi),
            final(self).lo == xoro_step(old(self).lo, old(self).hi).1,
            final(self).hi == xoro_step(old(self).lo, old(self).hi).2,
            r < 0x1_0000_0000,
    {
        let n = self.next_u64();
        proof {
            assert(n & 0xFFFF_FFFF < 0x1_0000_0000) by (bit_vector);
        }
        (n & 0xFFFF_FFFF) as u32
    }

    fn bounded_rec(&mut self, bound: u32, fuel: u64) -> (r: u32)
        requires
            1 <= bound <= 0x7FFF_FFFF,
        ensures
            r == xoro_bounded_rec(old(self).lo, old(self).hi, bound, fuel as nat).0,
            final(self).lo == xoro_bounded_rec(old(self).lo, old(self).hi, bound, fuel as nat).1,
            final(self).hi == xoro_bounded_rec(old(self).lo, old(self).hi, bound, fuel as nat).2,
            r < bound,
        decreases fuel,
    {
        let x = self.next_u32();
        proof {
            assert((x as int) * (bound as int) < 0x8000_0000_0000_0000) by (nonlinear_arith)
                requires
                    x < 0x1_0000_0000u64 && bound <= 0x7FFF_FFFFu32,
            ;
        }
        let m: u64 = (x as u64) * (bound as u64);
        let n: u32 = (m & 0xFFFF_FFFF) as u32;
        proof {
            assert(m & 0xFFFF_FFFF < 0x1_0000_0000) by (bit_vector);
        }
        if n >= xoro_threshold_exec(bound) || fuel == 0 {
            proof {
                assert(m >> 32 == m / 0x1_0000_0000u64) by (bit_vector);
                assert(m < (bound as u64) * 0x1_0000_0000) by (nonlinear_arith)
                    requires
                        m == (x as u64) * (bound as u64) && x < 0x1_0000_0000u64 && bound >= 1u32,
                ;
                assert(m / 0x1_0000_0000u64 < bound as u64) by (nonlinear_arith)
                    requires
                        m < (bound as u64) * 0x1_0000_0000,
                ;
                assert((m >> 32) & 0xFFFF_FFFF == m >> 32) by (bit_vector);
            }
            (m >> 32) as u32
        } else {
            self.bounded_rec(bound, fuel - 1)
        }
    }

    /// One bounded draw in `[0, bound)` by the multiply-and-reject scheme.
    pub fn next_bounded(&mut self, bound: u32) -> (r: u32)
        requires
            1 <= bound <= 0x7FFF_FFFF,
        ensures
            r == xoro_bounded(old(self).lo, old(self).hi, bound).0,
            final(self).lo == xoro_bounded(old(self).lo, old(self).hi, bound).1,
            final(self).hi == xoro_bounded(old(self).lo, old(self).hi, bound).2,
            r < bound,
    {
        self.bounded_rec(bound, REJECT_FUEL)
    }
}

pub open spec fn xoro_out32(lo: u64, hi: u64) -> u32 {
    (xoro_step(lo, hi).0 & 0xFFFF_FFFF) as u32
}

/// The size of the incomplete final block when the 32-bit range is cut into
/// `bound`-sized slices; draws whose low half lands under it are redrawn.
pub open spec fn xoro_threshold(bound: u32) -> u32
    recommends
        1 <= bound,
{
    ((0x1_0000_0000 - bound) % (bound as int)) as u32
}

fn xoro_threshold_exec(bound: u32) -> (r: u32)
    requires
        1 <= bound,
    ensures
        r == xoro_threshold(bound),
{
    (((0x1_0000_0000u64 - bound as u64) % (bound as u64))) as u32
}

/// A bounded xoroshiro draw: multiply a 32-bit draw by the bound and keep
/// the upper half, redrawing while the lower half falls under the threshold.
pub open spec fn xoro_bounded_rec(lo: u64, hi: u64, bound: u32, fuel: nat) -> (u32, u64, u64)
    recommends
        1 <= bound <= 0x7FFF_FFFF,
    decreases fuel,
{
    let x = xoro_out32(lo, hi);
    let lo2 = xoro_step(lo, hi).1;
    let hi2 = xoro_step(lo, hi).2;
    let m = ((x * bound) as u64);
    let n = (m & 0xFFFF_FFFF) as u32;
    if n >= xoro_threshold(bound) || fuel == 0 {
        (((m >> 32) & 0xFFFF_FFFF) as u32, lo2, hi2)
    } else {
        xoro_bounded_rec(lo2, hi2, bound, (fuel - 1) as nat)
    }
}

pub open spec fn xoro_bounded(lo: u64, hi: u64, bound: u32) -> (u32, u64, u64)
    recommends
        1 <= bound <= 0x7FFF_FFFF,
{
    xoro_bounded_rec(lo, hi, bound, REJECT_FUEL as nat)
}

// ------------------------------------------------------------------
// The unified random source
// ------------------------------------------------------------------

/// A seeded deterministic random source: one of the two interchangeable
/// algorithms, with a common face for bounded draws, coin flips, 24-bit
/// fractions and forking.
#[derive(Clone, Copy, PartialEq, Eq, Structural, Debug)]
pub enum RandomGenerator {
    Legacy(LegacyRand),
    Xoroshiro(XoroshiroRand),
}

/// One bounded draw: the value in `[0, bound)` and the advanced state.
pub open spec fn rg_bounded(g: RandomGenerator, bound: u32) -> (u32, RandomGenerator)
    recommends
        1 <= bound <= 0x7FFF_FFFF,
{
    match g {
        RandomGenerator::Legacy(l) => (
            lcg_bounded(l.seed, bound).0,
            RandomGenerator::Legacy(LegacyRand { seed: lcg_bounded(l.seed, bound).1 }),
        ),
        RandomGenerator::Xoroshiro(x) => (
            xoro_bounded(x.lo, x.hi, bound).0,
            RandomGenerator::Xoroshiro(
                XoroshiroRand {
                    lo: xoro_bounded(x.lo, x.hi, bound).1,
                    hi: xoro_bounded(x.lo, x.hi, bound).2,
                },
            ),
        ),
    }
}

/// One inclusive draw in `[lo, hi]`; an inverted range degrades to `lo`
/// without advancing the state.
pub open spec fn rg_inbetween(g: RandomGenerator, lo: i32, hi: i32) -> (i32, RandomGenerator) {
    if lo > hi {
        (lo, g)
    } else {
        let b = rg_bounded(g, ((hi - lo + 1) as int) as u32);
        (((lo + b.0) as int) as i32, b.1)
    }
}

/// One coin flip.
pub open spec fn rg_bool(g: RandomGenerator) -> (bool, RandomGenerator) {
    match g {
        RandomGenerator::Legacy(l) => (
            lcg_out(l.seed, 1) != 0,
            RandomGenerator::Legacy(LegacyRand { seed: lcg_step(l.seed) }),
        ),
        RandomGenerator::Xoroshiro(x) => (
            xoro_step(x.lo, x.hi).0 & 1 != 0,
            RandomGenerator::Xoroshiro(
                XoroshiroRand { lo: xoro_step(x.lo, x.hi).1, hi: xoro_step(x.lo, x.hi).2 },
            ),
        ),
    }
}

/// One 24-bit fraction draw: the numerator of a uniform fraction with
/// denominator 2^24, the integer form of a unit-interval draw.
pub open spec fn rg_fraction24(g: RandomGenerator) -> (u32, RandomGenerator) {
    match g {
        RandomGenerator::Legacy(l) => (
            lcg_out(l.seed, 24),
            RandomGenerator::Legacy(LegacyRand { seed: lcg_step(l.seed) }),
        ),
        RandomGenerator::Xoroshiro(x) => (
            ((xoro_step(x.lo, x.hi).0 >> 40) & 0xFF_FFFF) as u32,
            RandomGenerator::Xoroshiro(
                XoroshiroRand { lo: xoro_step(x.lo, x.hi).1, hi: xoro_step(x.lo, x.hi).2 },
            ),
        ),
    }
}

/// One full 64-bit draw.
pub open spec fn rg_u64(g: RandomGenerator) -> (u64, RandomGenerator) {
    match g {
        RandomGenerator::Legacy(l) => (
            lcg_u64(l.seed).0,
            RandomGenerator::Legacy(LegacyRand { seed: lcg_u64(l.seed).1 }),
        ),
        RandomGenerator::Xoroshiro(x) => (
            xoro_step(x.lo, x.hi).0,
            RandomGenerator::Xoroshiro(
                XoroshiroRand { lo: xoro_step(x.lo, x.hi).1, hi: xoro_step(x.lo, x.hi).2 },
            ),
        ),
    }
}

/// Forking: the new independent state drawn from the parent and the salt,
/// and the advanced parent. Same-algorithm, deterministic in (state, salt).
pub open spec fn rg_fork(g: RandomGenerator, salt: u64) -> (RandomGenerator, RandomGenerator) {
    match g {
        RandomGenerator::Legacy(_) => {
            let d = rg_u64(g);
            (RandomGenerator::Legacy(LegacyRand { seed: lcg_scramble(d.0 ^ salt) }), d.1)
        },
        RandomGenerator::Xoroshiro(_) => {
            let d1 = rg_u64(g);
            let d2 = rg_u64(d1.1);
            (RandomGenerator::Xoroshiro(xoro_guard(d1.0 ^ salt, d2.0)), d2.1)
        },
    }
}

impl RandomGenerator {
    pub open spec fn wf(self) -> bool {
        match self {
            RandomGenerator::Legacy(l) => l.wf(),
            RandomGenerator::Xoroshiro(_) => true,
        }
    }

    /// A legacy source from a world seed.
    pub fn legacy_from_seed(seed: u64) -> (r: RandomGenerator)
        ensures
            r == RandomGenerator::Legacy(LegacyRand { seed: lcg_scramble(seed) }),
            r.wf(),
    {
        RandomGenerator::Legacy(LegacyRand::from_seed(seed))
    }

    /// A xoroshiro source from a world seed.
    pub fn xoroshiro_from_seed(seed: u64) -> (r: RandomGenerator)
        ensures
            r == RandomGenerator::Xoroshiro(xoro_from_seed(seed)),
            r.wf(),
    {
        RandomGenerator::Xoroshiro(XoroshiroRand::from_seed(seed))
    }

    /// One bounded draw in `[0, bound)`.
    pub fn next_bounded_i32(&mut self, bound: i32) -> (r: i32)
        requires
            1 <= bound,
            old(self).wf(),
        ensures
            r == rg_bounded(*old(self), bound as u32).0,
            *final(self) == rg_bounded(*old(self), bound as u32).1,
            0 <= r < bound,
            final(self).wf(),
    {
        let b = bound as u32;
        match self {
            RandomGenerator::Legacy(l) => l.next_bounded(b) as i32,
            RandomGenerator::Xoroshiro(x) => x.next_bounded(b) as i32,
        }
    }

    /// One inclusive draw in `[lo, hi]`; an inverted range yields `lo` at
    /// once without advancing the state.
    pub fn next_inbetween_i32(&mut self, lo: i32, hi: i32) -> (r: i32)
        requires
            lo > hi || hi - lo < 0x7FFF_FFFF,
            old(self).wf(),
        ensures
            r == rg_inbetween(*old(self), lo, hi).0,
            *final(self) == rg_inbetween(*old(self), lo, hi).1,
            lo <= hi ==> lo <= r <= hi,
            lo > hi ==> r == lo && *final(self) == *old(self),
            final(self).wf(),
    {
        if lo > hi {
            lo
        } else {
            let d = self.next_bounded_i32(hi - lo + 1);
            lo + d
        }
    }

    /// One coin flip.
    pub fn next_bool(&mut self) -> (r: bool)
        requires
            old(self).wf(),
        ensures
            r == rg_bool(*old(self)).0,
            *final(self) == rg_bool(*old(self)).1,
            final(self).wf(),
    {
        match self {
            RandomGenerator::Legacy(l) => l.next_bits(1) != 0,
            RandomGenerator::Xoroshiro(x) => {
                let n = x.next_u64();
                n & 1 != 0
            },
        }
    }

    /// The numerator of one uniform fraction draw with denominator 2^24:
    /// the integer content of a unit-interval draw.
    pub fn next_fraction24(&mut self) -> (r: u32)
        requires
            old(self).wf(),
        ensures
            r == rg_fraction24(*old(self)).0,
            *final(self) == rg_fraction24(*old(self)).1,
            r < 0x100_0000,
            final(self).wf(),
    {
        match self {
            RandomGenerator::Legacy(l) => l.next_bits(24),
            RandomGenerator::Xoroshiro(x) => {
                let n = x.next_u64();
                proof {
                    assert((n >> 40) & 0xFF_FFFF < 0x100_0000) by (bit_vector);
                    assert((n >> 40) & 0xFF_FFFF == n >> 40) by (bit_vector);
                }
                (n >> 40) as u32
            },
        }
    }

    /// One full 64-bit draw.
    pub fn next_u64(&mut self) -> (r: u64)
        requires
            old(self).wf(),
        ensures
            r == rg_u64(*old(self)).0,
            *final(self) == rg_u64(*old(self)).1,
            final(self).wf(),
    {
        match self {
            RandomGenerator::Legacy(l) => l.next_u64(),
            RandomGenerator::Xoroshiro(x) => x.next_u64(),
        }
    }

    /// A new independent state deterministically derived from this state
    /// and a salt, so recursive sub-generation is reproducible no matter
    /// how many sibling draws ran before it.
    pub fn fork(&mut self, salt: u64) -> (r: RandomGenerator)
        requires
            old(self).wf(),
        ensures
            r == rg_fork(*old(self), salt).0,
            *final(self) == rg_fork(*old(self), salt).1,
            r.wf(),
            final(self).wf(),
    {
        match self {
            RandomGenerator::Legacy(_) => {
                let d = self.next_u64();
                let forked = RandomGenerator::Legacy(LegacyRand::from_seed(d ^ salt));
                forked
            },
            RandomGenerator::Xoroshiro(_) => {
                let d1 = self.next_u64();
                let d2 = self.next_u64();
                RandomGenerator::Xoroshiro(XoroshiroRand::guarded(d1 ^ salt, d2))
            },
        }
    }
}

// ------------------------------------------------------------------
// Ranges of the draws, at the level of the models
// ------------------------------------------------------------------

proof fn lemma_lcg_out31_range(s: u64)
    by (bit_vector)
    ensures
        (((((s * LCG_MULT + LCG_ADD) % 0x1_0000_0000_0000) as u64 >> 17u64) & 0xFFFF_FFFF) as u32)
            < 0x8000_0000u32,
{
}

proof fn lemma_lcg_bounded_rec_lt(s: u64, bound: u32, fuel: nat)
    requires
        1 <= bound <= 0x7FFF_FFFF,
    ensures
        lcg_bounded_rec(s, bound, fuel).0 < bound,
    decreases fuel,
{
    if fuel > 0 {
        lemma_lcg_bounded_rec_lt(lcg_step(s), bound, (fuel - 1) as nat);
    }
}

proof fn lemma_mul_shift31_lt(b: u32, d: u32)
    requires
        1 <= b <= 0x7FFF_FFFF,
        d < 0x8000_0000,
    ensures
        (((b * d) as u64) >> 31) < b,
{
    let w = ((b * d) as u64);
    assert(b * d < 0x4000_0000_0000_0000) by (nonlinear_arith)
        requires
            b <= 0x7FFF_FFFFu32 && d < 0x8000_0000u32,
    ;
    assert(w >> 31 == w / 0x8000_0000u64) by (bit_vector);
    assert(w < (b as u64) * 0x8000_0000) by (nonlinear_arith)
        requires
            w == (b as u64) * (d as u64) && d < 0x8000_0000u64 && b >= 1u32,
    ;
    assert(w / 0x8000_0000u64 < b as u64) by (nonlinear_arith)
        requires
            w < (b as u64) * 0x8000_0000,
    ;
}

proof fn lemma_lcg_bounded_lt(s: u64, bound: u32)
    requires
        1 <= bound <= 0x7FFF_FFFF,
    ensures
        lcg_bounded(s, bound).0 < bound,
{
    if bound & (((bound - 1) as int) as u32) == 0 {
        lemma_lcg_out31_range(s);
        lemma_mul_shift31_lt(bound, lcg_out(s, 31));
        let w = ((bound * lcg_out(s, 31)) as u64);
        assert((w >> 31) & 0xFFFF_FFFF <= w >> 31) by (bit_vector);
    } else {
        lemma_lcg_bounded_rec_lt(s, bound, REJECT_FUEL as nat);
    }
}

proof fn lemma_xoro_bounded_rec_lt(lo: u64, hi: u64, bound: u32, fuel: nat)
    requires
        1 <= bound <= 0x7FFF_FFFF,
    ensures
        xoro_bounded_rec(lo, hi, bound, fuel).0 < bound,
    decreases fuel,
{
    let x = xoro_out32(lo, hi);
    assert((((xoro_step(lo, hi).0) & 0xFFFF_FFFF) as u32) < 0x1_0000_0000) by (bit_vector);
    let m = ((x * bound) as u64);
    let n = (m & 0xFFFF_FFFF) as u32;
    if n >= xoro_threshold(bound) || fuel == 0 {
        assert(x * bound < 0x8000_0000_0000_0000) by (nonlinear_arith)
            requires
                x < 0x1_0000_0000u64 && bound <= 0x7FFF_FFFFu32,
        ;
        assert(m >> 32 == m / 0x1_0000_0000u64) by (bit_vector);
        assert(m < (bound as u64) * 0x1_0000_0000) by (nonlinear_arith)
            requires
                m == (x as u64) * (bound as u64) && x < 0x1_0000_0000u64 && bound >= 1u32,
        ;
        assert(m / 0x1_0000_0000u64 < bound as u64) by (nonlinear_arith)
            requires
                m < (bound as u64) * 0x1_0000_0000,
        ;
        assert((m >> 32) & 0xFFFF_FFFF <= m >> 32) by (bit_vector);
    } else {
        lemma_xoro_bounded_rec_lt(
            xoro_step(lo, hi).1,
            xoro_step(lo, hi).2,
            bound,
            (fuel - 1) as nat,
        );
    }
}

/// A bounded draw's value lies in `[0, bound)`, already at the level of
/// the model.
pub proof fn lemma_rg_bounded_lt(g: RandomGenerator, bound: u32)
    requires
        1 <= bound <= 0x7FFF_FFFF,
    ensures
        rg_bounded(g, bound).0 < bound,
{
    match g {
        RandomGenerator::Legacy(l) => lemma_lcg_bounded_lt(l.seed, bound),
        RandomGenerator::Xoroshiro(x) => lemma_xoro_bounded_rec_lt(
            x.lo,
            x.hi,
            bound,
            REJECT_FUEL as nat,
        ),
    }
}

/// A fraction draw's numerator lies under 2^24, already at the level of
/// the model.
pub proof fn lemma_rg_fraction24_lt(g: RandomGenerator)
    ensures
        rg_fraction24(g).0 < 0x100_0000,
{
    match g {
        RandomGenerator::Legacy(l) => {
            let s = l.seed;
            assert((((((s * LCG_MULT + LCG_ADD) % 0x1_0000_0000_0000) as u64 >> 24u64)
                & 0xFFFF_FFFF) as u32) < 0x100_0000u32) by (bit_vector);
        },
        RandomGenerator::Xoroshiro(x) => {
            let v = xoro_step(x.lo, x.hi).0;
            assert((((v >> 40) & 0xFF_FFFF) as u32) < 0x100_0000u32) by (bit_vector);
        },
    }
}

/// An inclusive draw's value lies in `[lo, hi]`; an inverted range gives
/// `lo` itself.
pub proof fn lemma_rg_inbetween_range(g: RandomGenerator, lo: i32, hi: i32)
    requires
        lo > hi || hi - lo < 0x7FFF_FFFF,
    ensures
        lo > hi ==> rg_inbetween(g, lo, hi).0 == lo,
        lo <= hi ==> lo <= rg_inbetween(g, lo, hi).0 <= hi,
{
    if lo <= hi {
        lemma_rg_bounded_lt(g, ((hi - lo + 1) as int) as u32);
    }
}

// ------------------------------------------------------------------
// Determinism
// ------------------------------------------------------------------

/// Determinism of the random source: equal states make equal draws and
/// equal successor states, for every operation. Two independent runs from
/// one seed therefore see the same whole sequence.
pub proof fn lemma_random_deterministic(g1: RandomGenerator, g2: RandomGenerator, bound: u32, lo: i32, hi: i32, salt: u64)
    requires
        g1 == g2,
    ensures
        rg_bounded(g1, bound) == rg_bounded(g2, bound),
        rg_inbetween(g1, lo, hi) == rg_inbetween(g2, lo, hi),
        rg_bool(g1) == rg_bool(g2),
        rg_fraction24(g1) == rg_fraction24(g2),
        rg_u64(g1) == rg_u64(g2),
        rg_fork(g1, salt) == rg_fork(g2, salt),
{
}

} // verus!
