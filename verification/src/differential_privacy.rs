//! Gradient sanitisation for the Gaussian mechanism.
//!
//! A gradient is a flat vector of components, each a count of millionths. The
//! engine clips it to an L2 bound and then adds calibrated noise, in that
//! order. Clipping is exact integer arithmetic: the squared norm is compared
//! with the squared bound, and each component is scaled by the bound over the
//! norm rounded up, itself rounded toward zero, so that the clipped vector
//! never exceeds the bound. The engine's own 64-bit linear congruential
//! generator, which is not cryptographically secure, hands out two uniform
//! draws for every noise value. Shaping two draws into one Gaussian value
//! takes logarithm, square root and cosine and is the caller's part: the
//! engine hands out the draws and takes the shaped noise back as values.

use vstd::prelude::*;

verus! {

/// Multiplier of the linear congruential generator.
pub const LCG_MULTIPLIER: u64 = 1_664_525;

/// Increment of the linear congruential generator.
pub const LCG_INCREMENT: u64 = 1_013_904_223;

/// Seed of a generator where the clock cannot be read.
pub const FALLBACK_SEED: u64 = 0xDEAD_BEEF_F0F0_1234;

/// Parameters of the (ε, δ) Gaussian mechanism.
#[derive(Debug, Clone, Copy, PartialEq, Eq, Structural)]
pub struct DPConfig {
    /// ε, in millionths. Smaller means stronger privacy.
    pub epsilon: u64,
    /// δ, in millionths of a millionth.
    pub delta: u64,
    /// L2 bound that gradients are clipped to, in millionths.
    pub max_grad_norm: u64,
}

impl DPConfig {
    /// A configuration is usable when ε is positive.
    pub open spec fn wf(&self) -> bool {
        self.epsilon > 0
    }

    /// A configuration with the given parameters.
    #[must_use]
    pub fn new(epsilon: u64, delta: u64, max_grad_norm: u64) -> (c: Self)
        requires
            epsilon > 0,
        ensures
            c == (DPConfig { epsilon, delta, max_grad_norm }),
            c.wf(),
    {
        DPConfig { epsilon, delta, max_grad_norm }
    }

    /// Strong privacy: ε = 0.1, δ = 10^-5, bound 1.
    #[must_use]
    pub fn strong() -> (c: Self)
        ensures
            c == (DPConfig { epsilon: 100_000, delta: 10_000_000, max_grad_norm: 1_000_000 }),
            c.wf(),
    {
        Self::new(100_000, 10_000_000, 1_000_000)
    }

    /// Balanced privacy: ε = 1, δ = 10^-5, bound 1.
    #[must_use]
    pub fn moderate() -> (c: Self)
        ensures
            c == (DPConfig { epsilon: 1_000_000, delta: 10_000_000, max_grad_norm: 1_000_000 }),
            c.wf(),
    {
        Self::new(1_000_000, 10_000_000, 1_000_000)
    }

    /// Weak privacy: ε = 8, δ = 10^-5, bound 1.
    #[must_use]
    pub fn weak() -> (c: Self)
        ensures
            c == (DPConfig { epsilon: 8_000_000, delta: 10_000_000, max_grad_norm: 1_000_000 }),
            c.wf(),
    {
        Self::new(8_000_000, 10_000_000, 1_000_000)
    }

    /// The noise scale σ of the Gaussian mechanism, in millionths, rounded
    /// down: the clipping bound times the calibration factor, over ε.
    pub open spec fn noise_scale_spec(self, calibration: u64) -> nat {
        (self.max_grad_norm as nat * calibration as nat) / (self.epsilon as nat)
    }

    /// The noise scale σ of the Gaussian mechanism, in millionths.
    ///
    /// `calibration` is the factor `sqrt(2 ln(1.25 / δ))`, in millionths, as
    /// the caller has computed it from δ.
    #[must_use]
    pub fn noise_scale(&self, calibration: u64) -> (sigma: u128)
        requires
            self.wf(),
        ensures
            sigma == self.noise_scale_spec(calibration),
    {
        assert(self.max_grad_norm as nat * calibration as nat <= 0xFFFF_FFFF_FFFF_FFFF
            * 0xFFFF_FFFF_FFFF_FFFF) by (nonlinear_arith)
            requires
                self.max_grad_norm <= 0xFFFF_FFFF_FFFF_FFFF,
                calibration <= 0xFFFF_FFFF_FFFF_FFFF,
        ;
        ((self.max_grad_norm as u128) * (calibration as u128)) / (self.epsilon as u128)
    }
}

/// Stronger privacy takes more noise: with the same bound and calibration, a
/// smaller ε never gives a smaller noise scale, and it gives a larger one
/// wherever the two exact quotients are at least one millionth apart.
pub proof fn lemma_noise_scale_falls_with_epsilon(
    stronger: DPConfig,
    weaker: DPConfig,
    calibration: u64,
)
    requires
        stronger.wf(),
        weaker.wf(),
        stronger.epsilon < weaker.epsilon,
        stronger.max_grad_norm == weaker.max_grad_norm,
    ensures
        stronger.noise_scale_spec(calibration) >= weaker.noise_scale_spec(calibration),
        (stronger.max_grad_norm as int * calibration as int) * (weaker.epsilon
            - stronger.epsilon) >= stronger.epsilon as int * weaker.epsilon as int
            ==> stronger.noise_scale_spec(calibration) > weaker.noise_scale_spec(calibration),
{
    let a = stronger.max_grad_norm as int * calibration as int;
    let e1 = stronger.epsilon as int;
    let e2 = weaker.epsilon as int;
    assert(a >= 0) by (nonlinear_arith)
        requires
            a == stronger.max_grad_norm as int * calibration as int,
    ;
    let q1 = a / e1;
    let q2 = a / e2;
    vstd::arithmetic::div_mod::lemma_fundamental_div_mod(a, e1);
    vstd::arithmetic::div_mod::lemma_mod_bound(a, e1);
    vstd::arithmetic::div_mod::lemma_fundamental_div_mod(a, e2);
    vstd::arithmetic::div_mod::lemma_mod_bound(a, e2);
    vstd::arithmetic::div_mod::lemma_div_pos_is_pos(a, e2);
    assert(q2 * e2 <= a && a < q1 * e1 + e1) by (nonlinear_arith)
        requires
            a == e1 * q1 + a % e1,
            a == e2 * q2 + a % e2,
            0 <= a % e1 < e1,
            0 <= a % e2 < e2,
    ;
    if q1 < q2 {
        assert(q1 * e1 + e1 <= q2 * e2) by (nonlinear_arith)
            requires
                q1 + 1 <= q2,
                0 < e1 < e2,
                q2 >= 0,
        ;
    }
    if a * (e2 - e1) >= e1 * e2 && q1 <= q2 {
        assert(false) by (nonlinear_arith)
            requires
                a * (e2 - e1) >= e1 * e2,
                q2 * e2 <= a,
                a < q1 * e1 + e1,
                q1 <= q2,
                0 < e1 < e2,
                q2 >= 0,
        ;
    }
}

/// Whether the exact noise scale of `a`, the fraction `bound * calibration / ε`
/// before it is rounded down, is greater than that of `b`. Two fractions are
/// compared by their cross products.
pub open spec fn exact_scale_exceeds(a: DPConfig, b: DPConfig, calibration: u64) -> bool {
    (a.max_grad_norm as int * calibration as int) * b.epsilon as int > (b.max_grad_norm as int
        * calibration as int) * a.epsilon as int
}

/// Stronger privacy takes strictly more noise: with the same positive bound
/// and a positive calibration factor, the exact noise scale of the smaller ε
/// is greater than that of the larger ε, and both are positive. The noise
/// scale in millionths is the exact one rounded down, so it keeps the order
/// but can lose the difference.
pub proof fn lemma_exact_noise_scale_grows_with_privacy(
    stronger: DPConfig,
    weaker: DPConfig,
    calibration: u64,
)
    requires
        stronger.wf(),
        weaker.wf(),
        stronger.epsilon < weaker.epsilon,
        stronger.max_grad_norm == weaker.max_grad_norm,
        stronger.max_grad_norm > 0,
        calibration > 0,
    ensures
        exact_scale_exceeds(stronger, weaker, calibration),
        stronger.max_grad_norm as int * calibration as int > 0,
        stronger.noise_scale_spec(calibration) * stronger.epsilon <= stronger.max_grad_norm as int
            * calibration as int,
        (stronger.max_grad_norm as int * calibration as int) < (stronger.noise_scale_spec(
            calibration,
        ) + 1) * stronger.epsilon,
        stronger.noise_scale_spec(calibration) >= weaker.noise_scale_spec(calibration),
{
    let a = stronger.max_grad_norm as int * calibration as int;
    let e1 = stronger.epsilon as int;
    let e2 = weaker.epsilon as int;
    assert(a > 0) by (nonlinear_arith)
        requires
            a == stronger.max_grad_norm as int * calibration as int,
            stronger.max_grad_norm > 0,
            calibration > 0,
    ;
    assert(a * e2 > a * e1) by (nonlinear_arith)
        requires
            a > 0,
            e1 < e2,
    ;
    vstd::arithmetic::div_mod::lemma_fundamental_div_mod(a, e1);
    vstd::arithmetic::div_mod::lemma_mod_bound(a, e1);
    let q = a / e1;
    assert(q * e1 <= a && a < (q + 1) * e1) by (nonlinear_arith)
        requires
            a == e1 * q + a % e1,
            0 <= a % e1 < e1,
    ;
    lemma_noise_scale_falls_with_epsilon(stronger, weaker, calibration);
}

/// The noise scale is positive exactly when the bound times the calibration
/// factor reaches ε.
pub proof fn lemma_noise_scale_is_positive(config: DPConfig, calibration: u64)
    requires
        config.wf(),
    ensures
        config.noise_scale_spec(calibration) > 0 <==> config.max_grad_norm as int
            * calibration as int >= config.epsilon,
{
    let a = config.max_grad_norm as int * calibration as int;
    let e = config.epsilon as int;
    assert(a >= 0) by (nonlinear_arith)
        requires
            a == config.max_grad_norm as int * calibration as int,
    ;
    vstd::arithmetic::div_mod::lemma_fundamental_div_mod(a, e);
    vstd::arithmetic::div_mod::lemma_mod_bound(a, e);
    vstd::arithmetic::div_mod::lemma_div_pos_is_pos(a, e);
    let q = a / e;
    if q > 0 {
        assert(e * q >= e) by (nonlinear_arith)
            requires
                q >= 1,
                e > 0,
        ;
    } else {
        assert(e * q == 0) by (nonlinear_arith)
            requires
                q == 0,
        ;
    }
}

impl Default for DPConfig {
    /// The balanced preset.
    fn default() -> (c: Self)
        ensures
            c == (DPConfig { epsilon: 1_000_000, delta: 10_000_000, max_grad_norm: 1_000_000 }),
            c.wf(),
    {
        Self::moderate()
    }
}

/// Sum of the squares of the components.
pub open spec fn sum_squares(v: Seq<i32>) -> nat
    decreases v.len(),
{
    if v.len() == 0 {
        0
    } else {
        sum_squares(v.drop_last()) + (v.last() as int * v.last() as int) as nat
    }
}

/// `r` is the square root of `s` rounded down.
pub open spec fn is_floor_sqrt(s: nat, r: nat) -> bool {
    r * r <= s < (r + 1) * (r + 1)
}

/// `n` is the square root of `s` rounded up.
pub open spec fn is_ceil_sqrt(s: nat, n: nat) -> bool {
    s <= n * n && (n == 0 || (n - 1) * (n - 1) < s)
}

/// The square root of `s` rounded down.
pub open spec fn floor_sqrt(s: nat) -> nat {
    choose|r: nat| is_floor_sqrt(s, r)
}

/// The square root of `s` rounded up.
pub open spec fn ceil_sqrt(s: nat) -> nat {
    if floor_sqrt(s) * floor_sqrt(s) == s {
        floor_sqrt(s)
    } else {
        floor_sqrt(s) + 1
    }
}

/// The L2 norm of a vector, rounded down to a whole number of millionths.
pub open spec fn norm_of(v: Seq<i32>) -> nat {
    floor_sqrt(sum_squares(v))
}

/// `x * m / n`, rounded toward zero.
pub open spec fn scaled(x: int, m: nat, n: nat) -> int {
    if x >= 0 {
        (x * m) / (n as int)
    } else {
        -(((-x) * m) / (n as int))
    }
}

/// Whether the L2 norm of `v` is above `bound`.
pub open spec fn exceeds(v: Seq<i32>, bound: nat) -> bool {
    sum_squares(v) > bound * bound
}

/// Every component of `v` scaled by `m / n`, rounded toward zero.
pub open spec fn scale_all(v: Seq<i32>, m: nat, n: nat) -> Seq<i32> {
    Seq::new(v.len(), |i: int| scaled(v[i] as int, m, n) as i32)
}

/// The vector clipped to `bound`: unchanged when its norm is within the bound,
/// else every component scaled by the bound over the norm rounded up.
pub open spec fn clipped(v: Seq<i32>, bound: nat) -> Seq<i32> {
    if exceeds(v, bound) {
        scale_all(v, bound, ceil_sqrt(sum_squares(v)))
    } else {
        v
    }
}

/// `a + b`, held within the range of a component.
pub open spec fn saturating_sum(a: i32, b: i32) -> i32 {
    if a + b > i32::MAX {
        i32::MAX
    } else if a + b < i32::MIN {
        i32::MIN
    } else {
        (a + b) as i32
    }
}

/// The vector with the noise added, component by component.
pub open spec fn with_noise(v: Seq<i32>, noise: Seq<i32>) -> Seq<i32>
    recommends
        v.len() == noise.len(),
{
    Seq::new(v.len(), |i: int| saturating_sum(v[i], noise[i]))
}

/// The seed that a clock reading gives: the low 64 bits of the nanoseconds
/// since the epoch, or the fallback seed without a reading.
pub open spec fn seed_of(clock_nanos: Option<u128>) -> u64 {
    match clock_nanos {
        Some(nanos) => (nanos % 0x1_0000_0000_0000_0000) as u64,
        None => FALLBACK_SEED,
    }
}

/// What adding `noise` to `v` gives: the sums where the noise holds one value
/// for each component, else `v` as it is.
pub open spec fn noised(v: Seq<i32>, noise: Seq<i32>) -> Seq<i32> {
    if noise.len() == v.len() {
        with_noise(v, noise)
    } else {
        v
    }
}

/// What sanitising `v` gives: the clipped vector with the noise added where
/// the noise holds one value for each component, else `v` as it is.
pub open spec fn privatized(v: Seq<i32>, bound: nat, noise: Seq<i32>) -> Seq<i32> {
    if noise.len() == v.len() {
        with_noise(clipped(v, bound), noise)
    } else {
        v
    }
}

/// The generator's next state.
pub open spec fn lcg_next(state: u64) -> u64 {
    ((state as int * LCG_MULTIPLIER as int + LCG_INCREMENT as int) % 0x1_0000_0000_0000_0000) as u64
}

/// The generator's state after `draws` draws.
pub open spec fn lcg_advance(state: u64, draws: nat) -> u64
    decreases draws,
{
    if draws == 0 {
        state
    } else {
        lcg_next(lcg_advance(state, (draws - 1) as nat))
    }
}

/// The uniform numbers for `count` noise values from a generator in state
/// `state`: for the value `k`, the states after `2k + 1` and `2k + 2` steps.
pub open spec fn uniform_pairs(state: u64, count: nat) -> Seq<(u64, u64)> {
    Seq::new(
        count,
        |k: int| (lcg_advance(state, (2 * k + 1) as nat), lcg_advance(state, (2 * k + 2) as nat)),
    )
}

/// Every number has a square root rounded down.
pub proof fn lemma_floor_sqrt_exists(s: nat)
    ensures
        is_floor_sqrt(s, floor_sqrt(s)),
    decreases s,
{
    if s == 0 {
        assert(0nat * 0nat == 0 && (0nat + 1) * (0nat + 1) == 1) by (nonlinear_arith);
        assert(is_floor_sqrt(s, 0));
    } else {
        lemma_floor_sqrt_exists((s - 1) as nat);
        let r = floor_sqrt((s - 1) as nat);
        if (r + 1) * (r + 1) <= s {
            assert((r + 2) * (r + 2) > (r + 1) * (r + 1)) by (nonlinear_arith);
            assert(is_floor_sqrt(s, r + 1));
        } else {
            assert(is_floor_sqrt(s, r));
        }
    }
}

/// The square root rounded down is unique.
pub proof fn lemma_floor_sqrt_unique(s: nat, r: nat)
    requires
        is_floor_sqrt(s, r),
    ensures
        r == floor_sqrt(s),
{
    lemma_floor_sqrt_exists(s);
    let q = floor_sqrt(s);
    if r < q {
        assert((r + 1) * (r + 1) <= q * q) by (nonlinear_arith)
            requires
                r + 1 <= q,
        ;
    }
    if q < r {
        assert((q + 1) * (q + 1) <= r * r) by (nonlinear_arith)
            requires
                q + 1 <= r,
        ;
    }
}

/// The square root rounded up is the least number whose square reaches `s`.
pub proof fn lemma_ceil_sqrt(s: nat)
    ensures
        is_ceil_sqrt(s, ceil_sqrt(s)),
{
    lemma_floor_sqrt_exists(s);
    let r = floor_sqrt(s);
    if r * r != s {
        assert((r + 1 - 1) * (r + 1 - 1) == r * r);
    } else if r > 0 {
        assert((r - 1) * (r - 1) < r * r) by (nonlinear_arith)
            requires
                r > 0,
        ;
    }
}

/// The square root of `s`, rounded down.
pub fn isqrt(s: u128) -> (r: u64)
    ensures
        r == floor_sqrt(s as nat),
        is_floor_sqrt(s as nat, r as nat),
{
    let mut lo: u128 = 0;
    let mut hi: u128 = 0x1_0000_0000_0000_0000;
    assert(hi * hi > s) by (nonlinear_arith)
        requires
            hi == 0x1_0000_0000_0000_0000,
            s <= u128::MAX,
    ;
    while hi - lo > 1
        invariant
            lo < hi <= 0x1_0000_0000_0000_0000,
            lo * lo <= s < hi * hi,
        decreases hi - lo,
    {
        let mid: u128 = lo + (hi - lo) / 2;
        assert(mid * mid <= u128::MAX) by (nonlinear_arith)
            requires
                mid < 0x1_0000_0000_0000_0000,
        ;
        if mid * mid <= s {
            lo = mid;
        } else {
            hi = mid;
        }
    }
    proof {
        assert(hi == lo + 1);
        lemma_floor_sqrt_unique(s as nat, lo as nat);
    }
    lo as u64
}

/// The magnitude of a component.
fn magnitude(x: i32) -> (m: u128)
    ensures
        m == if x >= 0 {
            x as int
        } else {
            -(x as int)
        },
        m <= 0x8000_0000,
{
    if x >= 0 {
        x as u128
    } else {
        (-(x as i64)) as u128
    }
}

/// Sum of the squares of the components of `v`.
pub fn squared_norm(v: &Vec<i32>) -> (s: u128)
    ensures
        s == sum_squares(v@),
{
    let mut sum: u128 = 0;
    let mut i: usize = 0;
    while i < v.len()
        invariant
            i <= v@.len(),
            sum == sum_squares(v@.take(i as int)),
            sum <= i * 0x4000_0000_0000_0000,
        decreases v@.len() - i,
    {
        let m: u128 = magnitude(v[i]);
        proof {
            let next = v@.take(i + 1);
            assert(next.drop_last() == v@.take(i as int));
            assert(next.last() == v@[i as int]);
            assert(m * m == v@[i as int] as int * v@[i as int] as int) by (nonlinear_arith)
                requires
                    m == v@[i as int] as int || m == -(v@[i as int] as int),
            ;
            assert(m * m <= 0x4000_0000_0000_0000) by (nonlinear_arith)
                requires
                    m <= 0x8000_0000,
            ;
            assert((i + 1) * 0x4000_0000_0000_0000 <= u128::MAX) by (nonlinear_arith)
                requires
                    i + 1 <= 0x1_0000_0000_0000_0000,
            ;
            assert(i * 0x4000_0000_0000_0000 + 0x4000_0000_0000_0000 == (i + 1)
                * 0x4000_0000_0000_0000) by (nonlinear_arith);
        }
        sum = sum + m * m;
        i = i + 1;
    }
    proof {
        assert(v@.take(i as int) == v@);
    }
    sum
}

/// The L2 norm of `v`, rounded down to a whole number of millionths.
#[must_use]
pub fn l2_norm(v: &Vec<i32>) -> (n: u64)
    ensures
        n == norm_of(v@),
{
    isqrt(squared_norm(v))
}

/// One component scaled by `bound / n`, rounded toward zero.
fn scale_component(x: i32, bound: u64, n: u128) -> (y: i32)
    requires
        bound < n,
    ensures
        y == scaled(x as int, bound as nat, n as nat),
{
    let m: u128 = magnitude(x);
    assert(m * bound <= 0x8000_0000 * 0xFFFF_FFFF_FFFF_FFFF) by (nonlinear_arith)
        requires
            m <= 0x8000_0000,
            bound <= 0xFFFF_FFFF_FFFF_FFFF,
    ;
    let q: u128 = (m * (bound as u128)) / n;
    proof {
        lemma_scaled_magnitude(m as nat, bound as nat, n as nat);
    }
    if x >= 0 {
        assert(q <= x);
        q as i32
    } else {
        assert(q <= -(x as int));
        (-(q as i64)) as i32
    }
}

/// Scaling by a factor below one does not raise a magnitude.
proof fn lemma_scaled_magnitude(m: nat, bound: nat, n: nat)
    requires
        bound < n,
    ensures
        (m * bound) / n <= m,
        ((m * bound) / n) * n <= m * bound,
{
    let q = (m * bound) / n;
    vstd::arithmetic::div_mod::lemma_fundamental_div_mod((m * bound) as int, n as int);
    vstd::arithmetic::div_mod::lemma_mod_bound((m * bound) as int, n as int);
    assert(n * q <= m * bound);
    assert(q * n == n * q) by (nonlinear_arith);
    if q > m {
        assert(n * q >= n * (m + 1)) by (nonlinear_arith)
            requires
                q >= m + 1,
        ;
        assert(n * (m + 1) > m * bound) by (nonlinear_arith)
            requires
                bound < n,
        ;
    }
}

/// Engine that clips gradients and adds Gaussian noise to them.
#[derive(Debug)]
pub struct DPEngine {
    config: DPConfig,
    rng_state: u64,
}

impl DPEngine {
    /// The engine's configuration.
    pub closed spec fn settings(&self) -> DPConfig {
        self.config
    }

    /// The state of the engine's generator.
    pub closed spec fn rng(&self) -> u64 {
        self.rng_state
    }

    /// An engine whose generator is seeded from the clock.
    ///
    /// `clock_nanos` is the time in nanoseconds since the epoch, or nothing if
    /// the clock could not be read. The seed is the low 64 bits of the time,
    /// or a fixed value without one.
    #[must_use]
    pub fn new(config: DPConfig, clock_nanos: Option<u128>) -> (e: Self)
        ensures
            e.settings() == config,
            e.rng() == seed_of(clock_nanos),
    {
        let seed: u64 = match clock_nanos {
            Some(nanos) => (nanos % 0x1_0000_0000_0000_0000) as u64,
            None => FALLBACK_SEED,
        };
        DPEngine { config, rng_state: seed }
    }

    /// An engine whose generator starts from `seed`.
    #[must_use]
    pub fn with_seed(config: DPConfig, seed: u64) -> (e: Self)
        ensures
            e.settings() == config,
            e.rng() == seed,
    {
        DPEngine { config, rng_state: seed }
    }

    /// The engine's configuration.
    #[must_use]
    pub fn config(&self) -> (c: &DPConfig)
        ensures
            *c == self.settings(),
    {
        &self.config
    }

    /// The configured ε, in millionths.
    #[must_use]
    pub fn epsilon(&self) -> (e: u64)
        ensures
            e == self.settings().epsilon,
    {
        self.config.epsilon
    }

    /// The configured δ, in millionths of a millionth.
    #[must_use]
    pub fn delta(&self) -> (d: u64)
        ensures
            d == self.settings().delta,
    {
        self.config.delta
    }

    /// The noise scale σ that the engine's noise is calibrated to, in
    /// millionths, for the calibration factor `sqrt(2 ln(1.25 / δ))` in
    /// millionths.
    #[must_use]
    pub fn noise_std(&self, calibration: u64) -> (sigma: u128)
        requires
            self.settings().wf(),
        ensures
            sigma == self.settings().noise_scale_spec(calibration),
    {
        self.config.noise_scale(calibration)
    }

    /// Steps the generator once and returns its new state.
    pub fn next_u64(&mut self) -> (r: u64)
        ensures
            r == lcg_next(old(self).rng()),
            final(self).rng() == r,
            final(self).settings() == old(self).settings(),
    {
        let product: u64 = self.rng_state.wrapping_mul(LCG_MULTIPLIER);
        let next: u64 = product.wrapping_add(LCG_INCREMENT);
        proof {
            let s = self.rng_state as int;
            let range = 0x1_0000_0000_0000_0000int;
            assert(s * LCG_MULTIPLIER as int >= 0) by (nonlinear_arith)
                requires
                    s >= 0,
            ;
            assert(product == (s * LCG_MULTIPLIER as int) % range);
            vstd::arithmetic::div_mod::lemma_add_mod_noop(
                s * LCG_MULTIPLIER as int,
                LCG_INCREMENT as int,
                range,
            );
            vstd::arithmetic::div_mod::lemma_small_mod(LCG_INCREMENT as nat, range as nat);
            if product + LCG_INCREMENT > u64::MAX {
                vstd::arithmetic::div_mod::lemma_mod_sub_multiples_vanish(
                    product + LCG_INCREMENT as int,
                    range,
                );
                vstd::arithmetic::div_mod::lemma_small_mod(
                    (product + LCG_INCREMENT - range) as nat,
                    range as nat,
                );
            } else {
                vstd::arithmetic::div_mod::lemma_small_mod(
                    (product + LCG_INCREMENT) as nat,
                    range as nat,
                );
            }
        }
        self.rng_state = next;
        next
    }

    /// Clips `gradients` to the configured bound, in place.
    ///
    /// A vector whose L2 norm is within the bound is left as it is. Otherwise
    /// every component is scaled by the bound over the norm.
    pub fn clip_gradients(&self, gradients: &mut Vec<i32>)
        ensures
            final(gradients)@ == clipped(old(gradients)@, self.settings().max_grad_norm as nat),
    {
        let bound: u64 = self.config.max_grad_norm;
        let total: u128 = squared_norm(gradients);
        assert((bound as u128) * (bound as u128) <= u128::MAX) by (nonlinear_arith)
            requires
                bound <= 0xFFFF_FFFF_FFFF_FFFF,
        ;
        if total > (bound as u128) * (bound as u128) {
            let root: u64 = isqrt(total);
            let n: u128 = if (root as u128) * (root as u128) == total {
                root as u128
            } else {
                root as u128 + 1
            };
            proof {
                lemma_ceil_sqrt(total as nat);
                assert(n == ceil_sqrt(total as nat));
                if n <= bound {
                    assert(n * n <= bound * bound) by (nonlinear_arith)
                        requires
                            0 <= n <= bound,
                    ;
                }
            }
            let mut i: usize = 0;
            while i < gradients.len()
                invariant
                    gradients@.len() == old(gradients)@.len(),
                    i <= gradients@.len(),
                    bound < n,
                    n == ceil_sqrt(sum_squares(old(gradients)@)),
                    forall|k: int|
                        0 <= k < i ==> gradients@[k] == scaled(
                            #[trigger] old(gradients)@[k] as int,
                            bound as nat,
                            n as nat,
                        ),
                    forall|k: int|
                        i <= k < gradients@.len() ==> gradients@[k] == old(gradients)@[k],
                decreases gradients@.len() - i,
            {
                let y: i32 = scale_component(gradients[i], bound, n);
                gradients.set(i, y);
                i = i + 1;
            }
            assert(gradients@ =~= clipped(old(gradients)@, bound as nat));
        }
    }

    /// Draws the uniform numbers for `count` noise values: two steps of the
    /// generator for each, in order.
    pub fn draw_uniform(&mut self, count: usize) -> (pairs: Vec<(u64, u64)>)
        ensures
            pairs@ == uniform_pairs(old(self).rng(), count as nat),
            final(self).settings() == old(self).settings(),
            final(self).rng() == lcg_advance(old(self).rng(), 2 * count as nat),
    {
        let mut pairs: Vec<(u64, u64)> = Vec::new();
        let mut i: usize = 0;
        while i < count
            invariant
                i <= count,
                pairs@ == uniform_pairs(old(self).rng(), i as nat),
                self.settings() == old(self).settings(),
                self.rng() == lcg_advance(old(self).rng(), 2 * i as nat),
            decreases count - i,
        {
            let first: u64 = self.next_u64();
            let second: u64 = self.next_u64();
            pairs.push((first, second));
            proof {
                let start = old(self).rng();
                assert(lcg_advance(start, (2 * i + 1) as nat) == lcg_next(
                    lcg_advance(start, (2 * i) as nat),
                ));
                assert(lcg_advance(start, (2 * i + 2) as nat) == lcg_next(
                    lcg_advance(start, (2 * i + 1) as nat),
                ));
                assert(pairs@ =~= uniform_pairs(start, (i + 1) as nat));
            }
            i = i + 1;
        }
        pairs
    }

    /// Adds `noise` to `gradients`, component by component, each sum held
    /// within the range of a component.
    ///
    /// The noise has to hold one value for each component. Where it does not,
    /// nothing is added and `false` is returned.
    pub fn add_noise(&self, gradients: &mut Vec<i32>, noise: &Vec<i32>) -> (added: bool)
        ensures
            added == (noise@.len() == old(gradients)@.len()),
            final(gradients)@ == noised(old(gradients)@, noise@),
    {
        if noise.len() != gradients.len() {
            return false;
        }
        let mut i: usize = 0;
        while i < gradients.len()
            invariant
                gradients@.len() == old(gradients)@.len(),
                gradients@.len() == noise@.len(),
                i <= gradients@.len(),
                forall|k: int|
                    0 <= k < i ==> gradients@[k] == saturating_sum(
                        old(gradients)@[k],
                        #[trigger] noise@[k],
                    ),
                forall|k: int| i <= k < gradients@.len() ==> gradients@[k] == old(gradients)@[k],
            decreases gradients@.len() - i,
        {
            let sum: i64 = gradients[i] as i64 + noise[i] as i64;
            let held: i32 = if sum > i32::MAX as i64 {
                i32::MAX
            } else if sum < i32::MIN as i64 {
                i32::MIN
            } else {
                sum as i32
            };
            gradients.set(i, held);
            i = i + 1;
        }
        assert(gradients@ =~= with_noise(old(gradients)@, noise@));
        true
    }

    /// The whole pipeline: clips `gradients`, then adds `noise` to the clipped
    /// vector. Noise is never added before clipping.
    ///
    /// The noise has to hold one value for each component. Where it does not,
    /// the gradient is left as it is, not even clipped, and `false` is
    /// returned.
    pub fn privatize_gradients(&self, gradients: &mut Vec<i32>, noise: &Vec<i32>) -> (done: bool)
        ensures
            done == (noise@.len() == old(gradients)@.len()),
            final(gradients)@ == privatized(
                old(gradients)@,
                self.settings().max_grad_norm as nat,
                noise@,
            ),
    {
        if noise.len() != gradients.len() {
            return false;
        }
        self.clip_gradients(gradients);
        proof {
            lemma_clipped_len(old(gradients)@, self.settings().max_grad_norm as nat);
        }
        self.add_noise(gradients, noise)
    }
}

/// With noise of the right length, what `privatize_gradients` gives is what
/// `clip_gradients` followed by `add_noise` with the same noise gives: the
/// noise is added to the clipped vector, never the other way round. The
/// result has the length of the input.
pub proof fn lemma_privatize_is_clip_then_noise(v: Seq<i32>, bound: nat, noise: Seq<i32>)
    ensures
        noise.len() == v.len() ==> privatized(v, bound, noise) == noised(clipped(v, bound), noise),
        privatized(v, bound, noise).len() == v.len(),
{
}

/// The norm of a vector that fits in memory fits in 64 bits.
pub proof fn lemma_norm_fits(v: Seq<i32>)
    requires
        v.len() <= usize::MAX,
    ensures
        norm_of(v) <= u64::MAX,
{
    lemma_sum_squares_bound(v);
    lemma_floor_sqrt_exists(sum_squares(v));
    let s = sum_squares(v);
    let r = floor_sqrt(s);
    assert(s <= 0x1_0000_0000_0000_0000 * 0x4000_0000_0000_0000) by (nonlinear_arith)
        requires
            s <= v.len() * 0x4000_0000_0000_0000,
            v.len() <= 0x1_0000_0000_0000_0000,
    ;
    if r > u64::MAX {
        assert(r * r >= 0x1_0000_0000_0000_0000 * 0x1_0000_0000_0000_0000) by (nonlinear_arith)
            requires
                r >= 0x1_0000_0000_0000_0000,
        ;
    }
}

/// The sum of squares of a vector is at most 2^62 for each component.
pub proof fn lemma_sum_squares_bound(v: Seq<i32>)
    ensures
        sum_squares(v) <= v.len() * 0x4000_0000_0000_0000,
    decreases v.len(),
{
    if v.len() > 0 {
        lemma_sum_squares_bound(v.drop_last());
        let x = v.last() as int;
        let rest = sum_squares(v.drop_last()) as int;
        let n = v.len() as int;
        assert(0 <= x * x <= 0x4000_0000_0000_0000) by (nonlinear_arith)
            requires
                -0x8000_0000 <= x <= 0x7FFF_FFFF,
        ;
        assert(sum_squares(v) == rest + x * x);
        assert(rest + x * x <= n * 0x4000_0000_0000_0000) by (nonlinear_arith)
            requires
                rest <= (n - 1) * 0x4000_0000_0000_0000,
                x * x <= 0x4000_0000_0000_0000,
        ;
    } else {
        assert(sum_squares(v) == 0);
    }
}

/// Clipping keeps the length of the vector.
pub proof fn lemma_clipped_len(v: Seq<i32>, bound: nat)
    ensures
        clipped(v, bound).len() == v.len(),
{
}

/// A component scaled by a factor below one keeps its sign, does not grow, and
/// is the exact quotient rounded toward zero: it differs from `x * m / n` by
/// less than one.
pub proof fn lemma_scaled_component(x: i32, m: nat, n: nat)
    requires
        m < n,
    ensures
        ({
            let y = scaled(x as int, m, n);
            let mi = m as int;
            let ni = n as int;
            &&& i32::MIN <= y <= i32::MAX
            &&& x >= 0 ==> 0 <= y <= x
            &&& x <= 0 ==> x <= y <= 0
            &&& x >= 0 ==> y * ni <= x * mi < y * ni + ni
            &&& x <= 0 ==> y * ni - ni < x * mi <= y * ni
            &&& (y * y) * (ni * ni) <= (x * x) * (mi * mi)
            &&& 0 <= y * y <= x * x
        }),
{
    let y = scaled(x as int, m, n);
    let mi = m as int;
    let ni = n as int;
    let a: int = if x >= 0 {
        x as int
    } else {
        -(x as int)
    };
    assert(a * mi >= 0) by (nonlinear_arith)
        requires
            a >= 0,
            mi >= 0,
    ;
    let q = (a * mi) / ni;
    lemma_scaled_magnitude(a as nat, m, n);
    vstd::arithmetic::div_mod::lemma_fundamental_div_mod(a * mi, ni);
    vstd::arithmetic::div_mod::lemma_mod_bound(a * mi, ni);
    vstd::arithmetic::div_mod::lemma_div_pos_is_pos(a * mi, ni);
    assert(q * ni == ni * q) by (nonlinear_arith);
    assert(q * ni <= a * mi < q * ni + ni);
    assert(0 <= q <= a);
    if x >= 0 {
        assert(x as int * m == a * mi);
        assert(y == q);
        assert(x * mi == a * mi);
        if x == 0 {
            assert(x * mi == 0 && y * ni == 0) by (nonlinear_arith)
                requires
                    x == 0,
                    0 <= y <= x,
            ;
        }
    } else {
        assert((-(x as int)) * m == a * mi);
        assert(y == -q);
        assert(x * mi == -(a * mi)) by (nonlinear_arith)
            requires
                a == -(x as int),
        ;
        assert(y * ni == -(q * ni)) by (nonlinear_arith)
            requires
                y == -q,
        ;
    }
    assert(y * y == q * q) by (nonlinear_arith)
        requires
            y == q || y == -q,
    ;
    assert(x * x == a * a) by (nonlinear_arith)
        requires
            x == a || x == -a,
    ;
    assert((q * q) * (ni * ni) <= (a * a) * (mi * mi)) by (nonlinear_arith)
        requires
            0 <= q * ni <= a * mi,
    ;
    assert(0 <= q * q <= a * a) by (nonlinear_arith)
        requires
            0 <= q <= a,
    ;
}

/// Scaling every component by a factor below one shrinks the sum of squares by
/// at least the square of that factor.
pub proof fn lemma_scale_all_shrinks(v: Seq<i32>, m: nat, n: nat)
    requires
        m < n,
    ensures
        sum_squares(scale_all(v, m, n)) as int * (n as int * n as int) <= sum_squares(v) as int
            * (m as int * m as int),
        sum_squares(scale_all(v, m, n)) <= sum_squares(v),
    decreases v.len(),
{
    let w = scale_all(v, m, n);
    let mi = m as int;
    let ni = n as int;
    if v.len() > 0 {
        let x = v.last();
        let y = scaled(x as int, m, n);
        lemma_scaled_component(x, m, n);
        lemma_scale_all_shrinks(v.drop_last(), m, n);
        assert(w.drop_last() =~= scale_all(v.drop_last(), m, n));
        assert(w.last() == y);
        let a = sum_squares(w.drop_last()) as int;
        let b = sum_squares(v.drop_last()) as int;
        assert(sum_squares(w) == a + y * y);
        assert(sum_squares(v) == b + x * x);
        assert((a + y * y) * (ni * ni) <= (b + x * x) * (mi * mi)) by (nonlinear_arith)
            requires
                a * (ni * ni) <= b * (mi * mi),
                (y * y) * (ni * ni) <= (x * x) * (mi * mi),
        ;
    } else {
        assert(sum_squares(w) == 0);
        assert(sum_squares(v) == 0);
    }
}

/// Clipping bounds the norm: the clipped vector's L2 norm is at most the
/// bound, with no tolerance, and clipping never raises the sum of squares.
pub proof fn lemma_clip_within_bound(v: Seq<i32>, bound: nat)
    ensures
        !exceeds(clipped(v, bound), bound),
        sum_squares(clipped(v, bound)) <= bound * bound,
        sum_squares(clipped(v, bound)) <= sum_squares(v),
        norm_of(clipped(v, bound)) <= bound,
        norm_of(clipped(v, bound)) <= norm_of(v),
{
    let c = clipped(v, bound);
    if exceeds(v, bound) {
        let s = sum_squares(v);
        let n = ceil_sqrt(s);
        lemma_ceil_sqrt(s);
        if n <= bound {
            assert(n * n <= bound * bound) by (nonlinear_arith)
                requires
                    n <= bound,
            ;
        }
        lemma_scale_all_shrinks(v, bound, n);
        let t = sum_squares(c) as int;
        let si = s as int;
        let ni = n as int;
        let bi = bound as int;
        assert(si <= ni * ni);
        assert(t <= bi * bi) by (nonlinear_arith)
            requires
                t * (ni * ni) <= si * (bi * bi),
                0 <= si <= ni * ni,
                ni > 0,
                t >= 0,
        ;
    }
    lemma_norm_is_monotone(sum_squares(c), bound * bound);
    assert((bound + 1) * (bound + 1) > bound * bound) by (nonlinear_arith);
    lemma_floor_sqrt_unique(bound * bound, bound);
    lemma_norm_is_monotone(sum_squares(c), sum_squares(v));
}

/// The square root rounded down grows with its argument.
pub proof fn lemma_norm_is_monotone(a: nat, b: nat)
    requires
        a <= b,
    ensures
        floor_sqrt(a) <= floor_sqrt(b),
{
    lemma_floor_sqrt_exists(a);
    lemma_floor_sqrt_exists(b);
    let p = floor_sqrt(a);
    let q = floor_sqrt(b);
    if q < p {
        assert((q + 1) * (q + 1) <= p * p) by (nonlinear_arith)
            requires
                q + 1 <= p,
        ;
    }
}

/// Clipping keeps the direction: when it scales, every component keeps its
/// sign and is the exact value `x * bound / n` rounded toward zero, where `n`
/// is the norm rounded up; a vector within the bound is returned as it is.
pub proof fn lemma_clip_keeps_direction(v: Seq<i32>, bound: nat, i: int)
    requires
        0 <= i < v.len(),
    ensures
        !exceeds(v, bound) ==> clipped(v, bound) == v,
        exceeds(v, bound) ==> ({
            let n = ceil_sqrt(sum_squares(v));
            let x = v[i];
            let y = clipped(v, bound)[i];
            &&& bound < n
            &&& x >= 0 ==> 0 <= y <= x && y * (n as int) <= x * (bound as int) < y * (n as int)
                + n
            &&& x <= 0 ==> x <= y <= 0 && y * (n as int) - n < x * (bound as int) <= y * (
            n as int)
        }),
{
    if exceeds(v, bound) {
        let s = sum_squares(v);
        let n = ceil_sqrt(s);
        lemma_ceil_sqrt(s);
        if n <= bound {
            assert(n * n <= bound * bound) by (nonlinear_arith)
                requires
                    n <= bound,
            ;
        }
        lemma_scaled_component(v[i], bound, n);
    }
}

} // verus!
