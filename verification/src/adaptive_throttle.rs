//! Adaptive throttle: a PID controller over the latency of a tick.
//!
//! Every completed tick hands its latency to the throttle, which derives a
//! continuous intensity in `[0, 1]` and a coarse level from it. A latency above
//! the survival threshold forces the survival level and intensity zero,
//! whatever the controller computed. The level has no memory: every sample is
//! judged on its own.
//!
//! Latencies are milliseconds, gains and the intensity are plain numbers, and
//! elapsed time is seconds; each is held as a count of millionths. Every
//! division of the controller rounds toward zero.

use crate::node_profile::NodeProfile;
use vstd::prelude::*;

verus! {

/// One, in millionths.
pub const ONE: u32 = 1_000_000;

/// Bound of the integral term (anti-windup): ten, in millionths.
pub const INTEGRAL_LIMIT: i64 = 10_000_000;

/// Least difference of target latency that makes `update` swap the preset: one
/// millisecond, in millionths.
pub const RETUNE_MARGIN: u64 = 1_000_000;

/// Throttle level of the node.
#[derive(Debug, Clone, Copy, PartialEq, Eq, Hash, Structural)]
pub enum ThrottleLevel {
    /// All lanes run.
    Normal,
    /// Background work is reduced.
    Throttled,
    /// Critical work only.
    Survival,
}

impl ThrottleLevel {
    /// Whether background work may run at this level.
    #[must_use]
    pub fn allows_background(&self) -> (b: bool)
        ensures
            b == (*self != ThrottleLevel::Survival),
    {
        match self {
            ThrottleLevel::Normal | ThrottleLevel::Throttled => true,
            ThrottleLevel::Survival => false,
        }
    }

    /// Name of the level.
    #[must_use]
    pub fn as_str(&self) -> (s: &'static str)
        ensures
            s@ == match *self {
                ThrottleLevel::Normal => "Normal"@,
                ThrottleLevel::Throttled => "Throttled"@,
                ThrottleLevel::Survival => "Survival"@,
            },
    {
        match self {
            ThrottleLevel::Normal => "Normal",
            ThrottleLevel::Throttled => "Throttled",
            ThrottleLevel::Survival => "Survival",
        }
    }
}

impl Default for ThrottleLevel {
    /// The normal level.
    fn default() -> (l: Self)
        ensures
            l == ThrottleLevel::Normal,
    {
        ThrottleLevel::Normal
    }
}

/// Gains and thresholds of the throttle, each in millionths.
#[derive(Debug, Clone, Copy, PartialEq, Eq, Structural)]
pub struct ThrottleConfig {
    /// Target latency of a tick, in milliseconds.
    pub target_latency_ms: u64,
    /// Proportional gain.
    pub kp: u32,
    /// Integral gain.
    pub ki: u32,
    /// Derivative gain.
    pub kd: u32,
    /// Latency above which the node goes to survival, in milliseconds.
    pub survival_threshold_ms: u64,
    /// Intensity below which the node is throttled.
    pub throttled_threshold: u32,
}

impl ThrottleConfig {
    /// The preset of each capability tier.
    pub open spec fn for_profile_spec(profile: NodeProfile) -> ThrottleConfig {
        match profile {
            NodeProfile::HeavyGpu | NodeProfile::HeavyCpu => ThrottleConfig {
                target_latency_ms: 10_000_000,
                kp: 50_000,
                ki: 1_000,
                kd: 10_000,
                survival_threshold_ms: 100_000_000,
                throttled_threshold: 700_000,
            },
            NodeProfile::Desktop => ThrottleConfig {
                target_latency_ms: 50_000_000,
                kp: 30_000,
                ki: 500,
                kd: 5_000,
                survival_threshold_ms: 200_000_000,
                throttled_threshold: 600_000,
            },
            NodeProfile::Mobile => ThrottleConfig {
                target_latency_ms: 200_000_000,
                kp: 20_000,
                ki: 200,
                kd: 2_000,
                survival_threshold_ms: 500_000_000,
                throttled_threshold: 500_000,
            },
        }
    }

    /// Preset of the heavy tiers: target 10 ms, gains 0.05, 0.001 and 0.01,
    /// survival above 100 ms, throttled below 0.7.
    #[must_use]
    pub fn heavy() -> (c: Self)
        ensures
            c == Self::for_profile_spec(NodeProfile::HeavyGpu),
    {
        ThrottleConfig {
            target_latency_ms: 10_000_000,
            kp: 50_000,
            ki: 1_000,
            kd: 10_000,
            survival_threshold_ms: 100_000_000,
            throttled_threshold: 700_000,
        }
    }

    /// Preset of the desktop tier: target 50 ms, gains 0.03, 0.0005 and 0.005,
    /// survival above 200 ms, throttled below 0.6.
    #[must_use]
    pub fn desktop() -> (c: Self)
        ensures
            c == Self::for_profile_spec(NodeProfile::Desktop),
    {
        ThrottleConfig {
            target_latency_ms: 50_000_000,
            kp: 30_000,
            ki: 500,
            kd: 5_000,
            survival_threshold_ms: 200_000_000,
            throttled_threshold: 600_000,
        }
    }

    /// Preset of the mobile tier: target 200 ms, gains 0.02, 0.0002 and 0.002,
    /// survival above 500 ms, throttled below 0.5.
    #[must_use]
    pub fn mobile() -> (c: Self)
        ensures
            c == Self::for_profile_spec(NodeProfile::Mobile),
    {
        ThrottleConfig {
            target_latency_ms: 200_000_000,
            kp: 20_000,
            ki: 200,
            kd: 2_000,
            survival_threshold_ms: 500_000_000,
            throttled_threshold: 500_000,
        }
    }

    /// The preset of the tier of `profile`.
    #[must_use]
    pub fn for_profile(profile: &NodeProfile) -> (c: Self)
        ensures
            c == Self::for_profile_spec(*profile),
    {
        match profile {
            NodeProfile::HeavyGpu | NodeProfile::HeavyCpu => Self::heavy(),
            NodeProfile::Desktop => Self::desktop(),
            NodeProfile::Mobile => Self::mobile(),
        }
    }
}

impl Default for ThrottleConfig {
    /// The desktop preset.
    fn default() -> (c: Self)
        ensures
            c == Self::for_profile_spec(NodeProfile::Desktop),
    {
        Self::desktop()
    }
}

/// `a / b` rounded toward zero, for a positive `b`.
pub open spec fn toward_zero(a: int, b: int) -> int {
    if a >= 0 {
        a / b
    } else {
        -((-a) / b)
    }
}

/// `x` held within `[lo, hi]`.
pub open spec fn clamp(x: int, lo: int, hi: int) -> int {
    if x < lo {
        lo
    } else if x > hi {
        hi
    } else {
        x
    }
}

/// What a throttle holds, as mathematical integers in millionths.
pub struct ThrottleState {
    /// Gains and thresholds in force.
    pub config: ThrottleConfig,
    /// Current level.
    pub level: ThrottleLevel,
    /// Current intensity.
    pub intensity: int,
    /// Accumulated error of the controller, in millisecond-seconds.
    pub integral: int,
    /// Error of the last controller step, in milliseconds.
    pub last_error: int,
    /// Number of `update` calls, modulo 2^64.
    pub tick_count: int,
    /// Latest latency sample, in milliseconds.
    pub last_latency: int,
    /// Moving average of the latency, in milliseconds.
    pub avg_latency: int,
    /// Whether a latency sample was recorded since the start or the last reset.
    pub sampled: bool,
}

impl ThrottleState {
    /// The state of a new throttle: normal level, full intensity, controller
    /// and telemetry at zero.
    pub open spec fn initial(config: ThrottleConfig) -> ThrottleState {
        ThrottleState {
            config,
            level: ThrottleLevel::Normal,
            intensity: ONE as int,
            integral: 0,
            last_error: 0,
            tick_count: 0,
            last_latency: 0,
            avg_latency: 0,
            sampled: false,
        }
    }

    /// The intensity is a fraction, the integral is within its bound, and at
    /// the survival level the intensity is zero.
    pub open spec fn wf(self) -> bool {
        &&& 0 <= self.intensity <= ONE
        &&& -INTEGRAL_LIMIT <= self.integral <= INTEGRAL_LIMIT
        &&& self.level == ThrottleLevel::Survival ==> self.intensity == 0
    }

    /// The moving average after a sample: the sample itself if it is the
    /// first, else nine tenths of the old average plus one tenth of the sample.
    pub open spec fn averaged(self, latency: int) -> int {
        if self.sampled {
            (9 * self.avg_latency + latency) / 10
        } else {
            latency
        }
    }

    /// Error of a sample: positive when the tick was faster than the target.
    pub open spec fn error_of(self, latency: int) -> int {
        self.config.target_latency_ms - latency
    }

    /// The integral after a controller step over `elapsed` seconds.
    pub open spec fn stepped_integral(self, latency: int, elapsed: int) -> int {
        clamp(
            self.integral + toward_zero(self.error_of(latency) * elapsed, ONE as int),
            -INTEGRAL_LIMIT as int,
            INTEGRAL_LIMIT as int,
        )
    }

    /// Output of the controller: proportional, integral and derivative term.
    pub open spec fn controller_output(self, latency: int, elapsed: int) -> int {
        let error = self.error_of(latency);
        toward_zero(self.config.kp * error, ONE as int) + toward_zero(
            self.config.ki * self.stepped_integral(latency, elapsed),
            ONE as int,
        ) + toward_zero(self.config.kd * (error - self.last_error), elapsed)
    }

    /// The intensity that the controller asks for: one plus a tenth of its
    /// output, held within `[0, 1]`.
    pub open spec fn stepped_intensity(self, latency: int, elapsed: int) -> int {
        clamp(ONE + toward_zero(self.controller_output(latency, elapsed), 10), 0, ONE as int)
    }

    /// The state after the controller step. Without elapsed time the
    /// controller is left as it is.
    pub open spec fn pid_step(self, latency: int, elapsed: int) -> ThrottleState {
        if elapsed <= 0 {
            self
        } else {
            ThrottleState {
                integral: self.stepped_integral(latency, elapsed),
                last_error: self.error_of(latency),
                intensity: self.stepped_intensity(latency, elapsed),
                ..self
            }
        }
    }

    /// The state after the level was judged anew from the latest sample.
    pub open spec fn relevel(self) -> ThrottleState {
        if self.last_latency > self.config.survival_threshold_ms {
            ThrottleState { level: ThrottleLevel::Survival, intensity: 0, ..self }
        } else if self.intensity < self.config.throttled_threshold {
            ThrottleState { level: ThrottleLevel::Throttled, ..self }
        } else {
            ThrottleState { level: ThrottleLevel::Normal, ..self }
        }
    }

    /// The state after a latency sample that came `elapsed` seconds after the
    /// previous controller step.
    pub open spec fn observe(self, latency: int, elapsed: int) -> ThrottleState {
        (ThrottleState {
            last_latency: latency,
            avg_latency: self.averaged(latency),
            sampled: true,
            ..self
        }).pid_step(latency, elapsed).relevel()
    }

    /// The state after the samples of `latencies`, one controller step apart
    /// by the times of `elapsed`.
    pub open spec fn observe_all(self, latencies: Seq<u64>, elapsed: Seq<u64>) -> ThrottleState
        recommends
            latencies.len() == elapsed.len(),
        decreases latencies.len(),
    {
        if latencies.len() == 0 {
            self
        } else {
            self.observe_all(latencies.drop_last(), elapsed.drop_last()).observe(
                latencies.last() as int,
                elapsed.last() as int,
            )
        }
    }

    /// The state after `update` for a node of tier `profile`: the preset of the
    /// tier replaces the configuration if their target latencies differ by
    /// more than one millisecond, and the tick counter goes up by one, wrapping.
    pub open spec fn retuned(self, profile: NodeProfile) -> ThrottleState {
        let expected = ThrottleConfig::for_profile_spec(profile);
        let gap = if self.config.target_latency_ms >= expected.target_latency_ms {
            self.config.target_latency_ms - expected.target_latency_ms
        } else {
            expected.target_latency_ms - self.config.target_latency_ms
        };
        ThrottleState {
            config: if gap > RETUNE_MARGIN {
                expected
            } else {
                self.config
            },
            tick_count: if self.tick_count == u64::MAX {
                0
            } else {
                self.tick_count + 1
            },
            ..self
        }
    }
}

/// `a / b` rounded toward zero.
fn quot(a: i128, b: u64) -> (q: i128)
    requires
        b > 0,
        a > i128::MIN,
    ensures
        q == toward_zero(a as int, b as int),
        a >= 0 ==> 0 <= q <= a,
        a <= 0 ==> a <= q <= 0,
{
    if a >= 0 {
        let m: u128 = a as u128;
        let r: u128 = m / (b as u128);
        proof {
            vstd::arithmetic::div_mod::lemma_div_is_ordered_by_denominator(
                a as int,
                1,
                b as int,
            );
            vstd::arithmetic::div_mod::lemma_div_pos_is_pos(a as int, b as int);
        }
        r as i128
    } else {
        let m: u128 = (-a) as u128;
        let r: u128 = m / (b as u128);
        proof {
            vstd::arithmetic::div_mod::lemma_div_is_ordered_by_denominator(
                -(a as int),
                1,
                b as int,
            );
            vstd::arithmetic::div_mod::lemma_div_pos_is_pos(-(a as int), b as int);
        }
        -(r as i128)
    }
}

/// `a * m / 1_000_000` rounded toward zero, for a product too wide for 127 bits.
fn product_in_millionths(a: i128, m: u64) -> (q: i128)
    requires
        -0x1_0000_0000_0000_0000 < a < 0x1_0000_0000_0000_0000,
    ensures
        q == toward_zero(a as int * m as int, ONE as int),
        -0x1_0000_0000_0000_0000_0000_0000_0000 < q < 0x1_0000_0000_0000_0000_0000_0000_0000,
{
    let negative: bool = a < 0;
    let magnitude: u128 = if negative {
        (-a) as u128
    } else {
        a as u128
    };
    assert(magnitude * m <= 0xFFFF_FFFF_FFFF_FFFF * 0xFFFF_FFFF_FFFF_FFFF) by (nonlinear_arith)
        requires
            magnitude <= 0xFFFF_FFFF_FFFF_FFFF,
            m <= 0xFFFF_FFFF_FFFF_FFFF,
    ;
    let product: u128 = magnitude * (m as u128);
    let r: u128 = product / 1_000_000;
    assert(r < 0x1_0000_0000_0000_0000_0000_0000_0000);
    proof {
        if negative {
            assert(-(a as int) * m as int == product) by (nonlinear_arith)
                requires
                    magnitude == -(a as int),
                    product == magnitude * m,
            ;
            assert(a as int * m as int == -(product as int)) by (nonlinear_arith)
                requires
                    magnitude == -(a as int),
                    product == magnitude * m,
            ;
            if product == 0 {
                assert(0int / 1_000_000 == 0);
            }
        } else {
            assert(a as int * m as int == product) by (nonlinear_arith)
                requires
                    magnitude == a as int,
                    product == magnitude * m,
            ;
        }
    }
    if negative {
        -(r as i128)
    } else {
        r as i128
    }
}

/// Throttle driven by the latency of the ticks.
#[derive(Debug)]
pub struct AdaptiveThrottle {
    config: ThrottleConfig,
    current_level: ThrottleLevel,
    intensity: u32,
    integral: i64,
    last_error: i128,
    tick_count: u64,
    last_latency_ms: u64,
    avg_latency_ms: u64,
    sampled: bool,
}

impl View for AdaptiveThrottle {
    type V = ThrottleState;

    closed spec fn view(&self) -> ThrottleState {
        ThrottleState {
            config: self.config,
            level: self.current_level,
            intensity: self.intensity as int,
            integral: self.integral as int,
            last_error: self.last_error as int,
            tick_count: self.tick_count as int,
            last_latency: self.last_latency_ms as int,
            avg_latency: self.avg_latency_ms as int,
            sampled: self.sampled,
        }
    }
}

impl AdaptiveThrottle {
    /// The state is well formed, and every value is in the range of the
    /// machine word that holds it.
    pub closed spec fn wf(&self) -> bool {
        &&& self@.wf()
        &&& -0x1_0000_0000_0000_0000 < self.last_error < 0x1_0000_0000_0000_0000
    }

    /// A well-formed throttle has a well-formed state: its intensity is a
    /// fraction, its integral is within the bound, and at the survival level
    /// its intensity is zero.
    pub proof fn lemma_wf(&self)
        requires
            self.wf(),
        ensures
            self@.wf(),
    {
    }

    /// A throttle with the desktop preset.
    #[must_use]
    pub fn new() -> (t: Self)
        ensures
            t.wf(),
            t@ == ThrottleState::initial(ThrottleConfig::for_profile_spec(NodeProfile::Desktop)),
    {
        Self::with_config(ThrottleConfig::default())
    }

    /// A throttle with the given configuration: normal level, full intensity.
    #[must_use]
    pub fn with_config(config: ThrottleConfig) -> (t: Self)
        ensures
            t.wf(),
            t@ == ThrottleState::initial(config),
    {
        AdaptiveThrottle {
            config,
            current_level: ThrottleLevel::Normal,
            intensity: ONE,
            integral: 0,
            last_error: 0,
            tick_count: 0,
            last_latency_ms: 0,
            avg_latency_ms: 0,
            sampled: false,
        }
    }

    /// Refreshes the configuration at the start of a tick.
    ///
    /// The preset of `profile` replaces the configuration if their target
    /// latencies differ by more than one millisecond; the tick counter goes up
    /// by one, wrapping.
    pub fn update(&mut self, profile: &NodeProfile)
        requires
            old(self).wf(),
        ensures
            final(self).wf(),
            final(self)@ == old(self)@.retuned(*profile),
    {
        let expected = ThrottleConfig::for_profile(profile);
        let gap: u64 = if self.config.target_latency_ms >= expected.target_latency_ms {
            self.config.target_latency_ms - expected.target_latency_ms
        } else {
            expected.target_latency_ms - self.config.target_latency_ms
        };
        if gap > RETUNE_MARGIN {
            self.config = expected;
        }
        self.tick_count = self.tick_count.wrapping_add(1);
    }

    /// Records the latency of a completed tick, in millionths of a
    /// millisecond, `elapsed` millionths of a second after the previous
    /// controller step.
    ///
    /// The sample enters the telemetry, the controller makes one step unless no
    /// time has elapsed, and the level is judged anew.
    pub fn record_tick_latency(&mut self, latency: u64, elapsed: u64)
        requires
            old(self).wf(),
        ensures
            final(self).wf(),
            final(self)@ == old(self)@.observe(latency as int, elapsed as int),
            latency > old(self)@.config.survival_threshold_ms ==> final(self)@.level
                == ThrottleLevel::Survival && final(self)@.intensity == 0,
    {
        self.last_latency_ms = latency;
        if self.sampled {
            let sum: u128 = 9 * (self.avg_latency_ms as u128) + latency as u128;
            self.avg_latency_ms = (sum / 10) as u64;
        } else {
            self.avg_latency_ms = latency;
        }
        self.sampled = true;
        self.update_pid_controller(latency, elapsed);
        self.update_throttle_level();
    }

    /// One step of the controller; none if no time has elapsed.
    fn update_pid_controller(&mut self, latency: u64, elapsed: u64)
        requires
            0 <= old(self).intensity <= ONE,
            -INTEGRAL_LIMIT <= old(self).integral <= INTEGRAL_LIMIT,
            -0x1_0000_0000_0000_0000 < old(self).last_error < 0x1_0000_0000_0000_0000,
        ensures
            final(self)@ == old(self)@.pid_step(latency as int, elapsed as int),
            0 <= final(self).intensity <= ONE,
            -INTEGRAL_LIMIT <= final(self).integral <= INTEGRAL_LIMIT,
            -0x1_0000_0000_0000_0000 < final(self).last_error < 0x1_0000_0000_0000_0000,
    {
        if elapsed == 0 {
            return ;
        }
        let error: i128 = self.config.target_latency_ms as i128 - latency as i128;

        assert(self.config.kp as int * error as int <= 0xFFFF_FFFF * 0x1_0000_0000_0000_0000
            && self.config.kp as int * error as int >= -(0xFFFF_FFFF * 0x1_0000_0000_0000_0000))
            by (nonlinear_arith)
            requires
                0 <= self.config.kp <= 0xFFFF_FFFF,
                -0x1_0000_0000_0000_0000 < error < 0x1_0000_0000_0000_0000,
        ;
        let p: i128 = quot((self.config.kp as i128) * error, 1_000_000);

        let increment: i128 = product_in_millionths(error, elapsed);
        let raised: i128 = self.integral as i128 + increment;
        let integral: i64 = if raised < -(INTEGRAL_LIMIT as i128) {
            -INTEGRAL_LIMIT
        } else if raised > INTEGRAL_LIMIT as i128 {
            INTEGRAL_LIMIT
        } else {
            raised as i64
        };
        assert(self.config.ki as int * integral as int <= 0xFFFF_FFFF * 10_000_000
            && self.config.ki as int * integral as int >= -(0xFFFF_FFFF * 10_000_000))
            by (nonlinear_arith)
            requires
                0 <= self.config.ki <= 0xFFFF_FFFF,
                -10_000_000 <= integral <= 10_000_000,
        ;
        let i: i128 = quot((self.config.ki as i128) * (integral as i128), 1_000_000);

        let change: i128 = error - self.last_error;
        assert(self.config.kd as int * change as int <= 0xFFFF_FFFF * 0x2_0000_0000_0000_0000
            && self.config.kd as int * change as int >= -(0xFFFF_FFFF * 0x2_0000_0000_0000_0000))
            by (nonlinear_arith)
            requires
                0 <= self.config.kd <= 0xFFFF_FFFF,
                -0x2_0000_0000_0000_0000 < change < 0x2_0000_0000_0000_0000,
        ;
        let d: i128 = quot((self.config.kd as i128) * change, elapsed);

        let output: i128 = p + i + d;
        let asked: i128 = ONE as i128 + quot(output, 10);
        let intensity: u32 = if asked < 0 {
            0
        } else if asked > ONE as i128 {
            ONE
        } else {
            asked as u32
        };

        self.integral = integral;
        self.last_error = error;
        self.intensity = intensity;
    }

    /// Judges the level anew from the latest sample and the intensity.
    fn update_throttle_level(&mut self)
        requires
            0 <= old(self).intensity <= ONE,
        ensures
            final(self)@ == old(self)@.relevel(),
            0 <= final(self).intensity <= ONE,
            final(self).integral == old(self).integral,
            final(self).last_error == old(self).last_error,
    {
        if self.last_latency_ms > self.config.survival_threshold_ms {
            self.current_level = ThrottleLevel::Survival;
            self.intensity = 0;
            return ;
        }
        if self.intensity < self.config.throttled_threshold {
            self.current_level = ThrottleLevel::Throttled;
            return ;
        }
        self.current_level = ThrottleLevel::Normal;
    }

    /// Whether background work may run: at every level but survival.
    #[must_use]
    pub fn allow_background(&self) -> (b: bool)
        ensures
            b == (self@.level != ThrottleLevel::Survival),
    {
        self.current_level.allows_background()
    }

    /// The current level.
    #[must_use]
    pub fn current_level(&self) -> (l: ThrottleLevel)
        ensures
            l == self@.level,
    {
        self.current_level
    }

    /// The current intensity, in millionths.
    #[must_use]
    pub fn current_intensity(&self) -> (i: u32)
        ensures
            i == self@.intensity,
    {
        self.intensity
    }

    /// The latest latency sample, in millionths of a millisecond.
    #[must_use]
    pub fn last_latency_ms(&self) -> (l: u64)
        ensures
            l == self@.last_latency,
    {
        self.last_latency_ms
    }

    /// The moving average of the latency, in millionths of a millisecond.
    #[must_use]
    pub fn avg_latency_ms(&self) -> (l: u64)
        ensures
            l == self@.avg_latency,
    {
        self.avg_latency_ms
    }

    /// The number of `update` calls since the start or the last reset, modulo 2^64.
    #[must_use]
    pub fn tick_count(&self) -> (n: u64)
        ensures
            n == self@.tick_count,
    {
        self.tick_count
    }

    /// Puts controller, telemetry and level back to the initial state; the
    /// configuration stays.
    pub fn reset(&mut self)
        ensures
            final(self).wf(),
            final(self)@ == ThrottleState::initial(old(self)@.config),
    {
        self.current_level = ThrottleLevel::Normal;
        self.intensity = ONE;
        self.integral = 0;
        self.last_error = 0;
        self.tick_count = 0;
        self.last_latency_ms = 0;
        self.avg_latency_ms = 0;
        self.sampled = false;
    }
}

impl Default for AdaptiveThrottle {
    /// Same as [`AdaptiveThrottle::new`].
    fn default() -> (t: Self)
        ensures
            t.wf(),
            t@ == ThrottleState::initial(ThrottleConfig::for_profile_spec(NodeProfile::Desktop)),
    {
        Self::new()
    }
}

/// Every sample keeps the state well formed: the intensity stays a fraction,
/// the integral stays within its bound, and survival means intensity zero.
pub proof fn lemma_observe_keeps_wf(state: ThrottleState, latency: int, elapsed: int)
    requires
        state.wf(),
    ensures
        state.observe(latency, elapsed).wf(),
        state.observe(latency, elapsed).config == state.config,
        state.observe(latency, elapsed).tick_count == state.tick_count,
{
}

/// A latency above the survival threshold forces the survival level and
/// intensity zero, and forbids background work, whatever the controller held
/// before and however much time has elapsed.
pub proof fn lemma_high_latency_forces_survival(state: ThrottleState, latency: int, elapsed: int)
    requires
        latency > state.config.survival_threshold_ms,
    ensures
        state.observe(latency, elapsed).level == ThrottleLevel::Survival,
        state.observe(latency, elapsed).intensity == 0,
{
}

/// The level has no memory: a latency within the survival threshold never
/// gives survival, and then the level is throttled exactly when the intensity
/// is below the throttled threshold.
pub proof fn lemma_level_follows_sample(state: ThrottleState, latency: int, elapsed: int)
    requires
        latency <= state.config.survival_threshold_ms,
    ensures
        ({
            let next = state.observe(latency, elapsed);
            &&& next.level != ThrottleLevel::Survival
            &&& next.level == ThrottleLevel::Throttled <==> next.intensity
                < state.config.throttled_threshold
        }),
{
}

/// Sustained high latency: after any run of samples that ends with one above
/// the survival threshold the node is in survival with intensity zero.
pub proof fn lemma_sustained_high_latency(
    state: ThrottleState,
    latencies: Seq<u64>,
    elapsed: Seq<u64>,
)
    requires
        latencies.len() == elapsed.len(),
        latencies.len() > 0,
        latencies.last() > state.config.survival_threshold_ms,
    ensures
        state.observe_all(latencies, elapsed).level == ThrottleLevel::Survival,
        state.observe_all(latencies, elapsed).intensity == 0,
{
    lemma_observe_all_keeps_config(state, latencies.drop_last(), elapsed.drop_last());
}

/// Samples never change the configuration.
pub proof fn lemma_observe_all_keeps_config(
    state: ThrottleState,
    latencies: Seq<u64>,
    elapsed: Seq<u64>,
)
    ensures
        state.observe_all(latencies, elapsed).config == state.config,
    decreases latencies.len(),
{
    if latencies.len() > 0 {
        lemma_observe_all_keeps_config(state, latencies.drop_last(), elapsed.drop_last());
    }
}

} // verus!
