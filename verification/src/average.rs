//! Moving-average smoothing of raw metric readings into progress values.

use vstd::arithmetic::div_mod::{lemma_div_is_ordered, lemma_fundamental_div_mod_converse};
use vstd::prelude::*;

verus! {

/// Number of shades inside one panel column.
pub const PROGRESS_STEPS: u8 = 3;

/// Largest progress value: fifteen columns of `PROGRESS_STEPS` shades each.
pub const PROGRESS_RANGE: u8 = 45;

/// A static parameter that no reading can be measured against.
#[derive(Clone, Copy, Debug, PartialEq, Eq, Structural)]
pub enum ConfigError {
    /// The scale is zero.
    ZeroScale,
    /// The window holds no reading at all.
    EmptyWindow,
}

/// The sum of the readings in a window.
pub open spec fn window_sum(window: Seq<u64>) -> int
    decreases window.len(),
{
    if window.len() == 0 {
        0
    } else {
        window_sum(window.drop_last()) + window.last()
    }
}

/// The quotient of two non-negative numbers, rounded to the nearest integer,
/// a half rounded up.
pub open spec fn round_half_up(numerator: int, denominator: int) -> int {
    (2 * numerator + denominator) / (2 * denominator)
}

/// The progress value of `count` readings that add up to `sum`: their mean as
/// a fraction of `scale`, times 45, rounded to the nearest integer, and at
/// most 45.
pub open spec fn progress_of(sum: int, count: int, scale: int) -> int {
    let exact = round_half_up(PROGRESS_RANGE * sum, count * scale);
    if exact > PROGRESS_RANGE {
        PROGRESS_RANGE as int
    } else {
        exact
    }
}

/// The sum of two windows joined is the sum of their sums.
pub proof fn lemma_window_sum_concat(a: Seq<u64>, b: Seq<u64>)
    ensures
        window_sum(a + b) == window_sum(a) + window_sum(b),
    decreases b.len(),
{
    if b.len() > 0 {
        assert((a + b).drop_last() =~= a + b.drop_last());
        lemma_window_sum_concat(a, b.drop_last());
    }
}

/// No sum of readings is negative, and none exceeds as many times the largest
/// reading as there are readings.
pub proof fn lemma_window_sum_bounds(window: Seq<u64>)
    ensures
        0 <= window_sum(window) <= window.len() * u64::MAX,
    decreases window.len(),
{
    if window.len() > 0 {
        lemma_window_sum_bounds(window.drop_last());
        assert(window.len() * u64::MAX == (window.len() - 1) * u64::MAX + u64::MAX)
            by (nonlinear_arith);
    }
}

/// `numerator / denominator` times 45, rounded half up and capped at 45.
fn scaled(numerator: u128, denominator: u128) -> (progress: u8)
    requires
        denominator > 0,
    ensures
        progress <= PROGRESS_RANGE,
        progress as int == if round_half_up(PROGRESS_RANGE * numerator, denominator as int)
            > PROGRESS_RANGE {
            PROGRESS_RANGE as int
        } else {
            round_half_up(PROGRESS_RANGE * numerator, denominator as int)
        },
{
    let ghost n = numerator as int;
    let ghost d = denominator as int;
    if numerator >= denominator {
        proof {
            lemma_fundamental_div_mod_converse(45 * (2 * d), 2 * d, 45, 0);
            lemma_div_is_ordered(45 * (2 * d), 2 * (45 * n) + d, 2 * d);
        }
        return PROGRESS_RANGE;
    }
    // Long multiplication by 45 in steps that stay below twice the
    // denominator: `step * numerator == whole * denominator + part`.
    let mut whole: u8 = 0;
    let mut part: u128 = 0;
    let mut step: u8 = 0;
    while step < PROGRESS_RANGE
        invariant
            step <= PROGRESS_RANGE,
            whole <= step,
            numerator < denominator,
            part < denominator,
            n == numerator,
            d == denominator,
            step * n == whole * d + part,
        decreases PROGRESS_RANGE - step,
    {
        proof {
            assert((step + 1) * n == step * n + n) by (nonlinear_arith);
            assert((whole + 1) * d == whole * d + d) by (nonlinear_arith);
        }
        if part >= denominator - numerator {
            whole = whole + 1;
            part = part - (denominator - numerator);
        } else {
            part = part + numerator;
        }
        step = step + 1;
    }
    proof {
        assert(whole < 45) by {
            if whole >= 45 {
                assert(whole * d >= 45 * d) by (nonlinear_arith)
                    requires
                        whole >= 45,
                        d > 0,
                ;
            }
        }
        assert(whole * (2 * d) == 2 * (whole * d)) by (nonlinear_arith);
        assert((whole + 1) * (2 * d) == 2 * (whole * d) + 2 * d) by (nonlinear_arith);
        if part >= denominator - part {
            lemma_fundamental_div_mod_converse(2 * (45 * n) + d, 2 * d, whole + 1, 2 * part - d);
        } else {
            lemma_fundamental_div_mod_converse(2 * (45 * n) + d, 2 * d, whole as int, 2 * part + d);
        }
    }
    if part >= denominator - part {
        whole + 1
    } else {
        whole
    }
}

/// The progress value of one reading against `scale`: the reading as a
/// fraction of the scale, times 45, rounded and capped at 45.
pub fn ratio_progress(raw: u64, scale: u64) -> (progress: Result<u8, ConfigError>)
    ensures
        scale == 0 <==> progress == Err::<u8, ConfigError>(ConfigError::ZeroScale),
        scale != 0 <==> progress is Ok,
        progress matches Ok(p) ==> p <= PROGRESS_RANGE && p == progress_of(
            raw as int,
            1,
            scale as int,
        ),
{
    if scale == 0 {
        return Err(ConfigError::ZeroScale);
    }
    Ok(scaled(raw as u128, scale as u128))
}

/// A moving average over the last `N` readings of one metric.
pub struct Averaged<const N: usize> {
    data: [u64; N],
    idx: usize,
}

impl<const N: usize> View for Averaged<N> {
    type V = Seq<u64>;

    /// The window in the order the readings arrived, oldest first.
    closed spec fn view(&self) -> Seq<u64> {
        self.data@.subrange(self.idx as int, N as int) + self.data@.subrange(0, self.idx as int)
    }
}

impl<const N: usize> Averaged<N> {
    #[verifier::type_invariant]
    spec fn cursor_in_window(self) -> bool {
        self.idx < N || (N == 0 && self.idx == 0)
    }

    /// A window whose `N` entries all hold `init`.
    pub fn new(init: u64) -> (averaged: Self)
        ensures
            averaged@ == Seq::new(N as nat, |i: int| init),
    {
        let averaged = Self { data: [init; N], idx: 0 };
        averaged
    }

    /// Takes a reading in place of the oldest one and returns the progress
    /// value of the window: the mean of its `N` readings as a fraction of
    /// `scale`, times 45, rounded and capped at 45.
    ///
    /// A zero scale is refused, and so is any reading for a window of no
    /// entries; the window is then left as it was.
    pub fn next(&mut self, data: u64, scale: u64) -> (progress: Result<u8, ConfigError>)
        ensures
            final(self)@.len() == N,
            progress is Ok <==> scale != 0 && N != 0,
            scale == 0 <==> progress == Err::<u8, ConfigError>(ConfigError::ZeroScale),
            scale != 0 && N == 0 <==> progress == Err::<u8, ConfigError>(ConfigError::EmptyWindow),
            progress is Err ==> final(self)@ == old(self)@,
            progress matches Ok(p) ==> {
                &&& final(self)@ == old(self)@.drop_first().push(data)
                &&& p <= PROGRESS_RANGE
                &&& p == progress_of(window_sum(final(self)@), N as int, scale as int)
            },
    {
        proof {
            use_type_invariant(&*self);
        }
        if scale == 0 {
            return Err(ConfigError::ZeroScale);
        }
        if N == 0 {
            return Err(ConfigError::EmptyWindow);
        }
        self.data[self.idx] = data;
        self.idx = if self.idx + 1 == N {
            0
        } else {
            self.idx + 1
        };
        proof {
            assert(self.data@ =~= self.data@.subrange(0, self.idx as int) + self.data@.subrange(
                self.idx as int,
                N as int,
            ));
            lemma_window_sum_concat(
                self.data@.subrange(0, self.idx as int),
                self.data@.subrange(self.idx as int, N as int),
            );
            lemma_window_sum_concat(
                self.data@.subrange(self.idx as int, N as int),
                self.data@.subrange(0, self.idx as int),
            );
        }
        let mut sum: u128 = 0;
        let mut i: usize = 0;
        while i < N
            invariant
                i <= N,
                self.data@.len() == N,
                sum == window_sum(self.data@.take(i as int)),
            decreases N - i,
        {
            proof {
                assert(self.data@.take(i + 1).drop_last() =~= self.data@.take(i as int));
                lemma_window_sum_bounds(self.data@.take(i as int));
                assert(i * u64::MAX + u64::MAX <= u128::MAX) by (nonlinear_arith)
                    requires
                        i <= usize::MAX,
                ;
            }
            sum = sum + self.data[i] as u128;
            i += 1;
        }
        proof {
            assert(self.data@.take(N as int) =~= self.data@);
            assert(N * scale <= u128::MAX) by (nonlinear_arith)
                requires
                    N <= usize::MAX,
                    scale <= u64::MAX,
            ;
            assert(N * scale > 0) by (nonlinear_arith)
                requires
                    N > 0,
                    scale > 0,
            ;
        }
        let denominator: u128 = N as u128 * scale as u128;
        Ok(scaled(sum, denominator))
    }
}

/// The window after a run of readings, each taking the place of the oldest.
pub open spec fn window_after(window: Seq<u64>, readings: Seq<u64>) -> Seq<u64>
    decreases readings.len(),
{
    if readings.len() == 0 {
        window
    } else {
        window_after(window.drop_first().push(readings[0]), readings.drop_first())
    }
}

/// After any run of readings the window holds the latest ones: as many as it
/// has entries, taken from the end of what it held before followed by the
/// readings.
pub proof fn lemma_window_holds_latest(window: Seq<u64>, readings: Seq<u64>)
    requires
        window.len() > 0,
    ensures
        window_after(window, readings) == (window + readings).skip(readings.len() as int),
        window_after(window, readings).len() == window.len(),
    decreases readings.len(),
{
    if readings.len() > 0 {
        lemma_window_holds_latest(window.drop_first().push(readings[0]), readings.drop_first());
    }
}

/// A progress value always lies between 0 and 45. Where the readings add up
/// to no more than `count` times the scale, as they do when none exceeds the
/// scale, it is their mean as a fraction of the scale, times 45, rounded to
/// the nearest integer.
pub proof fn lemma_progress_in_range(sum: int, count: int, scale: int)
    requires
        0 <= sum,
        0 < count,
        0 < scale,
    ensures
        0 <= progress_of(sum, count, scale) <= PROGRESS_RANGE,
        sum <= count * scale ==> progress_of(sum, count, scale) == round_half_up(
            PROGRESS_RANGE * sum,
            count * scale,
        ),
{
    let d = count * scale;
    assert(d > 0) by (nonlinear_arith)
        requires
            d == count * scale,
            0 < count,
            0 < scale,
    ;
    lemma_fundamental_div_mod_converse(0, 2 * d, 0, 0);
    lemma_div_is_ordered(0, 2 * (45 * sum) + d, 2 * d);
    if sum <= d {
        lemma_fundamental_div_mod_converse(91 * d, 2 * d, 45, d);
        lemma_div_is_ordered(2 * (45 * sum) + d, 91 * d, 2 * d);
    }
}

/// What a smoother returns after any run of readings: a value between 0 and
/// 45, computed from the latest readings, as many as the window has entries.
/// Where none of them exceeds the scale, the value is their mean as a
/// fraction of the scale, times 45, rounded to the nearest integer.
pub proof fn lemma_smoothed_progress(window: Seq<u64>, readings: Seq<u64>, scale: u64)
    requires
        window.len() > 0,
        scale > 0,
    ensures
        window_after(window, readings) == (window + readings).skip(readings.len() as int),
        0 <= progress_of(
            window_sum(window_after(window, readings)),
            window.len() as int,
            scale as int,
        ) <= PROGRESS_RANGE,
        (forall|i: int|
            0 <= i < window.len() ==> (#[trigger] window_after(window, readings)[i]) <= scale)
            ==> progress_of(
            window_sum(window_after(window, readings)),
            window.len() as int,
            scale as int,
        ) == round_half_up(
            PROGRESS_RANGE * window_sum(window_after(window, readings)),
            window.len() * scale,
        ),
{
    let latest = window_after(window, readings);
    lemma_window_holds_latest(window, readings);
    lemma_window_sum_bounds(latest);
    lemma_progress_in_range(window_sum(latest), window.len() as int, scale as int);
    if forall|i: int| 0 <= i < window.len() ==> (#[trigger] latest[i]) <= scale {
        lemma_window_sum_within_scale(latest, scale);
    }
}

/// Readings none of which exceeds `scale` add up to no more than their
/// number times `scale`.
pub proof fn lemma_window_sum_within_scale(window: Seq<u64>, scale: u64)
    requires
        forall|i: int| 0 <= i < window.len() ==> window[i] <= scale,
    ensures
        0 <= window_sum(window) <= window.len() * scale,
    decreases window.len(),
{
    if window.len() > 0 {
        lemma_window_sum_within_scale(window.drop_last(), scale);
        assert(window.len() * scale == (window.len() - 1) * scale + scale) by (nonlinear_arith);
    } else {
        assert(window.len() * scale == 0) by (nonlinear_arith)
            requires
                window.len() == 0,
        ;
    }
}

} // verus!
