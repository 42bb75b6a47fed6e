//! Tick intervals of an axis: a step of the form 1, 2, 5 or 10 times a power
//! of ten, the number of ticks, and the first tick as a multiple of the step.

use vstd::prelude::*;
use vstd::arithmetic::div_mod::{lemma_fundamental_div_mod, lemma_fundamental_div_mod_converse};
use crate::arith::{
    ceil_div, floor_div, lemma_ceil_div, lemma_ceil_div_below, lemma_pow10_grows,
    lemma_pow10_values, magnitude, pow10, power_of_ten, unsigned_abs,
};
use crate::layout::Axis;

verus! {

/// A tick interval: `mult * 10^exp`.
#[derive(Clone, Copy, Debug)]
pub struct Step {
    pub mult: u8,
    pub exp: i8,
}

impl Step {
    /// The multiplier is one of 1, 2, 5 and 10, and the exponent one that a
    /// range of 64-bit numbers and a 32-bit number of ticks can lead to.
    pub open spec fn wf(self) -> bool {
        &&& self.mult == 1 || self.mult == 2 || self.mult == 5 || self.mult == 10
        &&& -10 <= self.exp <= 19
    }

    /// The power of ten in the numerator of the step: `10^exp` for a positive
    /// exponent, otherwise 1.
    pub open spec fn power(self) -> int {
        if self.exp >= 0 {
            pow10(self.exp as nat) as int
        } else {
            1
        }
    }

    /// The numerator of the step as a fraction.
    pub open spec fn num(self) -> int {
        self.mult * self.power()
    }

    /// The denominator of the step as a fraction: `10^-exp` for a negative
    /// exponent, otherwise 1.
    pub open spec fn den(self) -> int {
        if self.exp < 0 {
            pow10((-self.exp) as nat) as int
        } else {
            1
        }
    }
}

/// The smallest of 1, 2, 5 and 10 that, times `unit`, is strictly greater
/// than `range`.
pub open spec fn nice_multiplier(range: int, unit: int) -> int {
    if unit > range {
        1
    } else if 2 * unit > range {
        2
    } else if 5 * unit > range {
        5
    } else {
        10
    }
}

/// What `find_good_step` computes for an axis from `min` to `max` with
/// `desired` ticks wished for. With `rough = (max - min) / (desired - 1)`:
/// the power of ten of the step is the one with `10^exp <= rough < 10^(exp + 1)`,
/// its multiplier the smallest of 1, 2, 5, 10 with `mult * 10^exp > rough`;
/// there is one tick more than steps are needed to span the range, and the
/// first tick is the multiple of the step at or next below `min`.
pub open spec fn good_step(
    desired: int,
    min: int,
    max: int,
    count: int,
    step: Step,
    first: int,
) -> bool {
    let range = max - min;
    let unit = step.power() * (desired - 1);
    &&& step.wf()
    &&& unit <= range * step.den() < 10 * unit
    &&& step.mult == nice_multiplier(range * step.den(), unit)
    &&& count == ceil_div(range * step.den(), step.num()) + 1
    &&& first == (min * step.den()) / step.num()
}

impl Step {
    /// The numerator of the step as a fraction.
    pub fn numerator(&self) -> (r: u128)
        requires
            self.wf(),
        ensures
            r == self.num(),
            1 <= r <= 100_000_000_000_000_000_000,
    {
        proof {
            lemma_pow10_values();
            if self.exp >= 0 {
                lemma_pow10_grows(self.exp as nat, 19);
            }
        }
        if self.exp >= 0 {
            let power = power_of_ten(self.exp as u8);
            assert(1 <= self.mult * power <= 100_000_000_000_000_000_000) by (nonlinear_arith)
                requires
                    1 <= self.mult <= 10,
                    1 <= power <= 10_000_000_000_000_000_000,
            ;
            (self.mult as u128) * power
        } else {
            self.mult as u128
        }
    }

    /// The denominator of the step as a fraction.
    pub fn denominator(&self) -> (r: u128)
        requires
            self.wf(),
        ensures
            r == self.den(),
            1 <= r <= 10_000_000_000,
    {
        proof {
            lemma_pow10_values();
            if self.exp < 0 {
                lemma_pow10_grows((-self.exp) as nat, 10);
            }
        }
        if self.exp < 0 {
            power_of_ten((-self.exp) as u8)
        } else {
            1
        }
    }
}

/// The tick interval of an axis, see `good_step`: the number of ticks, the
/// step, and the first tick as a multiple of the step.
pub fn find_good_step(desired: u32, min: i64, max: i64) -> (r: (usize, Step, i128))
    requires
        desired >= 2,
        min < max,
    ensures
        good_step(desired as int, min as int, max as int, r.0 as int, r.1, r.2 as int),
        2 <= r.0 <= desired,
{
    let range: u128 = (max as i128 - min as i128) as u128;
    let wished: u128 = (desired - 1) as u128;
    let mut exp: i8 = 0;
    // power / scale is the power of ten of the step; unit and scaled are the
    // two sides of the comparison of the rough step with it.
    let mut power: u128 = 1;
    let mut scale: u128 = 1;
    let mut unit: u128 = wished;
    let mut scaled: u128 = range;
    proof {
        lemma_pow10_values();
    }
    if range >= wished {
        while 10 * unit <= range
            invariant
                0 <= exp <= 19,
                power == pow10(exp as nat),
                unit == power * wished,
                1 <= unit <= range,
                wished >= 1,
                range < 0x1_0000_0000_0000_0000,
                scale == 1,
                scaled == range,
            decreases range - unit,
        {
            proof {
                assert(10 * unit == (10 * power) * wished) by (nonlinear_arith)
                    requires
                        unit == power * wished,
                ;
                assert(10 * power <= 10 * unit) by (nonlinear_arith)
                    requires
                        unit == power * wished,
                        wished >= 1,
                        power >= 0,
                ;
                if exp >= 19 {
                    lemma_pow10_values();
                    lemma_pow10_grows(19, exp as nat);
                }
                assert(exp < 19);
            }
            unit = 10 * unit;
            power = 10 * power;
            exp = exp + 1;
        }
    } else {
        exp = -1;
        scale = 10;
        scaled = 10 * range;
        while scaled < wished
            invariant
                -10 <= exp <= -1,
                scale == pow10((-exp) as nat),
                scaled == range * scale,
                1 <= scaled < 10 * wished,
                range >= 1,
                wished < 0x1_0000_0000,
                power == 1,
                unit == wished,
            decreases exp + 10,
        {
            proof {
                assert(10 * scaled == range * (10 * scale)) by (nonlinear_arith)
                    requires
                        scaled == range * scale,
                ;
                assert(scale <= scaled) by (nonlinear_arith)
                    requires
                        scaled == range * scale,
                        range >= 1,
                        scale >= 0,
                ;
                if exp <= -10 {
                    lemma_pow10_values();
                    lemma_pow10_grows(10, (-exp) as nat);
                }
                assert(exp > -10);
            }
            scaled = 10 * scaled;
            scale = 10 * scale;
            exp = exp - 1;
        }
    }
    assert(unit <= scaled < 10 * unit);
    assert(unit == power * wished);
    assert(scaled == range * scale);
    let mult: u8 = if unit > scaled {
        1
    } else if 2 * unit > scaled {
        2
    } else if 5 * unit > scaled {
        5
    } else {
        10
    };
    let step = Step { mult, exp };
    assert(step.power() == power && step.den() == scale);
    proof {
        lemma_pow10_values();
        if exp >= 0 {
            lemma_pow10_grows(exp as nat, 19);
        } else {
            lemma_pow10_grows((-exp) as nat, 10);
        }
    }
    assert(1 <= mult * power <= 100_000_000_000_000_000_000) by (nonlinear_arith)
        requires
            1 <= mult <= 10,
            1 <= power <= 10_000_000_000_000_000_000,
    ;
    let num: u128 = (mult as u128) * power;
    assert(num == step.num());
    proof {
        assert(num * wished == mult * unit) by (nonlinear_arith)
            requires
                num == mult * power,
                unit == power * wished,
        ;
        assert(num * wished > scaled);
        lemma_ceil_div_below(scaled as int, num as int, wished as int);
        lemma_ceil_div(scaled as int, num as int);
        assert(scaled >= 1) by (nonlinear_arith)
            requires
                scaled == range * scale,
                range >= 1,
                scale >= 1,
        ;
    }
    let steps: u128 = (scaled + num - 1) / num;
    let count: usize = (steps + 1) as usize;
    proof {
        assert(scale <= scaled) by (nonlinear_arith)
            requires
                scaled == range * scale,
                range >= 1,
                scale >= 0,
        ;
        assert(-0x8000_0000_0000_0000 * scale <= min * scale <= 0x8000_0000_0000_0000 * scale)
            by (nonlinear_arith)
            requires
                -0x8000_0000_0000_0000 <= min <= 0x8000_0000_0000_0000,
                scale >= 0,
        ;
    }
    let first: i128 = floor_div((min as i128) * (scale as i128), num as i128);
    (count, step, first)
}

/// The ticks of `good_step` and the range they are made for. The step has one
/// of the multipliers 1, 2, 5 and 10. The first tick is at or below `min`, and
/// one step past the last tick lies above `max`. The last tick itself is at or
/// above `max` on exactly those inputs on which what `min` is above the first
/// tick is no more than what the range is short of a whole number of steps.
pub proof fn lemma_ticks_span_range(
    desired: int,
    min: int,
    max: int,
    count: int,
    step: Step,
    first: int,
)
    requires
        desired >= 2,
        min < max,
        good_step(desired, min, max, count, step, first),
    ensures
        step.mult == 1 || step.mult == 2 || step.mult == 5 || step.mult == 10,
        first * step.num() <= min * step.den(),
        (first + count) * step.num() > max * step.den(),
        (first + count - 1) * step.num() >= max * step.den() <==> (min * step.den()) % step.num()
            <= (-((max - min) * step.den())) % step.num(),
{
    let s = step.num();
    let q = step.den();
    let a = min * q;
    let b = (max - min) * q;
    let c = ceil_div(b, s);
    if step.exp >= 0 {
        lemma_pow10_grows(0, step.exp as nat);
    } else {
        lemma_pow10_grows(0, (-step.exp) as nat);
    }
    assert(s >= 1) by (nonlinear_arith)
        requires
            s == step.mult * step.power(),
            step.mult >= 1,
            step.power() >= 1,
    ;
    assert(b >= 1) by (nonlinear_arith)
        requires
            b == (max - min) * q,
            max - min >= 1,
            q >= 1,
    ;
    assert(max * q == a + b) by (nonlinear_arith)
        requires
            a == min * q,
            b == (max - min) * q,
    ;
    lemma_ceil_div(b, s);
    lemma_fundamental_div_mod(a, s);
    assert(a == first * s + a % s) by (nonlinear_arith)
        requires
            a == s * (a / s) + a % s,
            first == a / s,
    ;
    // -b = (-c) * s + (c * s - b), and the second term is a remainder.
    assert(-b == (-c) * s + (c * s - b)) by (nonlinear_arith);
    assert(0 <= c * s - b < s) by (nonlinear_arith)
        requires
            c * s >= b,
            (c - 1) * s < b,
    ;
    lemma_fundamental_div_mod_converse(-b, s, -c, c * s - b);
    assert((first + count - 1) * s == first * s + c * s) by (nonlinear_arith)
        requires
            count == c + 1,
    ;
    assert((first + count) * s == first * s + c * s + s) by (nonlinear_arith)
        requires
            count == c + 1,
    ;
}

/// Whether the ticks from `first` to `last`, both counted in steps, are
/// labelled relative to the first: so it is where one of them is ten thousand
/// steps or more away from zero.
pub open spec fn offset_wanted(first: int, last: int) -> bool {
    magnitude(first) >= 10000 || magnitude(last) >= 10000
}

/// Decides between absolute tick labels and labels relative to the first
/// tick, see `offset_wanted`.
pub fn should_offset(first: i128, last: i128) -> (r: bool)
    ensures
        r == offset_wanted(first as int, last as int),
{
    unsigned_abs(first) >= 10000 || unsigned_abs(last) >= 10000
}

/// The ticks of one axis: the step, how many ticks there are, the first tick
/// as a multiple of the step, and whether the labels are relative to the
/// first tick.
#[derive(Clone, Copy, Debug)]
pub struct TickSet {
    pub step: Step,
    pub count: usize,
    pub first: i128,
    pub offset: bool,
}

impl TickSet {
    /// These are the ticks of `axis` with `desired` ticks wished for.
    pub open spec fn fits(self, desired: int, axis: Axis) -> bool {
        &&& good_step(
            desired,
            axis.min as int,
            axis.max as int,
            self.count as int,
            self.step,
            self.first as int,
        )
        &&& self.offset == offset_wanted(self.first as int, self.first + self.count - 1)
    }

    /// How far tick `i` lies above the lower end of the axis, counted in
    /// the unit of which the step's denominator makes one.
    pub open spec fn offset_of(self, axis: Axis, i: int) -> int {
        (self.first + i) * self.step.num() - axis.min * self.step.den()
    }
}

/// The sizes of what the ticks of an axis are made of.
pub proof fn lemma_tick_bounds(desired: int, axis: Axis, t: TickSet)
    requires
        2 <= desired <= 0xFFFF_FFFF,
        axis.wf(),
        t.fits(desired, axis),
    ensures
        2 <= t.count <= desired,
        1 <= t.step.den() <= 0x10_0000_0000,
        1 <= t.step.num() <= 0x10_0000_0000,
        1 <= axis.span() * t.step.den() <= 0x10_0000_0000,
        -t.step.num() < t.offset_of(axis, 0) <= 0,
        (t.count - 1) * t.step.num() < axis.span() * t.step.den() + t.step.num(),
        -0x20_0000_0000_0000_0000 <= t.first <= 0x20_0000_0000_0000_0000,
        -0x20_0000_0000_0000_0000 <= t.first * t.step.num() <= 0x20_0000_0000_0000_0000,
        forall|i: int|
            0 <= i < t.count ==> -0x10_0000_0000 < #[trigger] t.offset_of(axis, i)
                < 0x20_0000_0000,
{
    let power = t.step.power();
    let q = t.step.den();
    let s = t.step.num();
    let unit = power * (desired - 1);
    let sr = axis.span() * q;
    let a = axis.min * q;
    lemma_pow10_values();
    if t.step.exp >= 0 {
        lemma_pow10_grows(0, t.step.exp as nat);
    } else {
        lemma_pow10_grows(0, (-t.step.exp) as nat);
    }
    assert(power <= unit) by (nonlinear_arith)
        requires
            unit == power * (desired - 1),
            desired >= 2,
            power >= 1,
    ;
    assert(q <= sr) by (nonlinear_arith)
        requires
            sr == axis.span() * q,
            axis.span() >= 1,
            q >= 1,
    ;
    assert(1 <= s <= 10 * power) by (nonlinear_arith)
        requires
            s == t.step.mult * power,
            1 <= t.step.mult <= 10,
            power >= 1,
    ;
    if t.step.exp >= 0 {
        assert(sr == axis.span());
    } else {
        assert(unit == desired - 1);
    }
    assert(sr <= 0x10_0000_0000);
    assert(s <= 0x10_0000_0000);
    lemma_ceil_div(sr, s);
    assert(s * (desired - 1) == t.step.mult * unit) by (nonlinear_arith)
        requires
            s == t.step.mult * power,
            unit == power * (desired - 1),
    ;
    lemma_ceil_div_below(sr, s, desired - 1);
    let c = ceil_div(sr, s);
    assert(t.count - 1 == c);
    assert((t.count - 1) * s < sr + s) by (nonlinear_arith)
        requires
            t.count - 1 == c,
            (c - 1) * s < sr,
    ;
    lemma_fundamental_div_mod(a, s);
    assert(a == t.first * s + a % s) by (nonlinear_arith)
        requires
            a == s * (a / s) + a % s,
            t.first == a / s,
    ;
    assert(t.offset_of(axis, 0) == -(a % s));
    assert(-0x8000_0001 * 0x10_0000_0000 <= a <= 0x8000_0000 * 0x10_0000_0000)
        by (nonlinear_arith)
        requires
            a == axis.min * q,
            -0x8000_0001 <= axis.min <= 0x8000_0000,
            1 <= q <= 0x10_0000_0000,
    ;
    assert(-0x20_0000_0000_0000_0000 <= t.first <= 0x20_0000_0000_0000_0000) by (nonlinear_arith)
        requires
            -0x10_0000_0000_0000_0000 <= t.first * s <= 0x10_0000_0000_0000_0000,
            s >= 1,
    ;
    assert forall|i: int| 0 <= i < t.count implies -0x10_0000_0000 < #[trigger] t.offset_of(
        axis,
        i,
    ) < 0x20_0000_0000 by {
        assert(t.offset_of(axis, i) == t.offset_of(axis, 0) + i * s) by (nonlinear_arith)
            requires
                t.offset_of(axis, i) == (t.first + i) * s - a,
                t.offset_of(axis, 0) == (t.first + 0) * s - a,
        ;
        assert(0 <= i * s <= (t.count - 1) * s) by (nonlinear_arith)
            requires
                0 <= i <= t.count - 1,
                s >= 1,
        ;
    }
}

/// Only one power of ten lies at or below a rough step and has its tenfold
/// above it: of two that do, neither is below the other.
proof fn lemma_exponent_determined(range: int, wished: int, a: Step, b: Step)
    requires
        range >= 1,
        wished >= 1,
        a.wf(),
        b.wf(),
        a.power() * wished <= range * a.den() < 10 * (a.power() * wished),
        b.power() * wished <= range * b.den() < 10 * (b.power() * wished),
    ensures
        a.exp >= b.exp,
{
    if a.exp >= b.exp {
    } else if a.exp >= 0 {
        // 10 * 10^a <= 10^b, so the range is at least the tenfold of a's unit.
        lemma_pow10_grows((a.exp + 1) as nat, b.exp as nat);
        assert(pow10((a.exp + 1) as nat) == 10 * pow10(a.exp as nat));
        assert(10 * (a.power() * wished) <= b.power() * wished) by (nonlinear_arith)
            requires
                10 * a.power() <= b.power(),
                wished >= 1,
        ;
        assert(range * a.den() == range && range * b.den() == range) by (nonlinear_arith)
            requires
                a.den() == 1,
                b.den() == 1,
        ;
    } else if b.exp < 0 {
        // 10 * 10^-b <= 10^-a, so the range scaled for b is below the wish.
        lemma_pow10_grows((-b.exp + 1) as nat, (-a.exp) as nat);
        assert(pow10((-b.exp + 1) as nat) == 10 * pow10((-b.exp) as nat));
        assert(10 * (range * b.den()) <= range * a.den()) by (nonlinear_arith)
            requires
                10 * b.den() <= a.den(),
                range >= 1,
        ;
        assert(a.power() * wished == wished && b.power() * wished == wished) by (nonlinear_arith)
            requires
                a.power() == 1,
                b.power() == 1,
        ;
    } else {
        lemma_pow10_grows(0, b.exp as nat);
        lemma_pow10_grows(1, (-a.exp) as nat);
        lemma_pow10_values();
        assert(wished <= b.power() * wished) by (nonlinear_arith)
            requires
                b.power() >= 1,
                wished >= 1,
        ;
        assert(10 * range <= range * a.den()) by (nonlinear_arith)
            requires
                a.den() >= 10,
                range >= 1,
        ;
        assert(a.power() * wished == wished && range * b.den() == range) by (nonlinear_arith)
            requires
                a.power() == 1,
                b.den() == 1,
        ;
    }
}

/// The ticks of `axis` with `desired` ticks wished for.
pub open spec fn ticks_of(desired: int, axis: Axis) -> TickSet {
    choose|t: TickSet| t.fits(desired, axis)
}

/// An axis has one set of ticks: whatever fits is `ticks_of`.
pub proof fn lemma_ticks_determined(desired: int, axis: Axis, t: TickSet)
    requires
        desired >= 2,
        axis.min < axis.max,
        t.fits(desired, axis),
    ensures
        t == ticks_of(desired, axis),
{
    let u = ticks_of(desired, axis);
    assert(u.fits(desired, axis));
    let range = axis.max - axis.min;
    let wished = desired - 1;
    lemma_exponent_determined(range, wished, t.step, u.step);
    lemma_exponent_determined(range, wished, u.step, t.step);
    assert(t.step.exp == u.step.exp);
    assert(t.step.mult == u.step.mult);
    assert(t.step == u.step);
    assert(t.count == u.count);
    assert(t.first == u.first);
}

/// The ticks of an axis: step, count and first tick as `find_good_step`
/// gives them, and the choice between absolute and relative labels that
/// `should_offset` makes for the first and the last tick.
pub fn tick_set(desired: u32, axis: &Axis) -> (t: TickSet)
    requires
        desired >= 2,
        axis.wf(),
    ensures
        t.fits(desired as int, *axis),
        t == ticks_of(desired as int, *axis),
{
    let (count, step, first) = find_good_step(desired, axis.min, axis.max);
    proof {
        let t1 = TickSet {
            step,
            count,
            first,
            offset: offset_wanted(first as int, first + count - 1),
        };
        lemma_tick_bounds(desired as int, *axis, t1);
    }
    let last: i128 = first + (count as i128 - 1);
    let offset = should_offset(first, last);
    let t = TickSet { step, count, first, offset };
    proof {
        lemma_ticks_determined(desired as int, *axis, t);
    }
    t
}

} // verus!
