//! A smoothed parameter: a current value that ramps linearly to a target.
use vstd::prelude::*;

verus! {

/// Largest magnitude of a parameter bound; keeps every difference in `i64`.
pub const PARAM_LIMIT: i64 = 0x4_0000_0000_0000;

/// `d / r` rounded toward zero.
pub open spec fn toward_zero_div(d: int, r: int) -> int {
    if d >= 0 {
        d / r
    } else {
        -((-d) / r)
    }
}

/// `n / w` rounded up.
pub open spec fn ceil_div(n: int, w: int) -> int {
    (n + w - 1) / w
}

pub open spec fn abs(x: int) -> int {
    if x >= 0 {
        x
    } else {
        -x
    }
}

/// `v` limited to `[lo, hi]`.
pub open spec fn clamp(v: int, lo: int, hi: int) -> int {
    if v < lo {
        lo
    } else if v > hi {
        hi
    } else {
        v
    }
}

/// A parameter with its valid range `[min, max]` and the length of its
/// smoothing window in samples.
#[derive(Clone, Copy, Debug)]
pub struct Parameter {
    pub current: i64,
    pub target: i64,
    pub ramp_remaining: u32,
    pub window: u32,
    pub min: i64,
    pub max: i64,
}

impl Parameter {
    /// Both values lie in the range, the ramp is no longer than the window,
    /// and a finished ramp has reached its target.
    pub open spec fn wf(self) -> bool {
        &&& -PARAM_LIMIT <= self.min <= self.max <= PARAM_LIMIT
        &&& self.min <= self.current <= self.max
        &&& self.min <= self.target <= self.max
        &&& 1 <= self.window
        &&& self.ramp_remaining <= self.window
        &&& self.ramp_remaining == 0 ==> self.current == self.target
    }

    /// One sample of the ramp: `current` moves by `(target - current) / ramp_remaining`.
    pub open spec fn advanced(self) -> Parameter {
        if self.ramp_remaining == 0 {
            self
        } else {
            Parameter {
                current: (self.current + toward_zero_div(
                    self.target - self.current,
                    self.ramp_remaining as int,
                )) as i64,
                ramp_remaining: (self.ramp_remaining - 1) as u32,
                ..self
            }
        }
    }

    /// The parameter after `n` samples.
    pub open spec fn advanced_by(self, n: nat) -> Parameter
        decreases n,
    {
        if n == 0 {
            self
        } else {
            self.advanced_by((n - 1) as nat).advanced()
        }
    }

    /// A new target, clamped to the range, reached over a whole window.
    pub open spec fn retargeted(self, value: int) -> Parameter {
        Parameter {
            target: clamp(value, self.min as int, self.max as int) as i64,
            ramp_remaining: self.window,
            ..self
        }
    }

    /// A parameter at rest on `value` (clamped to `[min, max]`).
    pub fn new(value: i64, min: i64, max: i64, window: u32) -> (r: Parameter)
        requires
            -PARAM_LIMIT <= min <= max <= PARAM_LIMIT,
            window >= 1,
        ensures
            r.wf(),
            r.current == clamp(value as int, min as int, max as int),
            r.target == r.current,
            r.ramp_remaining == 0,
            r.window == window,
            r.min == min,
            r.max == max,
    {
        let v = clamp_value(value, min, max);
        Parameter { current: v, target: v, ramp_remaining: 0, window, min, max }
    }

    /// Clamps `value` into the range, makes it the target and starts a
    /// ramp of one window toward it.
    pub fn set_target(&mut self, value: i64)
        requires
            old(self).wf(),
        ensures
            *final(self) == old(self).retargeted(value as int),
            final(self).wf(),
    {
        self.target = clamp_value(value, self.min, self.max);
        self.ramp_remaining = self.window;
    }

    /// Moves one sample along the ramp and returns the new current value.
    pub fn advance_one_sample(&mut self) -> (r: i64)
        requires
            old(self).wf(),
        ensures
            *final(self) == old(self).advanced(),
            final(self).wf(),
            r == final(self).current,
    {
        if self.ramp_remaining > 0 {
            let d: i64 = self.target - self.current;
            let step: i64 = if d >= 0 {
                d / (self.ramp_remaining as i64)
            } else {
                -((-d) / (self.ramp_remaining as i64))
            };
            proof {
                lemma_step_bounds(d as int, self.ramp_remaining as int);
            }
            self.current = self.current + step;
            self.ramp_remaining = self.ramp_remaining - 1;
        }
        self.current
    }
}

/// `value` limited to `[min, max]`.
pub fn clamp_value(value: i64, min: i64, max: i64) -> (r: i64)
    requires
        min <= max,
    ensures
        r == clamp(value as int, min as int, max as int),
{
    if value < min {
        min
    } else if value > max {
        max
    } else {
        value
    }
}

/// A ramp step never overshoots, and the last step lands exactly.
proof fn lemma_step_bounds(d: int, r: int)
    requires
        r >= 1,
    ensures
        d >= 0 ==> 0 <= toward_zero_div(d, r) <= d,
        d < 0 ==> d <= toward_zero_div(d, r) <= 0,
        r == 1 ==> toward_zero_div(d, r) == d,
{
    if r == 1 {
        assert(d / 1 == d);
        assert((-d) / 1 == -d);
    }
    if d >= 0 {
        assert(0 <= d / r <= d) by (nonlinear_arith)
            requires
                d >= 0,
                r >= 1,
        ;
    } else {
        assert(0 <= (-d) / r <= -d) by (nonlinear_arith)
            requires
                d < 0,
                r >= 1,
        ;
    }
}

/// Advancing keeps a parameter well formed.
pub proof fn lemma_advanced_wf(p: Parameter)
    requires
        p.wf(),
    ensures
        p.advanced().wf(),
{
    if p.ramp_remaining > 0 {
        lemma_step_bounds(p.target - p.current, p.ramp_remaining as int);
    }
}

/// Advancing `n` times keeps a parameter well formed, with the same target.
pub proof fn lemma_advanced_by_wf(p: Parameter, n: nat)
    requires
        p.wf(),
    ensures
        p.advanced_by(n).wf(),
        p.advanced_by(n).target == p.target,
        p.advanced_by(n).window == p.window,
        p.advanced_by(n).min == p.min,
        p.advanced_by(n).max == p.max,
    decreases n,
{
    if n > 0 {
        lemma_advanced_by_wf(p, (n - 1) as nat);
        lemma_advanced_wf(p.advanced_by((n - 1) as nat));
    }
}

/// After as many samples as the ramp has left, the current value equals the
/// target exactly and the ramp is over.
pub proof fn lemma_ramp_converges(p: Parameter)
    requires
        p.wf(),
    ensures
        p.advanced_by(p.ramp_remaining as nat).current == p.target,
        p.advanced_by(p.ramp_remaining as nat).ramp_remaining == 0,
{
    lemma_ramp_counts_down(p, p.ramp_remaining as nat);
    lemma_advanced_by_wf(p, p.ramp_remaining as nat);
}

proof fn lemma_ramp_counts_down(p: Parameter, n: nat)
    requires
        p.wf(),
        n <= p.ramp_remaining,
    ensures
        p.advanced_by(n).ramp_remaining == p.ramp_remaining - n,
    decreases n,
{
    if n > 0 {
        lemma_ramp_counts_down(p, (n - 1) as nat);
    }
}

/// A ramp that has `r` samples left and is at most `r * c` from its target
/// moves by at most `c` in its next sample, and is then at most `(r - 1) * c`
/// from its target.
proof fn lemma_step_within(p: Parameter, c: int)
    requires
        p.wf(),
        p.ramp_remaining >= 1,
        c >= 0,
        abs(p.target - p.current) <= p.ramp_remaining * c,
    ensures
        abs(p.advanced().current - p.current) <= c,
        abs(p.target - p.advanced().current) <= (p.ramp_remaining - 1) * c,
{
    let r = p.ramp_remaining as int;
    let d = p.target - p.current;
    let n = abs(d);
    let a = n / r;
    let b = n % r;
    assert(n == r * a + b && 0 <= b < r) by (nonlinear_arith)
        requires
            r >= 1,
            n >= 0,
            a == n / r,
            b == n % r,
    ;
    assert(a <= c) by (nonlinear_arith)
        requires
            n == r * a + b,
            0 <= b,
            n <= r * c,
            r >= 1,
    ;
    assert(n - a <= (r - 1) * c) by (nonlinear_arith)
        requires
            n == r * a + b,
            0 <= b < r,
            n <= r * c,
            a <= c,
            r >= 1,
    ;
}

/// No click: after a change of target, every sample of the ramp moves the
/// value by at most `|target - old current| / window`, rounded up.
pub proof fn lemma_no_click(p: Parameter, value: int, k: nat)
    requires
        p.wf(),
    ensures
        ({
            let q = p.retargeted(value);
            abs(q.advanced_by(k + 1).current - q.advanced_by(k).current) <= ceil_div(
                abs(q.target - p.current),
                p.window as int,
            )
        }),
{
    let q = p.retargeted(value);
    let c = ceil_div(abs(q.target - p.current), p.window as int);
    let w = p.window as int;
    let n0 = abs(q.target - p.current);
    assert(c >= 0 && n0 <= w * c) by (nonlinear_arith)
        requires
            w >= 1,
            n0 >= 0,
            c == (n0 + w - 1) / w,
    ;
    lemma_ramp_bound_holds(q, c, k);
}

/// Along a ramp that starts within `ramp_remaining * c` of its target, each
/// sample moves by at most `c`.
proof fn lemma_ramp_bound_holds(q: Parameter, c: int, k: nat)
    requires
        q.wf(),
        c >= 0,
        abs(q.target - q.current) <= q.ramp_remaining * c,
    ensures
        abs(q.target - q.advanced_by(k).current) <= q.advanced_by(k).ramp_remaining * c,
        abs(q.advanced_by(k + 1).current - q.advanced_by(k).current) <= c,
    decreases k,
{
    if k > 0 {
        lemma_ramp_bound_holds(q, c, (k - 1) as nat);
        lemma_advanced_by_wf(q, (k - 1) as nat);
        let s0 = q.advanced_by((k - 1) as nat);
        if s0.ramp_remaining >= 1 {
            lemma_step_within(s0, c);
            assert((s0.ramp_remaining - 1) * c == s0.advanced().ramp_remaining * c);
        }
    }
    lemma_advanced_by_wf(q, k);
    let s = q.advanced_by(k);
    assert(q.advanced_by(k + 1) == s.advanced());
    if s.ramp_remaining >= 1 {
        lemma_step_within(s, c);
    }
}

/// Setting the same target twice is the same as setting it once.
pub proof fn lemma_retarget_idempotent(p: Parameter, value: int)
    ensures
        p.retargeted(value).retargeted(value) == p.retargeted(value),
{
}

} // verus!
