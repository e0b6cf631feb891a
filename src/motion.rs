use vstd::arithmetic::div_mod::{lemma_fundamental_div_mod, lemma_fundamental_div_mod_converse};
use vstd::arithmetic::mul::lemma_mul_is_distributive_sub;
use vstd::prelude::*;

verus! {

/// Time since an earlier instant, saturating at zero as a monotonic clock does.
pub open spec fn elapsed_ms(last: int, now: int) -> int {
    if now >= last { now - last } else { 0 }
}

/// Whether a gate with the given window (milliseconds) and last detection
/// still suppresses detections at `now`.
pub open spec fn cooling(window_ms: int, last: Option<int>, now: int) -> bool {
    match last {
        Some(l) => elapsed_ms(l, now) < window_ms,
        None => false,
    }
}

/// Whole seconds of cooldown left at `now`.
pub open spec fn remaining_secs(window_ms: int, last: Option<int>, now: int) -> int {
    if cooling(window_ms, last, now) {
        (window_ms - elapsed_ms(last.unwrap(), now)) / 1000
    } else {
        0
    }
}

/// Whether a sample (sensor line high, time) passes the detector.
pub open spec fn emits(window_ms: int, last: Option<int>, sample: (bool, int)) -> bool {
    sample.0 && !cooling(window_ms, last, sample.1)
}

/// The last detection after one sample.
pub open spec fn next_last(window_ms: int, last: Option<int>, sample: (bool, int)) -> Option<int> {
    if emits(window_ms, last, sample) { Some(sample.1) } else { last }
}

/// The last detection after a run of samples.
pub open spec fn gate_after(window_ms: int, last: Option<int>, samples: Seq<(bool, int)>) -> Option<int>
    decreases samples.len(),
{
    if samples.len() == 0 {
        last
    } else {
        next_last(window_ms, gate_after(window_ms, last, samples.drop_last()), samples.last())
    }
}

/// For each sample of a run, whether it produced a detection event.
pub open spec fn gate_events(window_ms: int, last: Option<int>, samples: Seq<(bool, int)>) -> Seq<bool>
    decreases samples.len(),
{
    if samples.len() == 0 {
        Seq::empty()
    } else {
        let before = gate_after(window_ms, last, samples.drop_last());
        gate_events(window_ms, last, samples.drop_last()).push(emits(window_ms, before, samples.last()))
    }
}

/// Last detection left by the first `i` samples of a run.
pub open spec fn state_at(window_ms: int, last: Option<int>, samples: Seq<(bool, int)>, i: int) -> Option<int> {
    gate_after(window_ms, last, samples.take(i))
}

/// Whether sample `i` moves the detector from armed (or idle) into suppression.
pub open spec fn rises_at(window_ms: int, last: Option<int>, samples: Seq<(bool, int)>, i: int) -> bool {
    !cooling(window_ms, state_at(window_ms, last, samples, i), samples[i].1)
        && cooling(window_ms, state_at(window_ms, last, samples, i + 1), samples[i].1)
}

/// With a nonzero window the last detection never moves back in time, and
/// once set it stays set, even if the clock were to report an earlier time.
pub proof fn lemma_last_detection_monotonic(window_ms: int, last: Option<int>, sample: (bool, int))
    requires
        window_ms > 0,
    ensures
        last is Some ==> next_last(window_ms, last, sample) is Some,
        last matches Some(l) ==> next_last(window_ms, last, sample).unwrap() >= l,
{
}

/// Samples of a line held high, taken every `period_ms` from time zero.
pub open spec fn sustained_high(period_ms: int, n: nat) -> Seq<(bool, int)> {
    Seq::new(n, |j: int| (true, j * period_ms))
}

/// One step of a run: sample `i` is judged against the state left by the
/// samples before it, and that state is updated by it.
pub proof fn lemma_gate_run_step(window_ms: int, last: Option<int>, samples: Seq<(bool, int)>, i: int)
    requires
        0 <= i < samples.len(),
    ensures
        gate_events(window_ms, last, samples).len() == samples.len(),
        gate_events(window_ms, last, samples)[i] == emits(
            window_ms,
            state_at(window_ms, last, samples, i),
            samples[i],
        ),
        state_at(window_ms, last, samples, i + 1) == next_last(
            window_ms,
            state_at(window_ms, last, samples, i),
            samples[i],
        ),
    decreases samples.len(),
{
    let pre = samples.drop_last();
    assert(samples.take(i + 1).drop_last() == samples.take(i));
    assert(samples.take(i + 1).last() == samples[i]);
    if i < samples.len() - 1 {
        lemma_gate_run_step(window_ms, last, pre, i);
        assert(pre.take(i) == samples.take(i));
        assert(pre.take(i + 1) == samples.take(i + 1));
    } else {
        assert(samples.take(i) == pre);
        lemma_events_len(window_ms, last, pre);
    }
}

proof fn lemma_events_len(window_ms: int, last: Option<int>, samples: Seq<(bool, int)>)
    ensures
        gate_events(window_ms, last, samples).len() == samples.len(),
    decreases samples.len(),
{
    if samples.len() > 0 {
        lemma_events_len(window_ms, last, samples.drop_last());
    }
}

/// Over any run of samples, a sample produces a detection event exactly when
/// it moves the detector from armed (or idle) into suppression, and no sample
/// produces one while the detector is suppressed. Hence the number of events is
/// the number of such transitions.
pub proof fn lemma_events_are_rises(window_ms: int, last: Option<int>, samples: Seq<(bool, int)>)
    requires
        window_ms > 0,
    ensures
        gate_events(window_ms, last, samples) =~= Seq::new(
            samples.len(),
            |i: int| rises_at(window_ms, last, samples, i),
        ),
        forall|i: int|
            0 <= i < samples.len() && cooling(window_ms, state_at(window_ms, last, samples, i), samples[i].1)
                ==> !gate_events(window_ms, last, samples)[i],
{
    lemma_events_len(window_ms, last, samples);
    assert forall|i: int| 0 <= i < samples.len() implies gate_events(window_ms, last, samples)[i]
        == rises_at(window_ms, last, samples, i) by {
        lemma_gate_run_step(window_ms, last, samples, i);
    }
}

/// With the line held high and sampled every `period_ms`, from the idle
/// state and with a window of `m` periods, the samples that fire are those at
/// times 0, W, 2W, ... for the window W: sample `j` fires exactly when `j` is
/// a multiple of `m`.
pub proof fn lemma_sustained_high_fires_each_window(period_ms: int, m: int, n: nat)
    requires
        period_ms > 0,
        m > 0,
    ensures
        gate_events(m * period_ms, None, sustained_high(period_ms, n)).len() == n,
        forall|j: int|
            0 <= j < n ==> #[trigger] gate_events(m * period_ms, None, sustained_high(period_ms, n))[j] == (j % m
                == 0),
{
    let w = m * period_ms;
    let s = sustained_high(period_ms, n);
    lemma_events_len(w, None, s);
    assert forall|j: int| 0 <= j < n implies gate_events(w, None, s)[j] == (j % m == 0) by {
        lemma_sustained_state(period_ms, m, n, j);
        lemma_gate_run_step(w, None, s, j);
        assert(s[j] == (true, j * period_ms));
        if j > 0 {
            lemma_window_position(period_ms, m, j);
        }
    }
}

/// Where sample `j` (`j > 0`) of a run sampled every `period_ms` stands
/// relative to the last multiple of `m` periods before it: the time since
/// that multiple is under a window of `m` periods exactly when `j` is not a
/// multiple of `m` itself.
proof fn lemma_window_position(period_ms: int, m: int, j: int)
    requires
        period_ms > 0,
        m > 0,
        j > 0,
    ensures
        ((j - 1) / m) * m * period_ms <= j * period_ms,
        (j * period_ms - ((j - 1) / m) * m * period_ms < m * period_ms) == (j % m != 0),
        j % m != 0 ==> j / m == (j - 1) / m,
        (j / m) * m * period_ms == if j % m == 0 { j * period_ms } else { ((j - 1) / m) * m * period_ms },
{
    let q = (j - 1) / m;
    let r = (j - 1) % m;
    lemma_fundamental_div_mod(j - 1, m);
    assert(j * period_ms - q * m * period_ms == (r + 1) * period_ms) by (nonlinear_arith)
        requires j - 1 == m * q + r;
    assert(q * m * period_ms <= j * period_ms) by (nonlinear_arith)
        requires j - 1 == m * q + r, r >= 0, period_ms > 0;
    if r + 1 < m {
        assert((r + 1) * period_ms < m * period_ms) by (nonlinear_arith)
            requires r + 1 < m, period_ms > 0;
        assert(j == q * m + (r + 1)) by (nonlinear_arith)
            requires j - 1 == m * q + r;
        lemma_fundamental_div_mod_converse(j, m, q, r + 1);
    } else {
        assert(j == (q + 1) * m + 0) by (nonlinear_arith)
            requires j - 1 == m * q + r, r == m - 1;
        lemma_fundamental_div_mod_converse(j, m, q + 1, 0);
        assert((q + 1) * m * period_ms == j * period_ms) by (nonlinear_arith)
            requires j == (q + 1) * m;
        assert(!((r + 1) * period_ms < m * period_ms)) by (nonlinear_arith)
            requires r + 1 >= m, period_ms > 0;
    }
}

/// State of the detector before sample `j` of a sustained-high run.
proof fn lemma_sustained_state(period_ms: int, m: int, n: nat, j: int)
    requires
        period_ms > 0,
        m > 0,
        0 <= j <= n,
    ensures
        state_at(m * period_ms, None, sustained_high(period_ms, n), j) == if j == 0 {
            None::<int>
        } else {
            Some(((j - 1) / m) * m * period_ms)
        },
    decreases j,
{
    let w = m * period_ms;
    let s = sustained_high(period_ms, n);
    if j == 0 {
        assert(s.take(0) =~= Seq::<(bool, int)>::empty());
    } else {
        let i = j - 1;
        lemma_sustained_state(period_ms, m, n, i);
        lemma_gate_run_step(w, None, s, i);
        assert(s[i] == (true, i * period_ms));
        if i == 0 {
            assert(0int / m == 0);
            assert(0int * m * period_ms == 0);
        } else {
            lemma_window_position(period_ms, m, i);
        }
    }
}

/// Motion detection event: one confirmed detection.
#[derive(Debug, Clone, Copy, PartialEq, Eq, Structural)]
pub enum MotionEvent {
    Detected,
}

/// Cooldown gate of a motion sensor. Times are monotonic milliseconds.
pub struct MotionDetector {
    gpio_pin: u8,
    cooldown_seconds: u64,
    last_detection: Option<u64>,
}

impl MotionDetector {
    pub closed spec fn pin_spec(&self) -> u8 {
        self.gpio_pin
    }

    pub closed spec fn cooldown_secs_spec(&self) -> u64 {
        self.cooldown_seconds
    }

    /// The cooldown window in milliseconds.
    pub open spec fn window_ms(&self) -> int {
        self.cooldown_secs_spec() * 1000
    }

    pub closed spec fn last_spec(&self) -> Option<int> {
        match self.last_detection {
            Some(t) => Some(t as int),
            None => None,
        }
    }

    /// Create a gate for the sensor on `gpio_pin`, in the idle state.
    pub fn new(gpio_pin: u8, cooldown_seconds: u64) -> (r: Self)
        ensures
            r.pin_spec() == gpio_pin,
            r.cooldown_secs_spec() == cooldown_seconds,
            r.last_spec() is None,
    {
        MotionDetector { gpio_pin, cooldown_seconds, last_detection: None }
    }

    pub fn gpio_pin(&self) -> (r: u8)
        ensures
            r == self.pin_spec(),
    {
        self.gpio_pin
    }

    pub fn last_detection(&self) -> (r: Option<u64>)
        ensures
            r matches Some(t) ==> self.last_spec() == Some(t as int),
            r is None ==> self.last_spec() is None,
    {
        self.last_detection
    }

    /// Whether a detection at `now_ms` would still be suppressed.
    pub fn is_in_cooldown(&self, now_ms: u64) -> (r: bool)
        ensures
            r == cooling(self.window_ms(), self.last_spec(), now_ms as int),
    {
        match self.last_detection {
            Some(last) => {
                let elapsed: u64 = if now_ms >= last { now_ms - last } else { 0 };
                (elapsed as u128) < (self.cooldown_seconds as u128) * 1000
            },
            None => false,
        }
    }

    /// Whole seconds of cooldown left at `now_ms` (zero when not cooling down).
    pub fn remaining_cooldown(&self, now_ms: u64) -> (r: u64)
        ensures
            r as int == remaining_secs(self.window_ms(), self.last_spec(), now_ms as int),
    {
        match self.last_detection {
            Some(last) => {
                let elapsed: u64 = if now_ms >= last { now_ms - last } else { 0 };
                let window: u128 = (self.cooldown_seconds as u128) * 1000;
                if (elapsed as u128) < window {
                    let left: u128 = (window - elapsed as u128) / 1000;
                    assert(left <= self.cooldown_seconds) by (nonlinear_arith)
                        requires
                            left == (window - elapsed) / 1000,
                            window == self.cooldown_seconds * 1000,
                            elapsed >= 0,
                    ;
                    left as u64
                } else {
                    0
                }
            },
            None => 0,
        }
    }

    /// Record a confirmed detection at `now_ms`.
    pub fn record_detection(&mut self, now_ms: u64)
        ensures
            final(self).last_spec() == Some(now_ms as int),
            final(self).pin_spec() == old(self).pin_spec(),
            final(self).cooldown_secs_spec() == old(self).cooldown_secs_spec(),
    {
        self.last_detection = Some(now_ms);
    }

    /// Feed one sample of the sensor line taken at `now_ms`. A high sample
    /// outside the cooldown window is a detection: it is recorded and returned.
    pub fn step(&mut self, sensor_high: bool, now_ms: u64) -> (r: Option<MotionEvent>)
        ensures
            r is Some == emits(old(self).window_ms(), old(self).last_spec(), (sensor_high, now_ms as int)),
            final(self).last_spec() == next_last(
                old(self).window_ms(),
                old(self).last_spec(),
                (sensor_high, now_ms as int),
            ),
            final(self).pin_spec() == old(self).pin_spec(),
            final(self).cooldown_secs_spec() == old(self).cooldown_secs_spec(),
    {
        if sensor_high && !self.is_in_cooldown(now_ms) {
            self.record_detection(now_ms);
            Some(MotionEvent::Detected)
        } else {
            None
        }
    }
}

} // verus!
