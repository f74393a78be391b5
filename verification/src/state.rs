//! The shared countdown state and the three event sources that mutate it.
//!
//! The device keeps two durations, `elapsed` and `target`, that a 1 Hz tick,
//! an edge-triggered reset and a periodic analog sampler update while a
//! foreground path reads them. Hardware hands every such update to this
//! module as a [`TimerEvent`]; each handler is a single state transition,
//! executed under one critical-section acquisition so the foreground never
//! sees a torn pair. The transitions themselves are given as spec functions
//! (`tick_spec`, `reset_spec`, `sample_spec`) and the executable handlers are
//! proved to implement them exactly.

use vstd::prelude::*;

verus! {

/// Largest target the quantizer can produce: 31 steps of 60 seconds.
pub const MAX_TARGET_SECS: u16 = 1860;

/// How many distinct levels the quantizer ladder has for a 6-bit sample.
pub const QUANTIZER_LEVELS: u8 = 32;

/// The quantizer's mapping: discard the sample's low-order bit, then scale
/// to whole minutes, giving the ladder {0, 60, 120, ..., 1860}.
pub open spec fn quantize_spec(raw: u8) -> int {
    (raw as int / 2) * 60
}

/// Quantize one 6-bit analog sample (so in `[0, 63]`) to a target duration
/// in seconds.
pub fn quantize(raw: u8) -> (target: u16)
    requires
        raw < 64,
    ensures
        target == quantize_spec(raw),
        target <= MAX_TARGET_SECS,
        target % 60 == 0,
{
    let step: u16 = (raw >> 1) as u16;
    assert(raw >> 1 == raw / 2) by (bit_vector);
    step * 60
}

/// The countdown pair that all event sources and the foreground path share.
///
/// `elapsed` is the seconds still to run; `target` is the configured
/// countdown length. The sampler may move `target` under a running
/// countdown without touching `elapsed`: only a tick, a reset or the
/// finale's reload ever changes `elapsed`.
pub struct CountdownState {
    pub elapsed: u16,
    pub target: u16,
}

/// One update delivered by an event source.
///
/// The hardware handlers do nothing but acknowledge their pending condition
/// and hand one of these to [`CountdownState::apply`]; every state change is
/// therefore centralized here.
pub enum TimerEvent {
    /// The 1 Hz tick fired.
    Tick,
    /// The button's falling edge fired.
    Reset,
    /// The sampler completed one conversion with this raw 6-bit reading.
    SampleUpdated(u8),
}

/// What the tick does: count down one second, but never below zero.
pub open spec fn tick_spec(s: CountdownState) -> CountdownState {
    CountdownState {
        elapsed: if s.elapsed > 0 {
            (s.elapsed - 1) as u16
        } else {
            0u16
        },
        target: s.target,
    }
}

/// What a reset (and the finale's reload) does: start over from the
/// current `target`.
pub open spec fn reset_spec(s: CountdownState) -> CountdownState {
    CountdownState { elapsed: s.target, target: s.target }
}

/// What the sampler does: replace `target` with the quantized reading and
/// leave the running countdown alone.
pub open spec fn sample_spec(s: CountdownState, raw: u8) -> CountdownState {
    CountdownState { elapsed: s.elapsed, target: quantize_spec(raw) as u16 }
}

/// The whole state machine: one event, one transition.
pub open spec fn step_spec(s: CountdownState, e: TimerEvent) -> CountdownState {
    match e {
        TimerEvent::Tick => tick_spec(s),
        TimerEvent::Reset => reset_spec(s),
        TimerEvent::SampleUpdated(raw) => sample_spec(s, raw),
    }
}

/// An event is deliverable when its payload is in the sampler's range.
pub open spec fn event_in_range(e: TimerEvent) -> bool {
    match e {
        TimerEvent::SampleUpdated(raw) => raw < 64,
        _ => true,
    }
}

impl CountdownState {
    /// Both durations stay within the quantizer's reach.
    pub open spec fn wf(self) -> bool {
        self.elapsed <= MAX_TARGET_SECS && self.target <= MAX_TARGET_SECS
    }

    /// The startup state: a full countdown of the build-time default.
    pub fn new(target: u16) -> (s: CountdownState)
        requires
            target <= MAX_TARGET_SECS,
        ensures
            s == (CountdownState { elapsed: target, target }),
            s.wf(),
    {
        CountdownState { elapsed: target, target }
    }

    /// The tick handler's transition: decrement `elapsed`, guarded so a
    /// tick at zero is a no-op rather than an unsigned underflow.
    pub fn on_tick(&mut self)
        requires
            old(self).wf(),
        ensures
            *final(self) == tick_spec(*old(self)),
            final(self).wf(),
    {
        if self.elapsed > 0 {
            self.elapsed = self.elapsed - 1;
        }
    }

    /// The reset handler's transition: reload `elapsed` from the current
    /// `target`, whatever the sampler last made it.
    pub fn on_reset(&mut self)
        requires
            old(self).wf(),
        ensures
            *final(self) == reset_spec(*old(self)),
            final(self).wf(),
    {
        self.elapsed = self.target;
    }

    /// The sampler's transition: quantize the reading into `target`,
    /// without clamping or touching `elapsed` — changing the dial does not
    /// itself reset a running countdown.
    pub fn on_sample(&mut self, raw: u8)
        requires
            old(self).wf(),
            raw < 64,
        ensures
            *final(self) == sample_spec(*old(self), raw),
            final(self).wf(),
    {
        self.target = quantize(raw);
    }

    /// Apply one event; the single place where state transitions happen.
    pub fn apply(&mut self, e: TimerEvent)
        requires
            old(self).wf(),
            event_in_range(e),
        ensures
            *final(self) == step_spec(*old(self), e),
            final(self).wf(),
    {
        match e {
            TimerEvent::Tick => self.on_tick(),
            TimerEvent::Reset => self.on_reset(),
            TimerEvent::SampleUpdated(raw) => self.on_sample(raw),
        }
    }

    /// One atomic snapshot of `(elapsed, target)`.
    ///
    /// The caller must take both fields under a single critical-section
    /// acquisition — this method is that single read, so a preempting
    /// reset or sampler can never produce a torn pair.
    pub fn snapshot(&self) -> (pair: (u16, u16))
        ensures
            pair.0 == self.elapsed,
            pair.1 == self.target,
    {
        (self.elapsed, self.target)
    }
}

/// `n` tick transitions in a row.
pub open spec fn tick_iter(s: CountdownState, n: nat) -> CountdownState
    decreases n,
{
    if n == 0 {
        s
    } else {
        tick_spec(tick_iter(s, (n - 1) as nat))
    }
}

/// Law: starting a full countdown of `target` seconds, `t` ticks leave
/// exactly `target - t` seconds, for every `t` up to `target`.
pub proof fn lemma_tick_counts_down(target: u16, t: u16)
    requires
        t <= target,
    ensures
        tick_iter(CountdownState { elapsed: target, target }, t as nat) == (CountdownState {
            elapsed: (target - t) as u16,
            target,
        }),
    decreases t,
{
    if t > 0 {
        lemma_tick_counts_down(target, (t - 1) as u16);
    }
}

/// Law: once `elapsed` is zero, a further tick changes nothing — the
/// countdown never underflows.
pub proof fn lemma_tick_at_zero(s: CountdownState)
    requires
        s.elapsed == 0,
    ensures
        tick_spec(s) == s,
{
}

/// Law: a reset is unconditional and idempotent — one firing puts
/// `elapsed` at `target`, and a second firing changes nothing.
pub proof fn lemma_reset_idempotent(s: CountdownState)
    ensures
        reset_spec(s).elapsed == s.target,
        reset_spec(s).target == s.target,
        reset_spec(reset_spec(s)) == reset_spec(s),
{
}

/// Law: the quantizer is monotonic — a larger raw sample never yields a
/// shorter target.
pub proof fn lemma_quantize_monotonic(a: u8, b: u8)
    requires
        a <= b,
    ensures
        quantize_spec(a) <= quantize_spec(b),
{
    vstd::arithmetic::div_mod::lemma_div_is_ordered(a as int, b as int, 2);
}

/// Law: every quantized sample lands on the ladder — a whole number of
/// minutes, at most [`MAX_TARGET_SECS`].
pub proof fn lemma_quantize_on_ladder(raw: u8)
    requires
        raw < 64,
    ensures
        quantize_spec(raw) % 60 == 0,
        0 <= quantize_spec(raw) <= MAX_TARGET_SECS,
        quantize_spec(raw) == 60 * (raw as int / 2),
{
    vstd::arithmetic::div_mod::lemma_mod_multiples_basic(raw as int / 2, 60);
}

/// Law: the quantizer reaches every rung of the ladder — each level below
/// [`QUANTIZER_LEVELS`] is hit by some in-range sample.
pub proof fn lemma_quantize_covers_ladder(level: u8)
    requires
        level < QUANTIZER_LEVELS,
    ensures
        quantize_spec((2 * level) as u8) == 60 * level,
{
}

} // verus!
