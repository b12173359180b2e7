//! The click emitter: the timed press/release cycle gated by the shared
//! flag.
//!
//! Each loop iteration reads the flag once and performs one step. When the
//! flag is off the step is an idle poll of fixed length; when it is on the
//! step is one click cycle: press, a settle delay that emulates a physical
//! button-down, release, then the remainder of the configured interval,
//! clamped at zero so a short interval can never underflow. The actual
//! emission and the sleeps happen outside this crate; `emitter_step` decides
//! what one iteration must do, and the lemmas below pin the resulting
//! cadence down.

use vstd::prelude::*;
use crate::config::{ClickConfig, MouseButton};
use crate::monitor::{flag_after, flip_count, lemma_flip_parity, KeyEvent};

verus! {

/// How long a synthetic button is held down before it is released, in
/// milliseconds.
pub const SETTLE_MS: u64 = 10;

/// How long the emitter sleeps between flag checks while idle, in
/// milliseconds.
pub const IDLE_POLL_MS: u64 = 50;

/// What one iteration of the emitter loop does.
#[derive(PartialEq, Eq, Structural, Clone, Copy, Debug)]
pub enum EmitterStep {
    /// The flag was off: emit nothing, sleep `poll_ms`, check again.
    Idle { poll_ms: u64 },
    /// The flag was on: press `button`, wait `settle_ms`, release it, then
    /// wait `rest_ms` before the next flag check.
    Click { button: MouseButton, settle_ms: u64, rest_ms: u64 },
}

/// The sleep that remains of the configured interval once the settle delay
/// has passed, clamped at zero when the interval is no longer than the
/// settle delay.
pub open spec fn rest_of(interval_ms: u64) -> u64 {
    if interval_ms > SETTLE_MS {
        (interval_ms - SETTLE_MS) as u64
    } else {
        0u64
    }
}

/// The step one emitter iteration owes for a given flag reading.
pub open spec fn step_of(cfg: ClickConfig, enabled: bool) -> EmitterStep {
    if enabled {
        EmitterStep::Click {
            button: cfg.button,
            settle_ms: SETTLE_MS,
            rest_ms: rest_of(cfg.interval_ms),
        }
    } else {
        EmitterStep::Idle { poll_ms: IDLE_POLL_MS }
    }
}

/// The wall-clock length of one step, in milliseconds.
pub open spec fn step_duration(s: EmitterStep) -> int {
    match s {
        EmitterStep::Idle { poll_ms } => poll_ms as int,
        EmitterStep::Click { button, settle_ms, rest_ms } => settle_ms + rest_ms,
    }
}

/// Whether a step emits a press.
pub open spec fn emits_press(s: EmitterStep) -> bool {
    s is Click
}

/// Whether a step emits a release.
pub open spec fn emits_release(s: EmitterStep) -> bool {
    s is Click
}

/// The time between two consecutive press emissions while the flag stays
/// on: the settle delay plus the remaining sleep.
pub open spec fn period_of(cfg: ClickConfig) -> int {
    SETTLE_MS + rest_of(cfg.interval_ms)
}

/// The moment, counted in milliseconds from the first press, at which the
/// press of click number `k` goes out while the flag stays on.
pub open spec fn press_time(cfg: ClickConfig, k: int) -> int {
    k * period_of(cfg)
}

/// The moment at which the release of click number `k` goes out.
pub open spec fn release_time(cfg: ClickConfig, k: int) -> int {
    press_time(cfg, k) + SETTLE_MS
}

/// Decides what one iteration of the emitter loop does for one reading of
/// the shared flag.
///
/// Off means an idle poll and no emission; on means one full click cycle at
/// the configured button, with the rest of the interval clamped at zero
/// rather than underflowing when the interval is at most the settle delay.
pub fn emitter_step(cfg: &ClickConfig, enabled: bool) -> (s: EmitterStep)
    ensures
        s == step_of(*cfg, enabled),
{
    if enabled {
        let rest: u64 = if cfg.interval_ms > SETTLE_MS {
            cfg.interval_ms - SETTLE_MS
        } else {
            0
        };
        EmitterStep::Click { button: cfg.button, settle_ms: SETTLE_MS, rest_ms: rest }
    } else {
        EmitterStep::Idle { poll_ms: IDLE_POLL_MS }
    }
}

/// Replays a sequence of flag readings: the step performed for each reading,
/// in order. One entry per reading — the emitter never acts on a stale
/// value.
pub fn emitter_run(cfg: &ClickConfig, flags: &Vec<bool>) -> (steps: Vec<EmitterStep>)
    ensures
        steps@.len() == flags@.len(),
        forall|i: int| 0 <= i < flags@.len() ==> steps@[i] == step_of(*cfg, flags@[i]),
{
    let n = flags.len();
    let mut steps: Vec<EmitterStep> = Vec::new();
    let mut i: usize = 0;
    while i < n
        invariant
            n == flags@.len(),
            i <= n,
            steps@.len() == i,
            forall|j: int| 0 <= j < i ==> steps@[j] == step_of(*cfg, flags@[j]),
        decreases n - i,
    {
        steps.push(emitter_step(cfg, flags[i]));
        i += 1;
    }
    steps
}

/// The press and release moments of the first `n` clicks of an
/// uninterrupted active run, in milliseconds from the first press: click
/// `k` presses at `k` periods and releases one settle delay later.
pub fn click_times(cfg: &ClickConfig, n: usize) -> (times: Vec<(u64, u64)>)
    requires
        n as int * period_of(*cfg) + SETTLE_MS <= u64::MAX,
    ensures
        times@.len() == n,
        forall|k: int|
            0 <= k < n ==> (#[trigger] times@[k]).0 == press_time(*cfg, k) && times@[k].1
                == release_time(*cfg, k),
{
    let rest: u64 = if cfg.interval_ms > SETTLE_MS {
        cfg.interval_ms - SETTLE_MS
    } else {
        0
    };
    let period: u64 = SETTLE_MS + rest;
    let mut times: Vec<(u64, u64)> = Vec::new();
    let mut t: u64 = 0;
    let mut i: usize = 0;
    while i < n
        invariant
            period == period_of(*cfg),
            n as int * period_of(*cfg) + SETTLE_MS <= u64::MAX,
            i <= n,
            times@.len() == i,
            t == press_time(*cfg, i as int),
            forall|k: int|
                0 <= k < i ==> (#[trigger] times@[k]).0 == press_time(*cfg, k) && times@[k].1
                    == release_time(*cfg, k),
        decreases n - i,
    {
        proof {
            let p = period_of(*cfg);
            assert((i as int + 1) * p == i as int * p + p) by (nonlinear_arith);
            assert((i as int + 1) * p <= n as int * p) by (nonlinear_arith)
                requires
                    i as int + 1 <= n as int,
                    p >= 0,
            ;
        }
        times.push((t, t + SETTLE_MS));
        t = t + period;
        i += 1;
    }
    times
}

/// While the flag stays on, presses are spaced one period apart, and the
/// period is the configured interval whenever the interval exceeds the
/// settle delay; otherwise the clamp leaves no extra sleep, the period sits
/// at the settle-delay floor, and each release is immediately followed by
/// the next press.
pub proof fn lemma_press_spacing(cfg: ClickConfig, k: int)
    ensures
        press_time(cfg, k + 1) - press_time(cfg, k) == period_of(cfg),
        cfg.interval_ms > SETTLE_MS ==> press_time(cfg, k + 1) - press_time(cfg, k)
            == cfg.interval_ms,
        cfg.interval_ms <= SETTLE_MS ==> rest_of(cfg.interval_ms) == 0 && release_time(cfg, k)
            == press_time(cfg, k + 1),
        period_of(cfg) >= SETTLE_MS,
{
    let p = period_of(cfg);
    assert((k + 1) * p == k * p + p) by (nonlinear_arith);
}

/// One active step is one whole click cycle: the step that emits the press
/// also emits the release, the release goes out one settle delay after the
/// press, and both lie within the step, before the flag is read again. So a
/// toggle-off that lands mid-cycle still lets the release complete.
pub proof fn lemma_release_completes_in_step(cfg: ClickConfig)
    ensures
        emits_press(step_of(cfg, true)) && emits_release(step_of(cfg, true)),
        step_duration(step_of(cfg, true)) == period_of(cfg),
        SETTLE_MS <= period_of(cfg),
{
}

/// The two loops composed: starting from the flag's initial off state, any
/// event stream whose toggle-key presses come in pairs — on, off, however
/// rapidly — leaves the clicker off, and the emitter's next step after such
/// a stream emits nothing.
pub proof fn lemma_paired_presses_leave_clicker_idle(cfg: ClickConfig, events: Seq<KeyEvent>)
    requires
        flip_count(cfg, events) % 2 == 0,
    ensures
        flag_after(cfg, events, false) == false,
        !emits_press(step_of(cfg, flag_after(cfg, events, false))),
{
    lemma_flip_parity(cfg, events, false);
}

/// An idle step emits nothing and lasts one idle poll, so once the flag is
/// off every later reading that finds it off emits nothing, and a toggle-off
/// is noticed at the latest one idle poll after the previous check.
pub proof fn lemma_off_halts_emissions(cfg: ClickConfig)
    ensures
        !emits_press(step_of(cfg, false)),
        !emits_release(step_of(cfg, false)),
        step_duration(step_of(cfg, false)) == IDLE_POLL_MS,
{
}

} // verus!
