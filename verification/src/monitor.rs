//! The hotkey monitor: turns the raw key-event stream of the grabbed input
//! device into toggle decisions.
//!
//! Only a press edge of the configured toggle key flips the clicker; repeats,
//! releases and every other key are ignored. The stream itself is read
//! outside this crate; the functions here decide, event by event, whether a
//! flip is due, and `run_monitor` replays a whole recorded stream so the
//! decision logic can be exercised against a fake event source.

use vstd::prelude::*;
use crate::config::{ClickConfig, KeyCode};

verus! {

/// The state carried by one raw key event.
#[derive(PartialEq, Eq, Structural, Clone, Copy, Debug)]
pub enum KeyState {
    Pressed,
    Released,
    Repeated,
}

/// One event from the input device: which key, and what happened to it.
#[derive(PartialEq, Eq, Structural, Clone, Copy, Debug)]
pub struct KeyEvent {
    pub key: KeyCode,
    pub state: KeyState,
}

/// The key state encoded by the raw event value: 0 is a release, 1 a press,
/// 2 an auto-repeat; anything else is no key state at all.
pub open spec fn key_state_of(value: i32) -> Option<KeyState> {
    if value == 0 {
        Some(KeyState::Released)
    } else if value == 1 {
        Some(KeyState::Pressed)
    } else if value == 2 {
        Some(KeyState::Repeated)
    } else {
        None
    }
}

impl KeyState {
    /// Decodes the raw value field of an input event.
    pub fn from_raw(value: i32) -> (r: Option<KeyState>)
        ensures
            r == key_state_of(value),
    {
        if value == 0 {
            Some(KeyState::Released)
        } else if value == 1 {
            Some(KeyState::Pressed)
        } else if value == 2 {
            Some(KeyState::Repeated)
        } else {
            None
        }
    }
}

/// Whether one event is a press edge of the configured toggle key — the only
/// kind of event that flips the clicker.
pub open spec fn is_toggle_edge(cfg: ClickConfig, e: KeyEvent) -> bool {
    e.state == KeyState::Pressed && e.key == cfg.toggle_key
}

/// Decides whether one event must flip the shared flag.
///
/// True exactly for a `Pressed` event of the configured toggle key;
/// `Released` and `Repeated` on that key, and every event of any other key,
/// leave the flag alone.
pub fn monitor_step(cfg: &ClickConfig, e: &KeyEvent) -> (flip: bool)
    ensures
        flip == is_toggle_edge(*cfg, *e),
{
    matches!(e.state, KeyState::Pressed) && e.key.code == cfg.toggle_key.code
}

/// The number of flips a stream of events causes: one per toggle-key press
/// edge.
pub open spec fn flip_count(cfg: ClickConfig, events: Seq<KeyEvent>) -> nat
    decreases events.len(),
{
    if events.len() == 0 {
        0
    } else {
        flip_count(cfg, events.drop_last()) + if is_toggle_edge(cfg, events.last()) {
            1nat
        } else {
            0nat
        }
    }
}

/// The flag value after a stream of events has been consumed, starting from
/// `init`: each toggle edge inverts it.
pub open spec fn flag_after(cfg: ClickConfig, events: Seq<KeyEvent>, init: bool) -> bool
    decreases events.len(),
{
    if events.len() == 0 {
        init
    } else if is_toggle_edge(cfg, events.last()) {
        !flag_after(cfg, events.drop_last(), init)
    } else {
        flag_after(cfg, events.drop_last(), init)
    }
}

/// Replays a recorded event stream against the monitor's decision logic:
/// returns the flag value it ends on and how many flips occurred.
pub fn run_monitor(cfg: &ClickConfig, events: &Vec<KeyEvent>, init: bool) -> (r: (bool, usize))
    ensures
        r.0 == flag_after(*cfg, events@, init),
        r.1 == flip_count(*cfg, events@),
{
    let n = events.len();
    let mut flag = init;
    let mut count: usize = 0;
    let mut i: usize = 0;
    while i < n
        invariant
            n == events@.len(),
            i <= n,
            count <= i,
            flag == flag_after(*cfg, events@.take(i as int), init),
            count == flip_count(*cfg, events@.take(i as int)),
        decreases n - i,
    {
        let e = events[i];
        proof {
            assert(events@.take(i + 1).drop_last() =~= events@.take(i as int));
            assert(events@.take(i + 1).last() == events@[i as int]);
        }
        if monitor_step(cfg, &e) {
            flag = !flag;
            count += 1;
        }
        i += 1;
    }
    proof {
        assert(events@.take(n as int) =~= events@);
    }
    (flag, count)
}

/// The flips a stream causes are exactly its toggle-key press edges: their
/// number equals the length of the stream filtered down to those edges.
pub proof fn lemma_flips_are_press_edges(cfg: ClickConfig, events: Seq<KeyEvent>)
    ensures
        flip_count(cfg, events) == events.filter(|e: KeyEvent| is_toggle_edge(cfg, e)).len(),
    decreases events.len(),
{
    reveal(Seq::filter);
    if events.len() > 0 {
        lemma_flips_are_press_edges(cfg, events.drop_last());
    }
}

/// Each flip inverts the flag, so after a stream the flag differs from its
/// initial value exactly when the number of flips is odd; in particular an
/// even number of flips — flipping twice, or not at all — returns the flag
/// to where it started.
pub proof fn lemma_flip_parity(cfg: ClickConfig, events: Seq<KeyEvent>, init: bool)
    ensures
        flag_after(cfg, events, init) == (init != (flip_count(cfg, events) % 2 == 1)),
        flip_count(cfg, events) % 2 == 0 ==> flag_after(cfg, events, init) == init,
    decreases events.len(),
{
    if events.len() > 0 {
        lemma_flip_parity(cfg, events.drop_last(), init);
    }
}

/// Releases and auto-repeats never flip the flag: a stream with no
/// `Pressed` event at all — toggle key or not — causes no flip and leaves
/// the flag where it started.
pub proof fn lemma_non_press_states_never_flip(
    cfg: ClickConfig,
    events: Seq<KeyEvent>,
    init: bool,
)
    requires
        forall|i: int| 0 <= i < events.len() ==> (#[trigger] events[i]).state != KeyState::Pressed,
    ensures
        flip_count(cfg, events) == 0,
        flag_after(cfg, events, init) == init,
    decreases events.len(),
{
    if events.len() > 0 {
        assert(events.last() == events[events.len() - 1]);
        assert(forall|i: int|
            0 <= i < events.drop_last().len() ==> (#[trigger] events.drop_last()[i]).state
                != KeyState::Pressed);
        lemma_non_press_states_never_flip(cfg, events.drop_last(), init);
    }
}

/// A stream that never presses the toggle key causes no flip at all, however
/// many events it carries: the flag ends where it started.
pub proof fn lemma_other_keys_never_flip(cfg: ClickConfig, events: Seq<KeyEvent>, init: bool)
    requires
        forall|i: int| 0 <= i < events.len() ==> (#[trigger] events[i]).key != cfg.toggle_key,
    ensures
        flip_count(cfg, events) == 0,
        flag_after(cfg, events, init) == init,
    decreases events.len(),
{
    if events.len() > 0 {
        assert(events.last() == events[events.len() - 1]);
        assert(forall|i: int|
            0 <= i < events.drop_last().len() ==> (#[trigger] events.drop_last()[i]).key
                != cfg.toggle_key);
        lemma_other_keys_never_flip(cfg, events.drop_last(), init);
    }
}

} // verus!
