//! Recognition of the "double press of the trigger key while the modifier is
//! held" gesture over a stream of timestamped key events.
use vstd::prelude::*;

verus! {

/// Two qualifying presses closer together than this (in milliseconds) form
/// an activation.
pub const DOUBLE_PRESS_THRESHOLD_MS: u64 = 500;

/// A raw key event, already classified by the listener.
#[derive(Clone, Copy, Debug, PartialEq, Eq, Structural)]
pub enum KeyEvent {
    /// Either control key went down.
    ModifierPress,
    /// Either control key went up.
    ModifierRelease,
    /// The trigger key (caps lock) went down.
    TriggerPress,
    /// Anything else: ignored.
    Other,
}

/// The listener's private state.
#[derive(Clone, Copy, Debug, PartialEq, Eq, Structural)]
pub struct KeyState {
    pub modifier_held: bool,
    /// Time (ms, monotonic) of the press that armed the detector.
    pub last_trigger_ms: u64,
    /// A first qualifying press was seen and not yet consumed.
    pub armed: bool,
}

/// Elapsed time between two monotonic readings; a reading earlier than the
/// reference counts as no time at all.
pub open spec fn elapsed(from: u64, to: u64) -> int {
    if to >= from {
        to - from
    } else {
        0
    }
}

/// Whether handling `ev` at `now` in state `s` emits an activation.
pub open spec fn step_fires(s: KeyState, ev: KeyEvent, now: u64) -> bool {
    ev == KeyEvent::TriggerPress && s.modifier_held && s.armed && elapsed(s.last_trigger_ms, now)
        < DOUBLE_PRESS_THRESHOLD_MS
}

/// The state after handling `ev` at `now` in state `s`.
pub open spec fn step(s: KeyState, ev: KeyEvent, now: u64) -> KeyState {
    match ev {
        KeyEvent::ModifierPress => KeyState { modifier_held: true, ..s },
        KeyEvent::ModifierRelease => KeyState { modifier_held: false, ..s },
        KeyEvent::TriggerPress => if !s.modifier_held {
            s
        } else if step_fires(s, ev, now) {
            KeyState { armed: false, ..s }
        } else {
            KeyState { armed: true, last_trigger_ms: now, ..s }
        },
        KeyEvent::Other => s,
    }
}

/// The state in which the listener starts.
pub open spec fn initial_state() -> KeyState {
    KeyState { modifier_held: false, last_trigger_ms: 0, armed: false }
}

/// The state after the first `n` events of `evs`, starting from the initial state.
pub open spec fn run_state(evs: Seq<(KeyEvent, u64)>, n: int) -> KeyState
    decreases n,
{
    if n <= 0 {
        initial_state()
    } else {
        step(run_state(evs, n - 1), evs[n - 1].0, evs[n - 1].1)
    }
}

/// Whether the modifier is down just before event `i`: the latest modifier
/// event before `i` is a press.
pub open spec fn modifier_held_before(evs: Seq<(KeyEvent, u64)>, i: int) -> bool
    decreases i,
{
    if i <= 0 {
        false
    } else if evs[i - 1].0 == KeyEvent::ModifierPress {
        true
    } else if evs[i - 1].0 == KeyEvent::ModifierRelease {
        false
    } else {
        modifier_held_before(evs, i - 1)
    }
}

/// Event `i` is a press of the trigger key with the modifier held.
pub open spec fn qualifying(evs: Seq<(KeyEvent, u64)>, i: int) -> bool {
    evs[i].0 == KeyEvent::TriggerPress && modifier_held_before(evs, i)
}

/// Index of the last qualifying press before `n`, or -1 if there is none.
pub open spec fn last_qualifying(evs: Seq<(KeyEvent, u64)>, n: int) -> int
    decreases n,
{
    if n <= 0 {
        -1
    } else if qualifying(evs, n - 1) {
        n - 1
    } else {
        last_qualifying(evs, n - 1)
    }
}

/// Event `i` completes a gesture: it is a qualifying press, the previous
/// qualifying press exists, did not itself complete a gesture, and lies less
/// than the threshold before it.
pub open spec fn fires_at(evs: Seq<(KeyEvent, u64)>, i: int) -> bool
    decreases i,
{
    let p = last_qualifying(evs, i);
    if 0 <= p && p < i {
        qualifying(evs, i) && !fires_at(evs, p) && elapsed(evs[p].1, evs[i].1)
            < DOUBLE_PRESS_THRESHOLD_MS
    } else {
        false
    }
}

proof fn lemma_last_qualifying_bounds(evs: Seq<(KeyEvent, u64)>, n: int)
    requires
        0 <= n,
    ensures
        -1 <= last_qualifying(evs, n) < n,
        last_qualifying(evs, n) >= 0 ==> qualifying(evs, last_qualifying(evs, n)),
    decreases n,
{
    if n > 0 {
        lemma_last_qualifying_bounds(evs, n - 1);
    }
}

/// What the detector remembers after the first `n` events: whether the
/// modifier is down, and whether the last qualifying press is still waiting
/// for its partner (with its time as the reference).
proof fn lemma_run_state_tracks(evs: Seq<(KeyEvent, u64)>, n: int)
    requires
        0 <= n <= evs.len(),
    ensures
        run_state(evs, n).modifier_held == modifier_held_before(evs, n),
        run_state(evs, n).armed == (last_qualifying(evs, n) >= 0 && !fires_at(
            evs,
            last_qualifying(evs, n),
        )),
        run_state(evs, n).armed ==> run_state(evs, n).last_trigger_ms == evs[last_qualifying(
            evs,
            n,
        )].1,
    decreases n,
{
    if n > 0 {
        lemma_run_state_tracks(evs, n - 1);
        lemma_last_qualifying_bounds(evs, n - 1);
        lemma_last_qualifying_bounds(evs, n);
    }
}

/// Over any stream of key events, the detector signals an activation at an
/// event exactly when that event is a press of the trigger key with the
/// modifier held, the previous such press exists and did not itself complete
/// a gesture, and the two are less than the threshold apart. A qualifying
/// press with no earlier one never fires.
pub proof fn lemma_activation_iff_double_press(evs: Seq<(KeyEvent, u64)>, i: int)
    requires
        0 <= i < evs.len(),
    ensures
        step_fires(run_state(evs, i), evs[i].0, evs[i].1) == fires_at(evs, i),
        fires_at(evs, i) <==> ({
            let p = last_qualifying(evs, i);
            &&& qualifying(evs, i)
            &&& 0 <= p < i
            &&& qualifying(evs, p)
            &&& !fires_at(evs, p)
            &&& elapsed(evs[p].1, evs[i].1) < DOUBLE_PRESS_THRESHOLD_MS
        }),
        last_qualifying(evs, i) < 0 ==> !fires_at(evs, i),
{
    lemma_run_state_tracks(evs, i);
    lemma_last_qualifying_bounds(evs, i);
}

/// A qualifying press that comes at or after the threshold does not fire but
/// re-arms the detector with itself as the new reference, so a further press
/// soon after it does fire.
pub proof fn lemma_slow_press_becomes_reference(s: KeyState, t1: u64, t2: u64)
    requires
        s.modifier_held,
        s.armed,
        elapsed(s.last_trigger_ms, t1) >= DOUBLE_PRESS_THRESHOLD_MS,
        elapsed(t1, t2) < DOUBLE_PRESS_THRESHOLD_MS,
    ensures
        !step_fires(s, KeyEvent::TriggerPress, t1),
        step(s, KeyEvent::TriggerPress, t1).armed,
        step(s, KeyEvent::TriggerPress, t1).last_trigger_ms == t1,
        step_fires(step(s, KeyEvent::TriggerPress, t1), KeyEvent::TriggerPress, t2),
{
}

proof fn lemma_released_stays_up(evs: Seq<(KeyEvent, u64)>, k: int, m: int)
    requires
        0 <= k < m <= evs.len(),
        evs[k].0 == KeyEvent::ModifierRelease,
        forall|j: int| k < j < m ==> #[trigger] evs[j].0 != KeyEvent::ModifierPress,
    ensures
        !modifier_held_before(evs, m),
    decreases m,
{
    if m - 1 > k {
        lemma_released_stays_up(evs, k, m - 1);
    }
}

/// A release of the modifier between two presses of the trigger key, with no
/// new press of the modifier after it, keeps the later press from firing,
/// however close together the two presses are.
pub proof fn lemma_release_prevents_activation(evs: Seq<(KeyEvent, u64)>, k: int, i: int)
    requires
        0 <= k < i < evs.len(),
        evs[k].0 == KeyEvent::ModifierRelease,
        forall|j: int| k < j < i ==> #[trigger] evs[j].0 != KeyEvent::ModifierPress,
    ensures
        !fires_at(evs, i),
        !step_fires(run_state(evs, i), evs[i].0, evs[i].1),
{
    lemma_released_stays_up(evs, k, i);
    lemma_activation_iff_double_press(evs, i);
}

impl KeyState {
    /// A detector with the modifier up and nothing armed.
    pub fn new() -> (r: KeyState)
        ensures
            r == initial_state(),
    {
        KeyState { modifier_held: false, last_trigger_ms: 0, armed: false }
    }

    /// Handles one key event observed at `now_ms`; returns whether it
    /// completes the gesture.
    pub fn handle(&mut self, ev: KeyEvent, now_ms: u64) -> (fired: bool)
        ensures
            fired == step_fires(*old(self), ev, now_ms),
            *final(self) == step(*old(self), ev, now_ms),
    {
        match ev {
            KeyEvent::ModifierPress => {
                self.modifier_held = true;
                false
            },
            KeyEvent::ModifierRelease => {
                self.modifier_held = false;
                false
            },
            KeyEvent::TriggerPress => {
                if !self.modifier_held {
                    return false;
                }
                let elapsed_ms = now_ms.saturating_sub(self.last_trigger_ms);
                if self.armed && elapsed_ms < DOUBLE_PRESS_THRESHOLD_MS {
                    self.armed = false;
                    true
                } else {
                    self.last_trigger_ms = now_ms;
                    self.armed = true;
                    false
                }
            },
            KeyEvent::Other => false,
        }
    }
}

} // verus!
