//! The gesture state machine: hysteresis on the pinch signal, dead zones on
//! pointer movement and scrolling.
//!
//! Signals are in hundredths of the normalized unit (a pixel distance divided
//! by ten), that is in tenths of a pixel.
use vstd::prelude::*;
use crate::geometry::Point;
use crate::intent::{ActionIntent, ModifierKey, PointerButton, Reaction};

verus! {

/// A pinch below this presses the button (8.0 normalized).
pub const PRESS_BELOW: u64 = 800;
/// A pinch at or above this releases a pressed button (12.0 normalized).
pub const RELEASE_FROM: u64 = 1200;
/// Pointer movement is tracked only while the pinch is below this (15.0).
pub const MOVE_BELOW: u64 = 1500;
/// The fingertip must move more than this many pixels on both axes.
pub const MOVE_DEAD_ZONE: i64 = 5;
/// Spread changes of at most this size are tremor (1.0 normalized).
pub const SCROLL_DEAD_ZONE: i64 = 100;
/// Spread changes of at least this size are noise (30.0 normalized).
pub const SCROLL_NOISE: i64 = 3000;
/// One scroll tick per this much spread change (5.0 normalized).
pub const SCROLL_TICK: i64 = 500;

#[derive(Clone, Copy, Debug, PartialEq, Eq, Structural)]
pub enum Mode {
    Idle,
    /// The button is held.
    PressEngaged,
    /// The button was just released; becomes `Idle` at the next pinch-class
    /// frame.
    Released,
    Scrolling,
}

/// The controller's memory between frames.
#[derive(Clone, Copy, Debug, PartialEq, Eq, Structural)]
pub struct InteractionState {
    pub mode: Mode,
    /// The spread seen at the previous scroll-class frame, if the current
    /// run of scroll-class frames has one.
    pub scroll_baseline: Option<u64>,
    /// The fingertip position movement deltas are measured from.
    pub last_pointer: Point,
    /// Latch: a `ButtonDown` was emitted and no `ButtonUp` since.
    pub button_down: bool,
}

/// The mode a pinch-class frame starts from: a release lasts until the next
/// pinch-class frame, and such a frame ends a scroll.
pub open spec fn settled(m: Mode) -> Mode {
    match m {
        Mode::Released | Mode::Scrolling => Mode::Idle,
        _ => m,
    }
}

pub open spec fn presses(s: InteractionState, pinch: int) -> bool {
    pinch < PRESS_BELOW && !s.button_down
}

pub open spec fn releases(s: InteractionState, pinch: int) -> bool {
    pinch >= RELEASE_FROM && s.button_down
}

pub open spec fn abs(v: int) -> int {
    if v < 0 { -v } else { v }
}

/// The state after the press/release decision of a pinch-class frame.
pub open spec fn after_button(s: InteractionState, pinch: int, tip: Point) -> InteractionState {
    if presses(s, pinch) {
        InteractionState { mode: Mode::PressEngaged, button_down: true, last_pointer: tip, ..s }
    } else if releases(s, pinch) {
        InteractionState { mode: Mode::Released, button_down: false, last_pointer: tip, ..s }
    } else {
        InteractionState { mode: settled(s.mode), ..s }
    }
}

/// The fingertip left the movement dead zone on both axes while pinching.
pub open spec fn tracks(t: InteractionState, pinch: int, tip: Point) -> bool {
    &&& pinch < MOVE_BELOW
    &&& abs(t.last_pointer.x - tip.x) > MOVE_DEAD_ZONE
    &&& abs(t.last_pointer.y - tip.y) > MOVE_DEAD_ZONE
}

/// The state after a pinch-class frame.
pub open spec fn pinch_next(s: InteractionState, pinch: int, tip: Point) -> InteractionState {
    let t = after_button(s, pinch, tip);
    let p = if tracks(t, pinch, tip) { tip } else { t.last_pointer };
    InteractionState { last_pointer: p, scroll_baseline: None, ..t }
}

/// The intents of a pinch-class frame.
pub open spec fn pinch_intents(s: InteractionState, pinch: int, tip: Point) -> Seq<ActionIntent> {
    let t = after_button(s, pinch, tip);
    let b = if presses(s, pinch) {
        seq![
            ActionIntent::ButtonDown(PointerButton::Secondary),
            ActionIntent::ModifierDown(ModifierKey::Control),
        ]
    } else if releases(s, pinch) {
        seq![
            ActionIntent::ModifierUp(ModifierKey::Control),
            ActionIntent::ButtonUp(PointerButton::Secondary),
        ]
    } else {
        seq![]
    };
    if tracks(t, pinch, tip) && t.mode == Mode::PressEngaged {
        b.push(
            ActionIntent::MoveBy {
                dx: (tip.x - t.last_pointer.x) as i64,
                dy: (tip.y - t.last_pointer.y) as i64,
            },
        )
    } else {
        b
    }
}

/// Scroll ticks for a spread change: none inside the tremor dead zone or at
/// or beyond the noise bound, else the change in whole normalized units
/// (rounded toward zero) divided by five, rounded toward zero.
pub open spec fn scroll_for(delta: int) -> Option<int> {
    if SCROLL_DEAD_ZONE < delta < SCROLL_NOISE {
        Some(delta / SCROLL_TICK as int)
    } else if -SCROLL_NOISE < delta < -SCROLL_DEAD_ZONE {
        Some(-((-delta) / SCROLL_TICK as int))
    } else {
        None
    }
}

/// The state after a scroll-class frame.
pub open spec fn scroll_next(s: InteractionState, spread: u64) -> InteractionState {
    let m = if s.button_down { s.mode } else { Mode::Scrolling };
    InteractionState { mode: m, scroll_baseline: Some(spread), ..s }
}

/// The intents of a scroll-class frame: none on the first one of a run.
pub open spec fn scroll_intents(s: InteractionState, spread: u64) -> Seq<ActionIntent> {
    match s.scroll_baseline {
        None => seq![],
        Some(b) => match scroll_for(spread - b) {
            Some(t) => seq![ActionIntent::ScrollBy(t as i64)],
            None => seq![],
        },
    }
}

/// The state after a frame of any other class: only the scroll baseline is
/// dropped.
pub open spec fn other_next(s: InteractionState) -> InteractionState {
    InteractionState { scroll_baseline: None, ..s }
}

fn settle(m: Mode) -> (r: Mode)
    ensures
        r == settled(m),
{
    match m {
        Mode::Released | Mode::Scrolling => Mode::Idle,
        _ => m,
    }
}

/// Scroll ticks for a change of the spread signal, or `None` where the
/// change is tremor or noise.
pub fn scroll_ticks(delta: i128) -> (r: Option<i64>)
    ensures
        match scroll_for(delta as int) {
            Some(t) => r == Some(t as i64),
            None => r is None,
        },
{
    if (SCROLL_DEAD_ZONE as i128) < delta && delta < (SCROLL_NOISE as i128) {
        Some((delta as u128 / SCROLL_TICK as u128) as i64)
    } else if -(SCROLL_NOISE as i128) < delta && delta < -(SCROLL_DEAD_ZONE as i128) {
        let n: u128 = (-delta) as u128;
        Some(-((n / SCROLL_TICK as u128) as i64))
    } else {
        None
    }
}

impl InteractionState {
    /// The latch is held exactly while the button is engaged.
    pub open spec fn wf(self) -> bool {
        self.button_down <==> self.mode == Mode::PressEngaged
    }

    /// Idle, button up, no scroll baseline, pointer reference at the origin.
    pub fn new() -> (r: InteractionState)
        ensures
            r.wf(),
            r.mode == Mode::Idle,
            !r.button_down,
            r.scroll_baseline is None,
            r.last_pointer == (Point { x: 0, y: 0 }),
    {
        InteractionState {
            mode: Mode::Idle,
            scroll_baseline: None,
            last_pointer: Point { x: 0, y: 0 },
            button_down: false,
        }
    }

    /// Handles a pinch-class frame: `pinch` is the thumb-to-index signal and
    /// `tip` the thumb tip in pixels.
    pub fn on_pinch(&mut self, pinch: u64, tip: Point) -> (r: Reaction)
        requires
            old(self).wf(),
        ensures
            final(self).wf(),
            *final(self) == pinch_next(*old(self), pinch as int, tip),
            r.intents@ == pinch_intents(*old(self), pinch as int, tip),
            r.recenter == presses(*old(self), pinch as int),
    {
        let mut intents: Vec<ActionIntent> = Vec::new();
        let mut recenter = false;
        if pinch < PRESS_BELOW && !self.button_down {
            self.mode = Mode::PressEngaged;
            self.button_down = true;
            self.last_pointer = tip;
            intents.push(ActionIntent::ButtonDown(PointerButton::Secondary));
            intents.push(ActionIntent::ModifierDown(ModifierKey::Control));
            recenter = true;
        } else if pinch >= RELEASE_FROM && self.button_down {
            self.mode = Mode::Released;
            self.button_down = false;
            self.last_pointer = tip;
            intents.push(ActionIntent::ModifierUp(ModifierKey::Control));
            intents.push(ActionIntent::ButtonUp(PointerButton::Secondary));
        } else {
            self.mode = settle(self.mode);
        }
        let dx: i64 = tip.x as i64 - self.last_pointer.x as i64;
        let dy: i64 = tip.y as i64 - self.last_pointer.y as i64;
        if pinch < MOVE_BELOW && (dx > MOVE_DEAD_ZONE || dx < -MOVE_DEAD_ZONE) && (dy
            > MOVE_DEAD_ZONE || dy < -MOVE_DEAD_ZONE) {
            if self.mode == Mode::PressEngaged {
                intents.push(ActionIntent::MoveBy { dx, dy });
            }
            self.last_pointer = tip;
        }
        self.scroll_baseline = None;
        Reaction { recenter, intents }
    }

    /// Handles a scroll-class frame with the given spread signal.
    pub fn on_spread(&mut self, spread: u64) -> (r: Reaction)
        requires
            old(self).wf(),
        ensures
            final(self).wf(),
            *final(self) == scroll_next(*old(self), spread),
            r.intents@ == scroll_intents(*old(self), spread),
            !r.recenter,
    {
        let mut intents: Vec<ActionIntent> = Vec::new();
        match self.scroll_baseline {
            Some(b) => {
                let delta: i128 = spread as i128 - b as i128;
                match scroll_ticks(delta) {
                    Some(t) => intents.push(ActionIntent::ScrollBy(t)),
                    None => {},
                }
            },
            None => {},
        }
        if !self.button_down {
            self.mode = Mode::Scrolling;
        }
        self.scroll_baseline = Some(spread);
        Reaction { recenter: false, intents }
    }

    /// Handles a frame of any other class: nothing is emitted and the state
    /// is kept, but for the scroll baseline, which is dropped.
    pub fn on_other(&mut self) -> (r: Reaction)
        requires
            old(self).wf(),
        ensures
            final(self).wf(),
            *final(self) == other_next(*old(self)),
            !r.recenter,
            r.intents@ == Seq::<ActionIntent>::empty(),
    {
        self.scroll_baseline = None;
        Reaction::none()
    }
}

} // verus!
