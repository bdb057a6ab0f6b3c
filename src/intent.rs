//! Input actions decided by the state machine, not yet applied.
use vstd::prelude::*;

verus! {

#[derive(Clone, Copy, Debug, PartialEq, Eq, Structural)]
pub enum PointerButton {
    Primary,
    Secondary,
}

#[derive(Clone, Copy, Debug, PartialEq, Eq, Structural)]
pub enum ModifierKey {
    Control,
}

/// One atomic input action, applied in the order emitted.
#[derive(Clone, Copy, Debug, PartialEq, Eq, Structural)]
pub enum ActionIntent {
    /// Move the pointer relative to where it is, in pixels.
    MoveBy { dx: i64, dy: i64 },
    ButtonDown(PointerButton),
    ButtonUp(PointerButton),
    ModifierDown(ModifierKey),
    ModifierUp(ModifierKey),
    /// Scroll vertically by whole ticks.
    ScrollBy(i64),
}

/// What one frame asks of the actuator: optionally recenter the pointer on
/// the screen's midpoint first, then apply `intents` in order.
#[derive(Clone, Debug)]
pub struct Reaction {
    pub recenter: bool,
    pub intents: Vec<ActionIntent>,
}

impl Reaction {
    /// A reaction that does nothing.
    pub fn none() -> (r: Reaction)
        ensures
            !r.recenter,
            r.intents@ == Seq::<ActionIntent>::empty(),
    {
        Reaction { recenter: false, intents: Vec::new() }
    }

    pub fn is_empty(&self) -> (r: bool)
        ensures
            r == (!self.recenter && self.intents@.len() == 0),
    {
        !self.recenter && self.intents.len() == 0
    }
}

} // verus!
