//! Properties of the controller over all states and frames.
use vstd::prelude::*;
use crate::geometry::Point;
use crate::frame::Observation;
use crate::intent::ActionIntent;
use crate::machine::{
    pinch_intents, pinch_next, scroll_intents, scroll_next, InteractionState, PRESS_BELOW,
    RELEASE_FROM,
};
use crate::frame::{
    class_intents, class_next, confident, observe_intents, observe_next, observe_recenter,
    LANDMARK_COUNT, PINCH_LABEL, SCROLL_LABEL,
};

verus! {

/// Hysteresis: a pinch between the press and release thresholds neither
/// presses nor releases, whatever the state; the latch keeps its value.
pub proof fn lemma_hysteresis_band(s: InteractionState, pinch: int, tip: Point)
    requires
        s.wf(),
        PRESS_BELOW <= pinch < RELEASE_FROM,
    ensures
        pinch_next(s, pinch, tip).button_down == s.button_down,
        forall|i: int|
            0 <= i < pinch_intents(s, pinch, tip).len() ==> !(pinch_intents(s, pinch, tip)[i] is ButtonDown)
                && !(pinch_intents(s, pinch, tip)[i] is ButtonUp),
{
}

/// No drag while released: a frame emits a movement only if the button was
/// held before it and is still held after it.
pub proof fn lemma_no_drag_while_released(s: InteractionState, o: Observation)
    requires
        s.wf(),
        o.landmarks@.len() == LANDMARK_COUNT,
    ensures
        forall|i: int|
            0 <= i < observe_intents(s, o).len() && observe_intents(s, o)[i] is MoveBy
                ==> s.button_down && observe_next(s, o).button_down,
{
}

/// Scroll seeding: without a baseline, a scroll-class frame emits nothing
/// and only records its spread as the baseline.
pub proof fn lemma_scroll_seeding(s: InteractionState, spread: u64)
    requires
        s.scroll_baseline is None,
    ensures
        scroll_intents(s, spread) == Seq::<ActionIntent>::empty(),
        scroll_next(s, spread).scroll_baseline == Some(spread),
{
    assert(scroll_intents(s, spread) =~= Seq::<ActionIntent>::empty());
}

/// A confident frame of any class but scrolling drops the scroll baseline,
/// so the next scroll-class frame only seeds a new one.
pub proof fn lemma_leaving_scroll_resets(s: InteractionState, o: Observation)
    requires
        confident(o.confidence),
        o.label != SCROLL_LABEL,
    ensures
        observe_next(s, o).scroll_baseline is None,
{
}

/// A confident frame whose label is neither pinch nor scroll emits nothing
/// and leaves the state as it was, but for the scroll baseline, which it drops.
pub proof fn lemma_other_label_is_no_op(s: InteractionState, o: Observation)
    requires
        confident(o.confidence),
        o.label != PINCH_LABEL,
        o.label != SCROLL_LABEL,
    ensures
        observe_next(s, o) == (InteractionState { scroll_baseline: None, ..s }),
        observe_intents(s, o) == Seq::<ActionIntent>::empty(),
        !observe_recenter(s, o),
{
}

/// Confidence gate: of two frames that differ only in confidence, the one
/// not above the threshold leaves the state as it was, with no intents,
/// while the one above it takes the step of its gesture class.
pub proof fn lemma_confidence_gate(s: InteractionState, low: Observation, high: Observation)
    requires
        low.landmarks@ == high.landmarks@,
        low.label == high.label,
        !confident(low.confidence),
        confident(high.confidence),
    ensures
        observe_next(s, low) == s,
        observe_intents(s, low) == Seq::<ActionIntent>::empty(),
        !observe_recenter(s, low),
        observe_next(s, high) == class_next(s, low),
        observe_intents(s, high) == class_intents(s, low),
{
}

} // verus!
