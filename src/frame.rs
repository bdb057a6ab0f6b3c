//! One classified frame: signal extraction, the confidence gate and the
//! dispatch on the gesture label.
use vstd::prelude::*;
use crate::geometry::{distance, tenths_distance, Point};
use crate::intent::{ActionIntent, Reaction};
use crate::machine::{
    other_next, pinch_intents, pinch_next, presses, scroll_intents, scroll_next, InteractionState,
};

verus! {

/// Landmarks per hand.
pub const LANDMARK_COUNT: usize = 21;
pub const THUMB_TIP: usize = 4;
pub const INDEX_TIP: usize = 8;
pub const MIDDLE_TIP: usize = 12;

/// The label of the pinch/point gesture.
pub const PINCH_LABEL: u32 = 0;
/// The label of the spread/scroll gesture.
pub const SCROLL_LABEL: u32 = 1;

/// Confidence is in millionths; a frame counts only above this (0.95).
pub const CONFIDENCE_GATE: u32 = 950_000;

/// The key code that stops the frame loop (`q`).
pub const STOP_KEY: i32 = 113;

/// A frame's hand landmarks, in pixels, and its classification.
#[derive(Clone, Debug)]
pub struct Observation {
    pub landmarks: Vec<Point>,
    pub label: u32,
    /// Classifier confidence in millionths.
    pub confidence: u32,
}

/// The scalar signals one frame yields.
#[derive(Clone, Copy, Debug, PartialEq, Eq, Structural)]
pub struct Signals {
    /// Thumb tip to index tip, in tenths of a pixel.
    pub pinch: u64,
    /// Sum of the three distances among thumb, index and middle tips, in
    /// tenths of a pixel.
    pub spread: u64,
    /// The thumb tip.
    pub pointer: Point,
}

pub open spec fn pinch_of(lm: Seq<Point>) -> nat {
    tenths_distance(lm[THUMB_TIP as int], lm[INDEX_TIP as int])
}

pub open spec fn spread_of(lm: Seq<Point>) -> nat {
    tenths_distance(lm[THUMB_TIP as int], lm[INDEX_TIP as int]) + tenths_distance(
        lm[INDEX_TIP as int],
        lm[MIDDLE_TIP as int],
    ) + tenths_distance(lm[MIDDLE_TIP as int], lm[THUMB_TIP as int])
}

/// Computes the signals of a hand of 21 landmarks.
pub fn analyze(landmarks: &Vec<Point>) -> (r: Signals)
    requires
        landmarks@.len() == LANDMARK_COUNT,
    ensures
        r.pinch == pinch_of(landmarks@),
        r.spread == spread_of(landmarks@),
        r.pointer == landmarks@[THUMB_TIP as int],
{
    let a = landmarks[THUMB_TIP];
    let b = landmarks[INDEX_TIP];
    let c = landmarks[MIDDLE_TIP];
    let ab = distance(a, b);
    let bc = distance(b, c);
    let ca = distance(c, a);
    Signals { pinch: ab, spread: ab + bc + ca, pointer: a }
}

pub open spec fn confident(confidence: u32) -> bool {
    confidence > CONFIDENCE_GATE
}

/// Whether a classification is sure enough to act on.
pub fn passes_confidence_gate(confidence: u32) -> (r: bool)
    ensures
        r == confident(confidence),
{
    confidence > CONFIDENCE_GATE
}

/// Whether the key read from the display surface asks the loop to stop.
pub fn stop_requested(key: i32) -> (r: bool)
    ensures
        r == (key == STOP_KEY),
{
    key == STOP_KEY
}

/// The state after a confident frame, by gesture label.
pub open spec fn class_next(s: InteractionState, o: Observation) -> InteractionState {
    if o.label == PINCH_LABEL {
        pinch_next(s, pinch_of(o.landmarks@) as int, o.landmarks@[THUMB_TIP as int])
    } else if o.label == SCROLL_LABEL {
        scroll_next(s, spread_of(o.landmarks@) as u64)
    } else {
        other_next(s)
    }
}

/// The intents of a confident frame, by gesture label.
pub open spec fn class_intents(s: InteractionState, o: Observation) -> Seq<ActionIntent> {
    if o.label == PINCH_LABEL {
        pinch_intents(s, pinch_of(o.landmarks@) as int, o.landmarks@[THUMB_TIP as int])
    } else if o.label == SCROLL_LABEL {
        scroll_intents(s, spread_of(o.landmarks@) as u64)
    } else {
        seq![]
    }
}

/// The state after any frame: unconfident frames change nothing.
pub open spec fn observe_next(s: InteractionState, o: Observation) -> InteractionState {
    if confident(o.confidence) {
        class_next(s, o)
    } else {
        s
    }
}

pub open spec fn observe_intents(s: InteractionState, o: Observation) -> Seq<ActionIntent> {
    if confident(o.confidence) {
        class_intents(s, o)
    } else {
        seq![]
    }
}

pub open spec fn observe_recenter(s: InteractionState, o: Observation) -> bool {
    confident(o.confidence) && o.label == PINCH_LABEL && presses(s, pinch_of(o.landmarks@) as int)
}

impl InteractionState {
    /// Runs one classified frame through the signals and the state machine.
    pub fn observe(&mut self, o: &Observation) -> (r: Reaction)
        requires
            old(self).wf(),
            o.landmarks@.len() == LANDMARK_COUNT,
        ensures
            final(self).wf(),
            *final(self) == observe_next(*old(self), *o),
            r.intents@ == observe_intents(*old(self), *o),
            r.recenter == observe_recenter(*old(self), *o),
    {
        if !passes_confidence_gate(o.confidence) {
            return Reaction::none();
        }
        let sig = analyze(&o.landmarks);
        if o.label == PINCH_LABEL {
            self.on_pinch(sig.pinch, sig.pointer)
        } else if o.label == SCROLL_LABEL {
            self.on_spread(sig.spread)
        } else {
            self.on_other()
        }
    }
}

} // verus!
