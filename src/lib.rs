//! Gesture-to-action translation: turns classified hand-landmark frames into
//! pointer and keyboard intents, with hysteresis and dead zones.
//!
//! All quantities are integers. Landmarks arrive already denormalized to
//! pixel coordinates; distances are measured in tenths of a pixel, which is
//! also the hundredth part of the controller's normalized signal unit
//! (pixel distance divided by ten).
use vstd::prelude::*;

pub mod geometry;
pub mod intent;
pub mod machine;
pub mod frame;
pub mod laws;

verus! {

} // verus!
