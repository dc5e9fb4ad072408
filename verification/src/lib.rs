//! Decision logic of the fishing view: the fishing state machine, gear
//! cycling, nightly restocking of the fishing areas, fish steering, area
//! layout and the bookkeeping of hooked debris, the line and the splash.
//!
//! Everything here works on integers, booleans and small enums; the
//! floating-point physics and the rendering live with the host engine.

pub mod area;
pub mod gear;
pub mod motion;
pub mod population;
mod random;
pub mod reel;
pub mod state;
