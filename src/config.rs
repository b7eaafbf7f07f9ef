//! Settings the host reads each frame, with their defaults.

use vstd::prelude::*;
use crate::field::ColorMode;

verus! {

/// Time speed: 0.1 noise units per second, in thousandths.
pub const SPEED_DEFAULT: i64 = 100;

/// Grid cell edge, in canvas units.
pub const STEP_DEFAULT: i32 = 50;

/// Maximum heading angle: `2 * pi`, in millionths of a radian.
pub const MAX_ANGLE_DEFAULT: i32 = 6_283_185;

/// Noise frequency: 1.0, in millionths.
pub const FREQUENCY_DEFAULT: i32 = 1_000_000;

/// Time starts paused.
pub const RUNNING_DEFAULT: bool = false;

/// Arrows are shown.
pub const SHOW_ARROWS_DEFAULT: bool = true;

/// The heatmap is hidden.
pub const SHOW_VALUES_DEFAULT: bool = false;

/// The live simulation settings. The speed is in thousandths, the other
/// fractional values in millionths.
#[derive(Clone, Copy, PartialEq, Eq, Debug)]
pub struct SimulationConfig {
    pub speed: i64,
    pub step: i32,
    pub max_angle: i32,
    pub frequency: i32,
    pub show_arrows: bool,
    pub show_values: bool,
    pub color_mode: ColorMode,
    pub running: bool,
}

impl SimulationConfig {
    /// The settings a new simulation starts with.
    pub open spec fn defaults() -> SimulationConfig {
        SimulationConfig {
            speed: SPEED_DEFAULT,
            step: STEP_DEFAULT,
            max_angle: MAX_ANGLE_DEFAULT,
            frequency: FREQUENCY_DEFAULT,
            show_arrows: SHOW_ARROWS_DEFAULT,
            show_values: SHOW_VALUES_DEFAULT,
            color_mode: ColorMode::Gray,
            running: RUNNING_DEFAULT,
        }
    }
}

impl Default for SimulationConfig {
    fn default() -> (r: Self)
        ensures
            r == SimulationConfig::defaults(),
    {
        SimulationConfig {
            speed: SPEED_DEFAULT,
            step: STEP_DEFAULT,
            max_angle: MAX_ANGLE_DEFAULT,
            frequency: FREQUENCY_DEFAULT,
            show_arrows: SHOW_ARROWS_DEFAULT,
            show_values: SHOW_VALUES_DEFAULT,
            color_mode: ColorMode::Gray,
            running: RUNNING_DEFAULT,
        }
    }
}

} // verus!
