use vstd::prelude::*;

use crate::bat::BatThreshold;
use crate::fan_speed::{CpuFanSpeed, FanMode, GpuFanSpeed};
use crate::temp::{CpuTemp, GpuTemp};

verus! {

/// The machine's state as last read.
#[derive(Debug)]
pub struct Monitor {
    pub fan_mode: FanMode,
    pub cpu_fan_speed: CpuFanSpeed,
    pub gpu_fan_speed: GpuFanSpeed,
    pub cpu_temp: CpuTemp,
    pub gpu_temp: GpuTemp,
    pub bat_threshold: BatThreshold,
}

} // verus!
