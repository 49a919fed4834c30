use vstd::prelude::*;

use crate::ec::Reg;

verus! {

// Fan modes: one flag bit each.
pub const ECO_MODE_REG: Reg = 0x08;
pub const ECO_MODE_BIT: u8 = 6;
pub const POWER_MODE_REG: Reg = 0x0C;
pub const POWER_MODE_BIT: u8 = 4;
pub const CUSTOM_MODE_REG: Reg = 0x0D;
pub const CUSTOM_MODE_BIT: u8 = 7;
pub const FIXED_MODE_REG: Reg = 0x06;
pub const FIXED_MODE_BIT: u8 = 4;

// Fixed fan speed, used by the turbo mode.
pub const FIXED_SPEED_FAN1: Reg = 0xB0;
pub const FIXED_SPEED_FAN2: Reg = 0xB1;
pub const FIXED_SPEED_MAX_VALUE: u8 = 0xE5;

// Sensors.
pub const CPU_FAN_SPEED: Reg = 0xFC;
pub const GPU_FAN_SPEED: Reg = 0xFE;
pub const CPU_TEMP: Reg = 0x60;
pub const GPU_TEMP: Reg = 0x61;

// Battery charge threshold.
pub const BAT_THRESHOLD_CUSTOM_MODE_REG: Reg = 0x0F;
pub const BAT_THRESHOLD_CUSTOM_MODE_BIT: u8 = 2;
pub const BAT_THRESHOLD_TOGGLE_CUSTOM_REG: Reg = 0xC6;
pub const BAT_THRESHOLD_TOGGLE_CUSTOM_BIT: u8 = 0;
pub const CURRENT_BAT_THRESHOLD: Reg = 0xA9;

} // verus!
