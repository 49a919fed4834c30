use vstd::prelude::*;

use crate::ec::Reg;
use crate::reading::{ByteReading, RegisterAddress};
use crate::registers::{CPU_TEMP, GPU_TEMP};

verus! {

/// Address of the CPU temperature.
#[derive(Clone, Copy, Debug)]
pub struct CpuTempRegister;

impl RegisterAddress for CpuTempRegister {
    open spec fn spec_address() -> Reg {
        CPU_TEMP
    }

    fn address() -> (r: Reg) {
        CPU_TEMP
    }
}

/// Address of the GPU temperature.
#[derive(Clone, Copy, Debug)]
pub struct GpuTempRegister;

impl RegisterAddress for GpuTempRegister {
    open spec fn spec_address() -> Reg {
        GPU_TEMP
    }

    fn address() -> (r: Reg) {
        GPU_TEMP
    }
}

/// CPU temperature, an 8-bit register.
pub type CpuTemp = ByteReading<CpuTempRegister>;

/// GPU temperature, an 8-bit register.
pub type GpuTemp = ByteReading<GpuTempRegister>;

} // verus!
