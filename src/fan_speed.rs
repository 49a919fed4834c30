use vstd::prelude::*;
use vstd::string::StrSliceExecFns;

use crate::access::{
    apply_op, apply_ops, distinct_registers, lemma_apply_distinct, read_all, read_op,
    REGISTER_FILE_SIZE,
};
use crate::codec::DaemonReq;
use crate::ec::{
    check_template, flag, flag_enabled, flag_op, is_flag_enabled, lemma_with_bit, matches_template,
    with_bit, BitPos, BitState, RWData, Reg,
};
use crate::error::EcError;
use crate::reading::{RegisterAddress, WordReading};
use crate::registers::{
    CPU_FAN_SPEED, CUSTOM_MODE_BIT, CUSTOM_MODE_REG, ECO_MODE_BIT, ECO_MODE_REG, FIXED_MODE_BIT,
    FIXED_MODE_REG, FIXED_SPEED_FAN1, FIXED_SPEED_FAN2, FIXED_SPEED_MAX_VALUE, GPU_FAN_SPEED,
    POWER_MODE_BIT, POWER_MODE_REG,
};
use crate::traits::{InvokeDaemon, ReadEC, WriteEC};

verus! {

/// Fan operating modes. `Unsupported` is what a reading of the mode flags
/// shows when they form none of the other modes' patterns.
#[derive(Clone, Copy, Debug, PartialEq, Eq, PartialOrd, Ord, Structural)]
pub enum FanMode {
    Normal,
    Eco,
    Power,
    Turbo,
    Unsupported,
}

/// The four mode flags (eco, power, custom, fixed), in this order.
pub open spec fn mode_flags(eco: BitState, power: BitState, custom: BitState, fixed: BitState) -> Seq<
    RWData,
> {
    seq![
        flag_op(ECO_MODE_REG, ECO_MODE_BIT, eco),
        flag_op(POWER_MODE_REG, POWER_MODE_BIT, power),
        flag_op(CUSTOM_MODE_REG, CUSTOM_MODE_BIT, custom),
        flag_op(FIXED_MODE_REG, FIXED_MODE_BIT, fixed),
    ]
}

/// The mode that the four flags show.
pub open spec fn mode_of_flags(eco: bool, power: bool, custom: bool, fixed: bool) -> FanMode {
    if !eco && !power && !custom && !fixed {
        FanMode::Normal
    } else if eco && !power && !custom && !fixed {
        FanMode::Eco
    } else if !eco && power && !custom && !fixed {
        FanMode::Power
    } else if !eco && !power && custom && fixed {
        FanMode::Turbo
    } else {
        FanMode::Unsupported
    }
}

/// The mode that the results of `FanMode::data_to_read` show.
pub open spec fn decode_mode(read: Seq<RWData>) -> FanMode {
    mode_of_flags(
        flag_enabled(read[0]),
        flag_enabled(read[1]),
        flag_enabled(read[2]),
        flag_enabled(read[3]),
    )
}

/// The name of each mode on the command line and in reports.
pub open spec fn mode_name(m: FanMode) -> Seq<char> {
    match m {
        FanMode::Normal => "normal"@,
        FanMode::Eco => "eco"@,
        FanMode::Power => "power"@,
        FanMode::Turbo => "turbo"@,
        FanMode::Unsupported => "unsupported"@,
    }
}

fn mode_flags_vec(eco: BitState, power: BitState, custom: BitState, fixed: BitState) -> (r: Vec<RWData>)
    ensures
        r@ == mode_flags(eco, power, custom, fixed),
{
    let r = vec![
        flag(ECO_MODE_REG, ECO_MODE_BIT, eco),
        flag(POWER_MODE_REG, POWER_MODE_BIT, power),
        flag(CUSTOM_MODE_REG, CUSTOM_MODE_BIT, custom),
        flag(FIXED_MODE_REG, FIXED_MODE_BIT, fixed),
    ];
    assert(r@ =~= mode_flags(eco, power, custom, fixed));
    r
}

fn str_is(s: &str, lit: &str) -> (r: bool)
    ensures
        r == (s@ == lit@),
{
    let n = s.unicode_len();
    if n != lit.unicode_len() {
        return false;
    }
    let mut i: usize = 0;
    while i < n
        invariant
            n == s@.len(),
            n == lit@.len(),
            0 <= i <= n,
            forall|j: int| 0 <= j < i ==> s@[j] == lit@[j],
        decreases n - i,
    {
        if s.get_char(i) != lit.get_char(i) {
            return false;
        }
        i = i + 1;
    }
    assert(s@ =~= lit@);
    true
}

impl FanMode {
    /// The mode's name.
    pub fn name(&self) -> (r: &'static str)
        ensures
            r@ == mode_name(*self),
    {
        match self {
            FanMode::Normal => "normal",
            FanMode::Eco => "eco",
            FanMode::Power => "power",
            FanMode::Turbo => "turbo",
            FanMode::Unsupported => "unsupported",
        }
    }

    /// The mode named `s`; only the four modes that can be set have a name
    /// that is accepted.
    pub fn from_name(s: &str) -> (r: Option<FanMode>)
        ensures
            r matches Some(m) ==> m != FanMode::Unsupported && mode_name(m) == s@,
            r is None ==> forall|m: FanMode| m != FanMode::Unsupported ==> mode_name(m) != s@,
    {
        if str_is(s, "normal") {
            Some(FanMode::Normal)
        } else if str_is(s, "eco") {
            Some(FanMode::Eco)
        } else if str_is(s, "power") {
            Some(FanMode::Power)
        } else if str_is(s, "turbo") {
            Some(FanMode::Turbo)
        } else {
            None
        }
    }

    /// Decodes the results of `FanMode::data_to_read`, flag by flag in
    /// order; fails when the results do not have that shape.
    pub fn from_read_data(data: &[RWData]) -> (r: Result<FanMode, EcError>)
        ensures
            r is Ok <==> matches_template(data@, <FanMode as ReadEC>::read_ops()),
            r is Ok ==> r->Ok_0 == decode_mode(data@),
            r is Err ==> r->Err_0 == EcError::Protocol,
    {
        let template = FanMode::data_to_read();
        if !check_template(data, &template) {
            return Err(EcError::Protocol);
        }
        let eco = is_flag_enabled(&data[0]);
        let power = is_flag_enabled(&data[1]);
        let custom = is_flag_enabled(&data[2]);
        let fixed = is_flag_enabled(&data[3]);
        let mode = if !eco && !power && !custom && !fixed {
            FanMode::Normal
        } else if eco && !power && !custom && !fixed {
            FanMode::Eco
        } else if !eco && power && !custom && !fixed {
            FanMode::Power
        } else if !eco && !power && custom && fixed {
            FanMode::Turbo
        } else {
            FanMode::Unsupported
        };
        Ok(mode)
    }
}

impl WriteEC for FanMode {
    open spec fn write_ops(&self) -> Seq<RWData> {
        let d = BitState::Disabled;
        let e = BitState::Enabled;
        match *self {
            FanMode::Normal => mode_flags(d, d, d, d),
            FanMode::Eco => mode_flags(e, d, d, d),
            FanMode::Power => mode_flags(d, e, d, d),
            FanMode::Turbo => mode_flags(d, d, e, e) + seq![
                RWData::U8 { reg: FIXED_SPEED_FAN1, value: FIXED_SPEED_MAX_VALUE },
                RWData::U8 { reg: FIXED_SPEED_FAN2, value: FIXED_SPEED_MAX_VALUE },
            ],
            FanMode::Unsupported => seq![],
        }
    }

    fn data_to_write(&self) -> (r: Vec<RWData>) {
        let d = BitState::Disabled;
        let e = BitState::Enabled;
        match self {
            FanMode::Normal => mode_flags_vec(d, d, d, d),
            FanMode::Eco => mode_flags_vec(e, d, d, d),
            FanMode::Power => mode_flags_vec(d, e, d, d),
            FanMode::Turbo => {
                let mut ops = mode_flags_vec(d, d, e, e);
                ops.push(RWData::U8 { reg: FIXED_SPEED_FAN1, value: FIXED_SPEED_MAX_VALUE });
                ops.push(RWData::U8 { reg: FIXED_SPEED_FAN2, value: FIXED_SPEED_MAX_VALUE });
                assert(ops@ =~= self.write_ops());
                ops
            },
            FanMode::Unsupported => {
                let ops: Vec<RWData> = Vec::new();
                assert(ops@ =~= self.write_ops());
                ops
            },
        }
    }
}

impl ReadEC for FanMode {
    open spec fn read_ops() -> Seq<RWData> {
        let d = BitState::Disabled;
        mode_flags(d, d, d, d)
    }

    fn data_to_read() -> (r: Vec<RWData>) {
        let d = BitState::Disabled;
        mode_flags_vec(d, d, d, d)
    }
}

impl InvokeDaemon for FanMode {
    open spec fn request(&self) -> DaemonReq {
        DaemonReq::SetFanMode(*self)
    }

    fn daemon_action(&self) -> (r: DaemonReq) {
        DaemonReq::SetFanMode(*self)
    }
}

/// Address of the CPU fan speed.
#[derive(Clone, Copy, Debug)]
pub struct CpuFanSpeedRegister;

impl RegisterAddress for CpuFanSpeedRegister {
    open spec fn spec_address() -> Reg {
        CPU_FAN_SPEED
    }

    fn address() -> (r: Reg) {
        CPU_FAN_SPEED
    }
}

/// Address of the GPU fan speed.
#[derive(Clone, Copy, Debug)]
pub struct GpuFanSpeedRegister;

impl RegisterAddress for GpuFanSpeedRegister {
    open spec fn spec_address() -> Reg {
        GPU_FAN_SPEED
    }

    fn address() -> (r: Reg) {
        GPU_FAN_SPEED
    }
}

proof fn lemma_flag_read_back(regs: Seq<u8>, after: Seq<u8>, reg: Reg, bit: u8, s: BitState)
    requires
        bit <= 7,
        regs.len() == REGISTER_FILE_SIZE,
        after.len() == REGISTER_FILE_SIZE,
        after[reg as int] == with_bit(regs[reg as int], bit, s),
    ensures
        flag_enabled(read_op(after, flag_op(reg, bit, BitState::Disabled))) == (s
            == BitState::Enabled),
{
    BitPos::lemma_at_index(bit);
    lemma_with_bit(regs[reg as int], bit, s);
    assert(after.subrange(reg as int, reg + 1)[0] == after[reg as int]);
}

proof fn lemma_mode_flag_read_back(regs: Seq<u8>, m: FanMode, k: int)
    requires
        regs.len() == REGISTER_FILE_SIZE,
        m != FanMode::Unsupported,
        0 <= k < 4,
    ensures
        m.write_ops()[k] is U1,
        flag_enabled(read_all(apply_ops(regs, m.write_ops()), <FanMode as ReadEC>::read_ops())[k])
            == (m.write_ops()[k]->state == BitState::Enabled),
{
    let w = m.write_ops();
    let t = <FanMode as ReadEC>::read_ops();
    assert(distinct_registers(w));
    lemma_apply_distinct(regs, w);
    let after = apply_ops(regs, w);
    let (reg, bit) = if k == 0 {
        (ECO_MODE_REG, ECO_MODE_BIT)
    } else if k == 1 {
        (POWER_MODE_REG, POWER_MODE_BIT)
    } else if k == 2 {
        (CUSTOM_MODE_REG, CUSTOM_MODE_BIT)
    } else {
        (FIXED_MODE_REG, FIXED_MODE_BIT)
    };
    assert(t[k] == flag_op(reg, bit, BitState::Disabled));
    assert(w[k] is U1);
    let s = w[k]->state;
    assert(w[k] == flag_op(reg, bit, s));
    BitPos::lemma_at_index(bit);
    assert(after[w[k].reg() as int] == apply_op(regs, w[k])[w[k].reg() as int]);
    lemma_flag_read_back(regs, after, reg, bit, s);
}

/// Writing a mode and reading the mode flags back decodes to that mode: the
/// read descriptor and the decoder agree on the order of the flags.
pub proof fn lemma_mode_read_back(regs: Seq<u8>, m: FanMode)
    requires
        regs.len() == REGISTER_FILE_SIZE,
        m != FanMode::Unsupported,
    ensures
        decode_mode(read_all(apply_ops(regs, m.write_ops()), <FanMode as ReadEC>::read_ops())) == m,
{
    lemma_mode_flag_read_back(regs, m, 0);
    lemma_mode_flag_read_back(regs, m, 1);
    lemma_mode_flag_read_back(regs, m, 2);
    lemma_mode_flag_read_back(regs, m, 3);
}

/// CPU fan speed, a 16-bit register.
pub type CpuFanSpeed = WordReading<CpuFanSpeedRegister>;

/// GPU fan speed, a 16-bit register.
pub type GpuFanSpeed = WordReading<GpuFanSpeedRegister>;

} // verus!
