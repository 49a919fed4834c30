use vstd::prelude::*;

use crate::access::{
    apply_op, apply_ops, distinct_registers, lemma_apply_distinct, read_all, REGISTER_FILE_SIZE,
};
use crate::codec::DaemonReq;
use crate::ec::{
    check_template, flag, flag_enabled, flag_op, is_flag_enabled, lemma_with_bit, matches_template,
    BitPos, BitState, RWData,
};
use crate::error::EcError;
use crate::registers::{
    BAT_THRESHOLD_CUSTOM_MODE_BIT, BAT_THRESHOLD_CUSTOM_MODE_REG, BAT_THRESHOLD_TOGGLE_CUSTOM_BIT,
    BAT_THRESHOLD_TOGGLE_CUSTOM_REG, CURRENT_BAT_THRESHOLD,
};
use crate::traits::{InvokeDaemon, ReadEC, WriteEC};

verus! {

/// Lowest battery charge threshold the hardware accepts, in percent.
pub const MIN_THRESHOLD: u8 = 60;

/// Highest battery charge threshold, in percent; it means that the custom
/// threshold is off and the hardware charges to its built-in maximum.
pub const MAX_THRESHOLD: u8 = 100;

/// Battery charge threshold: a value and whether the custom threshold mode
/// is on. With the mode off the threshold in force is 100.
#[derive(Clone, Copy, Debug, PartialEq, Eq, Structural)]
pub struct BatThreshold {
    value: u8,
    custom_mode_enabled: bool,
}

/// The operations that set the threshold in force to `target`: the custom
/// mode flags off for 100, on otherwise, then the value.
pub open spec fn threshold_ops(target: u8) -> Seq<RWData> {
    let s = if target == MAX_THRESHOLD {
        BitState::Disabled
    } else {
        BitState::Enabled
    };
    seq![
        flag_op(BAT_THRESHOLD_TOGGLE_CUSTOM_REG, BAT_THRESHOLD_TOGGLE_CUSTOM_BIT, s),
        flag_op(BAT_THRESHOLD_CUSTOM_MODE_REG, BAT_THRESHOLD_CUSTOM_MODE_BIT, s),
        RWData::U8 { reg: CURRENT_BAT_THRESHOLD, value: target },
    ]
}

/// The threshold in force that the results of `BatThreshold::data_to_read`
/// show: the value read with the custom mode on, else 100.
pub open spec fn threshold_in_force(read: Seq<RWData>) -> u8 {
    if flag_enabled(read[0]) {
        read[1]->U8_value
    } else {
        MAX_THRESHOLD
    }
}

impl BatThreshold {
    /// The value register's content.
    pub closed spec fn raw_value(self) -> u8 {
        self.value
    }

    pub closed spec fn custom(self) -> bool {
        self.custom_mode_enabled
    }

    /// The threshold in force.
    pub open spec fn actual(self) -> u8 {
        if !self.custom() {
            MAX_THRESHOLD
        } else {
            self.raw_value()
        }
    }

    /// A threshold whose value lies in `60..=100`: the daemon accepts it.
    pub open spec fn valid(self) -> bool {
        MIN_THRESHOLD <= self.raw_value() <= MAX_THRESHOLD
    }

    /// The threshold `value`, to be written with `data_to_write`; the custom
    /// mode is on exactly when `value` is below 100.
    pub fn new(value: u8) -> (r: Self)
        requires
            MIN_THRESHOLD <= value <= MAX_THRESHOLD,
        ensures
            r.raw_value() == value,
            r.custom() == (value != MAX_THRESHOLD),
            r.actual() == value,
            r.valid(),
    {
        BatThreshold { value, custom_mode_enabled: value != MAX_THRESHOLD }
    }

    /// The threshold `value`, or the range error when it is outside `60..=100`.
    pub fn try_new(value: u8) -> (r: Result<Self, EcError>)
        ensures
            r is Ok <==> MIN_THRESHOLD <= value <= MAX_THRESHOLD,
            r is Ok ==> r->Ok_0.raw_value() == value && r->Ok_0.custom() == (value != MAX_THRESHOLD),
            r is Err ==> r->Err_0 == EcError::ThresholdOutOfRange(value),
    {
        if value < MIN_THRESHOLD || value > MAX_THRESHOLD {
            Err(EcError::ThresholdOutOfRange(value))
        } else {
            Ok(BatThreshold::new(value))
        }
    }

    /// The threshold as the hardware reports it: the value register and the
    /// custom mode flag, taken as they are.
    pub fn from_raw(value: u8, custom_mode_enabled: bool) -> (r: Self)
        ensures
            r.raw_value() == value,
            r.custom() == custom_mode_enabled,
    {
        BatThreshold { value, custom_mode_enabled }
    }

    /// The value register's content.
    pub fn value(&self) -> (r: u8)
        ensures
            r == self.raw_value(),
    {
        self.value
    }

    /// Whether the custom threshold mode is on.
    pub fn custom_mode_enabled(&self) -> (r: bool)
        ensures
            r == self.custom(),
    {
        self.custom_mode_enabled
    }

    /// The threshold in force: 100 with the custom mode off, else the value.
    pub fn actual_value(&self) -> (r: u8)
        ensures
            r == self.actual(),
    {
        if !self.custom_mode_enabled {
            MAX_THRESHOLD
        } else {
            self.value
        }
    }

    /// Whether the value lies in `60..=100`.
    pub fn is_valid(&self) -> (r: bool)
        ensures
            r == self.valid(),
    {
        MIN_THRESHOLD <= self.value && self.value <= MAX_THRESHOLD
    }

    /// Decodes the results of `BatThreshold::data_to_read` (the custom mode
    /// flag, then the value); fails when they do not have that shape.
    pub fn from_read_data(data: &[RWData]) -> (r: Result<Self, EcError>)
        ensures
            r is Ok <==> matches_template(data@, <BatThreshold as ReadEC>::read_ops()),
            r is Ok ==> (data@[1] matches RWData::U8 { value, .. } && r->Ok_0.raw_value() == value
                && r->Ok_0.custom() == flag_enabled(data@[0])),
            r is Ok ==> r->Ok_0.actual() == threshold_in_force(data@),
            r is Err ==> r->Err_0 == EcError::Protocol,
    {
        let template = BatThreshold::data_to_read();
        if !check_template(data, &template) {
            return Err(EcError::Protocol);
        }
        assert(data@[1].same_shape(template@[1]));
        let custom = is_flag_enabled(&data[0]);
        match data[1] {
            RWData::U8 { value, .. } => Ok(BatThreshold::from_raw(value, custom)),
            _ => Err(EcError::Protocol),
        }
    }
}

impl ReadEC for BatThreshold {
    open spec fn read_ops() -> Seq<RWData> {
        seq![
            flag_op(BAT_THRESHOLD_CUSTOM_MODE_REG, BAT_THRESHOLD_CUSTOM_MODE_BIT, BitState::Disabled),
            RWData::U8 { reg: CURRENT_BAT_THRESHOLD, value: 0 },
        ]
    }

    fn data_to_read() -> (r: Vec<RWData>) {
        let r = vec![
            flag(BAT_THRESHOLD_CUSTOM_MODE_REG, BAT_THRESHOLD_CUSTOM_MODE_BIT, BitState::Disabled),
            RWData::U8 { reg: CURRENT_BAT_THRESHOLD, value: 0 },
        ];
        assert(r@ =~= Self::read_ops());
        r
    }
}

impl WriteEC for BatThreshold {
    /// Makes the value the threshold in force.
    open spec fn write_ops(&self) -> Seq<RWData> {
        threshold_ops(self.raw_value())
    }

    fn data_to_write(&self) -> (r: Vec<RWData>) {
        let target = self.value;
        let s = if target == MAX_THRESHOLD {
            BitState::Disabled
        } else {
            BitState::Enabled
        };
        let r = vec![
            flag(BAT_THRESHOLD_TOGGLE_CUSTOM_REG, BAT_THRESHOLD_TOGGLE_CUSTOM_BIT, s),
            flag(BAT_THRESHOLD_CUSTOM_MODE_REG, BAT_THRESHOLD_CUSTOM_MODE_BIT, s),
            RWData::U8 { reg: CURRENT_BAT_THRESHOLD, value: target },
        ];
        assert(r@ =~= self.write_ops());
        r
    }
}

impl InvokeDaemon for BatThreshold {
    open spec fn request(&self) -> DaemonReq {
        DaemonReq::SetBatThreshold(*self)
    }

    fn daemon_action(&self) -> (r: DaemonReq) {
        DaemonReq::SetBatThreshold(*self)
    }
}

/// A valid threshold of 100 is written with the custom mode off; one in
/// `60..=99` is written with the custom mode on and exactly that value.
pub proof fn lemma_threshold_mode(t: BatThreshold)
    requires
        t.valid(),
    ensures
        t.raw_value() == MAX_THRESHOLD ==> t.write_ops() == seq![
            flag_op(BAT_THRESHOLD_TOGGLE_CUSTOM_REG, BAT_THRESHOLD_TOGGLE_CUSTOM_BIT, BitState::Disabled),
            flag_op(BAT_THRESHOLD_CUSTOM_MODE_REG, BAT_THRESHOLD_CUSTOM_MODE_BIT, BitState::Disabled),
            RWData::U8 { reg: CURRENT_BAT_THRESHOLD, value: MAX_THRESHOLD },
        ],
        t.raw_value() < MAX_THRESHOLD ==> t.write_ops() == seq![
            flag_op(BAT_THRESHOLD_TOGGLE_CUSTOM_REG, BAT_THRESHOLD_TOGGLE_CUSTOM_BIT, BitState::Enabled),
            flag_op(BAT_THRESHOLD_CUSTOM_MODE_REG, BAT_THRESHOLD_CUSTOM_MODE_BIT, BitState::Enabled),
            RWData::U8 { reg: CURRENT_BAT_THRESHOLD, value: t.raw_value() },
        ],
{
}

/// Writing a valid threshold and reading it back gives its value as the
/// threshold in force.
pub proof fn lemma_threshold_read_back(regs: Seq<u8>, t: BatThreshold)
    requires
        regs.len() == REGISTER_FILE_SIZE,
        t.valid(),
    ensures
        threshold_in_force(read_all(apply_ops(regs, t.write_ops()), <BatThreshold as ReadEC>::read_ops()))
            == t.raw_value(),
{
    let a = t.raw_value();
    let w = threshold_ops(a);
    let s = w[1]->state;
    assert(distinct_registers(w));
    lemma_apply_distinct(regs, w);
    let after = apply_ops(regs, w);
    let read = read_all(after, <BatThreshold as ReadEC>::read_ops());
    BitPos::lemma_at_index(BAT_THRESHOLD_CUSTOM_MODE_BIT);
    assert(after[w[1].reg() as int] == apply_op(regs, w[1])[w[1].reg() as int]);
    assert(after[w[2].reg() as int] == apply_op(regs, w[2])[w[2].reg() as int]);
    lemma_with_bit(regs[BAT_THRESHOLD_CUSTOM_MODE_REG as int], BAT_THRESHOLD_CUSTOM_MODE_BIT, s);
    assert(after.subrange(BAT_THRESHOLD_CUSTOM_MODE_REG as int, BAT_THRESHOLD_CUSTOM_MODE_REG + 1)[0]
        == after[BAT_THRESHOLD_CUSTOM_MODE_REG as int]);
    assert(after.subrange(CURRENT_BAT_THRESHOLD as int, CURRENT_BAT_THRESHOLD + 1)[0]
        == after[CURRENT_BAT_THRESHOLD as int]);
    assert(flag_enabled(read[0]) == (a != MAX_THRESHOLD));
    assert(read[1]->U8_value == a);
}

} // verus!
