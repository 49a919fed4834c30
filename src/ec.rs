use vstd::prelude::*;

use crate::error::EcError;

verus! {

/// Register (address) inside the embedded controller's byte-addressable space.
pub type Reg = u8;

/// State of a single bit: `Disabled` is a 0 bit, `Enabled` a 1 bit.
#[derive(Clone, Copy, Debug, PartialEq, Eq, Structural)]
pub enum BitState {
    Disabled,
    Enabled,
}

impl BitState {
    /// The value of the bit: 0 or 1.
    pub fn as_u8(&self) -> (r: u8)
        ensures
            r == (if *self == BitState::Enabled { 1u8 } else { 0u8 }),
    {
        match self {
            BitState::Disabled => 0,
            BitState::Enabled => 1,
        }
    }
}

/// Whether bit `i` of `byte` is 1.
pub open spec fn bit_set(byte: u8, i: u8) -> bool {
    (byte >> i) & 1u8 == 1u8
}

pub open spec fn state_of(set: bool) -> BitState {
    if set {
        BitState::Enabled
    } else {
        BitState::Disabled
    }
}

/// `byte` with bit `i` forced to `state`.
pub open spec fn with_bit(byte: u8, i: u8, state: BitState) -> u8 {
    match state {
        BitState::Disabled => byte & !(1u8 << i),
        BitState::Enabled => byte | (1u8 << i),
    }
}

/// Changing one bit of a byte sets that bit to the wanted state and leaves the
/// seven others as they were.
pub proof fn lemma_with_bit(byte: u8, i: u8, state: BitState)
    requires
        i <= 7,
    ensures
        forall|j: u8|
            j <= 7 ==> #[trigger] bit_set(with_bit(byte, i, state), j) == (if j == i {
                state == BitState::Enabled
            } else {
                bit_set(byte, j)
            }),
{
    assert forall|j: u8| j <= 7 implies #[trigger] bit_set(with_bit(byte, i, state), j) == (if j
        == i {
        state == BitState::Enabled
    } else {
        bit_set(byte, j)
    }) by {
        match state {
            BitState::Disabled => {
                assert(((byte & !(1u8 << i)) >> j) & 1u8 == 1u8 <==> (j != i && (byte >> j) & 1u8
                    == 1u8)) by (bit_vector)
                    requires
                        i <= 7,
                        j <= 7,
                ;
            },
            BitState::Enabled => {
                assert(((byte | (1u8 << i)) >> j) & 1u8 == 1u8 <==> (j == i || (byte >> j) & 1u8
                    == 1u8)) by (bit_vector)
                    requires
                        i <= 7,
                        j <= 7,
                ;
            },
        }
    }
}

/// Position of a bit inside a byte, always in `0..=7`.
#[derive(Clone, Copy, Debug, PartialEq, Eq, Structural)]
pub struct BitPos(u8);

impl BitPos {
    #[verifier::type_invariant]
    spec fn in_range(self) -> bool {
        self.0 <= 7
    }

    pub closed spec fn index(self) -> u8 {
        self.0
    }

    /// The position of bit `i`.
    pub closed spec fn at(i: u8) -> BitPos {
        BitPos(i)
    }

    pub broadcast proof fn lemma_at_index(i: u8)
        ensures
            #[trigger] BitPos::at(i).index() == i,
    {
    }

    /// Builds a bit position; the caller guarantees `bit_num <= 7`.
    pub fn new(bit_num: u8) -> (r: Self)
        requires
            bit_num <= 7,
        ensures
            r.index() == bit_num,
            r == BitPos::at(bit_num),
    {
        BitPos(bit_num)
    }

    /// Builds a bit position, or reports a bit number outside `0..=7`.
    pub fn try_new(bit_num: u8) -> (r: Result<Self, EcError>)
        ensures
            bit_num <= 7 <==> r is Ok,
            r is Ok ==> r->Ok_0.index() == bit_num && r->Ok_0 == BitPos::at(bit_num),
            r is Err ==> r->Err_0 == EcError::BitOutOfRange(bit_num),
    {
        if bit_num > 7 {
            Err(EcError::BitOutOfRange(bit_num))
        } else {
            Ok(BitPos(bit_num))
        }
    }

    /// The bit number.
    pub fn get(&self) -> (r: u8)
        ensures
            r == self.index(),
            r <= 7,
    {
        proof {
            use_type_invariant(self);
        }
        self.0
    }
}

/// The state of bit `pos` of `byte`.
pub fn read_bit(byte: u8, pos: BitPos) -> (r: BitState)
    ensures
        r == state_of(bit_set(byte, pos.index())),
{
    let i = pos.get();
    let mask: u8 = 1u8 << i;
    assert((byte & (1u8 << i)) == 0u8 <==> !((byte >> i) & 1u8 == 1u8)) by (bit_vector)
        requires
            i <= 7,
    ;
    if byte & mask == 0 {
        BitState::Disabled
    } else {
        BitState::Enabled
    }
}

/// `byte` with bit `pos` set to `state`; the other bits are kept.
pub fn write_bit(byte: u8, pos: BitPos, state: BitState) -> (r: u8)
    ensures
        r == with_bit(byte, pos.index(), state),
{
    let i = pos.get();
    match state {
        BitState::Disabled => byte & !(1u8 << i),
        BitState::Enabled => byte | (1u8 << i),
    }
}

/// The big-endian 16-bit value of two bytes read in order.
pub open spec fn word_of(hi: u8, lo: u8) -> u16 {
    (hi as int * 256 + lo as int) as u16
}

pub fn word_from_be(hi: u8, lo: u8) -> (r: u16)
    ensures
        r == word_of(hi, lo),
        r as int == hi as int * 256 + lo as int,
{
    (hi as u16) * 256 + (lo as u16)
}

/// One bit, byte or word access to a register. A read descriptor carries
/// placeholder values that are replaced by the values read; a write
/// descriptor carries the values to write.
#[derive(Clone, Copy, Debug, PartialEq, Eq, Structural)]
pub enum RWData {
    U1 { reg: Reg, pos: BitPos, state: BitState },
    U8 { reg: Reg, value: u8 },
    U16 { reg: Reg, value: u16 },
}

impl RWData {
    /// The register the operation starts at.
    pub open spec fn reg(self) -> Reg {
        match self {
            RWData::U1 { reg, .. } => reg,
            RWData::U8 { reg, .. } => reg,
            RWData::U16 { reg, .. } => reg,
        }
    }

    /// How many bytes a read of this operation takes.
    pub open spec fn width(self) -> nat {
        match self {
            RWData::U16 { .. } => 2,
            _ => 1,
        }
    }

    /// The two operations address the same bits and differ at most in the value.
    pub open spec fn same_shape(self, other: RWData) -> bool {
        match (self, other) {
            (RWData::U1 { reg: a, pos: p, .. }, RWData::U1 { reg: b, pos: q, .. }) => a == b && p
                == q,
            (RWData::U8 { reg: a, .. }, RWData::U8 { reg: b, .. }) => a == b,
            (RWData::U16 { reg: a, .. }, RWData::U16 { reg: b, .. }) => a == b,
            _ => false,
        }
    }

    /// The operation with its value taken from `raw`, the bytes read at its register.
    pub open spec fn filled(self, raw: Seq<u8>) -> RWData {
        match self {
            RWData::U1 { reg, pos, .. } => RWData::U1 {
                reg,
                pos,
                state: state_of(bit_set(raw[0], pos.index())),
            },
            RWData::U8 { reg, .. } => RWData::U8 { reg, value: raw[0] },
            RWData::U16 { reg, .. } => RWData::U16 { reg, value: word_of(raw[0], raw[1]) },
        }
    }

    /// Whether the two operations address the same bits.
    pub fn shape_eq(&self, other: &RWData) -> (r: bool)
        ensures
            r == self.same_shape(*other),
    {
        match (self, other) {
            (RWData::U1 { reg: a, pos: p, .. }, RWData::U1 { reg: b, pos: q, .. }) => *a == *b && *p
                == *q,
            (RWData::U8 { reg: a, .. }, RWData::U8 { reg: b, .. }) => *a == *b,
            (RWData::U16 { reg: a, .. }, RWData::U16 { reg: b, .. }) => *a == *b,
            _ => false,
        }
    }

    /// The register the operation starts at.
    pub fn register(&self) -> (r: Reg)
        ensures
            r == self.reg(),
    {
        match self {
            RWData::U1 { reg, .. } => *reg,
            RWData::U8 { reg, .. } => *reg,
            RWData::U16 { reg, .. } => *reg,
        }
    }

    /// How many bytes a read of this operation takes.
    pub fn read_len(&self) -> (r: usize)
        ensures
            r == self.width(),
    {
        match self {
            RWData::U16 { .. } => 2,
            _ => 1,
        }
    }

    /// Fills in the value from the bytes read at the operation's register.
    pub fn fill(&self, raw: &[u8]) -> (r: RWData)
        requires
            raw@.len() == self.width(),
        ensures
            r == self.filled(raw@),
            r.same_shape(*self),
    {
        match self {
            RWData::U1 { reg, pos, .. } => RWData::U1 { reg: *reg, pos: *pos, state: read_bit(raw[0], *pos) },
            RWData::U8 { reg, .. } => RWData::U8 { reg: *reg, value: raw[0] },
            RWData::U16 { reg, .. } => RWData::U16 { reg: *reg, value: word_from_be(raw[0], raw[1]) },
        }
    }
}

/// `data` has the shape of `template`: as many operations, each addressing
/// the same bits as the one at its position.
pub open spec fn matches_template(data: Seq<RWData>, template: Seq<RWData>) -> bool {
    &&& data.len() == template.len()
    &&& forall|i: int| 0 <= i < data.len() ==> #[trigger] data[i].same_shape(template[i])
}

/// Whether `data` has the shape of `template`.
pub fn check_template(data: &[RWData], template: &Vec<RWData>) -> (r: bool)
    ensures
        r == matches_template(data@, template@),
{
    if data.len() != template.len() {
        return false;
    }
    let mut i: usize = 0;
    while i < data.len()
        invariant
            data@.len() == template@.len(),
            0 <= i <= data@.len(),
            forall|j: int| 0 <= j < i ==> #[trigger] data@[j].same_shape(template@[j]),
        decreases data@.len() - i,
    {
        if !data[i].shape_eq(&template[i]) {
            return false;
        }
        i = i + 1;
    }
    true
}

/// A bit operation on bit `bit` of register `reg`.
pub open spec fn flag_op(reg: Reg, bit: u8, state: BitState) -> RWData {
    RWData::U1 { reg, pos: BitPos::at(bit), state }
}

pub fn flag(reg: Reg, bit: u8, state: BitState) -> (r: RWData)
    requires
        bit <= 7,
    ensures
        r == flag_op(reg, bit, state),
{
    RWData::U1 { reg, pos: BitPos::new(bit), state }
}

/// Whether `op` is a bit operation that holds a 1 bit.
pub open spec fn flag_enabled(op: RWData) -> bool {
    op matches RWData::U1 { state, .. } && state == BitState::Enabled
}

pub fn is_flag_enabled(op: &RWData) -> (r: bool)
    ensures
        r == flag_enabled(*op),
{
    match op {
        RWData::U1 { state, .. } => *state == BitState::Enabled,
        _ => false,
    }
}

} // verus!
