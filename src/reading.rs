use vstd::prelude::*;

use core::marker::PhantomData;

use crate::ec::{check_template, matches_template, RWData, Reg};
use crate::error::EcError;
use crate::traits::ReadEC;

verus! {

/// The address of a register that holds one reading.
pub trait RegisterAddress {
    spec fn spec_address() -> Reg;

    fn address() -> (r: Reg)
        ensures
            r == Self::spec_address(),
    ;
}

/// The value of one 8-bit register at the address `A` gives.
#[derive(Debug)]
pub struct ByteReading<A> {
    value: u8,
    _address: PhantomData<A>,
}

impl<A: RegisterAddress> ByteReading<A> {
    pub closed spec fn spec_value(self) -> u8 {
        self.value
    }

    /// The value read.
    pub fn value(&self) -> (r: u8)
        ensures
            r == self.spec_value(),
    {
        self.value
    }

    /// Decodes the result of `data_to_read`; fails when it does not have that shape.
    pub fn from_read_data(data: &[RWData]) -> (r: Result<Self, EcError>)
        ensures
            r is Ok <==> matches_template(data@, Self::read_ops()),
            r is Ok ==> (data@[0] matches RWData::U8 { value, .. } && r->Ok_0.spec_value()
                == value),
            r is Err ==> r->Err_0 == EcError::Protocol,
    {
        let template = Self::data_to_read();
        if !check_template(data, &template) {
            return Err(EcError::Protocol);
        }
        assert(data@[0].same_shape(template@[0]));
        match data[0] {
            RWData::U8 { value, .. } => Ok(ByteReading { value, _address: PhantomData }),
            _ => Err(EcError::Protocol),
        }
    }
}

impl<A: RegisterAddress> ReadEC for ByteReading<A> {
    open spec fn read_ops() -> Seq<RWData> {
        seq![RWData::U8 { reg: A::spec_address(), value: 0 }]
    }

    fn data_to_read() -> (r: Vec<RWData>) {
        let r = vec![RWData::U8 { reg: A::address(), value: 0 }];
        assert(r@ =~= Self::read_ops());
        r
    }
}

/// The big-endian value of two consecutive 8-bit registers starting at the address `A` gives.
#[derive(Debug)]
pub struct WordReading<A> {
    value: u16,
    _address: PhantomData<A>,
}

impl<A: RegisterAddress> WordReading<A> {
    pub closed spec fn spec_value(self) -> u16 {
        self.value
    }

    /// The value read.
    pub fn value(&self) -> (r: u16)
        ensures
            r == self.spec_value(),
    {
        self.value
    }

    /// Decodes the result of `data_to_read`; fails when it does not have that shape.
    pub fn from_read_data(data: &[RWData]) -> (r: Result<Self, EcError>)
        ensures
            r is Ok <==> matches_template(data@, Self::read_ops()),
            r is Ok ==> (data@[0] matches RWData::U16 { value, .. } && r->Ok_0.spec_value()
                == value),
            r is Err ==> r->Err_0 == EcError::Protocol,
    {
        let template = Self::data_to_read();
        if !check_template(data, &template) {
            return Err(EcError::Protocol);
        }
        assert(data@[0].same_shape(template@[0]));
        match data[0] {
            RWData::U16 { value, .. } => Ok(WordReading { value, _address: PhantomData }),
            _ => Err(EcError::Protocol),
        }
    }
}

impl<A: RegisterAddress> ReadEC for WordReading<A> {
    open spec fn read_ops() -> Seq<RWData> {
        seq![RWData::U16 { reg: A::spec_address(), value: 0 }]
    }

    fn data_to_read() -> (r: Vec<RWData>) {
        let r = vec![RWData::U16 { reg: A::address(), value: 0 }];
        assert(r@ =~= Self::read_ops());
        r
    }
}

} // verus!
