//! The part of the generic AMQP value model that composite types are built on.
use vstd::prelude::*;

verus! {

/// The descriptor of a described value: a numeric code or a symbolic name.
#[derive(Debug, PartialEq)]
pub enum AmqpDescriptor {
    Code(u64),
    Name(String),
}

/// A generic AMQP value.
#[derive(Debug, PartialEq)]
pub enum AmqpValue {
    Null,
    Boolean(bool),
    UByte(u8),
    UInt(u32),
    ULong(u64),
    List(Vec<AmqpValue>),
    Described(Box<AmqpDescribed>),
}

/// A value tagged with a descriptor.
#[derive(Debug, PartialEq)]
pub struct AmqpDescribed {
    pub descriptor: AmqpDescriptor,
    pub value: AmqpValue,
}

impl AmqpDescribed {
    pub fn new(descriptor: AmqpDescriptor, value: AmqpValue) -> (r: Self)
        ensures
            r.descriptor == descriptor,
            r.value == value,
    {
        AmqpDescribed { descriptor, value }
    }
}

} // verus!
