//! The AMQP message header and its mapping onto a described list.
use crate::value::{AmqpDescribed, AmqpDescriptor, AmqpValue};
use vstd::prelude::*;

verus! {

/// Descriptor code of the message header composite.
pub const HEADER_DESCRIPTOR_CODE: u64 = 0x70;

/// Priority of a header that does not say otherwise.
pub const DEFAULT_PRIORITY: u8 = 4;

/// The standard AMQP message header.
#[derive(Debug, Clone, Copy, PartialEq, Eq, Structural)]
pub struct AmqpMessageHeader {
    /// The message survives a broker restart.
    pub durable: bool,
    /// Relative delivery priority.
    pub priority: u8,
    /// Expiry in milliseconds; `None` means the message does not expire.
    pub time_to_live: Option<u64>,
    /// No earlier delivery attempt failed.
    pub first_acquirer: bool,
    /// Number of earlier delivery attempts.
    pub delivery_count: u32,
}

/// Why a generic value could not be read as a message header.
#[derive(Debug, Clone, Copy, PartialEq, Eq, Structural)]
pub enum ConversionError {
    /// The descriptor is not the header's code.
    WrongDescriptor,
    /// The payload is not a list.
    WrongPayloadShape,
}

/// The header with every field at its default.
pub open spec fn default_header() -> AmqpMessageHeader {
    AmqpMessageHeader {
        durable: false,
        priority: DEFAULT_PRIORITY,
        time_to_live: None,
        first_acquirer: false,
        delivery_count: 0,
    }
}

/// The payload list of a header, one element per field in field order;
/// an absent time-to-live is a null element.
pub open spec fn header_fields(h: AmqpMessageHeader) -> Seq<AmqpValue> {
    seq![
        AmqpValue::Boolean(h.durable),
        AmqpValue::UByte(h.priority),
        match h.time_to_live {
            Some(t) => AmqpValue::ULong(t),
            None => AmqpValue::Null,
        },
        AmqpValue::Boolean(h.first_acquirer),
        AmqpValue::UInt(h.delivery_count),
    ]
}

/// The element at position `i`, or null past the end of the list.
pub open spec fn field_at(s: Seq<AmqpValue>, i: int) -> AmqpValue {
    if 0 <= i < s.len() {
        s[i]
    } else {
        AmqpValue::Null
    }
}

/// The value of a boolean element, or `default` for any other element.
pub open spec fn bool_or(v: AmqpValue, default: bool) -> bool {
    match v {
        AmqpValue::Boolean(b) => b,
        _ => default,
    }
}

/// A time-to-live is carried as a `ulong`, or as the `uint` of the
/// protocol's milliseconds type.
pub open spec fn millis_of(v: AmqpValue) -> Option<u64> {
    match v {
        AmqpValue::ULong(t) => Some(t),
        AmqpValue::UInt(t) => Some(t as u64),
        _ => None,
    }
}

/// The header that a payload list describes: element `i` gives field `i`
/// when it has the field's kind; a missing, null or other element leaves
/// the field at its default, and elements past the fifth are ignored.
pub open spec fn header_from_fields(s: Seq<AmqpValue>) -> AmqpMessageHeader {
    AmqpMessageHeader {
        durable: bool_or(field_at(s, 0), false),
        priority: match field_at(s, 1) {
            AmqpValue::UByte(p) => p,
            _ => DEFAULT_PRIORITY,
        },
        time_to_live: millis_of(field_at(s, 2)),
        first_acquirer: bool_or(field_at(s, 3), false),
        delivery_count: match field_at(s, 4) {
            AmqpValue::UInt(c) => c,
            _ => 0,
        },
    }
}

/// `d` is the described list that encodes `h`.
pub open spec fn is_header_encoding(d: AmqpDescribed, h: AmqpMessageHeader) -> bool {
    &&& d.descriptor == AmqpDescriptor::Code(HEADER_DESCRIPTOR_CODE)
    &&& d.value matches AmqpValue::List(v) && v@ == header_fields(h)
}

/// What reading a described value as a header gives.
pub open spec fn decode_described(d: AmqpDescribed) -> Result<AmqpMessageHeader, ConversionError> {
    if d.descriptor != AmqpDescriptor::Code(HEADER_DESCRIPTOR_CODE) {
        Err(ConversionError::WrongDescriptor)
    } else {
        match d.value {
            AmqpValue::List(v) => Ok(header_from_fields(v@)),
            _ => Err(ConversionError::WrongPayloadShape),
        }
    }
}

fn bool_field(list: &Vec<AmqpValue>, i: usize, default: bool) -> (r: bool)
    ensures
        r == bool_or(field_at(list@, i as int), default),
{
    if i < list.len() {
        match &list[i] {
            AmqpValue::Boolean(b) => *b,
            _ => default,
        }
    } else {
        default
    }
}

impl AmqpMessageHeader {
    /// A header with every field at its default.
    pub fn new() -> (r: Self)
        ensures
            r == default_header(),
    {
        AmqpMessageHeader {
            durable: false,
            priority: DEFAULT_PRIORITY,
            time_to_live: None,
            first_acquirer: false,
            delivery_count: 0,
        }
    }

    /// The payload list of this header.
    pub fn to_list(&self) -> (r: Vec<AmqpValue>)
        ensures
            r@ == header_fields(*self),
    {
        let mut v: Vec<AmqpValue> = Vec::new();
        v.push(AmqpValue::Boolean(self.durable));
        v.push(AmqpValue::UByte(self.priority));
        match self.time_to_live {
            Some(t) => v.push(AmqpValue::ULong(t)),
            None => v.push(AmqpValue::Null),
        }
        v.push(AmqpValue::Boolean(self.first_acquirer));
        v.push(AmqpValue::UInt(self.delivery_count));
        assert(v@ =~= header_fields(*self));
        v
    }

    /// Reads a header from a payload list; see `header_from_fields`.
    pub fn from_list(list: &Vec<AmqpValue>) -> (r: Self)
        ensures
            r == header_from_fields(list@),
    {
        let n = list.len();
        let durable = bool_field(list, 0, false);
        let priority = if n > 1 {
            match &list[1] {
                AmqpValue::UByte(p) => *p,
                _ => DEFAULT_PRIORITY,
            }
        } else {
            DEFAULT_PRIORITY
        };
        let time_to_live = if n > 2 {
            match &list[2] {
                AmqpValue::ULong(t) => Some(*t),
                AmqpValue::UInt(t) => Some(*t as u64),
                _ => None,
            }
        } else {
            None
        };
        let first_acquirer = bool_field(list, 3, false);
        let delivery_count = if n > 4 {
            match &list[4] {
                AmqpValue::UInt(c) => *c,
                _ => 0,
            }
        } else {
            0
        };
        AmqpMessageHeader { durable, priority, time_to_live, first_acquirer, delivery_count }
    }

    /// The described value for this header: code `0x70` over its payload list.
    pub fn to_generic(&self) -> (r: AmqpDescribed)
        ensures
            is_header_encoding(r, *self),
    {
        AmqpDescribed {
            descriptor: AmqpDescriptor::Code(HEADER_DESCRIPTOR_CODE),
            value: AmqpValue::List(self.to_list()),
        }
    }

    /// Reads a described value as a header.
    pub fn from_generic(d: &AmqpDescribed) -> (r: Result<Self, ConversionError>)
        ensures
            r == decode_described(*d),
    {
        match &d.descriptor {
            AmqpDescriptor::Code(c) => {
                if *c != HEADER_DESCRIPTOR_CODE {
                    return Err(ConversionError::WrongDescriptor);
                }
            },
            AmqpDescriptor::Name(_) => {
                return Err(ConversionError::WrongDescriptor);
            },
        }
        match &d.value {
            AmqpValue::List(v) => Ok(Self::from_list(v)),
            _ => Err(ConversionError::WrongPayloadShape),
        }
    }
}

impl Default for AmqpMessageHeader {
    fn default() -> (r: Self)
        ensures
            r == default_header(),
    {
        Self::new()
    }
}

/// Decoding the encoding of a header gives the same header back, field for
/// field, an absent time-to-live included.
pub proof fn lemma_round_trip(h: AmqpMessageHeader, d: AmqpDescribed)
    requires
        is_header_encoding(d, h),
    ensures
        decode_described(d) == Ok::<AmqpMessageHeader, ConversionError>(h),
{
}

/// A header payload that holds only durable and priority decodes to a header
/// with those two values and every other field at its default.
pub proof fn lemma_truncated_list(d: AmqpDescribed, durable: bool, priority: u8)
    requires
        d.descriptor == AmqpDescriptor::Code(HEADER_DESCRIPTOR_CODE),
        d.value matches AmqpValue::List(v) && v@ == seq![
            AmqpValue::Boolean(durable),
            AmqpValue::UByte(priority),
        ],
    ensures
        decode_described(d) == Ok::<AmqpMessageHeader, ConversionError>(
            AmqpMessageHeader {
                durable,
                priority,
                time_to_live: None,
                first_acquirer: false,
                delivery_count: 0,
            },
        ),
{
}

} // verus!
