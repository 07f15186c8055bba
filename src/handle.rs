//! The handle layer: creating, reading, changing and destroying headers
//! through owning handles, and converting them to and from generic values.
//!
//! An owning handle is a `Box`. Creation hands one to the caller, destruction
//! consumes it, and every other operation borrows it; status codes are `0`
//! for success and `1` for an absent field or a failed conversion.
use crate::header::{decode_described, default_header, is_header_encoding, AmqpMessageHeader};
use crate::value::AmqpValue;
use vstd::prelude::*;

verus! {

/// Status of an operation that succeeded.
pub const STATUS_OK: i32 = 0;

/// Status of a read of an absent field, or of a failed conversion.
pub const STATUS_ABSENT_OR_FAILED: i32 = 1;

/// A message header as held behind a handle.
pub struct RustMessageHeader {
    pub inner: AmqpMessageHeader,
}

/// A generic value as held behind a handle.
pub struct RustAmqpValue {
    pub inner: AmqpValue,
}

/// Diagnostic state of a caller, handed to every mutating operation.
/// This layer forwards it and never reads or changes it.
pub struct RustCallContext {
    pub last_error: Option<String>,
}

impl RustMessageHeader {
    pub fn new(header: AmqpMessageHeader) -> (r: Self)
        ensures
            r.inner == header,
    {
        Self { inner: header }
    }

    pub fn get(&self) -> (r: &AmqpMessageHeader)
        ensures
            *r == self.inner,
    {
        &self.inner
    }
}

impl RustAmqpValue {
    pub fn new(value: AmqpValue) -> (r: Self)
        ensures
            r.inner == value,
    {
        Self { inner: value }
    }
}

impl RustCallContext {
    pub fn new() -> (r: Self)
        ensures
            r.last_error is None,
    {
        Self { last_error: None }
    }
}

/// A new header with every field at its default, owned by the caller.
pub fn header_create() -> (r: Box<RustMessageHeader>)
    ensures
        r.inner == default_header(),
{
    Box::new(RustMessageHeader { inner: AmqpMessageHeader::new() })
}

/// Releases a header; the handle is consumed and cannot be used again.
pub fn header_destroy(header: Box<RustMessageHeader>) {
    let _released: Box<RustMessageHeader> = header;
}

pub fn header_get_durable(header: &RustMessageHeader, durable: &mut bool) -> (r: i32)
    ensures
        r == STATUS_OK,
        *final(durable) == header.inner.durable,
{
    *durable = header.inner.durable;
    STATUS_OK
}

pub fn header_get_priority(header: &RustMessageHeader, priority: &mut u8) -> (r: i32)
    ensures
        r == STATUS_OK,
        *final(priority) == header.inner.priority,
{
    *priority = header.inner.priority;
    STATUS_OK
}

/// Reads the time-to-live; an absent one gives status `1` and leaves `0` in
/// the slot.
pub fn header_get_ttl(header: &RustMessageHeader, time_to_live: &mut u64) -> (r: i32)
    ensures
        match header.inner.time_to_live {
            Some(t) => r == STATUS_OK && *final(time_to_live) == t,
            None => r == STATUS_ABSENT_OR_FAILED && *final(time_to_live) == 0,
        },
{
    match header.inner.time_to_live {
        Some(t) => {
            *time_to_live = t;
            STATUS_OK
        },
        None => {
            *time_to_live = 0;
            STATUS_ABSENT_OR_FAILED
        },
    }
}

pub fn header_get_first_acquirer(header: &RustMessageHeader, first_acquirer: &mut bool) -> (r: i32)
    ensures
        r == STATUS_OK,
        *final(first_acquirer) == header.inner.first_acquirer,
{
    *first_acquirer = header.inner.first_acquirer;
    STATUS_OK
}

pub fn header_get_delivery_count(header: &RustMessageHeader, delivery_count: &mut u32) -> (r: i32)
    ensures
        r == STATUS_OK,
        *final(delivery_count) == header.inner.delivery_count,
{
    *delivery_count = header.inner.delivery_count;
    STATUS_OK
}

pub fn header_set_durable(
    call_context: &mut RustCallContext,
    header: &mut RustMessageHeader,
    durable: bool,
) -> (r: i32)
    ensures
        r == STATUS_OK,
        final(header).inner == (AmqpMessageHeader { durable, ..old(header).inner }),
        *final(call_context) == *old(call_context),
{
    header.inner.durable = durable;
    STATUS_OK
}

pub fn header_set_priority(
    call_context: &mut RustCallContext,
    header: &mut RustMessageHeader,
    priority: u8,
) -> (r: i32)
    ensures
        r == STATUS_OK,
        final(header).inner == (AmqpMessageHeader { priority, ..old(header).inner }),
        *final(call_context) == *old(call_context),
{
    header.inner.priority = priority;
    STATUS_OK
}

pub fn header_set_ttl(
    call_context: &mut RustCallContext,
    header: &mut RustMessageHeader,
    time_to_live: u64,
) -> (r: i32)
    ensures
        r == STATUS_OK,
        final(header).inner == (AmqpMessageHeader {
            time_to_live: Some(time_to_live),
            ..old(header).inner
        }),
        *final(call_context) == *old(call_context),
{
    header.inner.time_to_live = Some(time_to_live);
    STATUS_OK
}

pub fn header_set_first_acquirer(
    call_context: &mut RustCallContext,
    header: &mut RustMessageHeader,
    first_acquirer: bool,
) -> (r: i32)
    ensures
        r == STATUS_OK,
        final(header).inner == (AmqpMessageHeader { first_acquirer, ..old(header).inner }),
        *final(call_context) == *old(call_context),
{
    header.inner.first_acquirer = first_acquirer;
    STATUS_OK
}

pub fn header_set_delivery_count(
    call_context: &mut RustCallContext,
    header: &mut RustMessageHeader,
    delivery_count: u32,
) -> (r: i32)
    ensures
        r == STATUS_OK,
        final(header).inner == (AmqpMessageHeader { delivery_count, ..old(header).inner }),
        *final(call_context) == *old(call_context),
{
    header.inner.delivery_count = delivery_count;
    STATUS_OK
}

/// Reads a generic value as a header. On success `header` holds a new,
/// independently owned header and the status is `0`; a value that is not
/// described, or that does not decode, leaves `None` and gives status `1`.
pub fn amqpvalue_get_header(value: &RustAmqpValue, header: &mut Option<Box<RustMessageHeader>>) -> (r: i32)
    ensures
        match value.inner {
            AmqpValue::Described(d) => match decode_described(*d) {
                Ok(h) => r == STATUS_OK && (*final(header) matches Some(b) && b.inner == h),
                Err(_) => r == STATUS_ABSENT_OR_FAILED && *final(header) is None,
            },
            _ => r == STATUS_ABSENT_OR_FAILED && *final(header) is None,
        },
{
    match &value.inner {
        AmqpValue::Described(d) => match AmqpMessageHeader::from_generic(d) {
            Ok(h) => {
                *header = Some(Box::new(RustMessageHeader { inner: h }));
                STATUS_OK
            },
            Err(_) => {
                *header = None;
                STATUS_ABSENT_OR_FAILED
            },
        },
        _ => {
            *header = None;
            STATUS_ABSENT_OR_FAILED
        },
    }
}

/// The described value that encodes a header, as a new owning handle.
pub fn amqpvalue_create_header(header: &RustMessageHeader) -> (r: Box<RustAmqpValue>)
    ensures
        r.inner matches AmqpValue::Described(d) && is_header_encoding(*d, header.inner),
{
    Box::new(RustAmqpValue { inner: AmqpValue::Described(Box::new(header.inner.to_generic())) })
}

} // verus!
