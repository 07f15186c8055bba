//! AMQP 1.0 message header: a typed composite, its mapping onto the generic
//! described-list value, and the handle layer used across a foreign boundary.

pub mod handle;
pub mod header;
pub mod value;
