//! Offset tracking and message-loop decisions for a RabbitMQ stream consumer
//! that persists its read position in an embedded `sled` database.

pub mod codec;
pub mod error;
pub mod store;
pub mod offset_tracker;
pub mod config;
pub mod text;
pub mod reading;
