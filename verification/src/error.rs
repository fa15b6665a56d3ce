//! The error type of the library.

use vstd::prelude::*;

verus! {

/// `reqwest::Error`, carried as an opaque value.
#[verifier::external_type_specification]
#[verifier::external_body]
pub struct ExReqwestError(reqwest::Error);

/// `rabbitmq_stream_client::error::ClientError`, carried as an opaque value.
#[verifier::external_type_specification]
#[verifier::external_body]
pub struct ExClientError(rabbitmq_stream_client::error::ClientError);

/// Errors of the consumer: the library's own, and those of the database,
/// the HTTP client and the stream client, carried as they came.
#[derive(Debug)]
pub enum AppError {
    Local(String),
    Sled(sled::Error),
    Reqwest(reqwest::Error),
    RabbitMQ(rabbitmq_stream_client::error::ClientError),
}

} // verus!
