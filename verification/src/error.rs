//! The errors of Kafka operations.

use rdkafka::error::{KafkaError, RDKafkaErrorCode};
use vstd::prelude::*;

use crate::config::ConfigError;

verus! {

#[verifier::external_type_specification]
#[verifier::external_body]
pub struct ExKafkaError(KafkaError);

#[verifier::external_type_specification]
#[verifier::external_body]
pub struct ExRDKafkaErrorCode(RDKafkaErrorCode);

#[verifier::external_type_specification]
#[verifier::external_body]
pub struct ExJsonError(serde_json::Error);

#[verifier::external_type_specification]
#[verifier::external_body]
pub struct ExUtf8Error(std::str::Utf8Error);

#[verifier::external_type_specification]
#[verifier::external_body]
pub struct ExTryInitError(tracing_subscriber::util::TryInitError);

/// What can go wrong in a Kafka operation of this library.
#[derive(Debug)]
pub enum KafkaAppError {
    /// The application configuration could not be loaded.
    Config(ConfigError),
    /// A Kafka client operation failed.
    Kafka(KafkaError),
    /// An order event could not be serialized.
    Json(serde_json::Error),
    /// The payload at `partition`, `offset` is not a valid order event.
    InvalidOrderEvent { partition: i32, offset: i64, source: serde_json::Error },
    /// A message key or payload was not valid UTF-8.
    Utf8(std::str::Utf8Error),
    /// Only `received` of the `expected` messages arrived before the consumer went idle.
    Timeout { expected: usize, received: usize },
    /// A topic `operation` on `topic` failed with the broker's `code`.
    TopicOperation { operation: &'static str, topic: String, code: RDKafkaErrorCode },
    /// `topic` already exists with another shape than the one asked for.
    TopicConfigurationMismatch {
        topic: String,
        expected_partitions: i32,
        actual_partitions: usize,
        expected_replication_factor: i32,
        actual_replication_factor: usize,
    },
    /// The global tracing subscriber could not be installed.
    Tracing(tracing_subscriber::util::TryInitError),
    /// The log format asked for is neither `compact` nor `json`.
    InvalidLogFormat(String),
}

} // verus!
