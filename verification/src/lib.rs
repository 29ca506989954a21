//! Day-one Kafka mechanics for a single `orders` topic: the configuration that
//! every client is built from, the order event model, and the decisions that
//! the producer, the consumer and the topic administrator make around their
//! network calls.

pub mod client_config;
pub mod config;
pub mod text;
pub mod error;
pub mod order_event;
pub mod producer;
pub mod consumer;
pub mod topic_admin;
pub mod observability;
