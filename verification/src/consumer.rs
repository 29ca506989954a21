//! The order consumer: client configuration, and the decisions taken while
//! messages are received, checked, parsed and committed.

use rdkafka::config::ClientConfig;
use rdkafka::error::KafkaError;
use std::str::Utf8Error;
use vstd::prelude::*;
use vstd::utf8::{decode_utf8, valid_utf8};

use crate::client_config::client_config_entries;
use crate::config::{AppConfig, ConfigError};
use crate::error::KafkaAppError;
use crate::order_event::OrderEvent;
use crate::producer::copy_key;

verus! {

/// A message read from the topic, with its parsed event.
#[derive(Debug, PartialEq)]
pub struct ConsumedRecord {
    pub key: Option<String>,
    pub partition: i32,
    pub offset: i64,
    pub payload: String,
    pub event: OrderEvent,
}

/// Consumes order events with the configuration it was made with.
#[derive(Debug, Clone)]
pub struct OrderConsumer {
    config: AppConfig,
}

impl Clone for ConsumedRecord {
    fn clone(&self) -> (record: Self)
        ensures
            record == *self,
    {
        ConsumedRecord {
            key: copy_key(&self.key),
            partition: self.partition,
            offset: self.offset,
            payload: self.payload.clone(),
            event: self.event.clone(),
        }
    }
}

/// The raw parts of a received message.
#[derive(Debug)]
pub struct MessageParts {
    pub key: Option<Vec<u8>>,
    pub payload: Option<Vec<u8>>,
    pub partition: i32,
    pub offset: i64,
}

/// A received message whose key and payload were decoded, waiting for its event.
#[derive(Debug)]
pub struct PendingMessage {
    pub key: Option<String>,
    pub partition: i32,
    pub offset: i64,
    pub payload: String,
}

/// What the caller reports back to a collect session.
#[derive(Debug)]
pub enum CollectEvent {
    /// No message arrived within the idle timeout.
    TimedOut,
    /// Receiving a message failed.
    ReceiveFailed(KafkaError),
    /// A message arrived.
    Received(MessageParts),
    /// The outcome of parsing the payload that was asked for as an order event.
    Parsed(Result<OrderEvent, serde_json::Error>),
    /// The outcome of committing the offset of the message just received.
    Committed(Result<(), KafkaError>),
}

/// What a collect session asks the caller to do next.
#[derive(Debug)]
pub enum CollectAction {
    /// Wait for the next message, at most the idle timeout, and report
    /// `Received`, `TimedOut` or `ReceiveFailed`.
    Receive,
    /// Parse this payload as an order event and report `Parsed`.
    Parse(String),
    /// Commit the offset of the message just received, synchronously, and report `Committed`.
    Commit,
    /// Collecting is over, with this result.
    Finish(Result<Vec<ConsumedRecord>, KafkaAppError>),
}

/// Where a collect session stands.
#[derive(Debug, Clone, Copy, PartialEq, Eq, Structural)]
pub enum CollectPhase {
    AwaitingMessage,
    AwaitingParse,
    AwaitingCommit,
    Finished,
}

/// Reads up to a given number of messages, stopping early when none arrives
/// within the idle timeout, and at the first failure.
#[derive(Debug)]
pub struct CollectSession {
    max_messages: usize,
    commit: bool,
    records: Vec<ConsumedRecord>,
    pending: PendingMessage,
    phase: CollectPhase,
}

/// The error that `std::str::from_utf8` reports for `bytes` (where the valid
/// prefix ends and how long the invalid sequence is), which depends on the
/// bytes alone.
pub uninterp spec fn utf8_error(bytes: Seq<u8>) -> Utf8Error;

/// `std::str::from_utf8`: the text that `bytes` encode, when they are valid
/// UTF-8, and otherwise the error it reports for them.
#[verifier::external_body]
fn str_from_utf8(bytes: &[u8]) -> (text: Result<&str, Utf8Error>)
    ensures
        text is Ok <==> valid_utf8(bytes@),
        text matches Ok(s) ==> s@ == decode_utf8(bytes@),
        text matches Err(e) ==> e == utf8_error(bytes@),
{
    std::str::from_utf8(bytes)
}

/// The text of an optional string.
pub open spec fn opt_text(s: Option<String>) -> Option<Seq<char>> {
    match s {
        Some(t) => Some(t@),
        None => None,
    }
}

/// Whether the key and the payload, where present, are valid UTF-8.
pub open spec fn parts_are_text(parts: MessageParts) -> bool {
    &&& parts.key matches Some(k) ==> valid_utf8(k@)
    &&& parts.payload matches Some(p) ==> valid_utf8(p@)
}

/// The text of a message key.
pub open spec fn key_text(key: Option<Vec<u8>>) -> Option<Seq<char>> {
    match key {
        Some(k) => Some(decode_utf8(k@)),
        None => None,
    }
}

/// The text of a message payload; a message without payload reads as empty.
pub open spec fn payload_text(payload: Option<Vec<u8>>) -> Seq<char> {
    match payload {
        Some(p) => decode_utf8(p@),
        None => Seq::empty(),
    }
}

/// The record that a pending message becomes with its parsed event.
pub open spec fn consumed(pending: PendingMessage, event: OrderEvent) -> ConsumedRecord {
    ConsumedRecord {
        key: pending.key,
        partition: pending.partition,
        offset: pending.offset,
        payload: pending.payload,
        event,
    }
}

/// A record made from a received message keeps that message's key, partition,
/// offset and payload, and carries the event parsed from it.
pub proof fn lemma_consumed_record_keeps_message(pending: PendingMessage, event: OrderEvent)
    ensures
        consumed(pending, event).key == pending.key,
        consumed(pending, event).partition == pending.partition,
        consumed(pending, event).offset == pending.offset,
        consumed(pending, event).payload == pending.payload,
        consumed(pending, event).event == event,
{
}

/// The text of optional bytes, or the decoding error.
fn decode_optional(bytes: &Option<Vec<u8>>) -> (text: Result<Option<String>, Utf8Error>)
    ensures
        text is Ok <==> (bytes matches Some(b) ==> valid_utf8(b@)),
        text matches Ok(t) ==> opt_text(t) == key_text(*bytes),
        text matches Err(e) ==> (*bytes matches Some(b) && e == utf8_error(b@)),
{
    match bytes {
        Some(b) => match str_from_utf8(b.as_slice()) {
            Ok(s) => Ok(Some(s.to_string())),
            Err(e) => Err(e),
        },
        None => Ok(None),
    }
}

impl OrderConsumer {
    /// The configuration the consumer was made with.
    pub closed spec fn config(&self) -> AppConfig {
        self.config
    }

    pub fn new(config: AppConfig) -> (consumer: Self)
        ensures
            consumer.config() == config,
    {
        OrderConsumer { config }
    }

    /// A consumer made with the configuration that was loaded, or the loading error.
    pub fn from_config(loaded: Result<AppConfig, ConfigError>) -> (consumer: Result<Self, ConfigError>)
        ensures
            match loaded {
                Ok(config) => consumer matches Ok(c) && c.config() == config,
                Err(error) => consumer matches Err(e) && e == error,
            },
    {
        match loaded {
            Ok(config) => Ok(Self::new(config)),
            Err(error) => Err(error),
        }
    }

    pub fn default_group_id(&self) -> (group_id: &str)
        ensures
            group_id@ == self.config().consumer.group_id@,
    {
        self.config.consumer.group_id.as_str()
    }

    /// The configuration of a stream consumer in `group_id`, committing offsets
    /// automatically as the application configuration says.
    pub fn stream_consumer_config(&self, group_id: &str) -> (config: ClientConfig)
        ensures
            client_config_entries(config) == self.config().consumer_parameters(
                group_id@,
                self.config().consumer.enable_auto_commit,
            ),
    {
        self.config.consumer_client_config(group_id, self.config.consumer.enable_auto_commit)
    }

    /// The configuration of the consumer that `consume_n` reads with: offsets
    /// are never committed automatically, whatever the application configuration says.
    pub fn consume_n_config(&self, group_id: &str) -> (config: ClientConfig)
        ensures
            client_config_entries(config) == self.config().consumer_parameters(group_id@, false),
    {
        self.config.consumer_client_config(group_id, false)
    }

    /// The outcome of reading `max_messages` messages: the records when all of
    /// them arrived, and a timeout that says how many did otherwise.
    pub fn require_count(records: Vec<ConsumedRecord>, max_messages: usize) -> (result: Result<
        Vec<ConsumedRecord>,
        KafkaAppError,
    >)
        ensures
            records.len() < max_messages ==> result == Err::<Vec<ConsumedRecord>, KafkaAppError>(
                KafkaAppError::Timeout { expected: max_messages, received: records.len() },
            ),
            records.len() >= max_messages ==> result == Ok::<Vec<ConsumedRecord>, KafkaAppError>(
                records,
            ),
    {
        if records.len() < max_messages {
            return Err(KafkaAppError::Timeout { expected: max_messages, received: records.len() });
        }
        Ok(records)
    }
}

impl CollectSession {
    pub closed spec fn max_messages(&self) -> nat {
        self.max_messages as nat
    }

    pub closed spec fn commits(&self) -> bool {
        self.commit
    }

    /// The records collected so far, in the order they were received.
    pub closed spec fn records(&self) -> Seq<ConsumedRecord> {
        self.records@
    }

    /// The message being parsed or committed.
    pub closed spec fn pending(&self) -> PendingMessage {
        self.pending
    }

    pub closed spec fn phase(&self) -> CollectPhase {
        self.phase
    }

    /// The session's invariant: never more records than asked for, and room for
    /// one more while a message is awaited or parsed.
    pub open spec fn wf(&self) -> bool {
        &&& self.records().len() <= self.max_messages()
        &&& (self.phase() == CollectPhase::AwaitingMessage || self.phase()
            == CollectPhase::AwaitingParse) ==> self.records().len() < self.max_messages()
        &&& self.phase() == CollectPhase::AwaitingCommit ==> self.commits() && self.records().len() > 0
    }

    /// Whether the session is waiting for this kind of event.
    pub open spec fn spec_accepts(&self, event: CollectEvent) -> bool {
        match event {
            CollectEvent::TimedOut => self.phase() == CollectPhase::AwaitingMessage,
            CollectEvent::ReceiveFailed(_) => self.phase() == CollectPhase::AwaitingMessage,
            CollectEvent::Received(_) => self.phase() == CollectPhase::AwaitingMessage,
            CollectEvent::Parsed(_) => self.phase() == CollectPhase::AwaitingParse,
            CollectEvent::Committed(_) => self.phase() == CollectPhase::AwaitingCommit,
        }
    }

    /// The placeholder that stands for "no message in hand": no key, partition
    /// and offset 0, and an empty payload.
    fn empty_pending() -> (pending: PendingMessage)
        ensures
            pending.key is None,
            pending.partition == 0,
            pending.offset == 0,
            pending.payload@ == Seq::<char>::empty(),
    {
        PendingMessage { key: None, partition: 0, offset: 0, payload: String::new() }
    }

    /// Awaits another message while fewer than asked for were collected, and
    /// ends with every record otherwise.
    fn next(&mut self) -> (action: CollectAction)
        requires
            old(self).records().len() <= old(self).max_messages(),
        ensures
            final(self).max_messages() == old(self).max_messages(),
            final(self).commits() == old(self).commits(),
            final(self).wf(),
            after_record(old(self).records(), old(self).max_messages(), final(self).phase(), action),
            old(self).records().len() < old(self).max_messages() ==> final(self).records() == old(
                self,
            ).records(),
    {
        if self.records.len() < self.max_messages {
            self.phase = CollectPhase::AwaitingMessage;
            CollectAction::Receive
        } else {
            self.phase = CollectPhase::Finished;
            let mut done: Vec<ConsumedRecord> = Vec::new();
            std::mem::swap(&mut done, &mut self.records);
            CollectAction::Finish(Ok(done))
        }
    }

    /// Starts collecting up to `max_messages` messages, committing each one
    /// when `commit` is set.
    pub fn start(max_messages: usize, commit: bool) -> (result: (Self, CollectAction))
        ensures
            result.0.wf(),
            result.0.max_messages() == max_messages,
            result.0.commits() == commit,
            after_record(Seq::empty(), max_messages as nat, result.0.phase(), result.1),
            max_messages > 0 ==> result.0.records().len() == 0,
    {
        let mut session = CollectSession {
            max_messages,
            commit,
            records: Vec::new(),
            pending: Self::empty_pending(),
            phase: CollectPhase::AwaitingMessage,
        };
        let action = session.next();
        (session, action)
    }

    /// Whether the session is waiting for `event`'s kind of event.
    pub fn accepts(&self, event: &CollectEvent) -> (accepted: bool)
        ensures
            accepted == self.spec_accepts(*event),
    {
        match event {
            CollectEvent::TimedOut | CollectEvent::ReceiveFailed(_) | CollectEvent::Received(_) => {
                match self.phase {
                    CollectPhase::AwaitingMessage => true,
                    _ => false,
                }
            },
            CollectEvent::Parsed(_) => match self.phase {
                CollectPhase::AwaitingParse => true,
                _ => false,
            },
            CollectEvent::Committed(_) => match self.phase {
                CollectPhase::AwaitingCommit => true,
                _ => false,
            },
        }
    }

    /// Takes the caller's report and says what to do next.
    ///
    /// A received message whose key and payload are text is handed out to be
    /// parsed; its parsed event makes it a record, which is committed when the
    /// session commits; then the next message is awaited until as many records
    /// as asked for were collected. An idle timeout ends the session with the
    /// records collected so far; any failure ends it with its error.
    pub fn step(&mut self, event: CollectEvent) -> (action: CollectAction)
        requires
            old(self).wf(),
            old(self).spec_accepts(event),
        ensures
            final(self).wf(),
            final(self).max_messages() == old(self).max_messages(),
            final(self).commits() == old(self).commits(),
            !old(self).commits() ==> !(action is Commit),
            action matches CollectAction::Finish(Ok(v)) ==> v.len() <= old(self).max_messages(),
            !(event is TimedOut) ==> (action matches CollectAction::Finish(Ok(v)) ==> v.len()
                == old(self).max_messages()),
            action is Receive ==> final(self).records().len() < final(self).max_messages(),
            match event {
                CollectEvent::TimedOut => {
                    &&& final(self).phase() == CollectPhase::Finished
                    &&& action matches CollectAction::Finish(Ok(v)) && v@ == old(self).records()
                },
                CollectEvent::ReceiveFailed(error) => {
                    &&& final(self).phase() == CollectPhase::Finished
                    &&& action == CollectAction::Finish(Err(KafkaAppError::Kafka(error)))
                },
                CollectEvent::Received(parts) => if parts_are_text(parts) {
                    &&& final(self).phase() == CollectPhase::AwaitingParse
                    &&& final(self).records() == old(self).records()
                    &&& opt_text(final(self).pending().key) == key_text(parts.key)
                    &&& final(self).pending().payload@ == payload_text(parts.payload)
                    &&& final(self).pending().partition == parts.partition
                    &&& final(self).pending().offset == parts.offset
                    &&& action matches CollectAction::Parse(text) && text@ == payload_text(
                        parts.payload,
                    )
                } else {
                    &&& final(self).phase() == CollectPhase::Finished
                    &&& action matches CollectAction::Finish(Err(KafkaAppError::Utf8(e)))
                    &&& e == utf8_error(
                        if parts.key matches Some(k) && !valid_utf8(k@) {
                            parts.key->0@
                        } else {
                            parts.payload->0@
                        },
                    )
                },
                CollectEvent::Parsed(Ok(order_event)) => {
                    let records = old(self).records().push(consumed(old(self).pending(), order_event));
                    &&& records.last().key == old(self).pending().key
                    &&& records.last().partition == old(self).pending().partition
                    &&& records.last().offset == old(self).pending().offset
                    &&& records.last().payload == old(self).pending().payload
                    &&& records.last().event == order_event
                    &&& if old(self).commits() {
                        &&& final(self).phase() == CollectPhase::AwaitingCommit
                        &&& final(self).records() == records
                        &&& action == CollectAction::Commit
                    } else {
                        &&& after_record(records, old(self).max_messages(), final(self).phase(), action)
                        &&& records.len() < old(self).max_messages() ==> final(self).records() == records
                    }
                },
                CollectEvent::Parsed(Err(error)) => {
                    &&& final(self).phase() == CollectPhase::Finished
                    &&& action == CollectAction::Finish(
                        Err(
                            KafkaAppError::InvalidOrderEvent {
                                partition: old(self).pending().partition,
                                offset: old(self).pending().offset,
                                source: error,
                            },
                        ),
                    )
                },
                CollectEvent::Committed(Ok(())) => {
                    &&& after_record(old(self).records(), old(self).max_messages(), final(self).phase(), action)
                    &&& old(self).records().len() < old(self).max_messages() ==> final(self).records() == old(self).records()
                },
                CollectEvent::Committed(Err(error)) => {
                    &&& final(self).phase() == CollectPhase::Finished
                    &&& action == CollectAction::Finish(Err(KafkaAppError::Kafka(error)))
                },
            },
    {
        match event {
            CollectEvent::TimedOut => {
                self.phase = CollectPhase::Finished;
                let mut done: Vec<ConsumedRecord> = Vec::new();
                std::mem::swap(&mut done, &mut self.records);
                CollectAction::Finish(Ok(done))
            },
            CollectEvent::ReceiveFailed(error) => {
                self.phase = CollectPhase::Finished;
                CollectAction::Finish(Err(KafkaAppError::Kafka(error)))
            },
            CollectEvent::Received(parts) => {
                let key = match decode_optional(&parts.key) {
                    Ok(key) => key,
                    Err(error) => {
                        self.phase = CollectPhase::Finished;
                        return CollectAction::Finish(Err(KafkaAppError::Utf8(error)));
                    },
                };
                let payload = match decode_optional(&parts.payload) {
                    Ok(Some(text)) => text,
                    Ok(None) => String::new(),
                    Err(error) => {
                        self.phase = CollectPhase::Finished;
                        return CollectAction::Finish(Err(KafkaAppError::Utf8(error)));
                    },
                };
                let text = payload.clone();
                self.pending = PendingMessage {
                    key,
                    partition: parts.partition,
                    offset: parts.offset,
                    payload,
                };
                self.phase = CollectPhase::AwaitingParse;
                CollectAction::Parse(text)
            },
            CollectEvent::Parsed(Ok(order_event)) => {
                let record = ConsumedRecord {
                    key: copy_key(&self.pending.key),
                    partition: self.pending.partition,
                    offset: self.pending.offset,
                    payload: self.pending.payload.clone(),
                    event: order_event,
                };
                self.records.push(record);
                if self.commit {
                    self.phase = CollectPhase::AwaitingCommit;
                    CollectAction::Commit
                } else {
                    self.next()
                }
            },
            CollectEvent::Parsed(Err(error)) => {
                self.phase = CollectPhase::Finished;
                CollectAction::Finish(
                    Err(
                        KafkaAppError::InvalidOrderEvent {
                            partition: self.pending.partition,
                            offset: self.pending.offset,
                            source: error,
                        },
                    ),
                )
            },
            CollectEvent::Committed(Ok(())) => self.next(),
            CollectEvent::Committed(Err(error)) => {
                self.phase = CollectPhase::Finished;
                CollectAction::Finish(Err(KafkaAppError::Kafka(error)))
            },
        }
    }
}

/// What follows a kept record, given the records collected so far: another
/// message while fewer than `max_messages` were collected, the end with every
/// record otherwise.
pub open spec fn after_record(
    records: Seq<ConsumedRecord>,
    max_messages: nat,
    phase: CollectPhase,
    action: CollectAction,
) -> bool {
    if records.len() < max_messages {
        &&& phase == CollectPhase::AwaitingMessage
        &&& action == CollectAction::Receive
    } else {
        &&& phase == CollectPhase::Finished
        &&& action matches CollectAction::Finish(Ok(v)) && v@ == records
    }
}

} // verus!
