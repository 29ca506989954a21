//! The order producer: sample events, client configuration, and the decisions
//! taken while a batch of records is serialized and delivered.

use rdkafka::config::ClientConfig;
use rdkafka::error::KafkaError;
use vstd::prelude::*;

use crate::client_config::client_config_entries;
use crate::config::{AppConfig, ConfigError};
use crate::error::KafkaAppError;
use crate::order_event::{sample_order_id, sample_user_id, OrderEvent};

verus! {

/// A record to send: an event, with an optional key and an optional partition.
#[derive(Debug)]
pub struct RecordToProduce {
    pub key: Option<String>,
    pub partition: Option<i32>,
    pub event: OrderEvent,
}

/// A record that the broker acknowledged, with where it was stored.
#[derive(Debug, PartialEq)]
pub struct ProducedRecord {
    pub key: Option<String>,
    pub partition: i32,
    pub offset: i64,
    pub event: OrderEvent,
}

/// Produces order events with the configuration it was made with.
#[derive(Debug, Clone)]
pub struct OrderProducer {
    config: AppConfig,
}

/// Where the broker stored a delivered record.
#[derive(Debug, Clone, Copy)]
pub struct Delivery {
    pub partition: i32,
    pub offset: i64,
}

/// What is handed to the Kafka producer for one record.
#[derive(Debug)]
pub struct SendRequest {
    pub topic: String,
    pub key: Option<String>,
    pub partition: Option<i32>,
    pub payload: String,
}

/// What the caller reports back to a produce session.
#[derive(Debug)]
pub enum ProduceEvent {
    /// The JSON serialization of the event that was asked for.
    Serialized(Result<String, serde_json::Error>),
    /// The outcome of the send that was asked for.
    Delivered(Result<Delivery, KafkaError>),
}

/// What a produce session asks the caller to do next.
#[derive(Debug)]
pub enum ProduceAction {
    /// Serialize this event to JSON and report `Serialized`.
    Serialize(OrderEvent),
    /// Send this request and report `Delivered`.
    Send(SendRequest),
    /// The batch is over, with this result.
    Finish(Result<Vec<ProducedRecord>, KafkaAppError>),
}

/// Where a produce session stands.
#[derive(Debug, Clone, Copy, PartialEq, Eq, Structural)]
pub enum ProducePhase {
    AwaitingPayload,
    AwaitingDelivery,
    Finished,
}

/// Sends a batch of records one after the other, stopping at the first failure.
#[derive(Debug)]
pub struct ProduceSession {
    topic: String,
    records: Vec<RecordToProduce>,
    produced: Vec<ProducedRecord>,
    phase: ProducePhase,
}

/// A copy of an optional key.
pub fn copy_key(key: &Option<String>) -> (copy: Option<String>)
    ensures
        copy == *key,
{
    match key {
        Some(k) => Some(k.clone()),
        None => None,
    }
}

impl Clone for RecordToProduce {
    fn clone(&self) -> (record: Self)
        ensures
            record == *self,
    {
        RecordToProduce {
            key: copy_key(&self.key),
            partition: self.partition,
            event: self.event.clone(),
        }
    }
}

impl Clone for ProducedRecord {
    fn clone(&self) -> (record: Self)
        ensures
            record == *self,
    {
        ProducedRecord {
            key: copy_key(&self.key),
            partition: self.partition,
            offset: self.offset,
            event: self.event.clone(),
        }
    }
}

/// The sample record number `index`: its event is keyed by its order identifier
/// and goes to the partition that the key selects.
pub open spec fn is_sample_record(record: RecordToProduce, index: nat) -> bool {
    &&& record.key is Some
    &&& record.key->0@ == sample_order_id(index)
    &&& record.partition is None
    &&& record.event.order_id@ == sample_order_id(index)
    &&& record.event.user_id@ == sample_user_id(index)
    &&& record.event.status@ == "created"@
}

/// The acknowledged form of `record`, stored at `delivery`.
pub open spec fn acknowledged(record: RecordToProduce, delivery: Delivery) -> ProducedRecord {
    ProducedRecord {
        key: record.key,
        partition: delivery.partition,
        offset: delivery.offset,
        event: record.event,
    }
}

/// A record acknowledged with a delivery report is stored where the report
/// says, with the key and event it was sent with.
pub proof fn lemma_acknowledged_where_delivered(record: RecordToProduce, delivery: Delivery)
    ensures
        acknowledged(record, delivery).partition == delivery.partition,
        acknowledged(record, delivery).offset == delivery.offset,
        acknowledged(record, delivery).key == record.key,
        acknowledged(record, delivery).event == record.event,
{
}

impl OrderProducer {
    /// The configuration the producer was made with.
    pub closed spec fn config(&self) -> AppConfig {
        self.config
    }

    pub fn new(config: AppConfig) -> (producer: Self)
        ensures
            producer.config() == config,
    {
        OrderProducer { config }
    }

    /// A producer made with the configuration that was loaded, or the loading error.
    pub fn from_config(loaded: Result<AppConfig, ConfigError>) -> (producer: Result<Self, ConfigError>)
        ensures
            match loaded {
                Ok(config) => producer matches Ok(p) && p.config() == config,
                Err(error) => producer matches Err(e) && e == error,
            },
    {
        match loaded {
            Ok(config) => Ok(Self::new(config)),
            Err(error) => Err(error),
        }
    }

    pub fn default_topic(&self) -> (topic: &str)
        ensures
            topic@ == self.config().kafka.topic@,
    {
        self.config.kafka.topic.as_str()
    }

    pub fn event_count(&self) -> (count: u32)
        ensures
            count == self.config().producer.event_count,
    {
        self.config.producer.event_count
    }

    /// The configuration of the Kafka producer that sends the records.
    pub fn future_producer_config(&self) -> (config: ClientConfig)
        ensures
            client_config_entries(config) == self.config().producer_parameters(),
    {
        self.config.producer_client_config()
    }

    /// The configured number of sample records, each keyed by its order
    /// identifier, with the amount of record `i` given by `amount_bits(i)`.
    pub fn sample_events<F: Fn(u32) -> u64>(&self, amount_bits: F) -> (records: Vec<RecordToProduce>)
        requires
            self.config().producer.event_count <= u32::MAX - 99,
            forall|i: u32| i < self.config().producer.event_count ==> amount_bits.requires((i,)),
        ensures
            records.len() == self.config().producer.event_count,
            forall|i: int|
                0 <= i < records.len() ==> {
                    &&& is_sample_record(#[trigger] records[i], i as nat)
                    &&& amount_bits.ensures((i as u32,), records[i].event.amount_bits)
                },
    {
        let count = self.config.producer.event_count;
        let mut records: Vec<RecordToProduce> = Vec::new();
        let mut index: u32 = 0;
        while index < count
            invariant
                index <= count,
                count == self.config().producer.event_count,
                count <= u32::MAX - 99,
                forall|i: u32| i < count ==> amount_bits.requires((i,)),
                records.len() == index,
                forall|i: int|
                    0 <= i < records.len() ==> {
                        &&& is_sample_record(#[trigger] records[i], i as nat)
                        &&& amount_bits.ensures((i as u32,), records[i].event.amount_bits)
                    },
            decreases count - index,
        {
            let amount = amount_bits(index);
            let event = OrderEvent::sample(index, amount);
            let key = Some(event.order_id.clone());
            records.push(RecordToProduce { key, partition: None, event });
            index = index + 1;
        }
        records
    }
}

impl ProduceSession {
    pub closed spec fn topic(&self) -> Seq<char> {
        self.topic@
    }

    /// The records of the batch, in the order they are sent.
    pub closed spec fn records(&self) -> Seq<RecordToProduce> {
        self.records@
    }

    /// The records acknowledged so far.
    pub closed spec fn produced(&self) -> Seq<ProducedRecord> {
        self.produced@
    }

    pub closed spec fn phase(&self) -> ProducePhase {
        self.phase
    }

    /// The index of the record being serialized or sent.
    pub open spec fn current(&self) -> int {
        self.produced().len() as int
    }

    /// The session's invariant: the acknowledged records are the first records of
    /// the batch, with their keys and events, and a session that is not finished
    /// has a record in hand.
    pub open spec fn wf(&self) -> bool {
        &&& self.produced().len() <= self.records().len()
        &&& self.phase() != ProducePhase::Finished ==> self.current() < self.records().len()
        &&& forall|i: int|
            0 <= i < self.produced().len() ==> {
                &&& (#[trigger] self.produced()[i]).key == self.records()[i].key
                &&& self.produced()[i].event == self.records()[i].event
            }
    }

    /// Whether the session is waiting for this kind of event.
    pub open spec fn spec_accepts(&self, event: ProduceEvent) -> bool {
        match event {
            ProduceEvent::Serialized(_) => self.phase() == ProducePhase::AwaitingPayload,
            ProduceEvent::Delivered(_) => self.phase() == ProducePhase::AwaitingDelivery,
        }
    }

    /// Starts sending `records` to `topic`: asks for the first event to be
    /// serialized, or finishes at once with nothing produced when there is none.
    pub fn start(topic: &str, records: Vec<RecordToProduce>) -> (result: (Self, ProduceAction))
        ensures
            result.0.wf(),
            result.0.topic() == topic@,
            result.0.records() == records@,
            result.0.produced().len() == 0,
            records.len() == 0 ==> {
                &&& result.0.phase() == ProducePhase::Finished
                &&& result.1 matches ProduceAction::Finish(Ok(v)) && v@.len() == 0
            },
            records.len() > 0 ==> {
                &&& result.0.phase() == ProducePhase::AwaitingPayload
                &&& result.1 == ProduceAction::Serialize(records[0].event)
            },
    {
        if records.len() == 0 {
            let session = ProduceSession {
                topic: topic.to_string(),
                records,
                produced: Vec::new(),
                phase: ProducePhase::Finished,
            };
            (session, ProduceAction::Finish(Ok(Vec::new())))
        } else {
            let first = records[0].event.clone();
            let session = ProduceSession {
                topic: topic.to_string(),
                records,
                produced: Vec::new(),
                phase: ProducePhase::AwaitingPayload,
            };
            (session, ProduceAction::Serialize(first))
        }
    }

    /// Whether the session is waiting for `event`'s kind of event.
    pub fn accepts(&self, event: &ProduceEvent) -> (accepted: bool)
        ensures
            accepted == self.spec_accepts(*event),
    {
        match event {
            ProduceEvent::Serialized(_) => match self.phase {
                ProducePhase::AwaitingPayload => true,
                _ => false,
            },
            ProduceEvent::Delivered(_) => match self.phase {
                ProducePhase::AwaitingDelivery => true,
                _ => false,
            },
        }
    }

    /// Takes the caller's report and says what to do next.
    ///
    /// A serialized payload is sent with the current record's key and partition;
    /// a failed serialization or delivery ends the batch with that error; an
    /// acknowledged record is kept, and the next record is serialized, or the
    /// batch ends with every acknowledged record when it was the last one.
    pub fn step(&mut self, event: ProduceEvent) -> (action: ProduceAction)
        requires
            old(self).wf(),
            old(self).spec_accepts(event),
        ensures
            final(self).wf(),
            final(self).topic() == old(self).topic(),
            final(self).records() == old(self).records(),
            action matches ProduceAction::Finish(Ok(v)) ==> {
                &&& v.len() == old(self).records().len()
                &&& forall|i: int|
                    0 <= i < v.len() ==> {
                        &&& (#[trigger] v[i]).key == old(self).records()[i].key
                        &&& v[i].event == old(self).records()[i].event
                    }
            },
            match event {
                ProduceEvent::Serialized(Ok(payload)) => {
                    &&& final(self).phase() == ProducePhase::AwaitingDelivery
                    &&& final(self).produced() == old(self).produced()
                    &&& action matches ProduceAction::Send(request) && {
                        &&& request.topic@ == old(self).topic()
                        &&& request.key == old(self).records()[old(self).current()].key
                        &&& request.partition == old(self).records()[old(self).current()].partition
                        &&& request.payload == payload
                    }
                },
                ProduceEvent::Serialized(Err(error)) => {
                    &&& final(self).phase() == ProducePhase::Finished
                    &&& action == ProduceAction::Finish(Err(KafkaAppError::Json(error)))
                },
                ProduceEvent::Delivered(Ok(delivery)) => {
                    let produced = old(self).produced().push(
                        acknowledged(old(self).records()[old(self).current()], delivery),
                    );
                    &&& produced.last().partition == delivery.partition
                    &&& produced.last().offset == delivery.offset
                    &&& produced.last().key == old(self).records()[old(self).current()].key
                    &&& produced.last().event == old(self).records()[old(self).current()].event
                    &&& if produced.len() < old(self).records().len() {
                        &&& final(self).phase() == ProducePhase::AwaitingPayload
                        &&& final(self).produced() == produced
                        &&& action == ProduceAction::Serialize(
                            old(self).records()[produced.len() as int].event,
                        )
                    } else {
                        &&& final(self).phase() == ProducePhase::Finished
                        &&& action matches ProduceAction::Finish(Ok(v)) && v@ == produced
                    }
                },
                ProduceEvent::Delivered(Err(error)) => {
                    &&& final(self).phase() == ProducePhase::Finished
                    &&& action == ProduceAction::Finish(Err(KafkaAppError::Kafka(error)))
                },
            },
    {
        let current = self.produced.len();
        match event {
            ProduceEvent::Serialized(Ok(payload)) => {
                let record = &self.records[current];
                let request = SendRequest {
                    topic: self.topic.clone(),
                    key: copy_key(&record.key),
                    partition: record.partition,
                    payload,
                };
                self.phase = ProducePhase::AwaitingDelivery;
                ProduceAction::Send(request)
            },
            ProduceEvent::Serialized(Err(error)) => {
                self.phase = ProducePhase::Finished;
                ProduceAction::Finish(Err(KafkaAppError::Json(error)))
            },
            ProduceEvent::Delivered(Ok(delivery)) => {
                assert(current < self.records.len());
                let record = &self.records[current];
                let produced = ProducedRecord {
                    key: copy_key(&record.key),
                    partition: delivery.partition,
                    offset: delivery.offset,
                    event: record.event.clone(),
                };
                self.produced.push(produced);
                let next = current + 1;
                if next < self.records.len() {
                    self.phase = ProducePhase::AwaitingPayload;
                    ProduceAction::Serialize(self.records[next].event.clone())
                } else {
                    self.phase = ProducePhase::Finished;
                    let mut done: Vec<ProducedRecord> = Vec::new();
                    std::mem::swap(&mut done, &mut self.produced);
                    ProduceAction::Finish(Ok(done))
                }
            },
            ProduceEvent::Delivered(Err(error)) => {
                self.phase = ProducePhase::Finished;
                ProduceAction::Finish(Err(KafkaAppError::Kafka(error)))
            },
        }
    }
}

} // verus!
