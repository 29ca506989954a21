//! Topic administration: the decisions taken on the broker's answers when a
//! topic is created, deleted or described.

use rdkafka::config::ClientConfig;
use rdkafka::error::RDKafkaErrorCode;
use vstd::prelude::*;

use crate::client_config::client_config_entries;
use crate::config::{AppConfig, ConfigError};
use crate::error::KafkaAppError;

verus! {

/// librdkafka's number of the error `TopicAlreadyExists`.
pub const TOPIC_ALREADY_EXISTS: i32 = 36;

/// librdkafka's number of the error `UnknownTopicOrPartition`.
pub const UNKNOWN_TOPIC_OR_PARTITION: i32 = 3;

/// The number that librdkafka gives an error code (its discriminant).
pub uninterp spec fn error_code_number(code: RDKafkaErrorCode) -> i32;

/// `code as i32`: the discriminant of an error code, which is librdkafka's number for it.
#[verifier::external_body]
fn error_code_value(code: RDKafkaErrorCode) -> (number: i32)
    ensures
        number == error_code_number(code),
{
    code as i32
}

/// `RDKafkaErrorCode::UnknownTopicOrPartition`, whose discriminant is 3; the
/// discriminants of `RDKafkaErrorCode` are distinct, so no other code has it.
#[verifier::external_body]
fn unknown_topic_or_partition() -> (code: RDKafkaErrorCode)
    ensures
        error_code_number(code) == UNKNOWN_TOPIC_OR_PARTITION,
        forall|other: RDKafkaErrorCode|
            #[trigger] error_code_number(other) == UNKNOWN_TOPIC_OR_PARTITION ==> other == code,
{
    RDKafkaErrorCode::UnknownTopicOrPartition
}

/// The shape of a topic.
#[derive(Debug, Clone, PartialEq, Eq)]
pub struct TopicDescription {
    pub name: String,
    pub partition_count: usize,
    pub replication_factor: usize,
}

/// What the cluster metadata says of one topic: its name, its error if any,
/// and the number of replicas of each of its partitions.
#[derive(Debug, Clone)]
pub struct TopicSummary {
    pub name: String,
    pub error: Option<RDKafkaErrorCode>,
    pub replica_counts: Vec<usize>,
}

/// What to do with the broker's answer for one topic of a create request.
#[derive(Debug)]
pub enum CreateOutcome {
    /// The topic was created.
    Created,
    /// The topic already exists: its shape has to be checked.
    CheckExisting,
    /// The request failed with this error.
    Failed(KafkaAppError),
}

/// What a create session asks the caller to do next.
#[derive(Debug)]
pub enum CreateAction {
    /// Describe the topic being created and report the description.
    Describe,
    /// The create request is over, with this result.
    Finish(Result<(), KafkaAppError>),
}

/// Where a create session stands.
#[derive(Debug, Clone, Copy, PartialEq, Eq, Structural)]
pub enum CreatePhase {
    AwaitingDescription,
    Finished,
}

/// Goes through the broker's answers to a create request: a topic that
/// already exists is accepted only with the shape that was asked for.
#[derive(Debug)]
pub struct CreateSession {
    topic: String,
    partitions: i32,
    replication_factor: i32,
    results: Vec<Result<String, (String, RDKafkaErrorCode)>>,
    next: usize,
    phase: CreatePhase,
}

/// Administers topics with the configuration it was made with.
#[derive(Debug, Clone)]
pub struct TopicAdmin {
    config: AppConfig,
}

/// The largest number of `counts`, or 0 when there is none.
pub open spec fn max_count(counts: Seq<usize>) -> nat
    decreases counts.len(),
{
    if counts.len() == 0 {
        0
    } else {
        let rest = max_count(counts.drop_last());
        if counts.last() > rest {
            counts.last() as nat
        } else {
            rest
        }
    }
}

/// Whether `topics[i]` is the first topic named `name`.
pub open spec fn first_named(topics: Seq<TopicSummary>, name: Seq<char>, i: int) -> bool {
    &&& 0 <= i < topics.len()
    &&& topics[i].name@ == name
    &&& forall|j: int| 0 <= j < i ==> topics[j].name@ != name
}

/// Whether some topic is named `name`.
pub open spec fn has_named(topics: Seq<TopicSummary>, name: Seq<char>) -> bool {
    exists|i: int| 0 <= i < topics.len() && #[trigger] topics[i].name@ == name
}

/// Whether `error` is a failed topic `operation` on `topic` with `code`.
pub open spec fn is_topic_operation_error(
    error: KafkaAppError,
    operation: Seq<char>,
    topic: Seq<char>,
    code: RDKafkaErrorCode,
) -> bool {
    error matches KafkaAppError::TopicOperation { operation: o, topic: t, code: c } && o@ == operation
        && t@ == topic && c == code
}

/// Whether an answer to a create request says that the topic was created.
pub open spec fn created(result: Result<String, (String, RDKafkaErrorCode)>) -> bool {
    result is Ok
}

/// Whether an answer to a create request says that `topic` already exists.
pub open spec fn already_exists(topic: Seq<char>, result: Result<String, (String, RDKafkaErrorCode)>) -> bool {
    result matches Err((name, code)) && error_code_number(code) == TOPIC_ALREADY_EXISTS && name@ == topic
}

/// Whether `description` has the shape asked for.
pub open spec fn has_shape(description: TopicDescription, partitions: i32, replication_factor: i32) -> bool {
    description.partition_count == partitions as usize && description.replication_factor
        == replication_factor as usize
}

/// An existing topic has the shape asked for exactly when its partition count
/// and its replication factor are the numbers asked for: one partition more or
/// less, or another replication factor, is another shape.
pub proof fn lemma_shape_is_exact(description: TopicDescription, partitions: i32, replication_factor: i32)
    ensures
        has_shape(description, partitions, replication_factor) ==> description.partition_count
            == partitions as usize,
        has_shape(description, partitions, replication_factor) ==> description.replication_factor
            == replication_factor as usize,
        description.partition_count == partitions as usize && description.replication_factor
            == replication_factor as usize ==> has_shape(description, partitions, replication_factor),
{
}

/// Whether `error` says that `topic` exists with the shape `description`
/// instead of the one asked for.
pub open spec fn is_shape_mismatch(
    error: KafkaAppError,
    topic: Seq<char>,
    partitions: i32,
    replication_factor: i32,
    description: TopicDescription,
) -> bool {
    error matches KafkaAppError::TopicConfigurationMismatch {
        topic: t,
        expected_partitions,
        actual_partitions,
        expected_replication_factor,
        actual_replication_factor,
    } && t@ == topic && expected_partitions == partitions && actual_partitions
        == description.partition_count && expected_replication_factor == replication_factor
        && actual_replication_factor == description.replication_factor
}

/// Whether `error` says that `topic` was not found when it was described: the
/// describe operation failed with `UnknownTopicOrPartition`, the one error code
/// numbered 3.
pub open spec fn is_unknown_topic_error(error: KafkaAppError, topic: Seq<char>) -> bool {
    &&& error matches KafkaAppError::TopicOperation { operation, topic: t, code }
    &&& operation@ == "describe"@
    &&& t@ == topic
    &&& error_code_number(code) == UNKNOWN_TOPIC_OR_PARTITION
    &&& forall|other: RDKafkaErrorCode|
        #[trigger] error_code_number(other) == UNKNOWN_TOPIC_OR_PARTITION ==> other == code
}

/// Whether `result` describes `topic` from the cluster metadata `topics`: from
/// the first entry with that name, its number of partitions and the largest
/// number of replicas of a partition, or that entry's error; an unknown topic
/// when no entry has that name.
pub open spec fn describes(
    topic: Seq<char>,
    topics: Seq<TopicSummary>,
    result: Result<TopicDescription, KafkaAppError>,
) -> bool {
    &&& !has_named(topics, topic) ==> (result matches Err(e) && is_unknown_topic_error(e, topic))
    &&& forall|i: int| #[trigger]
        first_named(topics, topic, i) ==> match topics[i].error {
            Some(code) => result matches Err(e) && is_topic_operation_error(e, "describe"@, topic, code),
            None => result matches Ok(d) && d.name@ == topic && d.partition_count
                == topics[i].replica_counts.len() && d.replication_factor == max_count(
                topics[i].replica_counts@,
            ),
        }
}

/// Whether two describe results say the same: the same description, or the
/// same failed operation on the same topic with the same code.
pub open spec fn same_description_result(
    a: Result<TopicDescription, KafkaAppError>,
    b: Result<TopicDescription, KafkaAppError>,
) -> bool {
    match a {
        Ok(d) => b matches Ok(e) && d.name@ == e.name@ && d.partition_count == e.partition_count
            && d.replication_factor == e.replication_factor,
        Err(KafkaAppError::TopicOperation { operation, topic, code }) => b matches Err(
            KafkaAppError::TopicOperation { operation: o, topic: t, code: c },
        ) && operation@ == o@ && topic@ == t@ && code == c,
        Err(_) => false,
    }
}

proof fn lemma_first_named_at_or_before(topics: Seq<TopicSummary>, name: Seq<char>, k: int)
    requires
        0 <= k < topics.len(),
        topics[k].name@ == name,
    ensures
        exists|i: int| first_named(topics, name, i),
    decreases k,
{
    if exists|j: int| 0 <= j < k && topics[j].name@ == name {
        let j = choose|j: int| 0 <= j < k && topics[j].name@ == name;
        lemma_first_named_at_or_before(topics, name, j);
    } else {
        assert(first_named(topics, name, k));
    }
}

/// Describing a topic depends on the cluster metadata alone: two descriptions
/// of the same topic from the same metadata say the same.
pub proof fn lemma_describe_is_deterministic(
    topic: Seq<char>,
    topics: Seq<TopicSummary>,
    first: Result<TopicDescription, KafkaAppError>,
    second: Result<TopicDescription, KafkaAppError>,
)
    requires
        describes(topic, topics, first),
        describes(topic, topics, second),
    ensures
        same_description_result(first, second),
{
    if has_named(topics, topic) {
        let k = choose|k: int| 0 <= k < topics.len() && #[trigger] topics[k].name@ == topic;
        lemma_first_named_at_or_before(topics, topic, k);
        let i = choose|i: int| first_named(topics, topic, i);
        assert(first_named(topics, topic, i));
    } else {
        if let Err(KafkaAppError::TopicOperation { code: c1, .. }) = first {
            if let Err(KafkaAppError::TopicOperation { code: c2, .. }) = second {
                assert(error_code_number(c2) == UNKNOWN_TOPIC_OR_PARTITION);
                assert(c2 == c1);
            }
        }
    }
}

/// Whether a delete answer is no failure: the topic was deleted, or it was the
/// topic asked for and it did not exist.
pub open spec fn delete_tolerated(topic: Seq<char>, result: Result<String, (String, RDKafkaErrorCode)>) -> bool {
    match result {
        Ok(_) => true,
        Err((name, code)) => error_code_number(code) == UNKNOWN_TOPIC_OR_PARTITION && name@ == topic,
    }
}

/// The replication factor of a description is an upper bound of the replica
/// counts it was taken from, and one of them when there is any.
pub proof fn lemma_max_count_is_largest(counts: Seq<usize>)
    ensures
        max_count(counts) <= usize::MAX,
        forall|i: int| 0 <= i < counts.len() ==> counts[i] <= max_count(counts),
        counts.len() > 0 ==> exists|i: int| 0 <= i < counts.len() && counts[i] == max_count(counts),
    decreases counts.len(),
{
    if counts.len() > 0 {
        lemma_max_count_is_largest(counts.drop_last());
        assert forall|i: int| 0 <= i < counts.len() implies counts[i] <= max_count(counts) by {
            if i < counts.len() - 1 {
                assert(counts[i] == counts.drop_last()[i]);
            }
        }
        if counts.last() <= max_count(counts.drop_last()) && counts.len() > 1 {
            let k = choose|i: int| 0 <= i < counts.drop_last().len() && counts.drop_last()[i] == max_count(counts.drop_last());
            assert(counts[k] == counts.drop_last()[k]);
        }
    }
}

impl TopicAdmin {
    /// The configuration the administrator was made with.
    pub closed spec fn config(&self) -> AppConfig {
        self.config
    }

    pub fn new(config: AppConfig) -> (admin: Self)
        ensures
            admin.config() == config,
    {
        TopicAdmin { config }
    }

    /// An administrator made with the configuration that was loaded, or the loading error.
    pub fn from_config(loaded: Result<AppConfig, ConfigError>) -> (admin: Result<Self, ConfigError>)
        ensures
            match loaded {
                Ok(config) => admin matches Ok(a) && a.config() == config,
                Err(error) => admin matches Err(e) && e == error,
            },
    {
        match loaded {
            Ok(config) => Ok(Self::new(config)),
            Err(error) => Err(error),
        }
    }

    pub fn default_topic(&self) -> (topic: &str)
        ensures
            topic@ == self.config().kafka.topic@,
    {
        self.config.kafka.topic.as_str()
    }

    /// The configuration of the admin client and of the metadata consumer.
    pub fn admin_client_config(&self) -> (config: ClientConfig)
        ensures
            client_config_entries(config) == self.config().kafka_parameters(),
    {
        self.config.kafka_client_config()
    }

    /// What the answer `result` to a request that creates `topic` means: a
    /// topic created, the topic asked for already there (to be checked), or a
    /// failure of the create operation for the topic the answer names.
    pub fn create_outcome(topic: &str, result: &Result<String, (String, RDKafkaErrorCode)>) -> (outcome: CreateOutcome)
        ensures
            created(*result) ==> outcome is Created,
            already_exists(topic@, *result) ==> outcome is CheckExisting,
            outcome is Created <==> result is Ok,
            outcome is CheckExisting <==> (*result matches Err((name, code)) && name@ == topic@
                && error_code_number(code) == TOPIC_ALREADY_EXISTS),
            !created(*result) && !already_exists(topic@, *result) ==> (*result matches Err((name, code))
                && outcome matches CreateOutcome::Failed(e) && is_topic_operation_error(e, "create"@, name@, code)),
    {
        match result {
            Ok(_) => CreateOutcome::Created,
            Err((name, code)) => {
                let wanted = topic.to_string();
                if error_code_value(*code) == TOPIC_ALREADY_EXISTS && *name == wanted {
                    CreateOutcome::CheckExisting
                } else {
                    CreateOutcome::Failed(
                        KafkaAppError::TopicOperation { operation: "create", topic: name.clone(), code: *code },
                    )
                }
            },
        }
    }

    /// Checks that an existing `topic`, as `description` describes it, has the
    /// partition count and replication factor asked for.
    pub fn check_existing_shape(
        topic: &str,
        partitions: i32,
        replication_factor: i32,
        description: &TopicDescription,
    ) -> (result: Result<(), KafkaAppError>)
        ensures
            has_shape(*description, partitions, replication_factor) ==> result is Ok,
            !has_shape(*description, partitions, replication_factor) ==> (result matches Err(e)
                && is_shape_mismatch(e, topic@, partitions, replication_factor, *description)),
            result is Ok <==> (description.partition_count == partitions as usize
                && description.replication_factor == replication_factor as usize),
            result matches Err(e) ==> (e matches KafkaAppError::TopicConfigurationMismatch {
                expected_partitions,
                actual_partitions,
                expected_replication_factor,
                actual_replication_factor,
                ..
            } && expected_partitions == partitions && actual_partitions == description.partition_count
                && expected_replication_factor == replication_factor && actual_replication_factor
                == description.replication_factor),
    {
        if description.partition_count != partitions as usize || description.replication_factor
            != replication_factor as usize {
            return Err(
                KafkaAppError::TopicConfigurationMismatch {
                    topic: topic.to_string(),
                    expected_partitions: partitions,
                    actual_partitions: description.partition_count,
                    expected_replication_factor: replication_factor,
                    actual_replication_factor: description.replication_factor,
                },
            );
        }
        Ok(())
    }

    /// The outcome of a request that deletes `topic`: the first answer that is a
    /// failure, as a failed delete operation, or success when there is none.
    pub fn check_delete_results(topic: &str, results: &Vec<Result<String, (String, RDKafkaErrorCode)>>) -> (result: Result<(), KafkaAppError>)
        ensures
            result is Ok <==> forall|i: int| 0 <= i < results.len() ==> #[trigger] delete_tolerated(topic@, results[i]),
            result is Ok ==> forall|i: int| 0 <= i < results.len() ==> (#[trigger] results[i] is Ok || (
                results[i] matches Err((name, code)) && name@ == topic@ && error_code_number(code)
                    == UNKNOWN_TOPIC_OR_PARTITION)),
            result is Err ==> exists|i: int| 0 <= i < results.len() && (#[trigger] results[i] matches Err((name, code)) && !(
                name@ == topic@ && error_code_number(code) == UNKNOWN_TOPIC_OR_PARTITION)),
            result matches Err(e) ==> exists|i: int| {
                &&& 0 <= i < results.len()
                &&& !delete_tolerated(topic@, #[trigger] results[i])
                &&& forall|j: int| 0 <= j < i ==> delete_tolerated(topic@, results[j])
                &&& results[i] matches Err((name, code)) && is_topic_operation_error(e, "delete"@, name@, code)
            },
    {
        let wanted = topic.to_string();
        let mut i: usize = 0;
        while i < results.len()
            invariant
                i <= results.len(),
                wanted@ == topic@,
                forall|j: int| 0 <= j < i ==> #[trigger] delete_tolerated(topic@, results[j]),
            decreases results.len() - i,
        {
            match &results[i] {
                Ok(_) => {},
                Err((name, code)) => {
                    if !(error_code_value(*code) == UNKNOWN_TOPIC_OR_PARTITION && *name == wanted) {
                        let error = KafkaAppError::TopicOperation { operation: "delete", topic: name.clone(), code: *code };
                        assert(!delete_tolerated(topic@, results[i as int]));
                        return Err(error);
                    }
                },
            }
            i = i + 1;
        }
        assert forall|i: int| 0 <= i < results.len() implies (#[trigger] results[i] is Ok || (
            results[i] matches Err((name, code)) && name@ == topic@ && error_code_number(code)
                == UNKNOWN_TOPIC_OR_PARTITION)) by {
            assert(delete_tolerated(topic@, results[i]));
        }
        Ok(())
    }

    /// The description of `topic` from the cluster metadata `topics`: from the
    /// first entry with that name, its number of partitions and the largest
    /// number of replicas of a partition (0 without partitions). A topic that
    /// is not there is an unknown topic; one that carries an error fails with it.
    pub fn describe_from_metadata(topic: &str, topics: &Vec<TopicSummary>) -> (result: Result<TopicDescription, KafkaAppError>)
        ensures
            describes(topic@, topics@, result),
    {
        let wanted = topic.to_string();
        let mut i: usize = 0;
        while i < topics.len()
            invariant
                i <= topics.len(),
                wanted@ == topic@,
                forall|j: int| 0 <= j < i ==> topics@[j].name@ != topic@,
            decreases topics.len() - i,
        {
            if topics[i].name == wanted {
                let found = &topics[i];
                assert(first_named(topics@, topic@, i as int));
                match found.error {
                    Some(code) => {
                        return Err(KafkaAppError::TopicOperation { operation: "describe", topic: topic.to_string(), code });
                    },
                    None => {
                        let replication_factor = Self::largest_count(&found.replica_counts);
                        return Ok(TopicDescription {
                            name: topic.to_string(),
                            partition_count: found.replica_counts.len(),
                            replication_factor,
                        });
                    },
                }
            }
            i = i + 1;
        }
        Err(KafkaAppError::TopicOperation { operation: "describe", topic: topic.to_string(), code: unknown_topic_or_partition() })
    }

    fn largest_count(counts: &Vec<usize>) -> (largest: usize)
        ensures
            largest == max_count(counts@),
    {
        let mut largest: usize = 0;
        let mut i: usize = 0;
        while i < counts.len()
            invariant
                i <= counts.len(),
                largest == max_count(counts@.take(i as int)),
            decreases counts.len() - i,
        {
            assert(counts@.take(i as int + 1).drop_last() =~= counts@.take(i as int));
            if counts[i] > largest {
                largest = counts[i];
            }
            i = i + 1;
        }
        assert(counts@.take(counts.len() as int) =~= counts@);
        largest
    }
}

impl CreateSession {
    pub closed spec fn topic(&self) -> Seq<char> {
        self.topic@
    }

    pub closed spec fn partitions(&self) -> i32 {
        self.partitions
    }

    pub closed spec fn replication_factor(&self) -> i32 {
        self.replication_factor
    }

    /// The broker's answers, one per topic of the request.
    pub closed spec fn results(&self) -> Seq<Result<String, (String, RDKafkaErrorCode)>> {
        self.results@
    }

    /// The answer whose topic is being described.
    pub closed spec fn next(&self) -> int {
        self.next as int
    }

    pub closed spec fn phase(&self) -> CreatePhase {
        self.phase
    }

    /// The session's invariant: a description is awaited for an answer that
    /// says the topic already exists, and every answer before it is accepted.
    pub open spec fn wf(&self) -> bool {
        self.phase() == CreatePhase::AwaitingDescription ==> {
            &&& 0 <= self.next() < self.results().len()
            &&& already_exists(self.topic(), self.results()[self.next()])
        }
    }

    /// What the session does from answer `from` on, up to the first answer that
    /// is not a created topic: asks for a description if it says the topic
    /// exists, fails with it if it is a failure, and ends well when there is none.
    pub open spec fn scanned(&self, from: int, action: CreateAction) -> bool {
        let results = self.results();
        ||| {
            &&& forall|j: int| from <= j < results.len() ==> #[trigger] created(results[j])
            &&& self.phase() == CreatePhase::Finished
            &&& action matches CreateAction::Finish(Ok(()))
        }
        ||| exists|k: int| {
            &&& from <= k < results.len()
            &&& forall|j: int| from <= j < k ==> #[trigger] created(results[j])
            &&& !created(#[trigger] results[k])
            &&& if already_exists(self.topic(), results[k]) {
                &&& self.phase() == CreatePhase::AwaitingDescription
                &&& self.next() == k
                &&& action is Describe
            } else {
                &&& self.phase() == CreatePhase::Finished
                &&& results[k] matches Err((name, code))
                &&& action matches CreateAction::Finish(Err(e)) && is_topic_operation_error(
                    e,
                    "create"@,
                    name@,
                    code,
                )
            }
        }
    }

    fn scan(&mut self, from: usize) -> (action: CreateAction)
        requires
            from <= old(self).results().len(),
        ensures
            final(self).wf(),
            final(self).topic() == old(self).topic(),
            final(self).partitions() == old(self).partitions(),
            final(self).replication_factor() == old(self).replication_factor(),
            final(self).results() == old(self).results(),
            final(self).scanned(from as int, action),
    {
        let mut i = from;
        while i < self.results.len()
            invariant
                from <= i <= self.results.len(),
                self.topic() == old(self).topic(),
                self.partitions() == old(self).partitions(),
                self.replication_factor() == old(self).replication_factor(),
                self.results() == old(self).results(),
                forall|j: int| from <= j < i ==> #[trigger] created(self.results()[j]),
            decreases self.results.len() - i,
        {
            match TopicAdmin::create_outcome(self.topic.as_str(), &self.results[i]) {
                CreateOutcome::Created => {},
                CreateOutcome::CheckExisting => {
                    self.next = i;
                    self.phase = CreatePhase::AwaitingDescription;
                    assert(!created(self.results()[i as int]));
                    return CreateAction::Describe;
                },
                CreateOutcome::Failed(error) => {
                    self.phase = CreatePhase::Finished;
                    assert(!created(self.results()[i as int]));
                    return CreateAction::Finish(Err(error));
                },
            }
            i = i + 1;
        }
        self.phase = CreatePhase::Finished;
        CreateAction::Finish(Ok(()))
    }

    /// Whether the session is waiting for a description.
    pub fn awaits_description(&self) -> (awaiting: bool)
        ensures
            awaiting == (self.phase() == CreatePhase::AwaitingDescription),
    {
        match self.phase {
            CreatePhase::AwaitingDescription => true,
            CreatePhase::Finished => false,
        }
    }

    /// Starts going through the answers `results` to a request that creates
    /// `topic` with `partitions` partitions and `replication_factor` replicas.
    pub fn start(
        topic: &str,
        partitions: i32,
        replication_factor: i32,
        results: Vec<Result<String, (String, RDKafkaErrorCode)>>,
    ) -> (result: (Self, CreateAction))
        ensures
            result.0.wf(),
            result.0.topic() == topic@,
            result.0.partitions() == partitions,
            result.0.replication_factor() == replication_factor,
            result.0.results() == results@,
            result.0.scanned(0, result.1),
    {
        let mut session = CreateSession {
            topic: topic.to_string(),
            partitions,
            replication_factor,
            results,
            next: 0,
            phase: CreatePhase::Finished,
        };
        let action = session.scan(0);
        (session, action)
    }

    /// Takes the description of the existing topic: a description that failed
    /// ends the request with its error, one with another shape ends it with a
    /// mismatch, and one with the shape asked for lets the next answers be gone through.
    pub fn step(&mut self, described: Result<TopicDescription, KafkaAppError>) -> (action: CreateAction)
        requires
            old(self).wf(),
            old(self).phase() == CreatePhase::AwaitingDescription,
        ensures
            final(self).wf(),
            final(self).topic() == old(self).topic(),
            final(self).partitions() == old(self).partitions(),
            final(self).replication_factor() == old(self).replication_factor(),
            final(self).results() == old(self).results(),
            match described {
                Ok(d) => {
                    &&& !(d.partition_count == old(self).partitions() as usize && d.replication_factor
                        == old(self).replication_factor() as usize) ==> (action matches CreateAction::Finish(
                        Err(KafkaAppError::TopicConfigurationMismatch { actual_partitions, .. }),
                    ) && actual_partitions == d.partition_count)
                    &&& action matches CreateAction::Finish(Ok(())) ==> (d.partition_count
                        == old(self).partitions() as usize && d.replication_factor
                        == old(self).replication_factor() as usize)
                },
                Err(_) => true,
            },
            match described {
                Err(error) => {
                    &&& final(self).phase() == CreatePhase::Finished
                    &&& action == CreateAction::Finish(Err(error))
                },
                Ok(description) => if has_shape(description, old(self).partitions(), old(self).replication_factor()) {
                    final(self).scanned(old(self).next() + 1, action)
                } else {
                    &&& final(self).phase() == CreatePhase::Finished
                    &&& action matches CreateAction::Finish(Err(e)) && is_shape_mismatch(
                        e,
                        old(self).topic(),
                        old(self).partitions(),
                        old(self).replication_factor(),
                        description,
                    )
                },
            },
    {
        match described {
            Err(error) => {
                self.phase = CreatePhase::Finished;
                CreateAction::Finish(Err(error))
            },
            Ok(description) => {
                match TopicAdmin::check_existing_shape(self.topic.as_str(), self.partitions, self.replication_factor, &description) {
                    Err(error) => {
                        self.phase = CreatePhase::Finished;
                        CreateAction::Finish(Err(error))
                    },
                    Ok(()) => {
                        assert(self.next < self.results.len());
                        let from = self.next + 1;
                        self.scan(from)
                    },
                }
            },
        }
    }
}

} // verus!
