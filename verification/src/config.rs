//! Application configuration and the Kafka client configurations derived from it.

use rdkafka::config::ClientConfig;
use vstd::prelude::*;

use crate::client_config::{client_config_entries, new_client_config, set_parameter};
use crate::text::{decimal, decimal_string};

verus! {

/// Where the configuration file lives, relative to the project directory.
pub const CONFIG_PATH: &'static str = "config/app.toml";

/// Name of the environment variable that overrides the configuration path.
pub const CONFIG_ENV_VAR: &'static str = "KAFKA_BASICS_CONFIG";

#[derive(Debug, Clone)]
pub struct AppConfig {
    pub kafka: KafkaConfig,
    pub producer: ProducerConfig,
    pub consumer: ConsumerConfig,
}

#[derive(Debug, Clone)]
pub struct KafkaConfig {
    pub broker: String,
    pub topic: String,
}

#[derive(Debug, Clone)]
pub struct ProducerConfig {
    pub message_timeout_ms: u64,
    pub event_count: u32,
    pub delay_ms: u64,
}

#[derive(Debug, Clone)]
pub struct ConsumerConfig {
    pub group_id: String,
    pub auto_offset_reset: String,
    pub enable_auto_commit: bool,
}

#[verifier::external_type_specification]
#[verifier::external_body]
pub struct ExIoError(std::io::Error);

#[verifier::external_type_specification]
#[verifier::external_body]
pub struct ExTomlError(toml::de::Error);

/// Why the configuration could not be loaded.
#[derive(Debug)]
pub enum ConfigError {
    /// The file at `path` could not be read.
    Read { path: String, source: std::io::Error },
    /// The file's text is not a valid configuration.
    Parse(toml::de::Error),
}

/// The text that a boolean parameter is given: `"true"` or `"false"`.
pub open spec fn bool_text(b: bool) -> Seq<char> {
    if b {
        "true"@
    } else {
        "false"@
    }
}

/// Producers and consumers are given every parameter that all clients share,
/// unchanged: they bootstrap from the broker of the application configuration.
pub proof fn lemma_clients_extend_shared_parameters(
    config: AppConfig,
    group_id: Seq<char>,
    enable_auto_commit: bool,
)
    ensures
        config.kafka_parameters().submap_of(config.producer_parameters()),
        config.kafka_parameters().submap_of(config.consumer_parameters(group_id, enable_auto_commit)),
{
    reveal_strlit("bootstrap.servers");
    reveal_strlit("message.timeout.ms");
    reveal_strlit("group.id");
    reveal_strlit("enable.auto.commit");
    reveal_strlit("auto.offset.reset");
    assert("bootstrap.servers"@ != "message.timeout.ms"@) by {
        assert("bootstrap.servers"@[0] != "message.timeout.ms"@[0]);
    }
    assert("bootstrap.servers"@ != "group.id"@) by {
        assert("bootstrap.servers"@[0] != "group.id"@[0]);
    }
    assert("bootstrap.servers"@ != "enable.auto.commit"@) by {
        assert("bootstrap.servers"@[0] != "enable.auto.commit"@[0]);
    }
    assert("bootstrap.servers"@ != "auto.offset.reset"@) by {
        assert("bootstrap.servers"@[0] != "auto.offset.reset"@[0]);
    }
}

proof fn lemma_parameter_names_distinct()
    ensures
        "bootstrap.servers"@ != "message.timeout.ms"@,
        "bootstrap.servers"@ != "group.id"@,
        "bootstrap.servers"@ != "enable.auto.commit"@,
        "bootstrap.servers"@ != "auto.offset.reset"@,
        "group.id"@ != "enable.auto.commit"@,
        "group.id"@ != "auto.offset.reset"@,
        "enable.auto.commit"@ != "auto.offset.reset"@,
{
    reveal_strlit("bootstrap.servers");
    reveal_strlit("message.timeout.ms");
    reveal_strlit("group.id");
    reveal_strlit("enable.auto.commit");
    reveal_strlit("auto.offset.reset");
    assert("bootstrap.servers"@[0] != "message.timeout.ms"@[0]);
    assert("bootstrap.servers"@[0] != "group.id"@[0]);
    assert("bootstrap.servers"@[0] != "enable.auto.commit"@[0]);
    assert("bootstrap.servers"@[0] != "auto.offset.reset"@[0]);
    assert("group.id"@[0] != "enable.auto.commit"@[0]);
    assert("group.id"@[0] != "auto.offset.reset"@[0]);
    assert("enable.auto.commit"@[0] != "auto.offset.reset"@[0]);
}

/// What each client is given, parameter by parameter: every client bootstraps
/// from the configured broker; a producer waits the configured delivery
/// timeout, in decimal; a consumer joins the group it is asked for, commits
/// automatically exactly when asked to (`"true"` or `"false"`), and starts
/// where the configured reset policy says.
pub proof fn lemma_client_parameter_values(config: AppConfig, group_id: Seq<char>, enable_auto_commit: bool)
    ensures
        config.kafka_parameters().dom() =~= set!["bootstrap.servers"@],
        config.kafka_parameters()["bootstrap.servers"@] == config.kafka.broker@,
        config.producer_parameters().dom() =~= set!["bootstrap.servers"@, "message.timeout.ms"@],
        config.producer_parameters()["bootstrap.servers"@] == config.kafka.broker@,
        config.producer_parameters()["message.timeout.ms"@] == decimal(
            config.producer.message_timeout_ms as nat,
        ),
        config.consumer_parameters(group_id, enable_auto_commit).dom() =~= set![
            "bootstrap.servers"@,
            "group.id"@,
            "enable.auto.commit"@,
            "auto.offset.reset"@,
        ],
        config.consumer_parameters(group_id, enable_auto_commit)["bootstrap.servers"@]
            == config.kafka.broker@,
        config.consumer_parameters(group_id, enable_auto_commit)["group.id"@] == group_id,
        enable_auto_commit ==> config.consumer_parameters(group_id, enable_auto_commit)[
            "enable.auto.commit"@] == "true"@,
        !enable_auto_commit ==> config.consumer_parameters(group_id, enable_auto_commit)[
            "enable.auto.commit"@] == "false"@,
        config.consumer_parameters(group_id, enable_auto_commit)["auto.offset.reset"@]
            == config.consumer.auto_offset_reset@,
{
    lemma_parameter_names_distinct();
}

impl AppConfig {
    /// The parameters that every client of this application is given: the broker to
    /// bootstrap from.
    pub open spec fn kafka_parameters(&self) -> Map<Seq<char>, Seq<char>> {
        map!["bootstrap.servers"@ => self.kafka.broker@]
    }

    /// The parameters of a producer: those of every client, and the delivery timeout.
    pub open spec fn producer_parameters(&self) -> Map<Seq<char>, Seq<char>> {
        self.kafka_parameters().insert(
            "message.timeout.ms"@,
            decimal(self.producer.message_timeout_ms as nat),
        )
    }

    /// The parameters of a consumer in group `group_id`: those of every client, the
    /// group, whether offsets are committed automatically, and where a group without
    /// a committed offset starts.
    pub open spec fn consumer_parameters(
        &self,
        group_id: Seq<char>,
        enable_auto_commit: bool,
    ) -> Map<Seq<char>, Seq<char>> {
        self.kafka_parameters().insert("group.id"@, group_id).insert(
            "enable.auto.commit"@,
            bool_text(enable_auto_commit),
        ).insert("auto.offset.reset"@, self.consumer.auto_offset_reset@)
    }

    /// The configuration shared by every Kafka client.
    pub fn kafka_client_config(&self) -> (config: ClientConfig)
        ensures
            client_config_entries(config) == self.kafka_parameters(),
            client_config_entries(config)["bootstrap.servers"@] == self.kafka.broker@,
    {
        let mut config = new_client_config();
        set_parameter(&mut config, "bootstrap.servers", self.kafka.broker.as_str());
        config
    }

    /// The configuration of a producer.
    pub fn producer_client_config(&self) -> (config: ClientConfig)
        ensures
            client_config_entries(config) == self.producer_parameters(),
            client_config_entries(config)["bootstrap.servers"@] == self.kafka.broker@,
            client_config_entries(config)["message.timeout.ms"@] == decimal(
                self.producer.message_timeout_ms as nat,
            ),
    {
        proof {
            lemma_parameter_names_distinct();
        }
        let message_timeout_ms = decimal_string(self.producer.message_timeout_ms);
        let mut config = self.kafka_client_config();
        set_parameter(&mut config, "message.timeout.ms", message_timeout_ms.as_str());
        config
    }

    /// The configuration of a consumer in group `group_id`.
    pub fn consumer_client_config(&self, group_id: &str, enable_auto_commit: bool) -> (config:
        ClientConfig)
        ensures
            client_config_entries(config) == self.consumer_parameters(group_id@, enable_auto_commit),
            client_config_entries(config)["bootstrap.servers"@] == self.kafka.broker@,
            client_config_entries(config)["group.id"@] == group_id@,
            enable_auto_commit ==> client_config_entries(config)["enable.auto.commit"@] == "true"@,
            !enable_auto_commit ==> client_config_entries(config)["enable.auto.commit"@] == "false"@,
            client_config_entries(config)["auto.offset.reset"@] == self.consumer.auto_offset_reset@,
    {
        proof {
            lemma_parameter_names_distinct();
        }
        let enable_auto_commit_text = if enable_auto_commit {
            "true"
        } else {
            "false"
        };
        let mut config = self.kafka_client_config();
        set_parameter(&mut config, "group.id", group_id);
        set_parameter(&mut config, "enable.auto.commit", enable_auto_commit_text);
        set_parameter(&mut config, "auto.offset.reset", self.consumer.auto_offset_reset.as_str());
        config
    }
}

} // verus!
