//! The librdkafka client configuration, seen as the map of the parameters
//! that were set on it.

use rdkafka::config::ClientConfig;
use vstd::prelude::*;

verus! {

#[verifier::external_type_specification]
#[verifier::external_body]
pub struct ExClientConfig(ClientConfig);

/// The parameters set on a client configuration, by name. The log level that
/// `ClientConfig` also carries is not part of it.
pub uninterp spec fn client_config_entries(config: ClientConfig) -> Map<Seq<char>, Seq<char>>;

/// `ClientConfig::new`: a configuration with no parameter set. (Its log level
/// is taken from the `log` crate's global level; nothing here depends on it.)
#[verifier::external_body]
pub(crate) fn new_client_config() -> (config: ClientConfig)
    ensures
        client_config_entries(config).is_empty(),
{
    ClientConfig::new()
}

/// `ClientConfig::set`: stores `value` under `key`, replacing any earlier
/// value of `key`, and leaves the other parameters as they were.
#[verifier::external_body]
pub(crate) fn set_parameter(config: &mut ClientConfig, key: &str, value: &str)
    ensures
        client_config_entries(*final(config)) == client_config_entries(*old(config)).insert(
            key@,
            value@,
        ),
{
    config.set(key, value);
}

} // verus!
