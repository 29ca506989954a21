//! The choice of the log output format.

use vstd::prelude::*;

use crate::error::KafkaAppError;

verus! {

/// Name of the environment variable that selects the log format.
pub const LOG_FORMAT_ENV_VAR: &'static str = "KAFKA_BASICS_LOG_FORMAT";

/// The log filter used when the environment sets none.
pub const DEFAULT_LOG_FILTER: &'static str = "info,rdkafka=warn";

/// How log lines are written.
#[derive(Debug, Clone, Copy, PartialEq, Eq, Structural)]
pub enum LogFormat {
    Compact,
    Json,
}

/// The log format for the format name `requested`: `compact` when none is
/// requested, `compact` and `json` by name, and any other name refused.
pub fn log_format(requested: Option<String>) -> (format: Result<LogFormat, KafkaAppError>)
    ensures
        match requested {
            None => format == Ok::<LogFormat, KafkaAppError>(LogFormat::Compact),
            Some(name) => if name@ == "compact"@ {
                format == Ok::<LogFormat, KafkaAppError>(LogFormat::Compact)
            } else if name@ == "json"@ {
                format == Ok::<LogFormat, KafkaAppError>(LogFormat::Json)
            } else {
                format matches Err(KafkaAppError::InvalidLogFormat(n)) && n@ == name@
            },
        },
{
    match requested {
        None => Ok(LogFormat::Compact),
        Some(name) => {
            if name == "compact".to_string() {
                Ok(LogFormat::Compact)
            } else if name == "json".to_string() {
                Ok(LogFormat::Json)
            } else {
                Err(KafkaAppError::InvalidLogFormat(name))
            }
        },
    }
}

} // verus!
