//! The validated startup configuration: sink coordinates, input source and
//! the numbers that drive batching, pacing and retries. Reading the process
//! environment happens outside; validation happens here, once, before any
//! input is read, and a missing or unusable setting is fatal.

use vstd::prelude::*;
use crate::dispatch::RetryPolicy;
use crate::text::{spec_parse_u64, parse_u64};

verus! {

/// The validated, process-wide, read-only startup parameters.
#[derive(Debug)]
pub struct Config {
    pub influxdb_url: String,
    pub influxdb_token: String,
    pub influxdb_org: String,
    pub influxdb_bucket: String,
    pub goflow2_input_file: String,
    pub batch_size: usize,
    pub flush_interval_seconds: u64,
    pub retry_attempts: u32,
    pub retry_delay_ms: u64,
}

/// Which setting made startup fail.
#[derive(Debug)]
pub enum ConfigError {
    MissingUrl,
    MissingToken,
    MissingOrg,
    MissingBucket,
    InvalidBatchSize,
    InvalidFlushInterval,
    InvalidRetryAttempts,
    InvalidRetryDelay,
}

/// An absent batch-size setting falls back to the default; a present one
/// must be a decimal count between one and the machine word.
pub open spec fn spec_valid_batch(o: Option<String>) -> bool {
    match o {
        None => true,
        Some(s) => match spec_parse_u64(s@) {
            Some(v) => 1 <= v <= usize::MAX as u64,
            None => false,
        },
    }
}

pub open spec fn spec_batch_of(o: Option<String>) -> u64 {
    match o {
        None => 100,
        Some(s) => match spec_parse_u64(s@) {
            Some(v) => v,
            None => 0,
        },
    }
}

/// The pacing interval must leave its millisecond form within a `u64`.
pub open spec fn spec_valid_flush(o: Option<String>) -> bool {
    match o {
        None => true,
        Some(s) => match spec_parse_u64(s@) {
            Some(v) => v <= u64::MAX / 1000,
            None => false,
        },
    }
}

pub open spec fn spec_flush_of(o: Option<String>) -> u64 {
    match o {
        None => 10,
        Some(s) => match spec_parse_u64(s@) {
            Some(v) => v,
            None => 0,
        },
    }
}

/// At least one attempt, and a count that fits the attempt counter.
pub open spec fn spec_valid_attempts(o: Option<String>) -> bool {
    match o {
        None => true,
        Some(s) => match spec_parse_u64(s@) {
            Some(v) => 1 <= v <= u32::MAX as u64,
            None => false,
        },
    }
}

pub open spec fn spec_attempts_of(o: Option<String>) -> u64 {
    match o {
        None => 3,
        Some(s) => match spec_parse_u64(s@) {
            Some(v) => v,
            None => 0,
        },
    }
}

pub open spec fn spec_valid_delay(o: Option<String>) -> bool {
    match o {
        None => true,
        Some(s) => spec_parse_u64(s@) is Some,
    }
}

pub open spec fn spec_delay_of(o: Option<String>) -> u64 {
    match o {
        None => 1000,
        Some(s) => match spec_parse_u64(s@) {
            Some(v) => v,
            None => 0,
        },
    }
}

impl Config {
    /// What validation guarantees: a positive batch capacity, at least one
    /// retry attempt, and a pacing interval whose millisecond form fits.
    pub open spec fn wf(&self) -> bool {
        self.batch_size >= 1 && self.retry_attempts >= 1 && self.flush_interval_seconds
            <= u64::MAX / 1000
    }

    /// The retry policy this configuration sets.
    pub fn retry_policy(&self) -> (p: RetryPolicy)
        requires
            self.wf(),
        ensures
            p.wf(),
            p.attempts == self.retry_attempts,
            p.delay_ms == self.retry_delay_ms,
    {
        RetryPolicy { attempts: self.retry_attempts, delay_ms: self.retry_delay_ms }
    }

    /// The pacing delay after a flush, in milliseconds.
    pub fn pacing_ms(&self) -> (ms: u64)
        requires
            self.wf(),
        ensures
            ms == self.flush_interval_seconds * 1000,
    {
        proof {
            assert(self.flush_interval_seconds * 1000 <= (u64::MAX / 1000) * 1000) by (nonlinear_arith)
                requires
                    self.flush_interval_seconds <= u64::MAX / 1000,
            ;
        }
        self.flush_interval_seconds * 1000
    }
}

/// Builds the configuration from raw settings, each as the environment
/// offered it. The four sink settings are required; the rest fall back to
/// their defaults. Each error names the first setting, in this order, that
/// was missing or unusable.
pub fn build_config(
    url: Option<String>,
    token: Option<String>,
    org: Option<String>,
    bucket: Option<String>,
    input_file: Option<String>,
    batch_size: Option<String>,
    flush_interval_seconds: Option<String>,
    retry_attempts: Option<String>,
    retry_delay_ms: Option<String>,
) -> (r: Result<Config, ConfigError>)
    ensures
        (r matches Err(ConfigError::MissingUrl)) <==> url is None,
        (r matches Err(ConfigError::MissingToken)) <==> (url is Some && token is None),
        (r matches Err(ConfigError::MissingOrg)) <==> (url is Some && token is Some && org
            is None),
        (r matches Err(ConfigError::MissingBucket)) <==> (url is Some && token is Some && org
            is Some && bucket is None),
        (r matches Err(ConfigError::InvalidBatchSize)) <==> (url is Some && token is Some
            && org is Some && bucket is Some && !spec_valid_batch(batch_size)),
        (r matches Err(ConfigError::InvalidFlushInterval)) <==> (url is Some && token is Some
            && org is Some && bucket is Some && spec_valid_batch(batch_size)
            && !spec_valid_flush(flush_interval_seconds)),
        (r matches Err(ConfigError::InvalidRetryAttempts)) <==> (url is Some && token is Some
            && org is Some && bucket is Some && spec_valid_batch(batch_size)
            && spec_valid_flush(flush_interval_seconds) && !spec_valid_attempts(
            retry_attempts,
        )),
        (r matches Err(ConfigError::InvalidRetryDelay)) <==> (url is Some && token is Some
            && org is Some && bucket is Some && spec_valid_batch(batch_size)
            && spec_valid_flush(flush_interval_seconds) && spec_valid_attempts(retry_attempts)
            && !spec_valid_delay(retry_delay_ms)),
        (r is Ok) <==> (url is Some && token is Some && org is Some && bucket is Some
            && spec_valid_batch(batch_size) && spec_valid_flush(flush_interval_seconds)
            && spec_valid_attempts(retry_attempts) && spec_valid_delay(retry_delay_ms)),
        (match r {
            Ok(c) => {
                &&& (match url {
                    Some(u) => c.influxdb_url@ == u@,
                    None => false,
                })
                &&& (match token {
                    Some(t) => c.influxdb_token@ == t@,
                    None => false,
                })
                &&& (match org {
                    Some(o) => c.influxdb_org@ == o@,
                    None => false,
                })
                &&& (match bucket {
                    Some(b) => c.influxdb_bucket@ == b@,
                    None => false,
                })
                &&& (match input_file {
                    Some(f) => c.goflow2_input_file@ == f@,
                    None => c.goflow2_input_file@ == "/dev/stdin"@,
                })
                &&& c.batch_size as u64 == spec_batch_of(batch_size)
                &&& c.flush_interval_seconds == spec_flush_of(flush_interval_seconds)
                &&& c.retry_attempts as u64 == spec_attempts_of(retry_attempts)
                &&& c.retry_delay_ms == spec_delay_of(retry_delay_ms)
                &&& c.wf()
            },
            Err(_) => true,
        }),
{
    let influxdb_url = match url {
        Some(s) => s,
        None => {
            return Err(ConfigError::MissingUrl);
        },
    };
    let influxdb_token = match token {
        Some(s) => s,
        None => {
            return Err(ConfigError::MissingToken);
        },
    };
    let influxdb_org = match org {
        Some(s) => s,
        None => {
            return Err(ConfigError::MissingOrg);
        },
    };
    let influxdb_bucket = match bucket {
        Some(s) => s,
        None => {
            return Err(ConfigError::MissingBucket);
        },
    };
    let goflow2_input_file = match input_file {
        Some(s) => s,
        None => "/dev/stdin".to_owned(),
    };
    let batch_u64: u64 = match batch_size {
        None => 100,
        Some(s) => match parse_u64(s.as_str()) {
            Some(v) => {
                if v < 1 || v > usize::MAX as u64 {
                    return Err(ConfigError::InvalidBatchSize);
                }
                v
            },
            None => {
                return Err(ConfigError::InvalidBatchSize);
            },
        },
    };
    let flush_interval_seconds: u64 = match flush_interval_seconds {
        None => 10,
        Some(s) => match parse_u64(s.as_str()) {
            Some(v) => {
                if v > u64::MAX / 1000 {
                    return Err(ConfigError::InvalidFlushInterval);
                }
                v
            },
            None => {
                return Err(ConfigError::InvalidFlushInterval);
            },
        },
    };
    let attempts_u64: u64 = match retry_attempts {
        None => 3,
        Some(s) => match parse_u64(s.as_str()) {
            Some(v) => {
                if v < 1 || v > u32::MAX as u64 {
                    return Err(ConfigError::InvalidRetryAttempts);
                }
                v
            },
            None => {
                return Err(ConfigError::InvalidRetryAttempts);
            },
        },
    };
    let retry_delay_ms: u64 = match retry_delay_ms {
        None => 1000,
        Some(s) => match parse_u64(s.as_str()) {
            Some(v) => v,
            None => {
                return Err(ConfigError::InvalidRetryDelay);
            },
        },
    };
    Ok(
        Config {
            influxdb_url,
            influxdb_token,
            influxdb_org,
            influxdb_bucket,
            goflow2_input_file,
            batch_size: batch_u64 as usize,
            flush_interval_seconds,
            retry_attempts: attempts_u64 as u32,
            retry_delay_ms,
        },
    )
}

} // verus!
