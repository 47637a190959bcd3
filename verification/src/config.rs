//! Configuration of the binary-port proxy collaborator: connection limits
//! and the exponential backoff policy its supervisor applies between
//! reconnect attempts.
use vstd::prelude::*;

verus! {

/// Default address to connect to the node.
pub const DEFAULT_NODE_CONNECT_ADDRESS: &'static str = "127.0.0.1:28104";

/// Default maximum payload size.
pub const DEFAULT_MAX_PAYLOAD_SIZE: u32 = 4 * 1024 * 1024;

/// Default message timeout in seconds.
pub const DEFAULT_MESSAGE_TIMEOUT_SECS: u64 = 30;

/// Default timeout for client access.
pub const DEFAULT_CLIENT_ACCESS_TIMEOUT_SECS: u64 = 10;

/// Default request limit.
pub const DEFAULT_NODE_REQUEST_LIMIT: u16 = 3;

/// Default request buffer size.
pub const DEFAULT_REQUEST_BUFFER_SIZE: usize = 16;

/// Default exponential backoff base delay.
pub const DEFAULT_EXPONENTIAL_BACKOFF_BASE_MS: u64 = 1000;

/// Default exponential backoff maximum delay.
pub const DEFAULT_EXPONENTIAL_BACKOFF_MAX_MS: u64 = 64_000;

/// Default exponential backoff coefficient.
pub const DEFAULT_EXPONENTIAL_BACKOFF_COEFFICIENT: u64 = 2;

/// Cap on reconnect attempts: unbounded, or at most the given count.
#[derive(Clone, Copy, Debug, PartialEq, Eq, Structural)]
pub enum MaxAttempts {
    Infinite,
    Finite(usize),
}

impl MaxAttempts {
    /// Whether attempt number `current_attempt` is still within the cap.
    pub open spec fn spec_can_attempt(self, current_attempt: usize) -> bool {
        match self {
            MaxAttempts::Infinite => true,
            MaxAttempts::Finite(max_attempts) => max_attempts >= current_attempt,
        }
    }

    /// Whether attempt number `current_attempt` may still be made.
    pub fn can_attempt(&self, current_attempt: usize) -> (r: bool)
        ensures
            r == self.spec_can_attempt(current_attempt),
    {
        match self {
            MaxAttempts::Infinite => true,
            MaxAttempts::Finite(max_attempts) => *max_attempts >= current_attempt,
        }
    }
}

/// Exponential backoff policy for reconnects: start at the initial delay,
/// scale by the coefficient after each consecutive failure, never exceed
/// the maximum delay, and stop once the attempt cap is exhausted. A
/// successful reconnect resets the delay to the initial one.
#[derive(Clone, Copy, Debug, PartialEq, Eq, Structural)]
pub struct ExponentialBackoffConfig {
    /// Initial wait before the first reconnect attempt, in milliseconds.
    pub initial_delay_ms: u64,
    /// Maximum wait between reconnect attempts, in milliseconds.
    pub max_delay_ms: u64,
    /// Multiplier applied to the previous delay to get the next one.
    pub coefficient: u64,
    /// Maximum number of connection attempts.
    pub max_attempts: MaxAttempts,
}

impl ExponentialBackoffConfig {
    /// The delay following `current_delay_ms`: scaled by the coefficient
    /// and capped at the maximum delay.
    pub open spec fn spec_next_delay(self, current_delay_ms: u64) -> u64 {
        if current_delay_ms * self.coefficient <= self.max_delay_ms {
            (current_delay_ms * self.coefficient) as u64
        } else {
            self.max_delay_ms
        }
    }

    /// Computes the delay to wait after one more consecutive failure.
    pub fn next_delay_ms(&self, current_delay_ms: u64) -> (d: u64)
        ensures
            d == self.spec_next_delay(current_delay_ms),
    {
        match current_delay_ms.checked_mul(self.coefficient) {
            Some(scaled) => if scaled <= self.max_delay_ms {
                scaled
            } else {
                self.max_delay_ms
            },
            None => self.max_delay_ms,
        }
    }

    /// The supervisor's retry decision after a failure: `Some` with the
    /// next delay while the attempt cap allows another try, `None` once
    /// the failure is terminal.
    pub fn retry_decision(&self, current_attempt: usize, current_delay_ms: u64) -> (r: Option<
        u64,
    >)
        ensures
            r == if self.max_attempts.spec_can_attempt(current_attempt) {
                Some(self.spec_next_delay(current_delay_ms))
            } else {
                None::<u64>
            },
    {
        if self.max_attempts.can_attempt(current_attempt) {
            Some(self.next_delay_ms(current_delay_ms))
        } else {
            None
        }
    }
}

impl Default for ExponentialBackoffConfig {
    /// The default policy: one second doubling up to one minute and four
    /// seconds, with no cap on attempts.
    fn default() -> (c: Self)
        ensures
            c == (ExponentialBackoffConfig {
                initial_delay_ms: DEFAULT_EXPONENTIAL_BACKOFF_BASE_MS,
                max_delay_ms: DEFAULT_EXPONENTIAL_BACKOFF_MAX_MS,
                coefficient: DEFAULT_EXPONENTIAL_BACKOFF_COEFFICIENT,
                max_attempts: MaxAttempts::Infinite,
            }),
    {
        ExponentialBackoffConfig {
            initial_delay_ms: DEFAULT_EXPONENTIAL_BACKOFF_BASE_MS,
            max_delay_ms: DEFAULT_EXPONENTIAL_BACKOFF_MAX_MS,
            coefficient: DEFAULT_EXPONENTIAL_BACKOFF_COEFFICIENT,
            max_attempts: MaxAttempts::Infinite,
        }
    }
}

/// Configuration of the binary-port proxy: where the node listens, the
/// message and buffering limits, and the backoff policy for reconnects.
#[derive(Clone, Debug, PartialEq, Eq)]
pub struct ProxyConfig {
    /// Address of the node, as `host:port` text.
    pub address: String,
    /// Maximum size of a message in bytes.
    pub max_message_size_bytes: u32,
    /// Message transfer timeout in seconds.
    pub message_timeout_secs: u64,
    /// How long to wait for the binary-port client to become available.
    pub client_access_timeout_secs: u64,
    /// Maximum number of in-flight node requests.
    pub request_limit: u16,
    /// Number of node requests that can be buffered.
    pub request_buffer_size: usize,
    /// Backoff policy for reconnects.
    pub exponential_backoff: ExponentialBackoffConfig,
}

impl Default for ProxyConfig {
    /// The default configuration: the local node address and the default
    /// limits and backoff.
    fn default() -> (c: Self)
        ensures
            c.address@ == DEFAULT_NODE_CONNECT_ADDRESS@,
            c.max_message_size_bytes == DEFAULT_MAX_PAYLOAD_SIZE,
            c.message_timeout_secs == DEFAULT_MESSAGE_TIMEOUT_SECS,
            c.client_access_timeout_secs == DEFAULT_CLIENT_ACCESS_TIMEOUT_SECS,
            c.request_limit == DEFAULT_NODE_REQUEST_LIMIT,
            c.request_buffer_size == DEFAULT_REQUEST_BUFFER_SIZE,
            c.exponential_backoff == (ExponentialBackoffConfig {
                initial_delay_ms: DEFAULT_EXPONENTIAL_BACKOFF_BASE_MS,
                max_delay_ms: DEFAULT_EXPONENTIAL_BACKOFF_MAX_MS,
                coefficient: DEFAULT_EXPONENTIAL_BACKOFF_COEFFICIENT,
                max_attempts: MaxAttempts::Infinite,
            }),
    {
        ProxyConfig {
            address: DEFAULT_NODE_CONNECT_ADDRESS.to_owned(),
            max_message_size_bytes: DEFAULT_MAX_PAYLOAD_SIZE,
            message_timeout_secs: DEFAULT_MESSAGE_TIMEOUT_SECS,
            client_access_timeout_secs: DEFAULT_CLIENT_ACCESS_TIMEOUT_SECS,
            request_limit: DEFAULT_NODE_REQUEST_LIMIT,
            request_buffer_size: DEFAULT_REQUEST_BUFFER_SIZE,
            exponential_backoff: ExponentialBackoffConfig {
                initial_delay_ms: DEFAULT_EXPONENTIAL_BACKOFF_BASE_MS,
                max_delay_ms: DEFAULT_EXPONENTIAL_BACKOFF_MAX_MS,
                coefficient: DEFAULT_EXPONENTIAL_BACKOFF_COEFFICIENT,
                max_attempts: MaxAttempts::Infinite,
            },
        }
    }
}

} // verus!
