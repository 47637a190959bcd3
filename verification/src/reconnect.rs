//! Reconnect policy of the SSE proxy: an immutable configuration value,
//! built once — directly or through the chained builder — and consumed
//! read-only by the layer that supervises reconnects.
use vstd::prelude::*;

verus! {

/// Default factor by which delays between reconnect attempts grow.
pub const DEFAULT_BACKOFF_FACTOR: u32 = 2;

/// Default delay before a reconnect attempt, in milliseconds.
pub const DEFAULT_DELAY_ON_RETRY_MS: u64 = 2000;

/// Default maximum delay between reconnects, in milliseconds.
pub const DEFAULT_MAX_DELAY_BETWEEN_RECONNECTS_MS: u64 = 60_000;

/// Default URL: the events endpoint of node one in a local network.
pub const DEFAULT_SSE_URL: &'static str = "http://localhost:14101/events";

/// Reconnect policy and endpoint of the SSE proxy. Pure value object: no
/// hidden mutable state; the supervising layer reads it to decide whether
/// and when to reconnect.
#[derive(Clone, Debug, PartialEq, Eq)]
pub struct ProxyConfig {
    /// Factor by which delays between reconnect attempts grow.
    pub backoff_factor: u32,
    /// Delay to wait before trying to reconnect, in milliseconds.
    pub delay_on_retry_ms: u64,
    /// Maximum delay between reconnects, in milliseconds.
    pub max_delay_between_reconnects_ms: u64,
    /// Whether to reconnect after a stream error.
    pub reconnect_on_error: bool,
    /// Whether to retry when the initial server connection fails.
    pub retry_initial_connection: bool,
    /// URL of the remote SSE server.
    pub url: String,
}

impl ProxyConfig {
    /// The default policy pointed at the given URL.
    pub fn new(url: String) -> (c: ProxyConfig)
        ensures
            c.backoff_factor == DEFAULT_BACKOFF_FACTOR,
            c.delay_on_retry_ms == DEFAULT_DELAY_ON_RETRY_MS,
            c.max_delay_between_reconnects_ms == DEFAULT_MAX_DELAY_BETWEEN_RECONNECTS_MS,
            c.reconnect_on_error,
            c.retry_initial_connection,
            c.url == url,
    {
        ProxyConfig {
            backoff_factor: DEFAULT_BACKOFF_FACTOR,
            delay_on_retry_ms: DEFAULT_DELAY_ON_RETRY_MS,
            max_delay_between_reconnects_ms: DEFAULT_MAX_DELAY_BETWEEN_RECONNECTS_MS,
            reconnect_on_error: true,
            retry_initial_connection: true,
            url,
        }
    }

    /// The delay following `current_delay_ms` after one more consecutive
    /// failure: scaled by the backoff factor, capped at the maximum.
    pub open spec fn spec_next_delay(self, current_delay_ms: u64) -> u64 {
        if current_delay_ms * self.backoff_factor <= self.max_delay_between_reconnects_ms {
            (current_delay_ms * self.backoff_factor) as u64
        } else {
            self.max_delay_between_reconnects_ms
        }
    }

    /// Computes the next reconnect delay; a successful reconnect resets
    /// the supervisor's delay to `delay_on_retry_ms`.
    pub fn next_delay_ms(&self, current_delay_ms: u64) -> (d: u64)
        ensures
            d == self.spec_next_delay(current_delay_ms),
    {
        match current_delay_ms.checked_mul(self.backoff_factor as u64) {
            Some(scaled) => if scaled <= self.max_delay_between_reconnects_ms {
                scaled
            } else {
                self.max_delay_between_reconnects_ms
            },
            None => self.max_delay_between_reconnects_ms,
        }
    }

    /// Whether a failure in the given phase is retried at all under this
    /// policy: stream errors go by `reconnect_on_error`, a failed first
    /// connection by `retry_initial_connection`.
    pub fn should_retry(&self, during_initial_connection: bool) -> (r: bool)
        ensures
            r == if during_initial_connection {
                self.retry_initial_connection
            } else {
                self.reconnect_on_error
            },
    {
        if during_initial_connection {
            self.retry_initial_connection
        } else {
            self.reconnect_on_error
        }
    }
}

impl Default for ProxyConfig {
    /// The default policy, pointed at node one of a local network.
    fn default() -> (c: Self)
        ensures
            c.backoff_factor == DEFAULT_BACKOFF_FACTOR,
            c.delay_on_retry_ms == DEFAULT_DELAY_ON_RETRY_MS,
            c.max_delay_between_reconnects_ms == DEFAULT_MAX_DELAY_BETWEEN_RECONNECTS_MS,
            c.reconnect_on_error,
            c.retry_initial_connection,
            c.url@ == DEFAULT_SSE_URL@,
    {
        ProxyConfig::new(DEFAULT_SSE_URL.to_owned())
    }
}

/// Chained builder for `ProxyConfig`: each setter replaces one field, and
/// `build` hands the finished value out.
pub struct ProxyConfigBuilder {
    cfg: ProxyConfig,
}

impl ProxyConfigBuilder {
    /// The configuration built so far.
    pub closed spec fn cfg_spec(&self) -> ProxyConfig {
        self.cfg
    }

    /// Starts from the default configuration.
    pub fn new() -> (b: ProxyConfigBuilder)
        ensures
            b.cfg_spec().backoff_factor == DEFAULT_BACKOFF_FACTOR,
            b.cfg_spec().delay_on_retry_ms == DEFAULT_DELAY_ON_RETRY_MS,
            b.cfg_spec().max_delay_between_reconnects_ms
                == DEFAULT_MAX_DELAY_BETWEEN_RECONNECTS_MS,
            b.cfg_spec().reconnect_on_error,
            b.cfg_spec().retry_initial_connection,
            b.cfg_spec().url@ == DEFAULT_SSE_URL@,
    {
        ProxyConfigBuilder { cfg: ProxyConfig::default() }
    }

    /// Sets the factor by which delays between reconnect attempts grow.
    pub fn backoff_factor(self, value: u32) -> (b: ProxyConfigBuilder)
        ensures
            b.cfg_spec() == (ProxyConfig { backoff_factor: value, ..self.cfg_spec() }),
    {
        let mut cfg = self.cfg;
        cfg.backoff_factor = value;
        ProxyConfigBuilder { cfg }
    }

    /// Sets the delay to wait before trying to reconnect.
    pub fn delay_on_retry(self, value_ms: u64) -> (b: ProxyConfigBuilder)
        ensures
            b.cfg_spec() == (ProxyConfig { delay_on_retry_ms: value_ms, ..self.cfg_spec() }),
    {
        let mut cfg = self.cfg;
        cfg.delay_on_retry_ms = value_ms;
        ProxyConfigBuilder { cfg }
    }

    /// Sets the maximum delay between reconnects.
    pub fn max_delay_between_reconnects(self, value_ms: u64) -> (b: ProxyConfigBuilder)
        ensures
            b.cfg_spec() == (ProxyConfig {
                max_delay_between_reconnects_ms: value_ms,
                ..self.cfg_spec()
            }),
    {
        let mut cfg = self.cfg;
        cfg.max_delay_between_reconnects_ms = value_ms;
        ProxyConfigBuilder { cfg }
    }

    /// Enables or disables reconnection on stream error.
    pub fn reconnect_on_error(self, value: bool) -> (b: ProxyConfigBuilder)
        ensures
            b.cfg_spec() == (ProxyConfig { reconnect_on_error: value, ..self.cfg_spec() }),
    {
        let mut cfg = self.cfg;
        cfg.reconnect_on_error = value;
        ProxyConfigBuilder { cfg }
    }

    /// Enables or disables retrying a failed initial connection.
    pub fn retry_initial_connection(self, value: bool) -> (b: ProxyConfigBuilder)
        ensures
            b.cfg_spec() == (ProxyConfig { retry_initial_connection: value, ..self.cfg_spec() }),
    {
        let mut cfg = self.cfg;
        cfg.retry_initial_connection = value;
        ProxyConfigBuilder { cfg }
    }

    /// Finishes building and hands the configuration out.
    pub fn build(self) -> (c: ProxyConfig)
        ensures
            c == self.cfg_spec(),
    {
        self.cfg
    }
}

} // verus!
