//! The health monitor of a connection: it pings at an interval, counts the
//! pings that went unanswered, and asks for a reconnection when too many in
//! a row did.
use vstd::prelude::*;
use crate::text::{append_str, from_chars, push_signed_decimal, signed_decimal};

verus! {

/// How a connection's health is checked.
#[derive(Debug, Clone, Copy, PartialEq, Eq)]
pub struct PingConfig {
    /// Interval between pings in milliseconds.
    pub interval_ms: u64,
    /// Timeout for a ping's response in milliseconds.
    pub timeout_ms: u64,
    /// Number of consecutive failures before the connection is considered dead.
    pub failure_threshold: u32,
}

impl Default for PingConfig {
    fn default() -> (c: Self)
        ensures
            c.interval_ms == 30000,
            c.timeout_ms == 5000,
            c.failure_threshold == 3,
    {
        PingConfig { interval_ms: 30000, timeout_ms: 5000, failure_threshold: 3 }
    }
}

/// What became of a ping.
#[derive(Debug, Clone, Copy, PartialEq, Eq, Structural)]
pub enum PingOutcome {
    /// The response came in time.
    Pong,
    /// No response came in time.
    Timeout,
    /// The ping could not be sent.
    SendFailed,
}

/// The failure count after a ping and whether a reconnection is asked for:
/// a response resets the count; a timeout or a failed send counts, and at
/// the threshold asks for a reconnection and starts counting again.
pub open spec fn ping_step(failures: nat, outcome: PingOutcome, threshold: nat) -> (nat, bool) {
    match outcome {
        PingOutcome::Pong => (0, false),
        _ => if failures + 1 >= threshold { (0, true) } else { (failures + 1, false) },
    }
}

/// The failure count after `n` timeouts in a row from `failures`, and
/// whether the last one asked for a reconnection.
pub open spec fn after_timeouts(failures: nat, n: nat, threshold: nat) -> (nat, bool)
    decreases n,
{
    if n == 0 {
        (failures, false)
    } else {
        let prev = after_timeouts(failures, (n - 1) as nat, threshold);
        ping_step(prev.0, PingOutcome::Timeout, threshold)
    }
}

/// From a healthy connection, a reconnection is asked for exactly at the
/// `threshold`-th timeout in a row, and not before.
pub proof fn lemma_reconnect_at_threshold(threshold: nat, n: nat)
    requires
        threshold >= 1,
        1 <= n <= threshold,
    ensures
        after_timeouts(0, n, threshold).1 == (n == threshold),
        n < threshold ==> after_timeouts(0, n, threshold).0 == n,
    decreases n,
{
    let prev = after_timeouts(0, (n - 1) as nat, threshold);
    if n > 1 {
        lemma_reconnect_at_threshold(threshold, (n - 1) as nat);
        assert(prev.0 == n - 1);
    } else {
        assert(prev == (0nat, false));
    }
    assert(after_timeouts(0, n, threshold) == ping_step(prev.0, PingOutcome::Timeout, threshold));
}

/// The health of a connection: the pings that went unanswered in a row.
#[derive(Debug, Clone, Copy)]
pub struct ConnectionHealth {
    consecutive_failures: u32,
    config: PingConfig,
}

impl ConnectionHealth {
    /// The failures counted so far.
    pub closed spec fn failures(&self) -> nat {
        self.consecutive_failures as nat
    }

    /// The configuration.
    pub closed spec fn config(&self) -> PingConfig {
        self.config
    }

    /// A healthy connection under `config`.
    pub fn new(config: PingConfig) -> (h: Self)
        ensures
            h.failures() == 0,
            h.config() == config,
    {
        ConnectionHealth { consecutive_failures: 0, config }
    }

    /// The failures counted so far.
    pub fn consecutive_failures(&self) -> (n: u32)
        ensures
            n == self.failures(),
    {
        self.consecutive_failures
    }

    /// Counts a ping's outcome and tells whether to reconnect.
    pub fn on_ping_outcome(&mut self, outcome: PingOutcome) -> (reconnect: bool)
        requires
            outcome != PingOutcome::Pong ==> old(self).failures() < u32::MAX,
        ensures
            final(self).config() == old(self).config(),
            (final(self).failures(), reconnect)
                == ping_step(old(self).failures(), outcome, old(self).config().failure_threshold as nat),
    {
        match outcome {
            PingOutcome::Pong => {
                self.consecutive_failures = 0;
                false
            },
            _ => {
                self.consecutive_failures = self.consecutive_failures + 1;
                if self.consecutive_failures >= self.config.failure_threshold {
                    self.consecutive_failures = 0;
                    true
                } else {
                    false
                }
            },
        }
    }
}

/// The text of a ping request with this id, its members in the order
/// `serde_json` writes an object's keys.
pub open spec fn ping_request_text(id: int) -> Seq<char> {
    "{\"id\":"@ + signed_decimal(id) + ",\"jsonrpc\":\"2.0\",\"method\":\"ping\",\"params\":{}}"@
}

/// A ping request: `{"id":<id>,"jsonrpc":"2.0","method":"ping","params":{}}`.
pub fn ping_request(id: i64) -> (s: String)
    ensures
        s@ == ping_request_text(id as int),
{
    let mut out: Vec<char> = Vec::new();
    append_str(&mut out, "{\"id\":");
    push_signed_decimal(&mut out, id);
    append_str(&mut out, ",\"jsonrpc\":\"2.0\",\"method\":\"ping\",\"params\":{}}");
    from_chars(&out)
}

} // verus!
