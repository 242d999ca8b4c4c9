//! The readiness prober, modelled as a decision function over wall-clock
//! milliseconds.  The surrounding application performs the HTTP requests and
//! the suspensions; the decision taken after each probe is verified here.

use vstd::prelude::*;
use crate::text::strip_trailing_slashes;
use crate::text::strip_trailing_slashes_str;
use crate::urls::BaseUrl;

verus! {

/// The default total health-check deadline, in milliseconds.
pub const DEFAULT_HEALTH_TIMEOUT_MS: u64 = 20000;

/// The default pause between health-check probes, in milliseconds.
pub const DEFAULT_HEALTH_POLL_INTERVAL_MS: u64 = 250;

/// The immutable configuration of one health-check run.
pub struct HealthCheckConfig {
    pub timeout_ms: u64,
    pub poll_interval_ms: u64,
    pub base_url: BaseUrl,
}

impl HealthCheckConfig {
    /// The configuration invariant: a positive poll interval strictly below
    /// the total timeout, against a valid base URL.
    pub open spec fn wf(&self) -> bool {
        0 < self.poll_interval_ms < self.timeout_ms && self.base_url.wf()
    }

    /// Builds a configuration; the poll interval must be positive and
    /// strictly below the timeout.
    pub fn new(timeout_ms: u64, poll_interval_ms: u64, base_url: BaseUrl) -> (r: HealthCheckConfig)
        requires
            0 < poll_interval_ms < timeout_ms,
            base_url.wf(),
        ensures
            r.wf(),
            r.timeout_ms == timeout_ms,
            r.poll_interval_ms == poll_interval_ms,
            r.base_url == base_url,
    {
        HealthCheckConfig { timeout_ms, poll_interval_ms, base_url }
    }
}

/// The URL probed for readiness: the base URL without trailing slashes,
/// followed by `/health`.
pub open spec fn health_endpoint_chars(base: Seq<char>) -> Seq<char> {
    strip_trailing_slashes(base) + "/health"@
}

/// The readiness URL for a base URL.
pub fn health_endpoint(base: &str) -> (r: String)
    ensures
        r@ == health_endpoint_chars(base@),
{
    let stripped = strip_trailing_slashes_str(base);
    stripped.concat("/health")
}

/// What the poller does after one probe.
#[derive(Clone, Copy, Debug, PartialEq, Eq, Structural)]
pub enum ProbeDecision {
    /// The endpoint answered with a success status: the backend is ready.
    Ready,
    /// Not ready yet and the deadline has not passed: suspend for one poll
    /// interval, then probe again.
    RetryAfterInterval,
    /// The deadline passed without an observed success: the run has failed.
    TimedOut,
}

/// The decision taken after a probe at time `now_ms` whose outcome was
/// `success`, against an absolute deadline.
pub open spec fn spec_poll_step(deadline_ms: u64, now_ms: u64, success: bool) -> ProbeDecision {
    if success {
        ProbeDecision::Ready
    } else if now_ms < deadline_ms {
        ProbeDecision::RetryAfterInterval
    } else {
        ProbeDecision::TimedOut
    }
}

/// The absolute deadline of a run starting at `start_ms`.
pub fn deadline(config: &HealthCheckConfig, start_ms: u64) -> (r: u64)
    requires
        start_ms + config.timeout_ms <= u64::MAX,
    ensures
        r == start_ms + config.timeout_ms,
{
    start_ms + config.timeout_ms
}

/// Whether another probe may be issued at time `now_ms`.
pub fn should_probe(deadline_ms: u64, now_ms: u64) -> (r: bool)
    ensures
        r == (now_ms < deadline_ms),
{
    now_ms < deadline_ms
}

/// Decides what follows one probe: success returns `Ready` immediately; a
/// failed probe retries while the deadline has not passed and times out once
/// it has.
pub fn poll_step(deadline_ms: u64, now_ms: u64, success: bool) -> (r: ProbeDecision)
    ensures
        r == spec_poll_step(deadline_ms, now_ms, success),
{
    if success {
        ProbeDecision::Ready
    } else if now_ms < deadline_ms {
        ProbeDecision::RetryAfterInterval
    } else {
        ProbeDecision::TimedOut
    }
}

/// A successful probe is final: whatever the clock says, the decision after a
/// success is `Ready`, so readiness is reported the moment it is observed.
pub proof fn lemma_success_is_immediate(deadline_ms: u64, now_ms: u64)
    ensures
        spec_poll_step(deadline_ms, now_ms, true) == ProbeDecision::Ready,
{
}

/// The poller never hangs: once at least `ceil(timeout / interval)` failed
/// probes lie behind it, the probe happening at or after
/// `start + k * interval` is decided `TimedOut`, never another retry.
pub proof fn lemma_poll_terminates(config: HealthCheckConfig, start_ms: u64, k: nat, now_ms: u64)
    requires
        config.wf(),
        k * config.poll_interval_ms >= config.timeout_ms,
        now_ms >= start_ms + k * config.poll_interval_ms,
        start_ms + config.timeout_ms <= u64::MAX,
    ensures
        spec_poll_step((start_ms + config.timeout_ms) as u64, now_ms, false)
            == ProbeDecision::TimedOut,
{
}

/// A retry is only ever decided strictly before the deadline, so the last
/// probe happens within one poll interval of the deadline and `false` is
/// returned by `timeout + interval` at the latest.
pub proof fn lemma_retry_before_deadline(deadline_ms: u64, now_ms: u64, success: bool)
    requires
        spec_poll_step(deadline_ms, now_ms, success) == ProbeDecision::RetryAfterInterval,
    ensures
        now_ms < deadline_ms,
        !success,
{
}

} // verus!
