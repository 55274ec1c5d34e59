use vstd::prelude::*;

use std::time::Duration;

verus! {

/// The span of `ms` milliseconds.
pub uninterp spec fn duration_from_millis(ms: u64) -> Duration;

/// Relies on `Duration::from_millis`: the span of `ms` milliseconds.
#[verifier::external_body]
fn millis(ms: u64) -> (r: Duration)
    ensures
        r == duration_from_millis(ms),
{
    Duration::from_millis(ms)
}

/// Relies on `Duration::as_millis`: the whole milliseconds of a span, which
/// for a span made from `ms` milliseconds are `ms`.
#[verifier::external_body]
fn whole_millis(d: &Duration) -> (r: u128)
    ensures
        forall|ms: u64| #[trigger] duration_from_millis(ms) == *d ==> r == ms as u128,
{
    d.as_millis()
}

/// The whole milliseconds of a span, held to the range of `i64`.
pub fn millis_i64(d: &Duration) -> (r: i64)
    ensures
        forall|ms: u64| #[trigger] duration_from_millis(ms) == *d ==> r == if ms > i64::MAX as u64 {
            i64::MAX
        } else {
            ms as i64
        },
{
    let m = whole_millis(d);
    if m > i64::MAX as u128 {
        i64::MAX
    } else {
        m as i64
    }
}

/// The settings of a consumer, as plain values.
pub struct ConsumerConfigView {
    pub poll_interval: Duration,
    pub poll_timeout: Duration,
    pub heartbeat_interval: Duration,
    pub heartbeat_timeout: Duration,
    pub max_consecutive_errors: usize,
}

/// Settings of a consumer.
#[derive(Debug)]
pub struct ConsumerConfig {
    /// How long to wait between polls for new jobs.
    poll_interval: Duration,
    /// How long each blocking poll waits for a job.
    poll_timeout: Duration,
    /// How often the heartbeat is refreshed.
    heartbeat_interval: Duration,
    /// How long before a job whose heartbeat stopped counts as abandoned.
    heartbeat_timeout: Duration,
    /// How many errors in a row stop the run loop.
    max_consecutive_errors: usize,
}

impl View for ConsumerConfig {
    type V = ConsumerConfigView;

    closed spec fn view(&self) -> ConsumerConfigView {
        ConsumerConfigView {
            poll_interval: self.poll_interval,
            poll_timeout: self.poll_timeout,
            heartbeat_interval: self.heartbeat_interval,
            heartbeat_timeout: self.heartbeat_timeout,
            max_consecutive_errors: self.max_consecutive_errors,
        }
    }
}

/// The default consumer settings: polls every 100 ms, each waiting up to
/// 5 s; heartbeat every 5 s with a 10 s timeout; stop after 3 errors in a row.
pub open spec fn default_consumer_config() -> ConsumerConfigView {
    ConsumerConfigView {
        poll_interval: duration_from_millis(100),
        poll_timeout: duration_from_millis(5000),
        heartbeat_interval: duration_from_millis(5000),
        heartbeat_timeout: duration_from_millis(10000),
        max_consecutive_errors: 3,
    }
}

impl Default for ConsumerConfig {
    fn default() -> (r: ConsumerConfig)
        ensures
            r@ == default_consumer_config(),
    {
        ConsumerConfig::new()
    }
}

impl ConsumerConfig {
    /// The default settings.
    pub fn new() -> (r: ConsumerConfig)
        ensures
            r@ == default_consumer_config(),
    {
        ConsumerConfig {
            poll_interval: millis(100),
            poll_timeout: millis(5000),
            heartbeat_interval: millis(5000),
            heartbeat_timeout: millis(10000),
            max_consecutive_errors: 3,
        }
    }

    /// Sets the wait between polls.
    pub fn poll_interval(self, poll_interval: Duration) -> (r: ConsumerConfig)
        ensures
            r@ == (ConsumerConfigView { poll_interval, ..self@ }),
    {
        ConsumerConfig { poll_interval, ..self }
    }

    /// The wait between polls.
    pub fn get_poll_interval(&self) -> (r: Duration)
        ensures
            r == self@.poll_interval,
    {
        self.poll_interval
    }

    /// Sets how long each blocking poll waits.
    pub fn poll_timeout(self, poll_timeout: Duration) -> (r: ConsumerConfig)
        ensures
            r@ == (ConsumerConfigView { poll_timeout, ..self@ }),
    {
        ConsumerConfig { poll_timeout, ..self }
    }

    /// How long each blocking poll waits.
    pub fn get_poll_timeout(&self) -> (r: Duration)
        ensures
            r == self@.poll_timeout,
    {
        self.poll_timeout
    }

    /// Sets how often the heartbeat is refreshed.
    pub fn heartbeat_interval(self, heartbeat_interval: Duration) -> (r: ConsumerConfig)
        ensures
            r@ == (ConsumerConfigView { heartbeat_interval, ..self@ }),
    {
        ConsumerConfig { heartbeat_interval, ..self }
    }

    /// How often the heartbeat is refreshed.
    pub fn get_heartbeat_interval(&self) -> (r: Duration)
        ensures
            r == self@.heartbeat_interval,
    {
        self.heartbeat_interval
    }

    /// Sets how long before a silent job counts as abandoned.
    pub fn heartbeat_timeout(self, heartbeat_timeout: Duration) -> (r: ConsumerConfig)
        ensures
            r@ == (ConsumerConfigView { heartbeat_timeout, ..self@ }),
    {
        ConsumerConfig { heartbeat_timeout, ..self }
    }

    /// How long before a silent job counts as abandoned.
    pub fn get_heartbeat_timeout(&self) -> (r: Duration)
        ensures
            r == self@.heartbeat_timeout,
    {
        self.heartbeat_timeout
    }

    /// Sets how many errors in a row stop the run loop.
    pub fn max_consecutive_errors(self, max_consecutive_errors: usize) -> (r: ConsumerConfig)
        ensures
            r@ == (ConsumerConfigView { max_consecutive_errors, ..self@ }),
    {
        ConsumerConfig { max_consecutive_errors, ..self }
    }

    /// How many errors in a row stop the run loop.
    pub fn get_max_consecutive_errors(&self) -> (r: usize)
        ensures
            r == self@.max_consecutive_errors,
    {
        self.max_consecutive_errors
    }
}

/// The settings of a harvester, as plain values.
pub struct HarvestConfigView {
    pub poll_interval: Duration,
    pub poll_timeout: Duration,
    pub max_consecutive_errors: usize,
    pub batch_size: usize,
}

/// Settings of a harvester.
#[derive(Debug)]
pub struct HarvestConfig {
    /// How long to wait between polls for completed jobs.
    poll_interval: Duration,
    /// How long each blocking poll waits.
    poll_timeout: Duration,
    /// How many errors in a row stop the run loop.
    max_consecutive_errors: usize,
    /// How many jobs one batch harvests at most.
    batch_size: usize,
}

impl View for HarvestConfig {
    type V = HarvestConfigView;

    closed spec fn view(&self) -> HarvestConfigView {
        HarvestConfigView {
            poll_interval: self.poll_interval,
            poll_timeout: self.poll_timeout,
            max_consecutive_errors: self.max_consecutive_errors,
            batch_size: self.batch_size,
        }
    }
}

/// The default harvester settings: polls every 100 ms, each waiting up to
/// 5 s; stop after 3 errors in a row; one job per batch.
pub open spec fn default_harvest_config() -> HarvestConfigView {
    HarvestConfigView {
        poll_interval: duration_from_millis(100),
        poll_timeout: duration_from_millis(5000),
        max_consecutive_errors: 3,
        batch_size: 1,
    }
}

impl Default for HarvestConfig {
    fn default() -> (r: HarvestConfig)
        ensures
            r@ == default_harvest_config(),
    {
        HarvestConfig::new()
    }
}

impl HarvestConfig {
    /// The default settings.
    pub fn new() -> (r: HarvestConfig)
        ensures
            r@ == default_harvest_config(),
    {
        HarvestConfig {
            poll_interval: millis(100),
            poll_timeout: millis(5000),
            max_consecutive_errors: 3,
            batch_size: 1,
        }
    }

    /// Sets the wait between polls.
    pub fn poll_interval(self, poll_interval: Duration) -> (r: HarvestConfig)
        ensures
            r@ == (HarvestConfigView { poll_interval, ..self@ }),
    {
        HarvestConfig { poll_interval, ..self }
    }

    /// The wait between polls.
    pub fn get_poll_interval(&self) -> (r: Duration)
        ensures
            r == self@.poll_interval,
    {
        self.poll_interval
    }

    /// Sets how long each blocking poll waits.
    pub fn poll_timeout(self, poll_timeout: Duration) -> (r: HarvestConfig)
        ensures
            r@ == (HarvestConfigView { poll_timeout, ..self@ }),
    {
        HarvestConfig { poll_timeout, ..self }
    }

    /// How long each blocking poll waits.
    pub fn get_poll_timeout(&self) -> (r: Duration)
        ensures
            r == self@.poll_timeout,
    {
        self.poll_timeout
    }

    /// Sets how many errors in a row stop the run loop.
    pub fn max_consecutive_errors(self, max_consecutive_errors: usize) -> (r: HarvestConfig)
        ensures
            r@ == (HarvestConfigView { max_consecutive_errors, ..self@ }),
    {
        HarvestConfig { max_consecutive_errors, ..self }
    }

    /// How many errors in a row stop the run loop.
    pub fn get_max_consecutive_errors(&self) -> (r: usize)
        ensures
            r == self@.max_consecutive_errors,
    {
        self.max_consecutive_errors
    }

    /// Sets how many jobs one batch harvests at most.
    pub fn batch_size(self, batch_size: usize) -> (r: HarvestConfig)
        ensures
            r@ == (HarvestConfigView { batch_size, ..self@ }),
    {
        HarvestConfig { batch_size, ..self }
    }

    /// How many jobs one batch harvests at most.
    pub fn get_batch_size(&self) -> (r: usize)
        ensures
            r == self@.batch_size,
    {
        self.batch_size
    }
}

} // verus!
