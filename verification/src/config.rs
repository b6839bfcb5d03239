//! What a search is configured with.

use vstd::prelude::*;

verus! {

/// Workers to run where the machine does not say how many it can run at once.
pub const DEFAULT_WORKERS: usize = 4;

/// Seconds between two statistics reports, unless configured otherwise.
pub const DEFAULT_UPDATE_INTERVAL: u64 = 30;

/// The configuration of one search. It is made once and then only read.
#[derive(Debug, Clone)]
pub struct GeneratorConfig {
    /// The wanted prefixes, lower case and trimmed, in the order in which
    /// they are tried.
    pub prefixes: Vec<String>,
    /// How many workers search at once.
    pub num_workers: usize,
    /// Seconds between two statistics reports.
    pub update_interval: u64,
}

impl GeneratorConfig {
    /// A configuration that a search can run on: at least one prefix, at
    /// least one worker, and a positive interval.
    pub open spec fn is_runnable(&self) -> bool {
        &&& self.prefixes@.len() > 0
        &&& self.num_workers > 0
        &&& self.update_interval > 0
    }

    /// The configuration for `prefixes` with the defaults: one worker for
    /// each unit of parallelism the machine reports in
    /// `available_parallelism`, or `DEFAULT_WORKERS` where it reports none,
    /// and a report every `DEFAULT_UPDATE_INTERVAL` seconds.
    pub fn new(prefixes: Vec<String>, available_parallelism: Option<usize>) -> (config: Self)
        ensures
            config.prefixes == prefixes,
            config.num_workers == match available_parallelism {
                Some(workers) => workers,
                None => DEFAULT_WORKERS,
            },
            config.update_interval == DEFAULT_UPDATE_INTERVAL,
    {
        let num_workers = match available_parallelism {
            Some(workers) => workers,
            None => DEFAULT_WORKERS,
        };
        GeneratorConfig { prefixes, num_workers, update_interval: DEFAULT_UPDATE_INTERVAL }
    }

    /// The same configuration with `num_workers` workers.
    pub fn with_workers(self, num_workers: usize) -> (config: Self)
        ensures
            config.prefixes == self.prefixes,
            config.num_workers == num_workers,
            config.update_interval == self.update_interval,
    {
        let mut config = self;
        config.num_workers = num_workers;
        config
    }

    /// The same configuration with a report every `interval` seconds.
    pub fn with_update_interval(self, interval: u64) -> (config: Self)
        ensures
            config.prefixes == self.prefixes,
            config.num_workers == self.num_workers,
            config.update_interval == interval,
    {
        let mut config = self;
        config.update_interval = interval;
        config
    }

    /// Tells whether a search can run on this configuration.
    pub fn check_runnable(&self) -> (runnable: bool)
        ensures
            runnable == self.is_runnable(),
    {
        self.prefixes.len() > 0 && self.num_workers > 0 && self.update_interval > 0
    }
}

} // verus!
