//! The settings of a run, and how a configuration file overrides them.
use vstd::prelude::*;
use crate::model::{Backend, BatLvl};

verus! {

/// The settings of a run of the monitor.
#[derive(Clone, Debug)]
pub struct Args {
    /// The battery device to watch.
    pub battery: String,
    /// The adapter device to watch.
    pub adapter: String,
    /// The threshold for a low battery.
    pub low: BatLvl,
    /// The threshold for a very low battery.
    pub very_low: BatLvl,
    /// The threshold for a critical battery.
    pub critical: BatLvl,
    /// The event source.
    pub backend: Backend,
    /// The polling interval in seconds, for the polling source.
    pub polling_interval: u64,
}

/// Settings from a configuration file; each one that is given overrides the
/// command line's.
#[derive(Clone, Debug, Default)]
pub struct Config {
    pub battery: Option<String>,
    pub adapter: Option<String>,
    pub low: Option<BatLvl>,
    pub very_low: Option<BatLvl>,
    pub critical: Option<BatLvl>,
    pub backend: Option<Backend>,
    pub polling_interval: Option<u64>,
}

/// A value overridden by an optional one.
pub open spec fn pick<T>(given: Option<T>, current: T) -> T {
    match given {
        Some(v) => v,
        None => current,
    }
}

impl Args {
    /// These settings with each one that `config` gives put in their place.
    pub fn merge_with_config(self, config: Config) -> (r: Args)
        ensures
            r.battery@ == pick(config.battery, self.battery)@,
            r.adapter@ == pick(config.adapter, self.adapter)@,
            r.low == pick(config.low, self.low),
            r.very_low == pick(config.very_low, self.very_low),
            r.critical == pick(config.critical, self.critical),
            r.backend == pick(config.backend, self.backend),
            r.polling_interval == pick(config.polling_interval, self.polling_interval),
    {
        let mut out = self;
        if let Some(battery) = config.battery {
            out.battery = battery;
        }
        if let Some(adapter) = config.adapter {
            out.adapter = adapter;
        }
        if let Some(low) = config.low {
            out.low = low;
        }
        if let Some(very_low) = config.very_low {
            out.very_low = very_low;
        }
        if let Some(critical) = config.critical {
            out.critical = critical;
        }
        if let Some(backend) = config.backend {
            out.backend = backend;
        }
        if let Some(polling_interval) = config.polling_interval {
            out.polling_interval = polling_interval;
        }
        out
    }
}

} // verus!
