//! Runtime configuration: which drivers the runtime starts with and how many
//! blocking threads it may use, together with the value each field takes when
//! a configuration leaves it out.

use vstd::prelude::*;

verus! {

/// The value of a boolean setting that is on unless a configuration says otherwise.
pub fn default_as_true() -> (r: bool)
    ensures
        r == true,
{
    true
}

/// The ceiling on blocking threads when a configuration names none.
pub fn default_max_thread() -> (r: usize)
    ensures
        r == 512,
{
    512
}

/// Settings of the runtime that a `Clockwork` owns.
#[derive(Clone, Copy, Debug, PartialEq, Eq, Structural)]
pub struct RuntimeConfig {
    /// Start the I/O driver.
    pub enable_io: bool,
    /// Start the timer driver.
    pub enable_time: bool,
    /// Ceiling on the threads that run blocking work.
    pub max_threads: usize,
}

impl RuntimeConfig {
    /// The configuration in which every field has its default.
    pub open spec fn spec_default() -> RuntimeConfig {
        RuntimeConfig { enable_io: true, enable_time: true, max_threads: 512 }
    }

    /// The configuration that a section with the given fields stands for: a
    /// field that is present is taken as it is, a field that is absent has its
    /// default.
    pub open spec fn spec_from_fields(
        enable_io: Option<bool>,
        enable_time: Option<bool>,
        max_threads: Option<usize>,
    ) -> RuntimeConfig {
        RuntimeConfig {
            enable_io: match enable_io {
                Some(v) => v,
                None => true,
            },
            enable_time: match enable_time {
                Some(v) => v,
                None => true,
            },
            max_threads: match max_threads {
                Some(v) => v,
                None => 512,
            },
        }
    }

    /// Builds the configuration from the fields that a decoded `runtime`
    /// section holds, filling each absent field with its default.
    pub fn from_fields(
        enable_io: Option<bool>,
        enable_time: Option<bool>,
        max_threads: Option<usize>,
    ) -> (r: RuntimeConfig)
        ensures
            r == Self::spec_from_fields(enable_io, enable_time, max_threads),
    {
        RuntimeConfig {
            enable_io: match enable_io {
                Some(v) => v,
                None => default_as_true(),
            },
            enable_time: match enable_time {
                Some(v) => v,
                None => default_as_true(),
            },
            max_threads: match max_threads {
                Some(v) => v,
                None => default_max_thread(),
            },
        }
    }
}

impl Default for RuntimeConfig {
    fn default() -> (r: RuntimeConfig)
        ensures
            r == RuntimeConfig::spec_default(),
    {
        RuntimeConfig {
            enable_io: default_as_true(),
            enable_time: default_as_true(),
            max_threads: default_max_thread(),
        }
    }
}

/// The `clockwork` part of an application's configuration.
#[derive(Clone, Copy, Debug, PartialEq, Eq, Structural)]
pub struct ClockworkConfig {
    /// Settings of the runtime.
    pub runtime: RuntimeConfig,
}

impl ClockworkConfig {
    /// The configuration whose runtime settings are all defaults.
    pub open spec fn spec_default() -> ClockworkConfig {
        ClockworkConfig { runtime: RuntimeConfig::spec_default() }
    }

    /// The configuration that a decoded section stands for: its `runtime`
    /// part where it has one, the default runtime settings where it has none.
    pub open spec fn spec_from_section(runtime: Option<RuntimeConfig>) -> ClockworkConfig {
        ClockworkConfig {
            runtime: match runtime {
                Some(rt) => rt,
                None => RuntimeConfig::spec_default(),
            },
        }
    }

    /// Builds the configuration from the `runtime` part of a decoded section,
    /// which may be absent.
    pub fn from_section(runtime: Option<RuntimeConfig>) -> (r: ClockworkConfig)
        ensures
            r == Self::spec_from_section(runtime),
    {
        ClockworkConfig {
            runtime: match runtime {
                Some(rt) => rt,
                None => RuntimeConfig::default(),
            },
        }
    }
}

impl Default for ClockworkConfig {
    fn default() -> (r: ClockworkConfig)
        ensures
            r == ClockworkConfig::spec_default(),
    {
        ClockworkConfig { runtime: RuntimeConfig::default() }
    }
}

/// A section without fields stands for the default configuration, and so
/// does an absent section.
pub proof fn lemma_absent_fields_give_defaults()
    ensures
        RuntimeConfig::spec_from_fields(None, None, None) == RuntimeConfig::spec_default(),
        ClockworkConfig::spec_from_section(None) == ClockworkConfig::spec_default(),
        ClockworkConfig::spec_from_section(Some(RuntimeConfig::spec_from_fields(None, None, None)))
            == ClockworkConfig::spec_default(),
        ClockworkConfig::spec_default().runtime.enable_io,
        ClockworkConfig::spec_default().runtime.enable_time,
        ClockworkConfig::spec_default().runtime.max_threads == 512,
{
}

} // verus!
