//! The immutable configuration of one capture session.

use vstd::prelude::*;
use crate::naming::{is_date_time_stamp, naming_seed, seed_for, uses_custom_name, LocalTime};

verus! {

/// Why a configuration was refused.
#[derive(Clone, Copy, Debug, PartialEq, Eq, Structural)]
pub enum ConfigError {
    /// The interval between two capture events is zero.
    InvalidConfiguration,
}

/// A length of time as the operator enters it.
#[derive(Clone, Copy, Debug, PartialEq, Eq, Structural)]
pub struct DurationParts {
    pub hours: u64,
    pub minutes: u64,
    pub seconds: u64,
}

impl DurationParts {
    /// The length in seconds: an hour counts 3600, a minute 60.
    pub open spec fn total_seconds(self) -> nat {
        (self.hours * 3600 + self.minutes * 60 + self.seconds) as nat
    }

    /// The span of `hours` hours, `minutes` minutes and `seconds` seconds.
    /// No part is bounded by the next larger one: 90 minutes are accepted.
    pub fn new(hours: u64, minutes: u64, seconds: u64) -> (parts: DurationParts)
        ensures
            parts == (DurationParts { hours, minutes, seconds }),
    {
        DurationParts { hours, minutes, seconds }
    }

    /// Computes the length in seconds. The result is exact for every triple:
    /// the largest one stays below 2^76.
    pub fn to_seconds(&self) -> (total: u128)
        ensures
            total == self.total_seconds(),
            total <= MAX_SPAN_SECONDS,
    {
        let hours: u128 = self.hours as u128;
        let minutes: u128 = self.minutes as u128;
        let seconds: u128 = self.seconds as u128;
        hours * 3600 + minutes * 60 + seconds
    }
}

/// The longest span that `DurationParts` can denote, in seconds.
pub const MAX_SPAN_SECONDS: u128 = 0xffff_ffff_ffff_ffff * 3661;

/// How many capture events fit into a session: the whole part of
/// `total / interval`.
pub open spec fn expected_events(interval: nat, total: nat) -> nat
    recommends
        interval > 0,
{
    total / interval
}

/// What a configuration is, as plain mathematics.
pub struct ConfigModel {
    /// Seconds from the start of one capture event to the start of the next.
    pub interval: nat,
    /// Seconds after which no further event is started.
    pub total: nat,
    /// `expected_events(interval, total)`, kept for display.
    pub expected: nat,
    /// Text from which the names of the stored frames are derived.
    pub seed: Seq<char>,
}

/// The configuration of one session. It is built once, before the session
/// starts, and never changes afterwards.
#[derive(Debug)]
pub struct SessionConfig {
    interval_seconds: u128,
    total_seconds: u128,
    expected_event_count: u128,
    naming_seed: String,
}

impl View for SessionConfig {
    type V = ConfigModel;

    closed spec fn view(&self) -> ConfigModel {
        ConfigModel {
            interval: self.interval_seconds as nat,
            total: self.total_seconds as nat,
            expected: self.expected_event_count as nat,
            seed: self.naming_seed@,
        }
    }
}

impl SessionConfig {
    #[verifier::type_invariant]
    spec fn well_formed(self) -> bool {
        &&& 0 < self.interval_seconds <= MAX_SPAN_SECONDS
        &&& self.total_seconds <= MAX_SPAN_SECONDS
        &&& self.expected_event_count == self.total_seconds / self.interval_seconds
    }

    /// Builds the configuration of a session that captures every `interval`
    /// for `total`, with `naming_seed` as its seed. A zero interval is
    /// refused, and nothing else is.
    pub fn with_seed(interval: DurationParts, total: DurationParts, naming_seed: String) -> (result:
        Result<SessionConfig, ConfigError>)
        ensures
            interval.total_seconds() == 0 ==> result == Err::<SessionConfig, ConfigError>(
                ConfigError::InvalidConfiguration,
            ),
            interval.total_seconds() > 0 ==> result is Ok && result->Ok_0@ == (ConfigModel {
                interval: interval.total_seconds(),
                total: total.total_seconds(),
                expected: expected_events(interval.total_seconds(), total.total_seconds()),
                seed: naming_seed@,
            }),
    {
        let interval_seconds: u128 = interval.to_seconds();
        let total_seconds: u128 = total.to_seconds();
        if interval_seconds == 0 {
            return Err(ConfigError::InvalidConfiguration);
        }
        Ok(
            SessionConfig {
                interval_seconds,
                total_seconds,
                expected_event_count: total_seconds / interval_seconds,
                naming_seed,
            },
        )
    }

    /// Builds the configuration of a session that starts at `started`, as
    /// `with_seed` does, with the seed that `naming_seed` picks: the custom
    /// name where the operator asked for it and gave one, and else the stamp
    /// of `started`.
    pub fn new(
        interval: DurationParts,
        total: DurationParts,
        use_custom_name: bool,
        custom_name: &str,
        started: &LocalTime,
    ) -> (result: Result<SessionConfig, ConfigError>)
        ensures
            interval.total_seconds() == 0 ==> result == Err::<SessionConfig, ConfigError>(
                ConfigError::InvalidConfiguration,
            ),
            interval.total_seconds() > 0 ==> result is Ok && result->Ok_0@ == (ConfigModel {
                interval: interval.total_seconds(),
                total: total.total_seconds(),
                expected: expected_events(interval.total_seconds(), total.total_seconds()),
                seed: seed_for(use_custom_name, custom_name@, started@.date_time_text()),
            }),
            result matches Ok(config) ==> config@.seed.len() > 0 && (!uses_custom_name(
                use_custom_name,
                custom_name@,
            ) ==> is_date_time_stamp(config@.seed)),
    {
        let seed: String = naming_seed(use_custom_name, custom_name, started);
        SessionConfig::with_seed(interval, total, seed)
    }

    /// Seconds from the start of one capture event to the start of the next.
    pub fn interval_seconds(&self) -> (seconds: u128)
        ensures
            seconds == self@.interval,
            0 < seconds <= MAX_SPAN_SECONDS,
    {
        proof {
            use_type_invariant(self);
        }
        self.interval_seconds
    }

    /// Seconds after which no further capture event is started.
    pub fn total_seconds(&self) -> (seconds: u128)
        ensures
            seconds == self@.total,
            seconds <= MAX_SPAN_SECONDS,
    {
        proof {
            use_type_invariant(self);
        }
        self.total_seconds
    }

    /// The number of events to expect, for display.
    pub fn expected_event_count(&self) -> (count: u128)
        ensures
            count == self@.expected,
            count == expected_events(self@.interval, self@.total),
    {
        proof {
            use_type_invariant(self);
        }
        self.expected_event_count
    }

    /// The text from which the names of the stored frames are derived.
    pub fn naming_seed(&self) -> (seed: &str)
        ensures
            seed@ == self@.seed,
    {
        self.naming_seed.as_str()
    }
}

} // verus!
