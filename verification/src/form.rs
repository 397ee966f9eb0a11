//! The operator's form: what is entered before a session, and what the
//! press of the start button does with it.

use vstd::prelude::*;
use crate::config::{expected_events, ConfigError, DurationParts, SessionConfig};
use crate::naming::{is_date_time_stamp, seed_for, uses_custom_name, LocalTime};

verus! {

/// Why the start button did not start a session.
#[derive(Clone, Copy, Debug, PartialEq, Eq, Structural)]
pub enum StartError {
    /// A session has been started before; the press is ignored.
    AlreadyRunning,
    /// The interval entered is zero.
    InvalidConfiguration,
}

/// The state of the form.
#[derive(Debug)]
pub struct MyApp {
    pub interval_hours: u64,
    pub interval_minutes: u64,
    pub interval_seconds: u64,
    pub duration_hours: u64,
    pub duration_minutes: u64,
    pub duration_seconds: u64,
    /// Whether a session has been started.
    pub is_running: bool,
    pub use_custom_name: bool,
    pub custom_name: String,
    /// The progress shown to the operator: the progress counter as it was
    /// last read. A new session shows zero.
    pub screenshot_counter: u64,
    /// The number of events to expect in the session, for display.
    pub total_screenshots: u128,
    pub dark_mode: bool,
}

impl MyApp {
    /// The interval between two capture events, as entered.
    pub open spec fn interval_entered(self) -> DurationParts {
        DurationParts {
            hours: self.interval_hours,
            minutes: self.interval_minutes,
            seconds: self.interval_seconds,
        }
    }

    /// The total duration of the session, as entered.
    pub open spec fn duration_entered(self) -> DurationParts {
        DurationParts {
            hours: self.duration_hours,
            minutes: self.duration_minutes,
            seconds: self.duration_seconds,
        }
    }

    /// The form after a press that started a session: marked as running,
    /// showing no progress yet and `expected` events to come.
    pub open spec fn started(self, expected: nat) -> MyApp {
        MyApp {
            is_running: true,
            screenshot_counter: 0,
            total_screenshots: expected as u128,
            ..self
        }
    }

    /// An empty form: all times zero, no custom name, nothing started, and
    /// the dark theme.
    pub fn new() -> (app: MyApp)
        ensures
            app.interval_hours == 0,
            app.interval_minutes == 0,
            app.interval_seconds == 0,
            app.duration_hours == 0,
            app.duration_minutes == 0,
            app.duration_seconds == 0,
            !app.is_running,
            !app.use_custom_name,
            app.custom_name@ == Seq::<char>::empty(),
            app.screenshot_counter == 0,
            app.total_screenshots == 0,
            app.dark_mode,
    {
        MyApp {
            interval_hours: 0,
            interval_minutes: 0,
            interval_seconds: 0,
            duration_hours: 0,
            duration_minutes: 0,
            duration_seconds: 0,
            is_running: false,
            use_custom_name: false,
            custom_name: String::new(),
            screenshot_counter: 0,
            total_screenshots: 0,
            dark_mode: true,
        }
    }

    /// Switches between the dark and the light theme.
    pub fn toggle_theme(&mut self)
        ensures
            *final(self) == (MyApp { dark_mode: !old(self).dark_mode, ..*old(self) }),
    {
        self.dark_mode = !self.dark_mode;
    }

    /// The press of the start button, at the local time `started`.
    ///
    /// While a session has been started the press is ignored. A zero
    /// interval is refused before anything starts, and the form stays as it
    /// is. Otherwise the session is configured from what was entered, the
    /// form is marked as running, its progress is set back to zero and the
    /// expected number of events is kept for display.
    pub fn start_session(&mut self, started: &LocalTime) -> (result: Result<
        SessionConfig,
        StartError,
    >)
        ensures
            old(self).is_running ==> {
                &&& result == Err::<SessionConfig, StartError>(StartError::AlreadyRunning)
                &&& *final(self) == *old(self)
            },
            !old(self).is_running && old(self).interval_entered().total_seconds() == 0 ==> {
                &&& result == Err::<SessionConfig, StartError>(StartError::InvalidConfiguration)
                &&& *final(self) == *old(self)
            },
            !old(self).is_running && old(self).interval_entered().total_seconds() > 0 ==> {
                &&& result matches Ok(config)
                &&& config@.interval == old(self).interval_entered().total_seconds()
                &&& config@.total == old(self).duration_entered().total_seconds()
                &&& config@.expected == expected_events(config@.interval, config@.total)
                &&& config@.seed == seed_for(
                    old(self).use_custom_name,
                    old(self).custom_name@,
                    started@.date_time_text(),
                )
                &&& config@.seed.len() > 0
                &&& !uses_custom_name(old(self).use_custom_name, old(self).custom_name@)
                    ==> is_date_time_stamp(config@.seed)
                &&& *final(self) == old(self).started(config@.expected)
                &&& final(self).total_screenshots == config@.expected
            },
    {
        if self.is_running {
            return Err(StartError::AlreadyRunning);
        }
        let interval: DurationParts = DurationParts::new(
            self.interval_hours,
            self.interval_minutes,
            self.interval_seconds,
        );
        let total: DurationParts = DurationParts::new(
            self.duration_hours,
            self.duration_minutes,
            self.duration_seconds,
        );
        match SessionConfig::new(
            interval,
            total,
            self.use_custom_name,
            self.custom_name.as_str(),
            started,
        ) {
            Err(ConfigError::InvalidConfiguration) => Err(StartError::InvalidConfiguration),
            Ok(config) => {
                self.is_running = true;
                self.screenshot_counter = 0;
                self.total_screenshots = config.expected_event_count();
                Ok(config)
            },
        }
    }
}

} // verus!
