use vstd::prelude::*;
use crate::reading::{DeviceRecord, Selection, selected, select};
use crate::render::{status_line, render};

verus! {

/// What the polling loop keeps for its whole life: how long to sleep between
/// cycles, and which sensor to report when the hub has several.
pub struct PollState {
    pub interval_secs: u64,
    pub target: Option<String>,
}

/// What came back from asking the hub for its child devices.
pub enum FetchEvent {
    Fetched(Vec<DeviceRecord>),
    Failed,
}

/// What the log should say about one cycle, besides the status line.
pub enum Diagnostic {
    /// Nothing worth a warning.
    Quiet,
    /// The fetch failed; the loop goes on.
    FetchFailed,
    /// The hub has no supported sensor.
    NoSensor,
    /// No single sensor could be chosen among `known` of them; carries the
    /// device id that was asked for, if any.
    Ambiguous { known: usize, requested: Option<String> },
}

/// What the loop does after one fetch: print `line` if there is one, log
/// `diagnostic`, then sleep `sleep_secs` seconds and poll again.
pub struct CycleAction {
    pub line: Option<String>,
    pub diagnostic: Diagnostic,
    pub sleep_secs: u64,
}

/// Seconds that one fetch may take before the cycle counts it as failed: half
/// the interval, and at least one second.
pub open spec fn fetch_timeout(interval_secs: u64) -> u64 {
    if interval_secs / 2 == 0 { 1 } else { interval_secs / 2 }
}

/// The diagnostic that goes with an outcome of a poll.
pub open spec fn diagnostic_of(sel: Selection) -> Diagnostic {
    match sel {
        Selection::Unique(_) => Diagnostic::Quiet,
        Selection::NoSensor => Diagnostic::NoSensor,
        Selection::Ambiguous { readings, requested } => Diagnostic::Ambiguous {
            known: readings@.len() as usize,
            requested,
        },
    }
}

impl PollState {
    /// A loop that sleeps `interval_secs` between cycles and reports `target`
    /// when the hub has several sensors.
    pub fn new(interval_secs: u64, target: Option<String>) -> (r: PollState)
        ensures
            r.interval_secs == interval_secs,
            r.target == target,
    {
        PollState { interval_secs, target }
    }

    /// Seconds that one fetch may take before the cycle counts it as failed.
    pub fn fetch_timeout_secs(&self) -> (r: u64)
        ensures
            r == fetch_timeout(self.interval_secs),
            r >= 1,
    {
        let half = self.interval_secs / 2;
        if half == 0 {
            1
        } else {
            half
        }
    }

    /// Decides one cycle of the loop from what the fetch brought.
    ///
    /// A failed fetch gives no line and one error diagnostic, and the loop goes
    /// on: it never ends the process. A successful one gives exactly one line,
    /// the rendering of the selected reading.
    pub fn cycle(&self, event: FetchEvent) -> (r: CycleAction)
        ensures
            r.sleep_secs == self.interval_secs,
            match event {
                FetchEvent::Failed => r.line is None && r.diagnostic is FetchFailed,
                FetchEvent::Fetched(devices) => exists|sel: Selection| {
                    &&& #[trigger] selected(devices@, self.target, sel)
                    &&& r.line matches Some(l) && l@ == status_line(sel)
                    &&& r.diagnostic == diagnostic_of(sel)
                },
            },
    {
        match event {
            FetchEvent::Failed => CycleAction {
                line: None,
                diagnostic: Diagnostic::FetchFailed,
                sleep_secs: self.interval_secs,
            },
            FetchEvent::Fetched(devices) => {
                let sel = select(devices, &self.target);
                let line = render(&sel);
                let diagnostic = match sel {
                    Selection::Unique(_) => Diagnostic::Quiet,
                    Selection::NoSensor => Diagnostic::NoSensor,
                    Selection::Ambiguous { readings, requested } => Diagnostic::Ambiguous {
                        known: readings.len(),
                        requested,
                    },
                };
                CycleAction { line: Some(line), diagnostic, sleep_secs: self.interval_secs }
            },
        }
    }
}

} // verus!
