//! The staleness monitor's surroundings: what it is configured with, what it
//! checks before its first reading, and what it logs when it has to stop.

use crate::monitor::Cadence;
use crate::monitor::Monitor;
use crate::monitor::MonitorFault;
use crate::notify::EmailSettings;
use crate::paths::join_path;
use crate::paths::joined;
use crate::paths::probe_view;
use vstd::prelude::*;
use vstd::string::*;

verus! {

/// The marker and the two cadences, as configured.
#[derive(Clone, Debug, PartialEq, Eq)]
pub struct MonitorApp {
    pub watchfile_dir: String,
    pub watchfile_name: String,
    pub sleep_interval_up: u64,
    pub sleep_interval_down: u64,
}

/// The monitor's configuration.
#[derive(Clone, Debug, PartialEq, Eq)]
pub struct MonitorConfig {
    pub app: MonitorApp,
    pub email: EmailSettings,
}

/// Why the monitor stops.
#[derive(Clone, Debug, PartialEq, Eq)]
pub enum WatchError {
    /// The marker, named here, is not there at startup.
    MarkerMissing(String),
    /// Looking for the marker failed, for the reason given.
    MarkerUnchecked(String),
    /// The marker's first reading could not be taken.
    InitialUnreadable,
    /// A later reading of the marker, named here, could not be taken.
    MarkerUnreadable(String),
}

/// A watch error, with its text as a sequence of characters.
pub enum WatchErrorView {
    MarkerMissing(Seq<char>),
    MarkerUnchecked(Seq<char>),
    InitialUnreadable,
    MarkerUnreadable(Seq<char>),
}

impl View for WatchError {
    type V = WatchErrorView;

    open spec fn view(&self) -> WatchErrorView {
        match self {
            WatchError::MarkerMissing(p) => WatchErrorView::MarkerMissing(p@),
            WatchError::MarkerUnchecked(d) => WatchErrorView::MarkerUnchecked(d@),
            WatchError::InitialUnreadable => WatchErrorView::InitialUnreadable,
            WatchError::MarkerUnreadable(p) => WatchErrorView::MarkerUnreadable(p@),
        }
    }
}

/// What is logged when the monitor stops.
pub open spec fn watch_message(error: WatchErrorView) -> Seq<char> {
    match error {
        WatchErrorView::MarkerMissing(path) => "The filepath "@ + path + " does not exist"@,
        WatchErrorView::MarkerUnchecked(detail) => "Error checking local file existence: "@
            + detail,
        WatchErrorView::InitialUnreadable =>
            "Error: Unable to retrieve INITIAL timestamp from watchfile"@,
        WatchErrorView::MarkerUnreadable(path) => "Unable to retrieve timestamp from watchfile ("@
            + path + ")"@,
    }
}

/// What a fault of the monitor is reported as, for the marker at `path`.
pub open spec fn fault_view(fault: MonitorFault, path: Seq<char>) -> WatchErrorView {
    match fault {
        MonitorFault::InitialUnreadable => WatchErrorView::InitialUnreadable,
        MonitorFault::MarkerUnreadable => WatchErrorView::MarkerUnreadable(path),
    }
}

/// What looking for the marker at `path` means for startup: nothing if it is
/// there, else the error.
pub open spec fn marker_verdict(path: Seq<char>, probe: Result<bool, Seq<char>>) -> Option<
    WatchErrorView,
> {
    match probe {
        Ok(true) => None,
        Ok(false) => Some(WatchErrorView::MarkerMissing(path)),
        Err(detail) => Some(WatchErrorView::MarkerUnchecked(detail)),
    }
}

impl MonitorApp {
    /// Where the marker is.
    pub fn marker_path(&self) -> (path: String)
        ensures
            path@ == joined(self.watchfile_dir@, self.watchfile_name@),
    {
        join_path(self.watchfile_dir.as_str(), self.watchfile_name.as_str())
    }

    /// The two cadences.
    pub fn cadence(&self) -> (cadence: Cadence)
        ensures
            cadence == (Cadence { up: self.sleep_interval_up, down: self.sleep_interval_down }),
    {
        Cadence { up: self.sleep_interval_up, down: self.sleep_interval_down }
    }
}

/// Decides from what looking for the marker gave whether startup goes on.
pub fn check_marker(path: &str, probe: Result<bool, String>) -> (r: Result<(), WatchError>)
    ensures
        match r {
            Ok(_) => marker_verdict(path@, probe_view(probe)) is None,
            Err(e) => marker_verdict(path@, probe_view(probe)) == Some(e@),
        },
{
    match probe {
        Ok(true) => Ok(()),
        Ok(false) => Err(WatchError::MarkerMissing(String::from_str(path))),
        Err(detail) => Err(WatchError::MarkerUnchecked(detail)),
    }
}

/// Names the marker in a fault of the monitor.
pub fn fault_error(fault: MonitorFault, path: &str) -> (error: WatchError)
    ensures
        error@ == fault_view(fault, path@),
{
    match fault {
        MonitorFault::InitialUnreadable => WatchError::InitialUnreadable,
        MonitorFault::MarkerUnreadable => WatchError::MarkerUnreadable(String::from_str(path)),
    }
}

/// Starts the monitor from the first attempt to read the marker at `path`.
pub fn start(path: &str, reading: Option<u64>) -> (r: Result<Monitor, WatchError>)
    ensures
        match reading {
            Some(t) => r == Ok::<Monitor, WatchError>(Monitor::start(t)),
            None => r matches Err(e) && e@ == WatchErrorView::InitialUnreadable,
        },
{
    match Monitor::begin(reading) {
        Ok(monitor) => Ok(monitor),
        Err(fault) => Err(fault_error(fault, path)),
    }
}

impl WatchError {
    /// The line to log.
    pub fn message(&self) -> (text: String)
        ensures
            text@ == watch_message(self@),
    {
        match self {
            WatchError::MarkerMissing(path) => {
                let mut text = String::from_str("The filepath ");
                text.append(path.as_str());
                text.append(" does not exist");
                text
            },
            WatchError::MarkerUnchecked(detail) => {
                let mut text = String::from_str("Error checking local file existence: ");
                text.append(detail.as_str());
                text
            },
            WatchError::InitialUnreadable => String::from_str(
                "Error: Unable to retrieve INITIAL timestamp from watchfile",
            ),
            WatchError::MarkerUnreadable(path) => {
                let mut text = String::from_str("Unable to retrieve timestamp from watchfile (");
                text.append(path.as_str());
                text.append(")");
                text
            },
        }
    }
}

} // verus!
