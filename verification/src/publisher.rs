//! The marker publisher: what it is configured with, what it checks before it
//! starts, and what it logs when an attempt fails.
//!
//! The publisher pushes the marker on a fixed interval. A failed attempt is
//! logged and the loop goes on; only a marker or a key file that is missing
//! at startup keeps the loop from beginning.

use crate::paths::join_path;
use crate::paths::joined;
use crate::paths::probe_view;
use crate::transfer::AuthMode;
use crate::transfer::Failure;
use crate::transfer::Outcome;
use vstd::prelude::*;
use vstd::string::*;

verus! {

/// The marker and the cadence, as configured.
#[derive(Clone, Debug, PartialEq, Eq)]
pub struct PublisherApp {
    pub watchfile_name: String,
    pub watchfile_dir: String,
    pub sleep_interval: u64,
}

/// The receiving host and how to log in to it.
#[derive(Clone, Debug, PartialEq, Eq)]
pub struct Receiver {
    pub username: String,
    pub server: String,
    pub password: String,
    pub ssh_key: String,
    pub dir: String,
}

/// The publisher's configuration.
#[derive(Clone, Debug, PartialEq, Eq)]
pub struct PublisherConfig {
    pub app: PublisherApp,
    pub receiver: Receiver,
}

/// What the publisher authenticates with: a password, or the path of a
/// private-key file.
#[derive(Clone, Debug, PartialEq, Eq)]
pub enum Credential {
    Password(String),
    KeyFile(String),
}

/// A credential, with its text as a sequence of characters.
pub enum CredentialView {
    Password(Seq<char>),
    KeyFile(Seq<char>),
}

impl View for Credential {
    type V = CredentialView;

    open spec fn view(&self) -> CredentialView {
        match self {
            Credential::Password(p) => CredentialView::Password(p@),
            Credential::KeyFile(k) => CredentialView::KeyFile(k@),
        }
    }
}

/// Everything an attempt needs, worked out once from the configuration.
#[derive(Clone, Debug, PartialEq, Eq)]
pub struct Plan {
    pub server: String,
    pub username: String,
    pub credential: Credential,
    pub local_path: String,
    pub remote_path: String,
    pub sleep_interval: u64,
}

/// A plan, with its texts as sequences of characters.
pub struct PlanView {
    pub server: Seq<char>,
    pub username: Seq<char>,
    pub credential: CredentialView,
    pub local_path: Seq<char>,
    pub remote_path: Seq<char>,
    pub sleep_interval: u64,
}

impl View for Plan {
    type V = PlanView;

    open spec fn view(&self) -> PlanView {
        PlanView {
            server: self.server@,
            username: self.username@,
            credential: self.credential@,
            local_path: self.local_path@,
            remote_path: self.remote_path@,
            sleep_interval: self.sleep_interval,
        }
    }
}

/// Why the publisher does not start.
#[derive(Clone, Debug, PartialEq, Eq)]
pub enum StartupError {
    /// The configured key file, named here, is not there.
    KeyMissing(String),
    /// Looking for the key file failed, for the reason given.
    KeyUnchecked(String),
    /// The marker, named here, is not there.
    MarkerMissing(String),
    /// Looking for the marker failed, for the reason given.
    MarkerUnchecked(String),
}

/// A startup error, with its text as a sequence of characters.
pub enum StartupErrorView {
    KeyMissing(Seq<char>),
    KeyUnchecked(Seq<char>),
    MarkerMissing(Seq<char>),
    MarkerUnchecked(Seq<char>),
}

impl View for StartupError {
    type V = StartupErrorView;

    open spec fn view(&self) -> StartupErrorView {
        match self {
            StartupError::KeyMissing(p) => StartupErrorView::KeyMissing(p@),
            StartupError::KeyUnchecked(d) => StartupErrorView::KeyUnchecked(d@),
            StartupError::MarkerMissing(p) => StartupErrorView::MarkerMissing(p@),
            StartupError::MarkerUnchecked(d) => StartupErrorView::MarkerUnchecked(d@),
        }
    }
}

/// The publisher's way from its configuration to its loop.
#[derive(Clone, Debug, PartialEq, Eq)]
pub enum Startup {
    /// The key file is to be looked for.
    CheckingKey(Plan),
    /// The marker is to be looked for.
    CheckingMarker(Plan),
    /// The loop may begin.
    Ready(Plan),
    /// The loop never begins.
    Failed(StartupError),
}

/// A stage of startup, over the views of what it holds.
pub enum StartupView {
    CheckingKey(PlanView),
    CheckingMarker(PlanView),
    Ready(PlanView),
    Failed(StartupErrorView),
}

impl View for Startup {
    type V = StartupView;

    open spec fn view(&self) -> StartupView {
        match self {
            Startup::CheckingKey(p) => StartupView::CheckingKey(p@),
            Startup::CheckingMarker(p) => StartupView::CheckingMarker(p@),
            Startup::Ready(p) => StartupView::Ready(p@),
            Startup::Failed(e) => StartupView::Failed(e@),
        }
    }
}

/// The credential that a configured password and key path select: the
/// password `use_ssh_keys` stands for the key file, any other is used as it
/// is.
pub open spec fn credential_of(password: Seq<char>, ssh_key: Seq<char>) -> CredentialView {
    if password == "use_ssh_keys"@ {
        CredentialView::KeyFile(ssh_key)
    } else {
        CredentialView::Password(password)
    }
}

/// The plan that a configuration stands for.
pub open spec fn plan_of(config: PublisherConfig) -> PlanView {
    PlanView {
        server: config.receiver.server@,
        username: config.receiver.username@,
        credential: credential_of(config.receiver.password@, config.receiver.ssh_key@),
        local_path: joined(config.app.watchfile_dir@, config.app.watchfile_name@),
        remote_path: joined(config.receiver.dir@, config.app.watchfile_name@),
        sleep_interval: config.app.sleep_interval,
    }
}

/// Where startup begins: with the key file where one is used, else with the
/// marker.
pub open spec fn startup_of(plan: PlanView) -> StartupView {
    match plan.credential {
        CredentialView::KeyFile(_) => StartupView::CheckingKey(plan),
        CredentialView::Password(_) => StartupView::CheckingMarker(plan),
    }
}

/// The key file of a plan; a plan that uses a password has none.
pub open spec fn key_path(plan: PlanView) -> Seq<char> {
    match plan.credential {
        CredentialView::KeyFile(path) => path,
        CredentialView::Password(_) => Seq::<char>::empty(),
    }
}

/// The path that is to be looked for next, while there is one.
pub open spec fn pending_path(startup: StartupView) -> Option<Seq<char>> {
    match startup {
        StartupView::CheckingKey(plan) => Some(key_path(plan)),
        StartupView::CheckingMarker(plan) => Some(plan.local_path),
        StartupView::Ready(_) => None,
        StartupView::Failed(_) => None,
    }
}

/// Where startup stands once the pending path has been looked for. A path
/// that is there lets startup go on; one that is missing, or that could not
/// be looked for, ends it.
pub open spec fn reported(startup: StartupView, probe: Result<bool, Seq<char>>) -> StartupView {
    match startup {
        StartupView::CheckingKey(plan) => match probe {
            Ok(true) => StartupView::CheckingMarker(plan),
            Ok(false) => StartupView::Failed(StartupErrorView::KeyMissing(key_path(plan))),
            Err(detail) => StartupView::Failed(StartupErrorView::KeyUnchecked(detail)),
        },
        StartupView::CheckingMarker(plan) => match probe {
            Ok(true) => StartupView::Ready(plan),
            Ok(false) => StartupView::Failed(StartupErrorView::MarkerMissing(plan.local_path)),
            Err(detail) => StartupView::Failed(StartupErrorView::MarkerUnchecked(detail)),
        },
        StartupView::Ready(plan) => startup,
        StartupView::Failed(error) => startup,
    }
}

/// What is logged when startup fails.
pub open spec fn startup_message(error: StartupErrorView) -> Seq<char> {
    match error {
        StartupErrorView::KeyMissing(path) => "The configured SSH key ("@ + path
            + ") does not exist"@,
        StartupErrorView::KeyUnchecked(detail) => "Error checking SSH key existence: "@ + detail,
        StartupErrorView::MarkerMissing(path) => "The local filepath "@ + path
            + " does not exist"@,
        StartupErrorView::MarkerUnchecked(detail) => "Error checking local file existence: "@
            + detail,
    }
}

/// What is logged when an attempt to reach `server` fails; `detail` is the
/// error as the transport worded it, and is quoted only where the failure
/// has no category of its own.
pub open spec fn failure_text(failure: Failure, server: Seq<char>, detail: Seq<char>) -> Seq<
    char,
> {
    match failure {
        Failure::ConnectionRefused => "Port 22 is closed on "@ + server,
        Failure::ConnectionReset => "Connection reset by "@ + server,
        Failure::TimedOut => "Transactions with "@ + server + " timed out"@,
        Failure::Unsupported => "Transactions with "@ + server + " are unsupported"@,
        Failure::Other => "An undefined error occurred attempting to transact with "@ + server
            + ": "@ + detail,
    }
}

/// The address an attempt connects to: the server, on the secure-shell port.
pub open spec fn endpoint_text(server: Seq<char>) -> Seq<char> {
    server + ":22"@
}

/// Chooses between the password and the key file.
pub fn select_credential(password: &str, ssh_key: &str) -> (credential: Credential)
    ensures
        credential@ == credential_of(password@, ssh_key@),
{
    let given = String::from_str(password);
    let sentinel = String::from_str("use_ssh_keys");
    if given == sentinel {
        Credential::KeyFile(String::from_str(ssh_key))
    } else {
        Credential::Password(given)
    }
}

impl Credential {
    /// How an attempt with this credential authenticates.
    pub fn mode(&self) -> (mode: AuthMode)
        ensures
            mode == match self@ {
                CredentialView::Password(_) => AuthMode::Password,
                CredentialView::KeyFile(_) => AuthMode::KeyFile,
            },
    {
        match self {
            Credential::Password(_) => AuthMode::Password,
            Credential::KeyFile(_) => AuthMode::KeyFile,
        }
    }
}

impl Plan {
    /// Works the plan out from the configuration.
    pub fn new(config: &PublisherConfig) -> (plan: Plan)
        ensures
            plan@ == plan_of(*config),
    {
        Plan {
            server: config.receiver.server.clone(),
            username: config.receiver.username.clone(),
            credential: select_credential(
                config.receiver.password.as_str(),
                config.receiver.ssh_key.as_str(),
            ),
            local_path: join_path(
                config.app.watchfile_dir.as_str(),
                config.app.watchfile_name.as_str(),
            ),
            remote_path: join_path(
                config.receiver.dir.as_str(),
                config.app.watchfile_name.as_str(),
            ),
            sleep_interval: config.app.sleep_interval,
        }
    }
}

impl Startup {
    /// Where startup begins for a configuration.
    pub fn begin(config: &PublisherConfig) -> (startup: Startup)
        ensures
            startup@ == startup_of(plan_of(*config)),
    {
        let plan = Plan::new(config);
        let uses_key = match &plan.credential {
            Credential::KeyFile(_) => true,
            Credential::Password(_) => false,
        };
        if uses_key {
            Startup::CheckingKey(plan)
        } else {
            Startup::CheckingMarker(plan)
        }
    }

    /// The path to look for now, while startup is neither ready nor failed.
    pub fn pending(&self) -> (path: Option<String>)
        ensures
            match path {
                Some(p) => pending_path(self@) == Some(p@),
                None => pending_path(self@) is None,
            },
    {
        match self {
            Startup::CheckingKey(plan) => match &plan.credential {
                Credential::KeyFile(path) => Some(path.clone()),
                Credential::Password(_) => Some(String::new()),
            },
            Startup::CheckingMarker(plan) => Some(plan.local_path.clone()),
            Startup::Ready(_) => None,
            Startup::Failed(_) => None,
        }
    }

    /// Takes what looking for the pending path gave, and moves on.
    pub fn report(self, probe: Result<bool, String>) -> (next: Startup)
        ensures
            next@ == reported(self@, probe_view(probe)),
    {
        match self {
            Startup::CheckingKey(plan) => match probe {
                Ok(true) => Startup::CheckingMarker(plan),
                Ok(false) => {
                    let path = match plan.credential {
                        Credential::KeyFile(path) => path,
                        Credential::Password(_) => String::new(),
                    };
                    Startup::Failed(StartupError::KeyMissing(path))
                },
                Err(detail) => Startup::Failed(StartupError::KeyUnchecked(detail)),
            },
            Startup::CheckingMarker(plan) => match probe {
                Ok(true) => Startup::Ready(plan),
                Ok(false) => Startup::Failed(StartupError::MarkerMissing(plan.local_path)),
                Err(detail) => Startup::Failed(StartupError::MarkerUnchecked(detail)),
            },
            Startup::Ready(plan) => Startup::Ready(plan),
            Startup::Failed(error) => Startup::Failed(error),
        }
    }
}

impl StartupError {
    /// The line to log.
    pub fn message(&self) -> (text: String)
        ensures
            text@ == startup_message(self@),
    {
        match self {
            StartupError::KeyMissing(path) => {
                let mut text = String::from_str("The configured SSH key (");
                text.append(path.as_str());
                text.append(") does not exist");
                text
            },
            StartupError::KeyUnchecked(detail) => {
                let mut text = String::from_str("Error checking SSH key existence: ");
                text.append(detail.as_str());
                text
            },
            StartupError::MarkerMissing(path) => {
                let mut text = String::from_str("The local filepath ");
                text.append(path.as_str());
                text.append(" does not exist");
                text
            },
            StartupError::MarkerUnchecked(detail) => {
                let mut text = String::from_str("Error checking local file existence: ");
                text.append(detail.as_str());
                text
            },
        }
    }
}

/// The line to log for a failed attempt.
pub fn failure_message(failure: Failure, server: &str, detail: &str) -> (text: String)
    ensures
        text@ == failure_text(failure, server@, detail@),
{
    match failure {
        Failure::ConnectionRefused => {
            let mut text = String::from_str("Port 22 is closed on ");
            text.append(server);
            text
        },
        Failure::ConnectionReset => {
            let mut text = String::from_str("Connection reset by ");
            text.append(server);
            text
        },
        Failure::TimedOut => {
            let mut text = String::from_str("Transactions with ");
            text.append(server);
            text.append(" timed out");
            text
        },
        Failure::Unsupported => {
            let mut text = String::from_str("Transactions with ");
            text.append(server);
            text.append(" are unsupported");
            text
        },
        Failure::Other => {
            let mut text = String::from_str(
                "An undefined error occurred attempting to transact with ",
            );
            text.append(server);
            text.append(": ");
            text.append(detail);
            text
        },
    }
}

/// What the loop does between two attempts: what it logs, if anything, and
/// how long it sleeps.
#[derive(Clone, Debug, PartialEq, Eq)]
pub struct Pause {
    pub log: Option<String>,
    pub sleep: u64,
}

impl Plan {
    /// Decides what follows an attempt that ended with `outcome`; `detail`
    /// is the error as the transport worded it. Whatever the outcome, the
    /// loop sleeps for the configured interval and then tries again; a
    /// failure is logged on the way.
    pub fn after_attempt(&self, outcome: Outcome, detail: &str) -> (pause: Pause)
        ensures
            pause.sleep == self.sleep_interval,
            match outcome {
                Outcome::Delivered => pause.log is None,
                Outcome::Failed(failure) => pause.log matches Some(line) && line@ == failure_text(
                    failure,
                    self.server@,
                    detail@,
                ),
            },
    {
        let log = match outcome {
            Outcome::Delivered => None,
            Outcome::Failed(failure) => Some(
                failure_message(failure, self.server.as_str(), detail),
            ),
        };
        Pause { log, sleep: self.sleep_interval }
    }
}

/// The address to connect to.
pub fn endpoint(server: &str) -> (address: String)
    ensures
        address@ == endpoint_text(server@),
{
    let mut address = String::from_str(server);
    address.append(":22");
    address
}

/// A password never sends startup to the key file, and a key file always
/// does: the marker is the first thing looked for exactly when the configured
/// password is not the sentinel.
pub proof fn lemma_sentinel_selects_key(config: PublisherConfig)
    ensures
        startup_of(plan_of(config)) is CheckingKey <==> config.receiver.password@
            == "use_ssh_keys"@,
        startup_of(plan_of(config)) is CheckingMarker <==> config.receiver.password@
            != "use_ssh_keys"@,
        pending_path(startup_of(plan_of(config))) == Some(
            if config.receiver.password@ == "use_ssh_keys"@ {
                config.receiver.ssh_key@
            } else {
                joined(config.app.watchfile_dir@, config.app.watchfile_name@)
            },
        ),
{
}

/// The loop begins only after everything that had to be looked for was found:
/// startup becomes ready from the marker check alone, and only when the
/// marker is there.
pub proof fn lemma_ready_needs_marker(startup: StartupView, probe: Result<bool, Seq<char>>)
    requires
        !(startup is Ready),
        reported(startup, probe) is Ready,
    ensures
        startup is CheckingMarker,
        probe == Ok::<bool, Seq<char>>(true),
{
}

/// Once startup has failed or is ready, nothing that is reported changes it.
pub proof fn lemma_startup_settles(startup: StartupView, probe: Result<bool, Seq<char>>)
    requires
        startup is Ready || startup is Failed,
    ensures
        reported(startup, probe) == startup,
{
}

} // verus!
