//! How a run ends.

use vstd::prelude::*;
use vstd::string::*;

verus! {

/// Why a run failed.
#[derive(Debug, PartialEq, Eq)]
pub enum Failure {
    /// The local configuration could not be loaded or inferred; carries the
    /// underlying error.
    Config(String),
    /// The cluster refused the connectivity probe for want of authentication.
    Unauthorized,
    /// Any other error of the cluster or its API; carries the underlying error.
    Cluster(String),
    /// The prompt failed or was cancelled; carries the underlying error.
    Prompt(String),
    /// `kubectl` could not be launched; carries the underlying error.
    Launch(String),
    /// `kubectl` ran and did not exit with status zero; carries its exit
    /// code, where it had one.
    Command(Option<i32>),
    /// An event arrived that does not answer the action that was pending.
    Protocol,
}

/// How a run ends.
#[derive(Debug, PartialEq, Eq)]
pub enum Outcome {
    /// The selection was applied, or was already in effect.
    Success,
    /// Nothing was changed by this run.
    Failure(Failure),
}

/// Mathematical value of a [`Failure`].
pub enum FailureView {
    Config(Seq<char>),
    Unauthorized,
    Cluster(Seq<char>),
    Prompt(Seq<char>),
    Launch(Seq<char>),
    Command(Option<i32>),
    Protocol,
}

/// Mathematical value of an [`Outcome`].
pub enum OutcomeView {
    Success,
    Failure(FailureView),
}

impl View for Failure {
    type V = FailureView;

    open spec fn view(&self) -> FailureView {
        match self {
            Failure::Config(message) => FailureView::Config(message@),
            Failure::Unauthorized => FailureView::Unauthorized,
            Failure::Cluster(message) => FailureView::Cluster(message@),
            Failure::Prompt(message) => FailureView::Prompt(message@),
            Failure::Launch(message) => FailureView::Launch(message@),
            Failure::Command(code) => FailureView::Command(*code),
            Failure::Protocol => FailureView::Protocol,
        }
    }
}

impl View for Outcome {
    type V = OutcomeView;

    open spec fn view(&self) -> OutcomeView {
        match self {
            Outcome::Success => OutcomeView::Success,
            Outcome::Failure(failure) => OutcomeView::Failure(failure@),
        }
    }
}

/// The HTTP status with which a cluster answers an unauthenticated request.
pub const UNAUTHORIZED_STATUS: u16 = 401;

/// The failure that a failed connectivity probe amounts to: a missing
/// authentication is told apart, every other error is passed on as it came.
pub open spec fn probe_failure(status: Option<u16>, message: Seq<char>) -> FailureView {
    if status == Some(UNAUTHORIZED_STATUS) {
        FailureView::Unauthorized
    } else {
        FailureView::Cluster(message)
    }
}

/// Classifies the error of a failed connectivity probe. `status` is the HTTP
/// status of the API error, if the error is one; `message` is the error as
/// the client reports it.
pub fn classify_probe_failure(status: Option<u16>, message: String) -> (failure: Failure)
    ensures
        failure@ == probe_failure(status, message@),
{
    match status {
        Some(code) => {
            if code == UNAUTHORIZED_STATUS {
                Failure::Unauthorized
            } else {
                Failure::Cluster(message)
            }
        },
        None => Failure::Cluster(message),
    }
}

/// What a failure has to say to the user.
pub open spec fn failure_message(failure: FailureView) -> Seq<char> {
    match failure {
        FailureView::Config(message) => message,
        FailureView::Unauthorized => "Unauthorized - are you logged in on the cluster?"@,
        FailureView::Cluster(message) => message,
        FailureView::Prompt(message) => message,
        FailureView::Launch(message) => message,
        FailureView::Command(_) => "kubectl did not exit successfully"@,
        FailureView::Protocol => "event does not answer the pending action"@,
    }
}

/// The exit status of a run that ended in `outcome`: zero for a success, the
/// exit code of `kubectl` where that is what failed, and one otherwise.
pub open spec fn exit_status(outcome: OutcomeView) -> int {
    match outcome {
        OutcomeView::Success => 0,
        OutcomeView::Failure(FailureView::Command(Some(code))) => if code != 0 {
            code as int
        } else {
            1
        },
        OutcomeView::Failure(_) => 1,
    }
}

impl Failure {
    /// The message to report: the underlying error where there is one, unchanged.
    pub fn message(&self) -> (text: String)
        ensures
            text@ == failure_message(self@),
    {
        match self {
            Failure::Config(message) => message.clone(),
            Failure::Unauthorized => String::from_str(
                "Unauthorized - are you logged in on the cluster?",
            ),
            Failure::Cluster(message) => message.clone(),
            Failure::Prompt(message) => message.clone(),
            Failure::Launch(message) => message.clone(),
            Failure::Command(_) => String::from_str("kubectl did not exit successfully"),
            Failure::Protocol => String::from_str("event does not answer the pending action"),
        }
    }
}

impl Outcome {
    /// Whether the run succeeded.
    pub fn is_success(&self) -> (yes: bool)
        ensures
            yes == (self@ is Success),
    {
        match self {
            Outcome::Success => true,
            Outcome::Failure(_) => false,
        }
    }

    /// The exit status with which the process ends.
    pub fn exit_code(&self) -> (code: i32)
        ensures
            code as int == exit_status(self@),
            code == 0 <==> self@ is Success,
    {
        match self {
            Outcome::Success => 0,
            Outcome::Failure(Failure::Command(Some(code))) => {
                if *code != 0 {
                    *code
                } else {
                    1
                }
            },
            Outcome::Failure(_) => 1,
        }
    }
}

} // verus!
