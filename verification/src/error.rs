//! The ways in which the command fails.

use vstd::prelude::*;
use vstd::string::*;

verus! {

/// Why the documentation was not opened. Each failure ends the command; none
/// is retried.
#[derive(Debug, PartialEq, Eq)]
pub enum DocsError {
    /// No interactive terminal is attached, so nobody could be asked.
    NonInteractive,
    /// The user declined.
    Aborted,
    /// The system could not open the address; the text is the cause it gave.
    LaunchFailed(String),
}

/// A failure with its cause as a sequence of characters.
pub enum ErrorView {
    NonInteractive,
    Aborted,
    LaunchFailed(Seq<char>),
}

impl View for DocsError {
    type V = ErrorView;

    open spec fn view(&self) -> ErrorView {
        match self {
            DocsError::NonInteractive => ErrorView::NonInteractive,
            DocsError::Aborted => ErrorView::Aborted,
            DocsError::LaunchFailed(cause) => ErrorView::LaunchFailed(cause@),
        }
    }
}

/// How the command ended, with the cause of a failed launch as a sequence of
/// characters.
pub open spec fn outcome_view(outcome: Result<(), DocsError>) -> Result<(), ErrorView> {
    match outcome {
        Ok(()) => Ok(()),
        Err(e) => Err(e@),
    }
}

/// The message for a command run without an interactive terminal.
pub const NON_INTERACTIVE_FAILURE: &'static str =
    "This command is only available in interactive mode";

/// The message for a command that the user declined.
pub const ABORTED_BY_USER: &'static str = "Aborted by user";

/// What precedes the cause in the message of a failed launch.
pub const LAUNCH_FAILURE: &'static str = "Could not launch external application: ";

/// The message that describes a failure.
pub open spec fn message_of(e: ErrorView) -> Seq<char> {
    match e {
        ErrorView::NonInteractive => NON_INTERACTIVE_FAILURE@,
        ErrorView::Aborted => ABORTED_BY_USER@,
        ErrorView::LaunchFailed(cause) => LAUNCH_FAILURE@ + cause,
    }
}

impl DocsError {
    /// The message to show for this failure.
    pub fn message(&self) -> (text: String)
        ensures
            text@ == message_of(self@),
    {
        match self {
            DocsError::NonInteractive => String::from_str(NON_INTERACTIVE_FAILURE),
            DocsError::Aborted => String::from_str(ABORTED_BY_USER),
            DocsError::LaunchFailed(cause) => String::from_str(LAUNCH_FAILURE).concat(
                cause.as_str(),
            ),
        }
    }
}

} // verus!
