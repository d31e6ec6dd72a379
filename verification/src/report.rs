//! The words in which a run is reported to the user.
//!
//! Colour and layout are the caller's. The texts are fixed here, so that
//! every front end says the same thing about the same outcome. The error of
//! a collaborator is never reworded: it is shown as it came.

use vstd::prelude::*;
use crate::sync::{Outcome, OutcomeView, SyncError, SyncErrorView};

verus! {

/// The warning that heads the list of findings.
pub const RISK_WARNING: &'static str = "Wait! Potential sensitive or temporary files detected:";

/// The consent question.
pub const CONSENT_QUESTION: &'static str = "Are you sure you want to save these files?";

/// The pointer to ignore rules, shown with the findings of a project that
/// has none.
pub const IGNORE_TIP: &'static str = "Tip: You don't have a .gitignore file.";

/// What to do about the missing ignore rules.
pub const IGNORE_TIP_HINT: &'static str = "Run 'ghk ignore' to add a template for your project.";

/// The heading of the list of changes.
pub const CHANGES_HEADING: &'static str = "Changes to save:";

/// The question for the commit message.
pub const MESSAGE_QUESTION: &'static str = "What did you change?";

/// The notice that goes before the mutating steps.
pub const SAVING_NOTICE: &'static str = "Saving...";

/// The text of `error`.
pub open spec fn error_text(error: SyncErrorView) -> Seq<char> {
    match error {
        SyncErrorView::NotTracked => "Not a git repository"@,
        SyncErrorView::NotAuthenticated => "Not logged in"@,
        SyncErrorView::NoRemote => "No remote configured"@,
        SyncErrorView::Backend(text) => text,
        SyncErrorView::UnexpectedEvent => "Unexpected answer from a collaborator"@,
    }
}

/// The line that tells the user how the run ended.
pub open spec fn headline_text(outcome: OutcomeView) -> Seq<char> {
    match outcome {
        OutcomeView::UpToDate => "Already up to date"@,
        OutcomeView::Cancelled => "Cancelled. Clean up your files or add them to .gitignore."@,
        OutcomeView::Saved => "Saved to GitHub!"@,
        OutcomeView::Failed(SyncErrorView::NotTracked) => "Not a git repository"@,
        OutcomeView::Failed(SyncErrorView::NotAuthenticated) => "Not logged in to GitHub"@,
        OutcomeView::Failed(SyncErrorView::NoRemote) => "Not connected to GitHub"@,
        OutcomeView::Failed(error) => error_text(error),
    }
}

/// The second line, where there is one: what the user can do about a
/// precondition that does not hold, or why there was nothing to do.
pub open spec fn hint_text(outcome: OutcomeView) -> Option<Seq<char>> {
    match outcome {
        OutcomeView::UpToDate => Some("No changes to save"@),
        OutcomeView::Failed(SyncErrorView::NotTracked) => Some("Run 'ghk init' first"@),
        OutcomeView::Failed(SyncErrorView::NotAuthenticated) => Some("Run 'ghk login' first"@),
        OutcomeView::Failed(SyncErrorView::NoRemote) => Some(
            "Run 'ghk create' first to create a repository"@,
        ),
        _ => None,
    }
}

impl SyncError {
    /// The text of the error. A collaborator's error is given verbatim.
    pub fn message(&self) -> (text: &str)
        ensures
            text@ == error_text(self@),
    {
        match self {
            SyncError::NotTracked => "Not a git repository",
            SyncError::NotAuthenticated => "Not logged in",
            SyncError::NoRemote => "No remote configured",
            SyncError::Backend(text) => text.as_str(),
            SyncError::UnexpectedEvent => "Unexpected answer from a collaborator",
        }
    }
}

impl Outcome {
    /// The line that tells the user how the run ended.
    pub fn headline(&self) -> (text: &str)
        ensures
            text@ == headline_text(self@),
    {
        match self {
            Outcome::UpToDate => "Already up to date",
            Outcome::Cancelled => "Cancelled. Clean up your files or add them to .gitignore.",
            Outcome::Saved => "Saved to GitHub!",
            Outcome::Failed(SyncError::NotTracked) => "Not a git repository",
            Outcome::Failed(SyncError::NotAuthenticated) => "Not logged in to GitHub",
            Outcome::Failed(SyncError::NoRemote) => "Not connected to GitHub",
            Outcome::Failed(error) => error.message(),
        }
    }

    /// The second line, where there is one.
    pub fn hint(&self) -> (text: Option<&'static str>)
        ensures
            text.deep_view() == hint_text(self@),
    {
        match self {
            Outcome::UpToDate => Some("No changes to save"),
            Outcome::Failed(SyncError::NotTracked) => Some("Run 'ghk init' first"),
            Outcome::Failed(SyncError::NotAuthenticated) => Some("Run 'ghk login' first"),
            Outcome::Failed(SyncError::NoRemote) => Some(
                "Run 'ghk create' first to create a repository",
            ),
            _ => None,
        }
    }
}

/// The error of a collaborator reaches the user unchanged, as the text of
/// the error and as the headline of the outcome.
pub proof fn backend_error_is_verbatim(text: Seq<char>)
    ensures
        error_text(SyncErrorView::Backend(text)) == text,
        headline_text(OutcomeView::Failed(SyncErrorView::Backend(text))) == text,
{
}

} // verus!
