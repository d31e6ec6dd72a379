//! The orchestrator of the save workflow, as a state machine.
//!
//! The machine never touches the repository, the hosting platform or the
//! terminal. It asks for one [`Action`] at a time; the caller carries it out
//! and reports back with an [`Event`]; [`step`] then decides what comes next.
//! The order is fixed: is the directory tracked, is the user logged in, is
//! there a remote, what has changed, does anything look risky (ask for
//! consent if so), which message, and only then stage, commit and publish.
//! The first failed check ends the run. Nothing is retried and nothing is
//! rolled back.

use vstd::prelude::*;
use crate::gate::{commit_message, message_for};
use crate::risk::{classify, risk_findings};

verus! {

/// Why a run ended without saving, other than by the user's choice or for
/// want of changes.
#[derive(Debug, Clone, PartialEq, Eq)]
pub enum SyncError {
    /// The working directory is not a tracked repository.
    NotTracked,
    /// The user is not logged in to the hosting platform.
    NotAuthenticated,
    /// The repository has no remote to publish to.
    NoRemote,
    /// A collaborator failed; the text is its own, unchanged.
    Backend(String),
    /// An event arrived that does not answer the pending request.
    UnexpectedEvent,
}

/// Mathematical model of a [`SyncError`].
pub enum SyncErrorView {
    NotTracked,
    NotAuthenticated,
    NoRemote,
    Backend(Seq<char>),
    UnexpectedEvent,
}

impl View for SyncError {
    type V = SyncErrorView;

    open spec fn view(&self) -> SyncErrorView {
        match self {
            SyncError::NotTracked => SyncErrorView::NotTracked,
            SyncError::NotAuthenticated => SyncErrorView::NotAuthenticated,
            SyncError::NoRemote => SyncErrorView::NoRemote,
            SyncError::Backend(text) => SyncErrorView::Backend(text@),
            SyncError::UnexpectedEvent => SyncErrorView::UnexpectedEvent,
        }
    }
}

/// How a run ended.
#[derive(Debug, Clone, PartialEq, Eq)]
pub enum Outcome {
    /// There was nothing to save.
    UpToDate,
    /// The user declined, or a prompt was interrupted. Nothing was changed.
    Cancelled,
    /// The changes were staged, committed and published.
    Saved,
    /// The run failed.
    Failed(SyncError),
}

/// Mathematical model of an [`Outcome`].
pub enum OutcomeView {
    UpToDate,
    Cancelled,
    Saved,
    Failed(SyncErrorView),
}

impl View for Outcome {
    type V = OutcomeView;

    open spec fn view(&self) -> OutcomeView {
        match self {
            Outcome::UpToDate => OutcomeView::UpToDate,
            Outcome::Cancelled => OutcomeView::Cancelled,
            Outcome::Saved => OutcomeView::Saved,
            Outcome::Failed(error) => OutcomeView::Failed(error@),
        }
    }
}

impl OutcomeView {
    /// Whether the run counts as a success: the changes were saved, or there
    /// was nothing to do, or the user chose not to go on.
    pub open spec fn is_success(self) -> bool {
        !(self is Failed)
    }
}

impl Outcome {
    /// Tells success from failure, as the exit status of a program would.
    pub fn is_success(&self) -> (success: bool)
        ensures
            success == self@.is_success(),
    {
        match self {
            Outcome::Failed(_) => false,
            _ => true,
        }
    }
}

/// What the machine asks its caller to do.
#[derive(Debug, Clone, PartialEq, Eq)]
pub enum Action {
    /// Ask the repository inspector whether the directory is tracked.
    QueryTracked,
    /// Ask the host session whether the user is logged in.
    QueryAuthenticated,
    /// Ask the repository inspector whether a remote is configured.
    QueryRemote,
    /// Ask the repository inspector for the changed paths.
    ListChanges,
    /// Show the findings and ask the user whether to save them all the same.
    ConfirmRisk { findings: Vec<String> },
    /// Show the changes and ask the user for a commit message.
    AskMessage { changes: Vec<String> },
    /// Stage every change.
    StageAll,
    /// Commit what is staged under `message`.
    Commit { message: String },
    /// Publish the local history to the remote.
    Publish,
    /// Stop and report the outcome.
    Finish(Outcome),
}

/// Mathematical model of an [`Action`].
pub enum ActionView {
    QueryTracked,
    QueryAuthenticated,
    QueryRemote,
    ListChanges,
    ConfirmRisk { findings: Seq<Seq<char>> },
    AskMessage { changes: Seq<Seq<char>> },
    StageAll,
    Commit { message: Seq<char> },
    Publish,
    Finish(OutcomeView),
}

impl View for Action {
    type V = ActionView;

    open spec fn view(&self) -> ActionView {
        match self {
            Action::QueryTracked => ActionView::QueryTracked,
            Action::QueryAuthenticated => ActionView::QueryAuthenticated,
            Action::QueryRemote => ActionView::QueryRemote,
            Action::ListChanges => ActionView::ListChanges,
            Action::ConfirmRisk { findings } => ActionView::ConfirmRisk {
                findings: findings.deep_view(),
            },
            Action::AskMessage { changes } => ActionView::AskMessage {
                changes: changes.deep_view(),
            },
            Action::StageAll => ActionView::StageAll,
            Action::Commit { message } => ActionView::Commit { message: message@ },
            Action::Publish => ActionView::Publish,
            Action::Finish(outcome) => ActionView::Finish(outcome@),
        }
    }
}

impl ActionView {
    /// Whether the request changes the repository, locally or on the remote.
    pub open spec fn is_mutating(self) -> bool {
        self is StageAll || self is Commit || self is Publish
    }
}

impl Action {
    /// Tells the requests that change the repository from those that only
    /// inspect it or talk to the user.
    pub fn is_mutating(&self) -> (mutating: bool)
        ensures
            mutating == self@.is_mutating(),
    {
        match self {
            Action::StageAll => true,
            Action::Commit { .. } => true,
            Action::Publish => true,
            _ => false,
        }
    }
}

/// What the caller reports after carrying out an action.
#[derive(Debug, Clone, PartialEq, Eq)]
pub enum Event {
    /// The answer to a yes/no query or to the consent question.
    Flag(bool),
    /// The changed paths, in the order in which the inspector lists them.
    Paths(Vec<String>),
    /// What the user typed at the message prompt; may be empty.
    Text(String),
    /// A mutating step has succeeded.
    Completed,
    /// The collaborator failed, or the prompt was interrupted or unreadable.
    Failed(String),
}

/// Mathematical model of an [`Event`].
pub enum EventView {
    Flag(bool),
    Paths(Seq<Seq<char>>),
    Text(Seq<char>),
    Completed,
    Failed(Seq<char>),
}

impl View for Event {
    type V = EventView;

    open spec fn view(&self) -> EventView {
        match self {
            Event::Flag(answer) => EventView::Flag(*answer),
            Event::Paths(paths) => EventView::Paths(paths.deep_view()),
            Event::Text(text) => EventView::Text(text@),
            Event::Completed => EventView::Completed,
            Event::Failed(text) => EventView::Failed(text@),
        }
    }
}

/// Where a run stands: which answer the machine is waiting for, and what it
/// has to remember until then.
#[derive(Debug, Clone, PartialEq, Eq)]
pub enum State {
    /// Waiting to learn whether the directory is tracked.
    CheckingRepository,
    /// Waiting to learn whether the user is logged in.
    CheckingSession,
    /// Waiting to learn whether a remote is configured.
    CheckingRemote,
    /// Waiting for the changed paths.
    ListingChanges,
    /// Waiting for the user's consent to save `changes`, some of them risky.
    Confirming { changes: Vec<String> },
    /// Waiting for the commit message.
    CollectingMessage,
    /// Waiting for staging to end; `message` is what will be committed.
    Staging { message: String },
    /// Waiting for the commit to end.
    Committing,
    /// Waiting for publishing to end.
    Publishing,
    /// The run is over.
    Finished,
}

/// Mathematical model of a [`State`].
pub enum StateView {
    CheckingRepository,
    CheckingSession,
    CheckingRemote,
    ListingChanges,
    Confirming { changes: Seq<Seq<char>> },
    CollectingMessage,
    Staging { message: Seq<char> },
    Committing,
    Publishing,
    Finished,
}

impl View for State {
    type V = StateView;

    open spec fn view(&self) -> StateView {
        match self {
            State::CheckingRepository => StateView::CheckingRepository,
            State::CheckingSession => StateView::CheckingSession,
            State::CheckingRemote => StateView::CheckingRemote,
            State::ListingChanges => StateView::ListingChanges,
            State::Confirming { changes } => StateView::Confirming { changes: changes.deep_view() },
            State::CollectingMessage => StateView::CollectingMessage,
            State::Staging { message } => StateView::Staging { message: message@ },
            State::Committing => StateView::Committing,
            State::Publishing => StateView::Publishing,
            State::Finished => StateView::Finished,
        }
    }
}

/// The run ends with `outcome`.
pub open spec fn finish(outcome: OutcomeView) -> (StateView, ActionView) {
    (StateView::Finished, ActionView::Finish(outcome))
}

/// The run ends because the collaborator failed with `text`.
pub open spec fn fail(text: Seq<char>) -> (StateView, ActionView) {
    finish(OutcomeView::Failed(SyncErrorView::Backend(text)))
}

/// The run ends because the event does not answer the pending request.
pub open spec fn reject() -> (StateView, ActionView) {
    finish(OutcomeView::Failed(SyncErrorView::UnexpectedEvent))
}

/// The step after a precondition check: on `true` the run goes `onward`, on
/// `false` it ends with `missing`.
pub open spec fn after_check(
    event: EventView,
    missing: SyncErrorView,
    onward: (StateView, ActionView),
) -> (StateView, ActionView) {
    match event {
        EventView::Flag(true) => onward,
        EventView::Flag(false) => finish(OutcomeView::Failed(missing)),
        EventView::Failed(text) => fail(text),
        _ => reject(),
    }
}

/// The step after a mutating action: on success the run goes `onward`, on
/// failure it ends with the collaborator's error.
pub open spec fn after_mutation(event: EventView, onward: (StateView, ActionView)) -> (
    StateView,
    ActionView,
) {
    match event {
        EventView::Completed => onward,
        EventView::Failed(text) => fail(text),
        _ => reject(),
    }
}

/// The step after the changes were listed: no changes end the run, risky
/// ones call for consent, harmless ones go straight to the message prompt.
pub open spec fn after_listing(event: EventView) -> (StateView, ActionView) {
    match event {
        EventView::Paths(changes) => {
            if changes.len() == 0 {
                finish(OutcomeView::UpToDate)
            } else if risk_findings(changes).len() > 0 {
                (
                    StateView::Confirming { changes },
                    ActionView::ConfirmRisk { findings: risk_findings(changes) },
                )
            } else {
                (StateView::CollectingMessage, ActionView::AskMessage { changes })
            }
        },
        EventView::Failed(text) => fail(text),
        _ => reject(),
    }
}

/// The step after the consent question: only a plain yes lets the run go on.
/// A no ends it, and so does a prompt that failed or was interrupted.
pub open spec fn after_consent(event: EventView, changes: Seq<Seq<char>>) -> (
    StateView,
    ActionView,
) {
    match event {
        EventView::Flag(true) => (
            StateView::CollectingMessage,
            ActionView::AskMessage { changes },
        ),
        EventView::Flag(false) => finish(OutcomeView::Cancelled),
        EventView::Failed(_) => finish(OutcomeView::Cancelled),
        _ => reject(),
    }
}

/// The step after the message prompt: an answer, empty or not, starts the
/// mutating steps; a prompt that failed or was interrupted ends the run.
pub open spec fn after_message(event: EventView) -> (StateView, ActionView) {
    match event {
        EventView::Text(input) => (
            StateView::Staging { message: message_for(input) },
            ActionView::StageAll,
        ),
        EventView::Failed(_) => finish(OutcomeView::Cancelled),
        _ => reject(),
    }
}

/// The transition function of the machine: the state and the request that
/// follow `state` when `event` arrives.
pub open spec fn transition(state: StateView, event: EventView) -> (StateView, ActionView) {
    match state {
        StateView::CheckingRepository => after_check(
            event,
            SyncErrorView::NotTracked,
            (StateView::CheckingSession, ActionView::QueryAuthenticated),
        ),
        StateView::CheckingSession => after_check(
            event,
            SyncErrorView::NotAuthenticated,
            (StateView::CheckingRemote, ActionView::QueryRemote),
        ),
        StateView::CheckingRemote => after_check(
            event,
            SyncErrorView::NoRemote,
            (StateView::ListingChanges, ActionView::ListChanges),
        ),
        StateView::ListingChanges => after_listing(event),
        StateView::Confirming { changes } => after_consent(event, changes),
        StateView::CollectingMessage => after_message(event),
        StateView::Staging { message } => after_mutation(
            event,
            (StateView::Committing, ActionView::Commit { message }),
        ),
        StateView::Committing => after_mutation(
            event,
            (StateView::Publishing, ActionView::Publish),
        ),
        StateView::Publishing => after_mutation(event, finish(OutcomeView::Saved)),
        StateView::Finished => reject(),
    }
}

/// The state and the request with which every run begins.
pub open spec fn opening() -> (StateView, ActionView) {
    (StateView::CheckingRepository, ActionView::QueryTracked)
}

/// Begins a run: the first thing to find out is whether the directory is a
/// tracked repository.
pub fn start() -> (first: (State, Action))
    ensures
        (first.0@, first.1@) == opening(),
{
    (State::CheckingRepository, Action::QueryTracked)
}

fn finished(outcome: Outcome) -> (next: (State, Action))
    ensures
        (next.0@, next.1@) == finish(outcome@),
{
    (State::Finished, Action::Finish(outcome))
}

fn check_step(event: Event, missing: SyncError, onward: (State, Action)) -> (next: (State, Action))
    ensures
        (next.0@, next.1@) == after_check(event@, missing@, (onward.0@, onward.1@)),
{
    match event {
        Event::Flag(true) => onward,
        Event::Flag(false) => finished(Outcome::Failed(missing)),
        Event::Failed(text) => finished(Outcome::Failed(SyncError::Backend(text))),
        _ => finished(Outcome::Failed(SyncError::UnexpectedEvent)),
    }
}

fn mutation_step(event: Event, onward: (State, Action)) -> (next: (State, Action))
    ensures
        (next.0@, next.1@) == after_mutation(event@, (onward.0@, onward.1@)),
{
    match event {
        Event::Completed => onward,
        Event::Failed(text) => finished(Outcome::Failed(SyncError::Backend(text))),
        _ => finished(Outcome::Failed(SyncError::UnexpectedEvent)),
    }
}

fn listing_step(event: Event) -> (next: (State, Action))
    ensures
        (next.0@, next.1@) == after_listing(event@),
{
    match event {
        Event::Paths(changes) => {
            if changes.len() == 0 {
                finished(Outcome::UpToDate)
            } else {
                let findings = classify(&changes);
                if findings.len() > 0 {
                    (State::Confirming { changes }, Action::ConfirmRisk { findings })
                } else {
                    (State::CollectingMessage, Action::AskMessage { changes })
                }
            }
        },
        Event::Failed(text) => finished(Outcome::Failed(SyncError::Backend(text))),
        _ => finished(Outcome::Failed(SyncError::UnexpectedEvent)),
    }
}

fn consent_step(event: Event, changes: Vec<String>) -> (next: (State, Action))
    ensures
        (next.0@, next.1@) == after_consent(event@, changes.deep_view()),
{
    match event {
        Event::Flag(true) => (State::CollectingMessage, Action::AskMessage { changes }),
        Event::Flag(false) => finished(Outcome::Cancelled),
        Event::Failed(_) => finished(Outcome::Cancelled),
        _ => finished(Outcome::Failed(SyncError::UnexpectedEvent)),
    }
}

fn message_step(event: Event) -> (next: (State, Action))
    ensures
        (next.0@, next.1@) == after_message(event@),
{
    match event {
        Event::Text(input) => (State::Staging { message: commit_message(input) }, Action::StageAll),
        Event::Failed(_) => finished(Outcome::Cancelled),
        _ => finished(Outcome::Failed(SyncError::UnexpectedEvent)),
    }
}

/// Advances the run: given where it stands and what the caller reports, says
/// where it stands now and what to do next.
///
/// The function is total. An event that does not answer the pending request
/// ends the run with [`SyncError::UnexpectedEvent`], and so does any event
/// after the run is over.
pub fn step(state: State, event: Event) -> (next: (State, Action))
    ensures
        (next.0@, next.1@) == transition(state@, event@),
{
    match state {
        State::CheckingRepository => check_step(
            event,
            SyncError::NotTracked,
            (State::CheckingSession, Action::QueryAuthenticated),
        ),
        State::CheckingSession => check_step(
            event,
            SyncError::NotAuthenticated,
            (State::CheckingRemote, Action::QueryRemote),
        ),
        State::CheckingRemote => check_step(
            event,
            SyncError::NoRemote,
            (State::ListingChanges, Action::ListChanges),
        ),
        State::ListingChanges => listing_step(event),
        State::Confirming { changes } => consent_step(event, changes),
        State::CollectingMessage => message_step(event),
        State::Staging { message } => mutation_step(
            event,
            (State::Committing, Action::Commit { message }),
        ),
        State::Committing => mutation_step(event, (State::Publishing, Action::Publish)),
        State::Publishing => mutation_step(event, finished(Outcome::Saved)),
        State::Finished => finished(Outcome::Failed(SyncError::UnexpectedEvent)),
    }
}

} // verus!
