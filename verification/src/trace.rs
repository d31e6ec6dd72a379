//! Whole runs of the save workflow.
//!
//! A [`Script`] fixes what each collaborator would answer if it were asked.
//! [`run`] is the sequence of requests that the machine of [`crate::sync`]
//! makes against such a script, from the first query to the final verdict.
//! Nothing here is executable: the module gives the guarantees of
//! [`crate::guarantees`] something to speak about.

use vstd::prelude::*;
use crate::gate::message_for;
use crate::risk::risk_findings;
use crate::sync::{ActionView, EventView, OutcomeView, StateView, SyncErrorView, opening, transition};

verus! {

/// What the collaborators answer in the course of one invocation. An `Err`
/// holds the text with which the collaborator failed; for a prompt it stands
/// for an interrupted or unreadable answer.
pub struct Script {
    /// Is the directory a tracked repository?
    pub is_repository: Result<bool, Seq<char>>,
    /// Is the user logged in?
    pub logged_in: Result<bool, Seq<char>>,
    /// Is a remote configured?
    pub has_remote: Result<bool, Seq<char>>,
    /// The changed paths.
    pub changes: Result<Seq<Seq<char>>, Seq<char>>,
    /// The user's answer to the consent question.
    pub consent: Result<bool, Seq<char>>,
    /// What the user types at the message prompt.
    pub message: Result<Seq<char>, Seq<char>>,
    /// Does staging succeed?
    pub staged: Result<(), Seq<char>>,
    /// Does the commit succeed?
    pub committed: Result<(), Seq<char>>,
    /// Does publishing succeed?
    pub published: Result<(), Seq<char>>,
}

/// The event that reports a yes/no answer.
pub open spec fn flag_event(answer: Result<bool, Seq<char>>) -> EventView {
    match answer {
        Ok(flag) => EventView::Flag(flag),
        Err(text) => EventView::Failed(text),
    }
}

/// The event that reports how a mutating step went.
pub open spec fn completion_event(result: Result<(), Seq<char>>) -> EventView {
    match result {
        Ok(_) => EventView::Completed,
        Err(text) => EventView::Failed(text),
    }
}

/// The event with which the collaborators of `script` answer `request`.
pub open spec fn answer(script: Script, request: ActionView) -> EventView {
    match request {
        ActionView::QueryTracked => flag_event(script.is_repository),
        ActionView::QueryAuthenticated => flag_event(script.logged_in),
        ActionView::QueryRemote => flag_event(script.has_remote),
        ActionView::ListChanges => match script.changes {
            Ok(paths) => EventView::Paths(paths),
            Err(text) => EventView::Failed(text),
        },
        ActionView::ConfirmRisk { .. } => flag_event(script.consent),
        ActionView::AskMessage { .. } => match script.message {
            Ok(input) => EventView::Text(input),
            Err(text) => EventView::Failed(text),
        },
        ActionView::StageAll => completion_event(script.staged),
        ActionView::Commit { .. } => completion_event(script.committed),
        ActionView::Publish => completion_event(script.published),
        ActionView::Finish(_) => EventView::Completed,
    }
}

/// An upper bound on the number of events that `state` can still take
/// before the run is over.
pub open spec fn steps_left(state: StateView) -> nat {
    match state {
        StateView::CheckingRepository => 9,
        StateView::CheckingSession => 8,
        StateView::CheckingRemote => 7,
        StateView::ListingChanges => 6,
        StateView::Confirming { .. } => 5,
        StateView::CollectingMessage => 4,
        StateView::Staging { .. } => 3,
        StateView::Committing => 2,
        StateView::Publishing => 1,
        StateView::Finished => 0,
    }
}

/// Whether `request` still waits for an answer: every request does, but the
/// final verdict.
pub open spec fn is_pending(request: ActionView) -> bool {
    !(request is Finish)
}

/// The request `request`, made in `state`, is the one that `state` waits
/// for.
pub open spec fn awaits(state: StateView, request: ActionView) -> bool {
    match state {
        StateView::CheckingRepository => request is QueryTracked,
        StateView::CheckingSession => request is QueryAuthenticated,
        StateView::CheckingRemote => request is QueryRemote,
        StateView::ListingChanges => request is ListChanges,
        StateView::Confirming { changes } => request == (ActionView::ConfirmRisk {
            findings: risk_findings(changes),
        }),
        StateView::CollectingMessage => request is AskMessage,
        StateView::Staging { .. } => request is StageAll,
        StateView::Committing => request is Commit,
        StateView::Publishing => request is Publish,
        StateView::Finished => request is Finish,
    }
}

/// The requests that the machine makes from `state` on, `request` being the
/// first of them, when the collaborators answer as `script` says. The
/// sequence ends with the verdict.
pub open spec fn run_from(script: Script, state: StateView, request: ActionView) -> Seq<ActionView>
    decreases steps_left(state), (if is_pending(request) { 1nat } else { 0nat }),
{
    if is_pending(request) {
        let next = transition(state, answer(script, request));
        seq![request] + run_from(script, next.0, next.1)
    } else {
        seq![request]
    }
}

/// The requests of a whole run against `script`.
pub open spec fn run(script: Script) -> Seq<ActionView> {
    run_from(script, opening().0, opening().1)
}

/// The verdict with which `trace` ends.
pub open spec fn verdict(trace: Seq<ActionView>) -> OutcomeView
    recommends
        trace.len() > 0,
        trace.last() is Finish,
{
    trace.last()->Finish_0
}

/// No request of `trace` changes the repository.
pub open spec fn mutates_nothing(trace: Seq<ActionView>) -> bool {
    forall|i: int| 0 <= i < trace.len() ==> !(#[trigger] trace[i]).is_mutating()
}

/// The requests of `trace` that change the repository, in the order in
/// which they were made.
pub open spec fn mutations(trace: Seq<ActionView>) -> Seq<ActionView> {
    trace.filter(|request: ActionView| request.is_mutating())
}

/// The three mutating steps of a save, with `message` as the commit message.
pub open spec fn full_save(message: Seq<char>) -> Seq<ActionView> {
    seq![ActionView::StageAll, ActionView::Commit { message }, ActionView::Publish]
}

/// The three preconditions hold: the directory is tracked, the user is
/// logged in, and a remote is configured.
pub open spec fn preconditions_hold(script: Script) -> bool {
    &&& script.is_repository == Ok::<bool, Seq<char>>(true)
    &&& script.logged_in == Ok::<bool, Seq<char>>(true)
    &&& script.has_remote == Ok::<bool, Seq<char>>(true)
}

/// Every gate is open: the preconditions hold, something has changed, the
/// user has consented if anything looks risky, and the message prompt was
/// answered.
pub open spec fn gates_passed(script: Script) -> bool {
    &&& preconditions_hold(script)
    &&& script.changes is Ok
    &&& script.changes->Ok_0.len() > 0
    &&& risk_findings(script.changes->Ok_0).len() > 0 ==> script.consent == Ok::<bool, Seq<char>>(true)
    &&& script.message is Ok
}

/// What stands in the way of the run when not every precondition holds: the
/// first precondition, in the order in which they are checked, that is not
/// met, or the failure of the collaborator that was asked about it.
pub open spec fn first_obstacle(script: Script) -> SyncErrorView
    recommends
        !preconditions_hold(script),
{
    match script.is_repository {
        Err(text) => SyncErrorView::Backend(text),
        Ok(false) => SyncErrorView::NotTracked,
        Ok(true) => match script.logged_in {
            Err(text) => SyncErrorView::Backend(text),
            Ok(false) => SyncErrorView::NotAuthenticated,
            Ok(true) => match script.has_remote {
                Err(text) => SyncErrorView::Backend(text),
                _ => SyncErrorView::NoRemote,
            },
        },
    }
}

/// The verdict of a run that stops at a gate: the obstacle among the
/// preconditions, the error of the listing, nothing to do, or the user's
/// refusal at one of the two prompts.
pub open spec fn early_verdict(script: Script) -> OutcomeView
    recommends
        !gates_passed(script),
{
    if !preconditions_hold(script) {
        OutcomeView::Failed(first_obstacle(script))
    } else {
        match script.changes {
            Err(text) => OutcomeView::Failed(SyncErrorView::Backend(text)),
            Ok(changes) => if changes.len() == 0 {
                OutcomeView::UpToDate
            } else {
                OutcomeView::Cancelled
            },
        }
    }
}

/// The verdict after a mutating step that ends the run: saved if it
/// succeeded, and its own error if it did not.
pub open spec fn completion_verdict(result: Result<(), Seq<char>>) -> OutcomeView {
    match result {
        Ok(_) => OutcomeView::Saved,
        Err(text) => OutcomeView::Failed(SyncErrorView::Backend(text)),
    }
}

/// The verdict of a run in which `request` failed with `text`: a prompt that
/// fails counts as a refusal, any other failure is handed on unchanged.
pub open spec fn failure_verdict(request: ActionView, text: Seq<char>) -> OutcomeView {
    if request is ConfirmRisk || request is AskMessage {
        OutcomeView::Cancelled
    } else {
        OutcomeView::Failed(SyncErrorView::Backend(text))
    }
}

/// The four queries with which a run begins when every precondition holds.
pub open spec fn preflight() -> Seq<ActionView> {
    seq![
        ActionView::QueryTracked,
        ActionView::QueryAuthenticated,
        ActionView::QueryRemote,
        ActionView::ListChanges,
    ]
}

/// The requests up to the message prompt when every gate is open: the four
/// queries, the consent question if anything looks risky, and the prompt.
pub open spec fn approach(script: Script) -> Seq<ActionView> {
    let changes = script.changes->Ok_0;
    if risk_findings(changes).len() > 0 {
        preflight() + seq![
            ActionView::ConfirmRisk { findings: risk_findings(changes) },
            ActionView::AskMessage { changes },
        ]
    } else {
        preflight() + seq![ActionView::AskMessage { changes }]
    }
}

/// The requests from staging on when every gate is open: each mutating step
/// is made if the one before it succeeded, and the first failure, or the
/// success of the last step, is the verdict.
pub open spec fn save_steps(script: Script) -> Seq<ActionView> {
    let stage = ActionView::StageAll;
    let commit = ActionView::Commit { message: message_for(script.message->Ok_0) };
    if script.staged is Err {
        seq![stage, ActionView::Finish(completion_verdict(script.staged))]
    } else if script.committed is Err {
        seq![stage, commit, ActionView::Finish(completion_verdict(script.committed))]
    } else {
        seq![
            stage,
            commit,
            ActionView::Publish,
            ActionView::Finish(completion_verdict(script.published)),
        ]
    }
}

} // verus!
