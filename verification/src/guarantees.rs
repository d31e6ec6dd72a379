//! What holds of every run of the save workflow.
//!
//! Each proof function states one guarantee over all scripts, that is over
//! every way in which the repository, the hosting platform and the user may
//! answer. Together they say that the repository is touched only after
//! every check has passed and the user has agreed, that it is touched in one
//! order only, and that the first failure ends the run.

use vstd::prelude::*;
use crate::gate::{default_message_text, message_for};
use crate::risk::risk_findings;
use crate::sync::{ActionView, EventView, OutcomeView, StateView, SyncErrorView, opening, transition};
use crate::trace::{
    Script, answer, approach, awaits, completion_verdict, early_verdict, failure_verdict,
    first_obstacle, full_save, gates_passed, is_pending, mutates_nothing, mutations,
    preconditions_hold, preflight, run, run_from, save_steps, steps_left, verdict,
};

verus! {

/// Whatever happens, the machine stays in step with its caller: the state
/// that follows an event waits for the very request that goes out with it.
/// The run also moves forward: unless it is over, fewer events can follow.
pub proof fn transition_stays_in_step(state: StateView, event: EventView)
    ensures
        awaits(opening().0, opening().1),
        awaits(transition(state, event).0, transition(state, event).1),
        !(state is Finished) ==> steps_left(transition(state, event).0) < steps_left(state),
{
}

/// Runs are finite and end properly: the last element of a run is the
/// verdict, no element before it is, and at most nine elements precede it.
pub proof fn run_reaches_a_verdict(script: Script)
    ensures
        2 <= run(script).len() <= 10,
        run(script).last() is Finish,
        forall|i: int| 0 <= i < run(script).len() - 1 ==> is_pending(#[trigger] run(script)[i]),
{
    run_from_reaches_a_verdict(script, opening().0, opening().1);
}

proof fn run_from_reaches_a_verdict(script: Script, state: StateView, request: ActionView)
    requires
        awaits(state, request),
    ensures
        1 <= run_from(script, state, request).len() <= steps_left(state) + 1,
        is_pending(request) ==> 2 <= run_from(script, state, request).len(),
        run_from(script, state, request).last() is Finish,
        forall|i: int|
            0 <= i < run_from(script, state, request).len() - 1 ==> is_pending(
                #[trigger] run_from(script, state, request)[i],
            ),
    decreases steps_left(state), (if is_pending(request) { 1nat } else { 0nat }),
{
    if is_pending(request) {
        let next = transition(state, answer(script, request));
        run_from_reaches_a_verdict(script, next.0, next.1);
    }
}

/// A failed precondition stops the run before anything is changed, whatever
/// the change set holds. The verdict names the first precondition that does
/// not hold, or hands on the error of the collaborator that could not say.
pub proof fn failed_precondition_mutates_nothing(script: Script)
    requires
        !preconditions_hold(script),
    ensures
        mutates_nothing(run(script)),
        !verdict(run(script)).is_success(),
        verdict(run(script)) == OutcomeView::Failed(first_obstacle(script)),
{
    reveal_with_fuel(run_from, 5);
    let failed = ActionView::Finish(OutcomeView::Failed(first_obstacle(script)));
    if script.is_repository != Ok::<bool, Seq<char>>(true) {
        assert(run(script) =~= seq![ActionView::QueryTracked, failed]);
    } else if script.logged_in != Ok::<bool, Seq<char>>(true) {
        assert(run(script) =~= seq![
            ActionView::QueryTracked,
            ActionView::QueryAuthenticated,
            failed,
        ]);
    } else {
        assert(run(script) =~= seq![
            ActionView::QueryTracked,
            ActionView::QueryAuthenticated,
            ActionView::QueryRemote,
            failed,
        ]);
    }
}

/// A run that finds a gate closed stops there and changes nothing. Its
/// verdict tells which gate it was.
pub proof fn closed_gate_ends_the_run(script: Script)
    requires
        !gates_passed(script),
    ensures
        mutates_nothing(run(script)),
        verdict(run(script)) == early_verdict(script),
        verdict(run(script)) != OutcomeView::Saved,
{
    broadcast use vstd::seq_lib::group_filter_ensures;

    if !preconditions_hold(script) {
        failed_precondition_mutates_nothing(script);
    } else {
        reveal_with_fuel(run_from, 8);
        let ended = ActionView::Finish(early_verdict(script));
        match script.changes {
            Err(text) => {
                assert(run(script) =~= preflight().push(ended));
            },
            Ok(changes) => {
                let consent = ActionView::ConfirmRisk { findings: risk_findings(changes) };
                let asked = ActionView::AskMessage { changes };
                if changes.len() == 0 {
                    assert(run(script) =~= preflight().push(ended));
                } else if risk_findings(changes).len() == 0 {
                    assert(run(script) =~= preflight() + seq![asked, ended]);
                } else if script.consent != Ok::<bool, Seq<char>>(true) {
                    assert(run(script) =~= preflight() + seq![consent, ended]);
                } else {
                    assert(run(script) =~= preflight() + seq![consent, asked, ended]);
                }
            },
        }
    }
}

/// When every gate is open, the run is the approach followed by the steps
/// of the save, and nothing is changed before the first of those.
pub proof fn open_gates_lead_to_the_save(script: Script)
    requires
        gates_passed(script),
    ensures
        run(script) == approach(script) + save_steps(script),
        mutates_nothing(approach(script)),
        save_steps(script)[0] is StageAll,
        approach(script).last() is AskMessage,
{
    reveal_with_fuel(run_from, 11);
    assert(run(script) =~= approach(script) + save_steps(script));
}

/// The repository is touched if and only if every gate is open.
pub proof fn mutation_needs_every_gate(script: Script)
    ensures
        mutates_nothing(run(script)) <==> !gates_passed(script),
{
    if gates_passed(script) {
        open_gates_lead_to_the_save(script);
        let first = approach(script).len() as int;
        assert(run(script)[first] == save_steps(script)[0]);
        assert(run(script)[first].is_mutating());
    } else {
        closed_gate_ends_the_run(script);
    }
}

/// The repository is only ever changed in one order: stage, then commit,
/// then publish, none of them twice and none without the one before it.
/// Whatever the collaborators answer, the mutating requests of a run are
/// the beginning of a full save. They are all of it exactly when every gate
/// is open and staging and the commit succeed, and the verdict is a save
/// exactly when publishing succeeds as well.
pub proof fn mutations_follow_the_save_order(script: Script)
    ensures
        mutations(run(script)).is_prefix_of(full_save(message_for(script.message->Ok_0))),
        mutations(run(script)) == full_save(message_for(script.message->Ok_0)) <==> gates_passed(
            script,
        ) && script.staged is Ok && script.committed is Ok,
        verdict(run(script)) == OutcomeView::Saved <==> gates_passed(script) && script.staged is Ok
            && script.committed is Ok && script.published is Ok,
{
    assert(full_save(message_for(script.message->Ok_0)).len() == 3);
    if gates_passed(script) {
        mutations_of_an_open_run(script);
        mutations_of_the_save(script);
    } else {
        closed_gate_ends_the_run(script);
        harmless_trace_has_no_mutations(run(script));
    }
}

/// When every gate is open, the mutating requests of the run are those of
/// the steps of the save, and the run ends as they do.
proof fn mutations_of_an_open_run(script: Script)
    requires
        gates_passed(script),
    ensures
        mutations(run(script)) == mutations(save_steps(script)),
        run(script).last() == save_steps(script).last(),
{
    open_gates_lead_to_the_save(script);
    harmless_trace_has_no_mutations(approach(script));
    Seq::filter_distributes_over_add(
        approach(script),
        save_steps(script),
        |request: ActionView| request.is_mutating(),
    );
    assert(Seq::<ActionView>::empty() + mutations(save_steps(script)) =~= mutations(
        save_steps(script),
    ));
}

/// A trace that changes nothing has no mutating requests to list.
pub proof fn harmless_trace_has_no_mutations(trace: Seq<ActionView>)
    requires
        mutates_nothing(trace),
    ensures
        mutations(trace) == Seq::<ActionView>::empty(),
{
    let changing = |request: ActionView| request.is_mutating();
    let found = mutations(trace);
    if found.len() > 0 {
        assert(found.contains(found[0]));
        trace.lemma_filter_contains_rev(changing, found[0]);
        trace.lemma_filter_pred(changing, 0);
    }
}

/// One more request at the end of a trace is one more mutation if it is
/// mutating, and none if it is not.
proof fn mutations_after_push(trace: Seq<ActionView>, request: ActionView)
    ensures
        mutations(trace.push(request)) == if request.is_mutating() {
            mutations(trace).push(request)
        } else {
            mutations(trace)
        },
        mutations(Seq::<ActionView>::empty()) == Seq::<ActionView>::empty(),
{
    reveal(Seq::filter);
    trace.lemma_filter_push(request, |request: ActionView| request.is_mutating());
}

/// The mutating requests among the steps of the save are all of them but
/// the verdict.
proof fn mutations_of_the_save(script: Script)
    ensures
        mutations(save_steps(script)) == save_steps(script).drop_last(),
        mutations(save_steps(script)).is_prefix_of(full_save(message_for(script.message->Ok_0))),
        mutations(save_steps(script)) == full_save(message_for(script.message->Ok_0))
            <==> script.staged is Ok && script.committed is Ok,
        save_steps(script).last() == ActionView::Finish(OutcomeView::Saved) <==> script.staged is Ok
            && script.committed is Ok && script.published is Ok,
{
    let none = Seq::<ActionView>::empty();
    let stage = ActionView::StageAll;
    let commit = ActionView::Commit { message: message_for(script.message->Ok_0) };
    let publish = ActionView::Publish;
    let full = full_save(message_for(script.message->Ok_0));
    let end = save_steps(script).last();
    let kept = save_steps(script).drop_last();
    assert(full.len() == 3 && full.subrange(0, 3) == full);
    mutations_after_push(none, stage);
    if script.staged is Err {
        assert(kept == none.push(stage));
        assert(kept == full.subrange(0, 1));
    } else {
        mutations_after_push(none.push(stage), commit);
        if script.committed is Err {
            assert(kept == none.push(stage).push(commit));
            assert(kept == full.subrange(0, 2));
        } else {
            mutations_after_push(none.push(stage).push(commit), publish);
            assert(kept == none.push(stage).push(commit).push(publish));
            assert(kept == full.subrange(0, 3));
        }
    }
    assert(save_steps(script) == kept.push(end));
    mutations_after_push(kept, end);
}

/// With nothing changed, nothing is changed in the repository. Where the
/// preconditions hold, the run ends after the four queries and reports that
/// everything is up to date, which is a success.
pub proof fn no_changes_means_up_to_date(script: Script)
    requires
        script.changes == Ok::<Seq<Seq<char>>, Seq<char>>(Seq::empty()),
    ensures
        mutates_nothing(run(script)),
        preconditions_hold(script) ==> {
            &&& run(script) == preflight().push(ActionView::Finish(OutcomeView::UpToDate))
            &&& verdict(run(script)) == OutcomeView::UpToDate
            &&& verdict(run(script)).is_success()
        },
{
    closed_gate_ends_the_run(script);
    if preconditions_hold(script) {
        reveal_with_fuel(run_from, 6);
        assert(run(script) =~= preflight().push(ActionView::Finish(OutcomeView::UpToDate)));
    }
}

/// When the user does not consent to saving risky changes, by saying no or
/// by leaving the question unanswered, nothing is changed in the repository.
/// Where the preconditions hold, the run ends with the consent question and
/// counts as a success.
pub proof fn declined_risk_mutates_nothing(script: Script)
    requires
        script.changes is Ok,
        risk_findings(script.changes->Ok_0).len() > 0,
        script.consent != Ok::<bool, Seq<char>>(true),
    ensures
        mutates_nothing(run(script)),
        preconditions_hold(script) ==> {
            &&& run(script) == preflight().push(
                ActionView::ConfirmRisk { findings: risk_findings(script.changes->Ok_0) },
            ).push(ActionView::Finish(OutcomeView::Cancelled))
            &&& verdict(run(script)) == OutcomeView::Cancelled
            &&& verdict(run(script)).is_success()
        },
{
    broadcast use vstd::seq_lib::group_filter_ensures;

    closed_gate_ends_the_run(script);
    if preconditions_hold(script) {
        let changes = script.changes->Ok_0;
        assert(changes.len() > 0);
        reveal_with_fuel(run_from, 7);
        assert(run(script) =~= preflight().push(
            ActionView::ConfirmRisk { findings: risk_findings(changes) },
        ).push(ActionView::Finish(OutcomeView::Cancelled)));
    }
}

/// When the user consents to saving risky changes and answers the message
/// prompt, and staging and committing succeed, the run asks for consent,
/// then for the message, then stages, commits and publishes, each once and
/// in this order. The verdict is what publishing made of it.
pub proof fn confirmed_risk_saves_in_order(script: Script)
    requires
        preconditions_hold(script),
        script.changes is Ok,
        risk_findings(script.changes->Ok_0).len() > 0,
        script.consent == Ok::<bool, Seq<char>>(true),
        script.message is Ok,
        script.staged is Ok,
        script.committed is Ok,
    ensures
        run(script) == preflight() + seq![
            ActionView::ConfirmRisk { findings: risk_findings(script.changes->Ok_0) },
            ActionView::AskMessage { changes: script.changes->Ok_0 },
            ActionView::StageAll,
            ActionView::Commit { message: message_for(script.message->Ok_0) },
            ActionView::Publish,
            ActionView::Finish(completion_verdict(script.published)),
        ],
        mutations(run(script)) == full_save(message_for(script.message->Ok_0)),
{
    broadcast use vstd::seq_lib::group_filter_ensures;

    assert(script.changes->Ok_0.len() > 0);
    open_gates_lead_to_the_save(script);
    mutations_follow_the_save_order(script);
    assert(approach(script) + save_steps(script) =~= preflight() + seq![
        ActionView::ConfirmRisk { findings: risk_findings(script.changes->Ok_0) },
        ActionView::AskMessage { changes: script.changes->Ok_0 },
        ActionView::StageAll,
        ActionView::Commit { message: message_for(script.message->Ok_0) },
        ActionView::Publish,
        ActionView::Finish(completion_verdict(script.published)),
    ]);
}

/// When nothing among the changes is risky, the consent question is never
/// asked: the run goes from the queries straight to the message prompt and,
/// if the prompt is answered and staging and committing succeed, on to
/// staging, committing and publishing, each once and in this order.
pub proof fn harmless_changes_skip_consent(script: Script)
    requires
        preconditions_hold(script),
        script.changes is Ok,
        script.changes->Ok_0.len() > 0,
        risk_findings(script.changes->Ok_0).len() == 0,
    ensures
        forall|i: int| 0 <= i < run(script).len() ==> !(#[trigger] run(script)[i] is ConfirmRisk),
        run(script).len() > 4,
        run(script)[4] == (ActionView::AskMessage { changes: script.changes->Ok_0 }),
        script.message is Ok && script.staged is Ok && script.committed is Ok ==> {
            &&& run(script) == preflight() + seq![
                ActionView::AskMessage { changes: script.changes->Ok_0 },
                ActionView::StageAll,
                ActionView::Commit { message: message_for(script.message->Ok_0) },
                ActionView::Publish,
                ActionView::Finish(completion_verdict(script.published)),
            ]
            &&& mutations(run(script)) == full_save(message_for(script.message->Ok_0))
        },
{
    let asked = ActionView::AskMessage { changes: script.changes->Ok_0 };
    if script.message is Err {
        reveal_with_fuel(run_from, 7);
        assert(run(script) =~= preflight() + seq![
            asked,
            ActionView::Finish(OutcomeView::Cancelled),
        ]);
    } else {
        open_gates_lead_to_the_save(script);
        mutations_follow_the_save_order(script);
        assert(approach(script) =~= preflight().push(asked));
        assert(run(script)[4] == approach(script)[4]);
        if script.staged is Ok && script.committed is Ok {
            assert(approach(script) + save_steps(script) =~= preflight() + seq![
                asked,
                ActionView::StageAll,
                ActionView::Commit { message: message_for(script.message->Ok_0) },
                ActionView::Publish,
                ActionView::Finish(completion_verdict(script.published)),
            ]);
        }
    }
}

/// In a run against `script`, `state` and `request` belong together, and
/// what they hold of the commit message is what the script's answer gives.
spec fn carries_answer(script: Script, state: StateView, request: ActionView) -> bool {
    &&& awaits(state, request)
    &&& state matches StateView::Staging { message } ==> script.message is Ok && message
        == message_for(script.message->Ok_0)
    &&& request matches ActionView::Commit { message } ==> script.message is Ok && message
        == message_for(script.message->Ok_0)
}

proof fn run_from_commits_the_answer(script: Script, state: StateView, request: ActionView, i: int)
    requires
        carries_answer(script, state, request),
        0 <= i < run_from(script, state, request).len(),
        run_from(script, state, request)[i] is Commit,
    ensures
        script.message is Ok,
        run_from(script, state, request)[i]->message == message_for(script.message->Ok_0),
    decreases i,
{
    if i > 0 {
        let next = transition(state, answer(script, request));
        run_from_commits_the_answer(script, next.0, next.1, i - 1);
    }
}

/// What is committed is what the user answered at the message prompt, word
/// for word; and where the answer was empty, it is the default message.
pub proof fn committed_message_is_the_answer(script: Script, i: int)
    requires
        0 <= i < run(script).len(),
        run(script)[i] is Commit,
    ensures
        script.message is Ok,
        run(script)[i]->message == message_for(script.message->Ok_0),
        script.message->Ok_0.len() == 0 ==> run(script)[i]->message == default_message_text(),
{
    run_from_commits_the_answer(script, opening().0, opening().1, i);
}

proof fn run_from_ends_on_failure(script: Script, state: StateView, request: ActionView, i: int)
    requires
        awaits(state, request),
        0 <= i < run_from(script, state, request).len() - 1,
        answer(script, run_from(script, state, request)[i]) is Failed,
    ensures
        i == run_from(script, state, request).len() - 2,
        verdict(run_from(script, state, request)) == failure_verdict(
            run_from(script, state, request)[i],
            answer(script, run_from(script, state, request)[i])->Failed_0,
        ),
    decreases i,
{
    reveal_with_fuel(run_from, 2);
    if i > 0 {
        let next = transition(state, answer(script, request));
        run_from_ends_on_failure(script, next.0, next.1, i - 1);
    }
}

/// The first failure ends the run: no request follows the one that failed,
/// so nothing is retried and nothing is rolled back. A failed query or
/// mutating step gives its own error as the verdict; a failed prompt counts
/// as a refusal.
pub proof fn failure_ends_the_run(script: Script, i: int)
    requires
        0 <= i < run(script).len() - 1,
        answer(script, run(script)[i]) is Failed,
    ensures
        i == run(script).len() - 2,
        verdict(run(script)) == failure_verdict(
            run(script)[i],
            answer(script, run(script)[i])->Failed_0,
        ),
{
    run_from_ends_on_failure(script, opening().0, opening().1, i);
}

/// When the commit succeeds and publishing fails, the error of publishing
/// is the verdict, and publishing is the last thing the run has asked for:
/// the commit stays, and nothing tries to undo it or to publish again.
pub proof fn failed_publish_leaves_the_commit(script: Script, text: Seq<char>)
    requires
        gates_passed(script),
        script.staged is Ok,
        script.committed is Ok,
        script.published == Err::<(), Seq<char>>(text),
    ensures
        verdict(run(script)) == OutcomeView::Failed(SyncErrorView::Backend(text)),
        !verdict(run(script)).is_success(),
        run(script).drop_last().last() is Publish,
        mutations(run(script)) == full_save(message_for(script.message->Ok_0)),
{
    open_gates_lead_to_the_save(script);
    mutations_follow_the_save_order(script);
    let whole = approach(script) + save_steps(script);
    assert(whole.last() == save_steps(script)[3]);
    assert(whole.drop_last().last() == save_steps(script)[2]);
}

} // verus!
