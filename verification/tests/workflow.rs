use ghk::sync::{start, step, Action, Event, Outcome, State, SyncError};

/// What each collaborator answers when it is asked.
#[derive(Clone)]
struct Script {
    is_repository: Result<bool, String>,
    logged_in: Result<bool, String>,
    has_remote: Result<bool, String>,
    changes: Result<Vec<String>, String>,
    consent: Result<bool, String>,
    message: Result<String, String>,
    staged: Result<(), String>,
    committed: Result<(), String>,
    published: Result<(), String>,
}

fn paths(items: &[&str]) -> Vec<String> {
    items.iter().map(|s| s.to_string()).collect()
}

/// A repository in which everything works and the user agrees to everything.
fn smooth(changes: &[&str]) -> Script {
    Script {
        is_repository: Ok(true),
        logged_in: Ok(true),
        has_remote: Ok(true),
        changes: Ok(paths(changes)),
        consent: Ok(true),
        message: Ok("Describe the change".to_string()),
        staged: Ok(()),
        committed: Ok(()),
        published: Ok(()),
    }
}

fn flag(answer: &Result<bool, String>) -> Event {
    match answer {
        Ok(value) => Event::Flag(*value),
        Err(text) => Event::Failed(text.clone()),
    }
}

fn completion(result: &Result<(), String>) -> Event {
    match result {
        Ok(()) => Event::Completed,
        Err(text) => Event::Failed(text.clone()),
    }
}

fn answer(script: &Script, action: &Action) -> Event {
    match action {
        Action::QueryTracked => flag(&script.is_repository),
        Action::QueryAuthenticated => flag(&script.logged_in),
        Action::QueryRemote => flag(&script.has_remote),
        Action::ListChanges => match &script.changes {
            Ok(list) => Event::Paths(list.clone()),
            Err(text) => Event::Failed(text.clone()),
        },
        Action::ConfirmRisk { .. } => flag(&script.consent),
        Action::AskMessage { .. } => match &script.message {
            Ok(text) => Event::Text(text.clone()),
            Err(text) => Event::Failed(text.clone()),
        },
        Action::StageAll => completion(&script.staged),
        Action::Commit { .. } => completion(&script.committed),
        Action::Publish => completion(&script.published),
        Action::Finish(_) => unreachable!("the verdict is not answered"),
    }
}

/// Runs the machine against the script and records every request it makes.
fn drive(script: &Script) -> (Vec<Action>, Outcome) {
    let (mut state, mut action) = start();
    let mut log = Vec::new();
    loop {
        assert!(log.len() < 10, "the run does not end: {:?}", log);
        if let Action::Finish(outcome) = action {
            assert_eq!(state, State::Finished);
            return (log, outcome);
        }
        let event = answer(script, &action);
        log.push(action);
        let next = step(state, event);
        state = next.0;
        action = next.1;
    }
}

fn mutating(log: &[Action]) -> Vec<Action> {
    log.iter().filter(|a| a.is_mutating()).cloned().collect()
}

fn preflight() -> Vec<Action> {
    vec![Action::QueryTracked, Action::QueryAuthenticated, Action::QueryRemote, Action::ListChanges]
}

#[test]
fn run_begins_by_asking_whether_the_directory_is_a_repository() {
    assert_eq!(start(), (State::CheckingRepository, Action::QueryTracked));
}

#[test]
fn declined_risk_cancels_without_mutation() {
    let mut script = smooth(&["src/main.ext", ".env"]);
    script.consent = Ok(false);
    let (log, outcome) = drive(&script);
    assert_eq!(mutating(&log), Vec::<Action>::new());
    assert_eq!(outcome, Outcome::Cancelled);
    assert!(outcome.is_success());
    assert!(outcome.headline().contains("Cancelled"));
    let mut expected = preflight();
    expected.push(Action::ConfirmRisk { findings: paths(&[".env"]) });
    assert_eq!(log, expected);
}

#[test]
fn harmless_change_is_saved_without_consent_question() {
    let script = smooth(&["README.md"]);
    let (log, outcome) = drive(&script);
    assert!(!log.iter().any(|a| matches!(a, Action::ConfirmRisk { .. })));
    let mut expected = preflight();
    expected.push(Action::AskMessage { changes: paths(&["README.md"]) });
    expected.push(Action::StageAll);
    expected.push(Action::Commit { message: "Describe the change".to_string() });
    expected.push(Action::Publish);
    assert_eq!(log, expected);
    assert_eq!(outcome, Outcome::Saved);
    assert!(outcome.is_success());
}

#[test]
fn empty_change_set_is_up_to_date() {
    let script = smooth(&[]);
    let (log, outcome) = drive(&script);
    assert_eq!(log, preflight());
    assert_eq!(mutating(&log), Vec::<Action>::new());
    assert_eq!(outcome, Outcome::UpToDate);
    assert!(outcome.is_success());
    assert_eq!(outcome.headline(), "Already up to date");
}

#[test]
fn failed_publish_is_surfaced_and_nothing_is_rolled_back() {
    let mut script = smooth(&["README.md"]);
    script.published = Err("remote: permission denied".to_string());
    let (log, outcome) = drive(&script);
    assert_eq!(
        outcome,
        Outcome::Failed(SyncError::Backend("remote: permission denied".to_string()))
    );
    assert!(!outcome.is_success());
    assert_eq!(outcome.headline(), "remote: permission denied");
    assert_eq!(
        mutating(&log),
        vec![
            Action::StageAll,
            Action::Commit { message: "Describe the change".to_string() },
            Action::Publish,
        ]
    );
    assert_eq!(log.last(), Some(&Action::Publish));
}

#[test]
fn confirmed_risk_is_saved_in_order() {
    let script = smooth(&["src/main.ext", ".env", "web/node_modules/x.js"]);
    let (log, outcome) = drive(&script);
    let mut expected = preflight();
    expected.push(Action::ConfirmRisk { findings: paths(&[".env", "web/node_modules/x.js"]) });
    expected.push(Action::AskMessage {
        changes: paths(&["src/main.ext", ".env", "web/node_modules/x.js"]),
    });
    expected.push(Action::StageAll);
    expected.push(Action::Commit { message: "Describe the change".to_string() });
    expected.push(Action::Publish);
    assert_eq!(log, expected);
    assert_eq!(outcome, Outcome::Saved);
}

#[test]
fn untracked_directory_stops_the_run_at_once() {
    let mut script = smooth(&["README.md"]);
    script.is_repository = Ok(false);
    let (log, outcome) = drive(&script);
    assert_eq!(log, vec![Action::QueryTracked]);
    assert_eq!(outcome, Outcome::Failed(SyncError::NotTracked));
    assert!(!outcome.is_success());
}

#[test]
fn missing_login_stops_the_run_before_the_remote_is_looked_up() {
    let mut script = smooth(&["README.md"]);
    script.logged_in = Ok(false);
    let (log, outcome) = drive(&script);
    assert_eq!(log, vec![Action::QueryTracked, Action::QueryAuthenticated]);
    assert_eq!(outcome, Outcome::Failed(SyncError::NotAuthenticated));
}

#[test]
fn missing_remote_stops_the_run_before_changes_are_listed() {
    let mut script = smooth(&["README.md"]);
    script.has_remote = Ok(false);
    let (log, outcome) = drive(&script);
    assert_eq!(
        log,
        vec![Action::QueryTracked, Action::QueryAuthenticated, Action::QueryRemote]
    );
    assert_eq!(outcome, Outcome::Failed(SyncError::NoRemote));
}

#[test]
fn first_failed_precondition_is_the_one_reported() {
    let mut script = smooth(&[".env"]);
    script.is_repository = Ok(false);
    script.logged_in = Ok(false);
    script.has_remote = Ok(false);
    assert_eq!(drive(&script).1, Outcome::Failed(SyncError::NotTracked));
    script.is_repository = Ok(true);
    assert_eq!(drive(&script).1, Outcome::Failed(SyncError::NotAuthenticated));
    script.logged_in = Ok(true);
    assert_eq!(drive(&script).1, Outcome::Failed(SyncError::NoRemote));
}

#[test]
fn no_precondition_failure_ever_mutates() {
    let answers = [Ok(true), Ok(false), Err("broken".to_string())];
    let change_sets: [&[&str]; 3] = [&[], &["README.md"], &[".env", "a.rs"]];
    for repository in &answers {
        for login in &answers {
            for remote in &answers {
                if *repository == Ok(true) && *login == Ok(true) && *remote == Ok(true) {
                    continue;
                }
                for changes in &change_sets {
                    let mut script = smooth(changes);
                    script.is_repository = repository.clone();
                    script.logged_in = login.clone();
                    script.has_remote = remote.clone();
                    let (log, outcome) = drive(&script);
                    assert_eq!(mutating(&log), Vec::<Action>::new());
                    assert!(!outcome.is_success());
                    assert!(log.len() <= 3);
                }
            }
        }
    }
}

#[test]
fn failed_query_is_reported_as_it_came() {
    let mut script = smooth(&["README.md"]);
    script.logged_in = Err("gh: command not found".to_string());
    let (log, outcome) = drive(&script);
    assert_eq!(log, vec![Action::QueryTracked, Action::QueryAuthenticated]);
    assert_eq!(outcome, Outcome::Failed(SyncError::Backend("gh: command not found".to_string())));
}

#[test]
fn failed_listing_is_reported_as_it_came() {
    let mut script = smooth(&[]);
    script.changes = Err("fatal: index file corrupt".to_string());
    let (log, outcome) = drive(&script);
    assert_eq!(log, preflight());
    assert_eq!(
        outcome,
        Outcome::Failed(SyncError::Backend("fatal: index file corrupt".to_string()))
    );
}

#[test]
fn interrupted_consent_counts_as_refusal() {
    let mut script = smooth(&[".env"]);
    script.consent = Err("interrupted".to_string());
    let (log, outcome) = drive(&script);
    assert_eq!(outcome, Outcome::Cancelled);
    assert_eq!(mutating(&log), Vec::<Action>::new());
    assert_eq!(log.len(), 5);
}

#[test]
fn interrupted_message_prompt_commits_nothing() {
    let mut script = smooth(&["README.md"]);
    script.message = Err("not a terminal".to_string());
    let (log, outcome) = drive(&script);
    assert_eq!(outcome, Outcome::Cancelled);
    assert_eq!(mutating(&log), Vec::<Action>::new());
    let mut expected = preflight();
    expected.push(Action::AskMessage { changes: paths(&["README.md"]) });
    assert_eq!(log, expected);
}

#[test]
fn empty_message_is_committed_as_update() {
    let mut script = smooth(&["README.md"]);
    script.message = Ok(String::new());
    let (log, outcome) = drive(&script);
    assert_eq!(outcome, Outcome::Saved);
    assert!(log.contains(&Action::Commit { message: "Update".to_string() }));
    assert_eq!(log.iter().filter(|a| matches!(a, Action::Commit { .. })).count(), 1);
}

#[test]
fn empty_message_after_consent_is_committed_as_update() {
    let mut script = smooth(&[".env"]);
    script.message = Ok(String::new());
    let (log, outcome) = drive(&script);
    assert_eq!(outcome, Outcome::Saved);
    assert_eq!(log[7], Action::Commit { message: "Update".to_string() });
}

#[test]
fn failed_staging_stops_before_the_commit() {
    let mut script = smooth(&["README.md"]);
    script.staged = Err("fatal: unable to write index".to_string());
    let (log, outcome) = drive(&script);
    assert_eq!(mutating(&log), vec![Action::StageAll]);
    assert_eq!(
        outcome,
        Outcome::Failed(SyncError::Backend("fatal: unable to write index".to_string()))
    );
}

#[test]
fn failed_commit_stops_before_publishing() {
    let mut script = smooth(&["README.md"]);
    script.committed = Err("nothing to commit".to_string());
    let (log, outcome) = drive(&script);
    assert_eq!(
        mutating(&log),
        vec![Action::StageAll, Action::Commit { message: "Describe the change".to_string() }]
    );
    assert_eq!(outcome, Outcome::Failed(SyncError::Backend("nothing to commit".to_string())));
}

#[test]
fn every_run_ends_within_ten_requests() {
    let flags = [Ok(true), Ok(false), Err("e".to_string())];
    let results = [Ok(()), Err("e".to_string())];
    let change_sets: [&[&str]; 3] = [&[], &["README.md"], &[".env", "a.rs"]];
    let mut runs = 0;
    for repository in &flags {
        for changes in &change_sets {
            for consent in &flags {
                for message in [Ok(String::new()), Ok("m".to_string()), Err("e".to_string())] {
                    for staged in &results {
                        for published in &results {
                            let mut script = smooth(changes);
                            script.is_repository = repository.clone();
                            script.consent = consent.clone();
                            script.message = message.clone();
                            script.staged = staged.clone();
                            script.published = published.clone();
                            let (log, outcome) = drive(&script);
                            assert!(log.len() <= 9);
                            let changed = !mutating(&log).is_empty();
                            let open = *repository == Ok(true)
                                && !changes.is_empty()
                                && (*changes == ["README.md"] || *consent == Ok(true))
                                && message.is_ok();
                            assert_eq!(changed, open);
                            if outcome == Outcome::Saved {
                                assert_eq!(mutating(&log).len(), 3);
                            }
                            runs += 1;
                        }
                    }
                }
            }
        }
    }
    assert_eq!(runs, 3 * 3 * 3 * 3 * 2 * 2);
}

#[test]
fn event_that_does_not_answer_the_request_ends_the_run() {
    let unexpected = (State::Finished, Action::Finish(Outcome::Failed(SyncError::UnexpectedEvent)));
    assert_eq!(step(State::CheckingRepository, Event::Completed), unexpected);
    assert_eq!(step(State::CheckingSession, Event::Text("x".to_string())), unexpected);
    assert_eq!(step(State::CheckingRemote, Event::Paths(Vec::new())), unexpected);
    assert_eq!(step(State::ListingChanges, Event::Flag(true)), unexpected);
    assert_eq!(
        step(State::Confirming { changes: paths(&[".env"]) }, Event::Completed),
        unexpected
    );
    assert_eq!(step(State::CollectingMessage, Event::Flag(true)), unexpected);
    assert_eq!(
        step(State::Staging { message: "m".to_string() }, Event::Flag(true)),
        unexpected
    );
    assert_eq!(step(State::Committing, Event::Text("x".to_string())), unexpected);
    assert_eq!(step(State::Publishing, Event::Paths(paths(&["a"]))), unexpected);
}

#[test]
fn nothing_follows_the_verdict() {
    let unexpected = (State::Finished, Action::Finish(Outcome::Failed(SyncError::UnexpectedEvent)));
    assert_eq!(step(State::Finished, Event::Completed), unexpected);
    assert_eq!(step(State::Finished, Event::Flag(true)), unexpected);
    assert_eq!(step(State::Finished, Event::Failed("x".to_string())), unexpected);
}

#[test]
fn single_steps_follow_the_table() {
    assert_eq!(
        step(State::CheckingRepository, Event::Flag(true)),
        (State::CheckingSession, Action::QueryAuthenticated)
    );
    assert_eq!(
        step(State::CheckingSession, Event::Flag(true)),
        (State::CheckingRemote, Action::QueryRemote)
    );
    assert_eq!(
        step(State::CheckingRemote, Event::Flag(true)),
        (State::ListingChanges, Action::ListChanges)
    );
    assert_eq!(
        step(State::ListingChanges, Event::Paths(paths(&["a.rs", "x/dist/y"]))),
        (
            State::Confirming { changes: paths(&["a.rs", "x/dist/y"]) },
            Action::ConfirmRisk { findings: paths(&["x/dist/y"]) }
        )
    );
    assert_eq!(
        step(State::ListingChanges, Event::Paths(paths(&["a.rs"]))),
        (State::CollectingMessage, Action::AskMessage { changes: paths(&["a.rs"]) })
    );
    assert_eq!(
        step(State::Confirming { changes: paths(&[".env"]) }, Event::Flag(true)),
        (State::CollectingMessage, Action::AskMessage { changes: paths(&[".env"]) })
    );
    assert_eq!(
        step(State::CollectingMessage, Event::Text("Fix".to_string())),
        (State::Staging { message: "Fix".to_string() }, Action::StageAll)
    );
    assert_eq!(
        step(State::Staging { message: "Fix".to_string() }, Event::Completed),
        (State::Committing, Action::Commit { message: "Fix".to_string() })
    );
    assert_eq!(step(State::Committing, Event::Completed), (State::Publishing, Action::Publish));
    assert_eq!(
        step(State::Publishing, Event::Completed),
        (State::Finished, Action::Finish(Outcome::Saved))
    );
}

#[test]
fn requests_that_change_the_repository() {
    assert!(Action::StageAll.is_mutating());
    assert!(Action::Commit { message: "m".to_string() }.is_mutating());
    assert!(Action::Publish.is_mutating());
    assert!(!Action::QueryTracked.is_mutating());
    assert!(!Action::QueryAuthenticated.is_mutating());
    assert!(!Action::QueryRemote.is_mutating());
    assert!(!Action::ListChanges.is_mutating());
    assert!(!Action::ConfirmRisk { findings: paths(&[".env"]) }.is_mutating());
    assert!(!Action::AskMessage { changes: paths(&["a"]) }.is_mutating());
    assert!(!Action::Finish(Outcome::Saved).is_mutating());
}
