use kicad_grok::batch::classify_failure;
use kicad_grok::batch::describe_failure;
use kicad_grok::batch::is_rate_limited;
use kicad_grok::batch::mentions_rate_limit;
use kicad_grok::batch::run;
use kicad_grok::batch::BatchAction;
use kicad_grok::batch::BatchEvent;
use kicad_grok::batch::BatchOrchestrator;
use kicad_grok::batch::CommitRecord;
use kicad_grok::batch::FailureKind;
use kicad_grok::gate::StoredSummaryState;
use std::cell::RefCell;

fn commit(hash: &str) -> CommitRecord {
    CommitRecord { hash: hash.to_string(), date: Some(1_700_000_000), message: Some("msg".to_string()) }
}

fn complete() -> Option<StoredSummaryState> {
    Some(StoredSummaryState { blurb: Some("b".to_string()), description: Some("d".to_string()) })
}

fn half() -> Option<StoredSummaryState> {
    Some(StoredSummaryState { blurb: Some("b".to_string()), description: None })
}

#[test]
fn rate_limit_aborts_the_batch() {
    let attempted = RefCell::new(Vec::new());
    let looked_up = RefCell::new(Vec::new());
    let report = run(
        vec![commit("A"), commit("B"), commit("C")],
        |commit: &CommitRecord| {
            looked_up.borrow_mut().push(commit.hash.clone());
            None
        },
        |commit: &CommitRecord| {
            attempted.borrow_mut().push(commit.hash.clone());
            if commit.hash == "B" {
                Err("API request failed with status 429 Too Many Requests: slow down".to_string())
            } else {
                Ok(())
            }
        },
    );
    assert_eq!(report.processed_count, 1);
    assert_eq!(
        report.errors,
        vec!["RATE LIMITED: Commit B: API request failed with status 429 Too Many Requests: slow down"]
    );
    assert_eq!(attempted.into_inner(), vec!["A", "B"]);
    assert_eq!(looked_up.into_inner(), vec!["A", "B"]);
}

#[test]
fn other_failures_do_not_stop_the_batch() {
    let attempted = RefCell::new(Vec::new());
    let report = run(
        vec![commit("A"), commit("B"), commit("C")],
        |_commit: &CommitRecord| None,
        |commit: &CommitRecord| {
            attempted.borrow_mut().push(commit.hash.clone());
            if commit.hash == "B" {
                Err("connection reset by peer".to_string())
            } else {
                Ok(())
            }
        },
    );
    assert_eq!(report.processed_count, 2);
    assert_eq!(report.errors, vec!["Commit B: connection reset by peer"]);
    assert_eq!(attempted.into_inner(), vec!["A", "B", "C"]);
}

#[test]
fn complete_commits_are_skipped() {
    let attempted = RefCell::new(Vec::new());
    let report = run(
        vec![commit("A"), commit("B"), commit("C"), commit("D")],
        |commit: &CommitRecord| match commit.hash.as_str() {
            "A" => complete(),
            "B" => half(),
            "C" => None,
            _ => complete(),
        },
        |commit: &CommitRecord| {
            attempted.borrow_mut().push(commit.hash.clone());
            Ok(())
        },
    );
    assert_eq!(report.processed_count, 2);
    assert!(report.errors.is_empty());
    assert_eq!(attempted.into_inner(), vec!["B", "C"]);
}

#[test]
fn empty_batch_reports_nothing() {
    let report = run(Vec::new(), |_commit: &CommitRecord| None, |_commit: &CommitRecord| Ok(()));
    assert_eq!(report.processed_count, 0);
    assert!(report.errors.is_empty());
}

#[test]
fn every_failure_is_listed_in_order() {
    let report = run(
        vec![commit("A"), commit("B"), commit("C"), commit("D")],
        |_commit: &CommitRecord| None,
        |commit: &CommitRecord| match commit.hash.as_str() {
            "A" => Err("first".to_string()),
            "C" => Err("RATE limit reached".to_string()),
            _ => Ok(()),
        },
    );
    assert_eq!(report.processed_count, 1);
    assert_eq!(report.errors, vec!["Commit A: first", "RATE LIMITED: Commit C: RATE limit reached"]);
}

#[test]
fn rate_limit_on_the_first_commit_attempts_nothing_else() {
    let attempted = RefCell::new(0);
    let report = run(
        vec![commit("A"), commit("B")],
        |_commit: &CommitRecord| None,
        |_commit: &CommitRecord| {
            *attempted.borrow_mut() += 1;
            Err("Rate limit exceeded".to_string())
        },
    );
    assert_eq!(report.processed_count, 0);
    assert_eq!(report.errors, vec!["RATE LIMITED: Commit A: Rate limit exceeded"]);
    assert_eq!(attempted.into_inner(), 1);
}

#[test]
fn orchestrator_asks_in_commit_order() {
    let orchestrator = BatchOrchestrator::new(vec![commit("A"), commit("B"), commit("C")]);
    assert_eq!(orchestrator.commits().len(), 3);
    assert_eq!(orchestrator.next_action(), BatchAction::Lookup(0));
    let (orchestrator, action) = orchestrator.step(BatchEvent::Existing(None));
    assert_eq!(action, BatchAction::Generate(0));
    let (orchestrator, action) = orchestrator.step(BatchEvent::Generated(Ok(())));
    assert_eq!(action, BatchAction::Lookup(1));
    assert_eq!(orchestrator.report().processed_count, 1);
    let (orchestrator, action) = orchestrator.step(BatchEvent::Existing(complete()));
    assert_eq!(action, BatchAction::Lookup(2));
    let (orchestrator, action) = orchestrator.step(BatchEvent::Existing(half()));
    assert_eq!(action, BatchAction::Generate(2));
    let (orchestrator, action) = orchestrator.step(BatchEvent::Generated(Err("boom".to_string())));
    assert_eq!(action, BatchAction::Finished);
    assert_eq!(orchestrator.next_action(), BatchAction::Finished);
    let report = orchestrator.into_report();
    assert_eq!(report.processed_count, 1);
    assert_eq!(report.errors, vec!["Commit C: boom"]);
}

#[test]
fn orchestrator_stops_asking_after_a_rate_limit() {
    let orchestrator = BatchOrchestrator::new(vec![commit("A"), commit("B"), commit("C")]);
    let (orchestrator, _) = orchestrator.step(BatchEvent::Existing(None));
    let (orchestrator, _) = orchestrator.step(BatchEvent::Generated(Ok(())));
    let (orchestrator, action) = orchestrator.step(BatchEvent::Existing(None));
    assert_eq!(action, BatchAction::Generate(1));
    let (orchestrator, action) =
        orchestrator.step(BatchEvent::Generated(Err("status 429".to_string())));
    assert_eq!(action, BatchAction::Finished);
    let (orchestrator, action) = orchestrator.step(BatchEvent::Existing(None));
    assert_eq!(action, BatchAction::Finished);
    let (orchestrator, action) = orchestrator.step(BatchEvent::Generated(Ok(())));
    assert_eq!(action, BatchAction::Finished);
    let report = orchestrator.into_report();
    assert_eq!(report.processed_count, 1);
    assert_eq!(report.errors, vec!["RATE LIMITED: Commit B: status 429"]);
}

#[test]
fn orchestrator_ignores_answers_it_did_not_ask_for() {
    let orchestrator = BatchOrchestrator::new(vec![commit("A")]);
    let (orchestrator, action) = orchestrator.step(BatchEvent::Generated(Ok(())));
    assert_eq!(action, BatchAction::Lookup(0));
    assert_eq!(orchestrator.report().processed_count, 0);
    let (orchestrator, action) = orchestrator.step(BatchEvent::Existing(None));
    assert_eq!(action, BatchAction::Generate(0));
    let (orchestrator, action) = orchestrator.step(BatchEvent::Existing(complete()));
    assert_eq!(action, BatchAction::Generate(0));
    let (orchestrator, action) = orchestrator.step(BatchEvent::Generated(Ok(())));
    assert_eq!(action, BatchAction::Finished);
    assert_eq!(orchestrator.into_report().processed_count, 1);
}

#[test]
fn orchestrator_without_commits_is_finished() {
    let orchestrator = BatchOrchestrator::new(Vec::new());
    assert_eq!(orchestrator.next_action(), BatchAction::Finished);
    let report = orchestrator.into_report();
    assert_eq!(report.processed_count, 0);
    assert!(report.errors.is_empty());
}

#[test]
fn rate_limit_is_seen_in_the_status_code() {
    assert!(is_rate_limited("API request failed with status 429 Too Many Requests: {}"));
    assert!(is_rate_limited("429"));
    assert!(is_rate_limited("error code 1429"));
}

#[test]
fn rate_limit_is_seen_in_the_token_whatever_its_case() {
    assert!(is_rate_limited("rate limit exceeded"));
    assert!(is_rate_limited("Rate limit exceeded"));
    assert!(is_rate_limited("RATE LIMITED: XAI API returned"));
    assert!(is_rate_limited("too many requests, moderate your calls"));
    assert!(is_rate_limited("exceeded the rAtE"));
}

#[test]
fn other_failures_are_not_rate_limits() {
    assert!(!is_rate_limited(""));
    assert!(!is_rate_limited("connection reset by peer"));
    assert!(!is_rate_limited("status 500 Internal Server Error"));
    assert!(!is_rate_limited("4 2 9"));
    assert!(!is_rate_limited("r-a-t-e"));
    assert!(!is_rate_limited("42"));
    assert!(!is_rate_limited("rat"));
}

#[test]
fn rate_limit_is_decided_from_description_and_lower_case_form() {
    assert!(mentions_rate_limit("code 429", "anything"));
    assert!(mentions_rate_limit("anything", "the rate"));
    assert!(!mentions_rate_limit("RATE", "RATE"));
    assert!(!mentions_rate_limit("anything", "code 429"));
    assert!(!mentions_rate_limit("", ""));
}

#[test]
fn failures_are_described_by_commit() {
    assert_eq!(
        describe_failure("abc123", "connection refused"),
        ("Commit abc123: connection refused".to_string(), FailureKind::Transport)
    );
    assert_eq!(
        describe_failure("abc123", "Rate limit hit"),
        ("RATE LIMITED: Commit abc123: Rate limit hit".to_string(), FailureKind::RateLimited)
    );
    assert_eq!(
        describe_failure("429", "plain"),
        ("Commit 429: plain".to_string(), FailureKind::Transport)
    );
    assert_eq!(describe_failure("", ""), ("Commit : ".to_string(), FailureKind::Transport));
}

#[test]
fn failures_are_classified_by_description() {
    assert_eq!(classify_failure("HTTP 429"), FailureKind::RateLimited);
    assert_eq!(classify_failure("Rate limited"), FailureKind::RateLimited);
    assert_eq!(classify_failure("timed out"), FailureKind::Transport);
}
