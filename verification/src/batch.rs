//! The batch orchestrator: walks a commit list in order, decides for each
//! commit whether it needs a summary, has one generated, and accumulates a report. A
//! rate-limited failure ends the run at once; any other failure is recorded and
//! the run goes on.
//!
//! Looking up stored state and generating a summary are the caller's work. The
//! orchestrator is the state machine in between: `next_action` says what to do,
//! `step` takes what came back. `run` drives the machine with two callbacks.

use crate::gate::gate_open;
use crate::gate::needs_processing;
use crate::gate::StoredSummaryState;
use crate::text::chars_of;
use crate::text::contains;
use crate::text::lowercase;
use crate::text::occurs_at;
use crate::text::occurs_in;
use crate::xai_client::failure_text;
use crate::xai_client::RATE_LIMIT_CODE;
use vstd::prelude::*;
use vstd::string::StringExecFns;

verus! {

/// One commit of the history, as the history source hands it over.
#[derive(Clone, Debug)]
pub struct CommitRecord {
    pub hash: String,
    /// Commit time in seconds since the Unix epoch, UTC.
    pub date: Option<i64>,
    pub message: Option<String>,
}

/// The outcome of one run: how many commits got a summary, and what went wrong.
#[derive(Clone, Debug)]
pub struct BatchReport {
    pub processed_count: usize,
    pub errors: Vec<String>,
}

/// `BatchReport` as mathematics.
pub struct BatchReportView {
    pub processed_count: nat,
    pub errors: Seq<Seq<char>>,
}

impl View for BatchReport {
    type V = BatchReportView;

    open spec fn view(&self) -> BatchReportView {
        BatchReportView {
            processed_count: self.processed_count as nat,
            errors: self.errors.deep_view(),
        }
    }
}

/// The status code by which the provider signals rate limiting.
pub const RATE_LIMIT_STATUS: &'static str = "429";

/// The token that marks a rate-limit message, looked for without regard to case.
pub const RATE_LIMIT_TOKEN: &'static str = "rate";

/// What a rate-limited entry of the report begins with.
pub const RATE_LIMITED_PREFIX: &'static str = "RATE LIMITED: ";

/// A failure description signals rate limiting when it holds the status code,
/// or when its lower-case form holds the token.
pub open spec fn signals_rate_limit(description: Seq<char>, lowered: Seq<char>) -> bool {
    occurs_in(RATE_LIMIT_STATUS@, description) || occurs_in(RATE_LIMIT_TOKEN@, lowered)
}

/// A failure description that signals rate limiting.
pub open spec fn rate_limited(description: Seq<char>) -> bool {
    signals_rate_limit(description, lowercase(description))
}

/// The plain report entry for a failed commit.
pub open spec fn error_entry(hash: Seq<char>, description: Seq<char>) -> Seq<char> {
    "Commit "@ + hash + ": "@ + description
}

/// The report entry for a failed commit, marked when the failure was rate limiting.
pub open spec fn report_entry(hash: Seq<char>, description: Seq<char>) -> Seq<char> {
    if rate_limited(description) {
        RATE_LIMITED_PREFIX@ + error_entry(hash, description)
    } else {
        error_entry(hash, description)
    }
}

/// Decides rate limiting from a description and its lower-case form.
pub fn mentions_rate_limit(description: &str, lowered: &str) -> (limited: bool)
    ensures
        limited == signals_rate_limit(description@, lowered@),
{
    let status = chars_of(RATE_LIMIT_STATUS);
    let token = chars_of(RATE_LIMIT_TOKEN);
    let description = chars_of(description);
    let lowered = chars_of(lowered);
    contains(&description, &status) || contains(&lowered, &token)
}

/// Whether a failure description signals rate limiting.
pub fn is_rate_limited(description: &str) -> (limited: bool)
    ensures
        limited == rate_limited(description@),
{
    let lowered = description.to_lowercase();
    mentions_rate_limit(description, lowered.as_str())
}

/// What kind of failure a generation call ended with.
#[derive(Clone, Copy, Debug, PartialEq, Eq, Structural)]
pub enum FailureKind {
    /// The provider signalled rate limiting: further calls would fail too.
    RateLimited,
    /// Any other failure of the call.
    Transport,
}

/// The kind of a failure with the given description.
pub open spec fn failure_kind(description: Seq<char>) -> FailureKind {
    if rate_limited(description) {
        FailureKind::RateLimited
    } else {
        FailureKind::Transport
    }
}

/// Classifies a failure by its description.
pub fn classify_failure(description: &str) -> (kind: FailureKind)
    ensures
        kind == failure_kind(description@),
{
    if is_rate_limited(description) {
        FailureKind::RateLimited
    } else {
        FailureKind::Transport
    }
}

/// Builds the report entry for a failed commit and says what kind of failure
/// it was.
pub fn describe_failure(hash: &str, description: &str) -> (entry: (String, FailureKind))
    ensures
        entry.0@ == report_entry(hash@, description@),
        entry.1 == failure_kind(description@),
{
    let kind = classify_failure(description);
    let limited = match kind {
        FailureKind::RateLimited => true,
        FailureKind::Transport => false,
    };
    let mut entry = if limited {
        String::from_str(RATE_LIMITED_PREFIX)
    } else {
        String::new()
    };
    entry.append("Commit ");
    entry.append(hash);
    entry.append(": ");
    entry.append(description);
    (entry, kind)
}

/// What the orchestrator asks of its caller next. The number is the commit's
/// position in the list.
#[derive(Clone, Copy, Debug, PartialEq, Eq, Structural)]
pub enum BatchAction {
    /// Fetch what is stored for the commit and answer with `BatchEvent::Existing`.
    Lookup(usize),
    /// Generate and store a summary for the commit and answer with
    /// `BatchEvent::Generated`.
    Generate(usize),
    /// Nothing is left to do: the report is final.
    Finished,
}

/// What the caller reports back.
#[derive(Debug)]
pub enum BatchEvent {
    /// The stored state of the commit that was looked up, if any.
    Existing(Option<StoredSummaryState>),
    /// How generation and storage went: `Err` holds the failure's description.
    Generated(Result<(), String>),
}

/// The orchestrator as mathematics.
pub struct BatchModel {
    /// The hashes of the commits of the run, in processing order.
    pub hashes: Seq<Seq<char>>,
    /// The position of the commit in hand.
    pub cursor: nat,
    /// The commit in hand needs a summary and its generation is awaited.
    pub awaiting_generation: bool,
    /// A rate-limited failure ended the run.
    pub aborted: bool,
    /// What the run has accumulated so far.
    pub report: BatchReportView,
}

impl BatchModel {
    /// The state before any commit was looked at.
    pub open spec fn initial(hashes: Seq<Seq<char>>) -> BatchModel {
        BatchModel {
            hashes,
            cursor: 0,
            awaiting_generation: false,
            aborted: false,
            report: BatchReportView { processed_count: 0, errors: Seq::empty() },
        }
    }

    /// The run is over: it was aborted, or no commit is left.
    pub open spec fn finished(self) -> bool {
        self.aborted || self.cursor >= self.hashes.len()
    }

    /// What the caller has to do next: look up the commit in hand, generate
    /// its summary, or nothing more.
    pub open spec fn next_action(self) -> BatchAction {
        if self.finished() {
            BatchAction::Finished
        } else if self.awaiting_generation {
            BatchAction::Generate(self.cursor as usize)
        } else {
            BatchAction::Lookup(self.cursor as usize)
        }
    }

    /// The stored state of the commit in hand arrived.
    pub open spec fn on_existing(self, existing: Option<StoredSummaryState>) -> BatchModel {
        if self.finished() || self.awaiting_generation {
            self
        } else if gate_open(existing) {
            BatchModel { awaiting_generation: true, ..self }
        } else {
            BatchModel { cursor: self.cursor + 1, ..self }
        }
    }

    /// Generation for the commit in hand ended, with a failure description or without.
    pub open spec fn on_generated(self, failure: Option<Seq<char>>) -> BatchModel {
        if self.finished() || !self.awaiting_generation {
            self
        } else {
            match failure {
                None => BatchModel {
                    cursor: self.cursor + 1,
                    awaiting_generation: false,
                    report: BatchReportView {
                        processed_count: self.report.processed_count + 1,
                        ..self.report
                    },
                    ..self
                },
                Some(description) => BatchModel {
                    cursor: if rate_limited(description) {
                        self.cursor
                    } else {
                        self.cursor + 1
                    },
                    awaiting_generation: false,
                    aborted: rate_limited(description),
                    report: BatchReportView {
                        errors: self.report.errors.push(
                            report_entry(self.hashes[self.cursor as int], description),
                        ),
                        ..self.report
                    },
                    ..self
                },
            }
        }
    }

    /// The state after an event. An event that was not asked for changes nothing.
    pub open spec fn step(self, event: BatchEvent) -> BatchModel {
        match event {
            BatchEvent::Existing(existing) => self.on_existing(existing),
            BatchEvent::Generated(Ok(_)) => self.on_generated(None),
            BatchEvent::Generated(Err(description)) => self.on_generated(Some(description@)),
        }
    }

    /// The state after a sequence of events, taken in order.
    pub open spec fn replay(self, events: Seq<BatchEvent>) -> BatchModel
        decreases events.len(),
    {
        if events.len() == 0 {
            self
        } else {
            self.replay(events.drop_last()).step(events.last())
        }
    }

    /// An upper bound on the answers that the run still needs.
    pub open spec fn remaining(self) -> nat {
        if self.finished() {
            0
        } else if self.awaiting_generation {
            (2 * (self.hashes.len() - self.cursor) - 1) as nat
        } else {
            (2 * (self.hashes.len() - self.cursor)) as nat
        }
    }
}

/// The description that the client gives to a response with the rate-limit
/// status is one that signals rate limiting.
pub proof fn lemma_rate_limit_response_is_recognised(status_line: Seq<char>, body: Seq<char>)
    ensures
        rate_limited(failure_text(RATE_LIMIT_CODE, status_line, body)),
{
    reveal_strlit("RATE LIMITED: XAI API returned 429. Response: ");
    reveal_strlit("429");
    let description = failure_text(RATE_LIMIT_CODE, status_line, body);
    assert(description.subrange(31, 34) =~= RATE_LIMIT_STATUS@);
    assert(occurs_at(RATE_LIMIT_STATUS@, description, 31));
}

/// A run that a rate-limited failure has ended stays as it is: whatever is
/// answered afterwards, no commit is asked for and the report does not change.
pub proof fn lemma_abort_is_final(model: BatchModel, events: Seq<BatchEvent>)
    requires
        model.aborted,
    ensures
        model.replay(events) == model,
        model.next_action() == BatchAction::Finished,
    decreases events.len(),
{
    if events.len() > 0 {
        lemma_abort_is_final(model, events.drop_last());
    }
}

/// A rate-limited failure of the commit in hand ends the run: the entry is
/// marked, the count stays, and nothing more is asked for.
pub proof fn lemma_rate_limit_aborts(model: BatchModel, description: Seq<char>)
    requires
        !model.finished(),
        model.awaiting_generation,
        rate_limited(description),
    ensures
        ({
            let next = model.on_generated(Some(description));
            &&& next.aborted
            &&& next.next_action() == BatchAction::Finished
            &&& next.report.processed_count == model.report.processed_count
            &&& next.report.errors == model.report.errors.push(
                RATE_LIMITED_PREFIX@ + error_entry(model.hashes[model.cursor as int], description),
            )
        }),
{
}

/// Any other failure of the commit in hand is recorded, and the run goes on
/// with the next commit.
pub proof fn lemma_other_failure_continues(model: BatchModel, description: Seq<char>)
    requires
        !model.finished(),
        model.awaiting_generation,
        !rate_limited(description),
    ensures
        ({
            let next = model.on_generated(Some(description));
            &&& !next.aborted
            &&& next.cursor == model.cursor + 1
            &&& !next.awaiting_generation
            &&& next.report.processed_count == model.report.processed_count
            &&& next.report.errors == model.report.errors.push(
                error_entry(model.hashes[model.cursor as int], description),
            )
        }),
{
}

/// At every point of a run each commit before the one in hand has been
/// counted at most once, as processed or as failed, and the commit that
/// ended the run as failed.
pub proof fn lemma_report_is_bounded(hashes: Seq<Seq<char>>, events: Seq<BatchEvent>)
    ensures
        ({
            let end = BatchModel::initial(hashes).replay(events);
            &&& end.hashes == hashes
            &&& end.cursor <= hashes.len()
            &&& end.awaiting_generation ==> !end.finished()
            &&& end.report.processed_count + end.report.errors.len() <= end.cursor + if end.aborted {
                1nat
            } else {
                0nat
            }
            &&& end.aborted ==> end.cursor < hashes.len()
        }),
    decreases events.len(),
{
    if events.len() > 0 {
        lemma_report_is_bounded(hashes, events.drop_last());
    }
}

/// The hashes of a commit list, in order.
pub open spec fn hashes_of(commits: Seq<CommitRecord>) -> Seq<Seq<char>> {
    Seq::new(commits.len(), |i: int| commits[i].hash@)
}

/// The state machine behind one batch run.
pub struct BatchOrchestrator {
    commits: Vec<CommitRecord>,
    cursor: usize,
    awaiting_generation: bool,
    aborted: bool,
    report: BatchReport,
}

impl View for BatchOrchestrator {
    type V = BatchModel;

    closed spec fn view(&self) -> BatchModel {
        BatchModel {
            hashes: hashes_of(self.commits@),
            cursor: self.cursor as nat,
            awaiting_generation: self.awaiting_generation,
            aborted: self.aborted,
            report: self.report@,
        }
    }
}

impl BatchOrchestrator {
    #[verifier::type_invariant]
    spec fn consistent(self) -> bool {
        &&& self.cursor <= self.commits.len()
        &&& self.report.processed_count <= self.cursor
    }

    /// The commits of this run, in processing order.
    pub closed spec fn commit_list(self) -> Seq<CommitRecord> {
        self.commits@
    }

    /// An orchestrator that has looked at no commit yet.
    pub fn new(commits: Vec<CommitRecord>) -> (orchestrator: BatchOrchestrator)
        ensures
            orchestrator@ == BatchModel::initial(hashes_of(commits@)),
            orchestrator.commit_list() == commits@,
    {
        let errors: Vec<String> = Vec::new();
        assert(errors.deep_view() =~= Seq::empty());
        BatchOrchestrator {
            commits,
            cursor: 0,
            awaiting_generation: false,
            aborted: false,
            report: BatchReport { processed_count: 0, errors },
        }
    }

    /// The commits of this run, in processing order.
    pub fn commits(&self) -> (commits: &Vec<CommitRecord>)
        ensures
            commits@ == self.commit_list(),
            hashes_of(commits@) == self@.hashes,
    {
        &self.commits
    }

    /// What the caller has to do next.
    pub fn next_action(&self) -> (action: BatchAction)
        ensures
            action == self@.next_action(),
            match action {
                BatchAction::Lookup(index) => index < self.commit_list().len(),
                BatchAction::Generate(index) => index < self.commit_list().len(),
                BatchAction::Finished => true,
            },
    {
        proof {
            use_type_invariant(self);
        }
        if self.aborted || self.cursor >= self.commits.len() {
            BatchAction::Finished
        } else if self.awaiting_generation {
            BatchAction::Generate(self.cursor)
        } else {
            BatchAction::Lookup(self.cursor)
        }
    }

    /// Takes the answer to the last action; gives the next state and what to do next.
    pub fn step(self, event: BatchEvent) -> (next: (BatchOrchestrator, BatchAction))
        ensures
            next.0@ == self@.step(event),
            next.0.commit_list() == self.commit_list(),
            next.1 == next.0@.next_action(),
    {
        proof {
            use_type_invariant(&self);
        }
        let pending = self.next_action();
        let BatchOrchestrator { commits, cursor, awaiting_generation, aborted, report } = self;
        let BatchReport { processed_count, mut errors } = report;
        let next = match (pending, event) {
            (BatchAction::Lookup(_), BatchEvent::Existing(existing)) => {
                let gated = needs_processing(existing.as_ref());
                BatchOrchestrator {
                    commits,
                    cursor: if gated {
                        cursor
                    } else {
                        cursor + 1
                    },
                    awaiting_generation: gated,
                    aborted,
                    report: BatchReport { processed_count, errors },
                }
            },
            (BatchAction::Generate(_), BatchEvent::Generated(Ok(_))) => BatchOrchestrator {
                commits,
                cursor: cursor + 1,
                awaiting_generation: false,
                aborted,
                report: BatchReport { processed_count: processed_count + 1, errors },
            },
            (BatchAction::Generate(index), BatchEvent::Generated(Err(description))) => {
                let (entry, kind) = describe_failure(
                    commits[index].hash.as_str(),
                    description.as_str(),
                );
                let limited = match kind {
                    FailureKind::RateLimited => true,
                    FailureKind::Transport => false,
                };
                let ghost before = errors.deep_view();
                errors.push(entry);
                assert(errors.deep_view() =~= before.push(entry@));
                BatchOrchestrator {
                    commits,
                    cursor: if limited {
                        cursor
                    } else {
                        cursor + 1
                    },
                    awaiting_generation: false,
                    aborted: limited,
                    report: BatchReport { processed_count, errors },
                }
            },
            _ => BatchOrchestrator {
                commits,
                cursor,
                awaiting_generation,
                aborted,
                report: BatchReport { processed_count, errors },
            },
        };
        let action = next.next_action();
        (next, action)
    }

    /// The report as it stands.
    pub fn report(&self) -> (report: &BatchReport)
        ensures
            report@ == self@.report,
    {
        &self.report
    }

    /// Ends the run and hands out the report.
    pub fn into_report(self) -> (report: BatchReport)
        ensures
            report@ == self@.report,
    {
        self.report
    }
}

/// `events` is a record of what the two callbacks answered, in the order in
/// which a run over `commits` asks them.
pub open spec fn answers_of<L, G>(
    commits: Seq<CommitRecord>,
    lookup: L,
    generate: G,
    events: Seq<BatchEvent>,
) -> bool where
    L: Fn(&CommitRecord) -> Option<StoredSummaryState>,
    G: Fn(&CommitRecord) -> Result<(), String>,
 {
    forall|k: int|
        0 <= k < events.len() ==> match (#[trigger] BatchModel::initial(hashes_of(commits)).replay(
            events.take(k),
        )).next_action() {
            BatchAction::Lookup(index) => {
                &&& index < commits.len()
                &&& events[k] matches BatchEvent::Existing(existing)
                &&& lookup.ensures((&commits[index as int],), existing)
            },
            BatchAction::Generate(index) => {
                &&& index < commits.len()
                &&& events[k] matches BatchEvent::Generated(outcome)
                &&& generate.ensures((&commits[index as int],), outcome)
            },
            BatchAction::Finished => false,
        }
}

/// In the record of a run nothing follows a rate-limited failure: no later
/// commit is looked up and none is generated.
pub proof fn lemma_rate_limit_ends_the_record<L, G>(
    commits: Seq<CommitRecord>,
    lookup: L,
    generate: G,
    events: Seq<BatchEvent>,
    k: int,
) where L: Fn(&CommitRecord) -> Option<StoredSummaryState>, G: Fn(&CommitRecord) -> Result<(), String>
    requires
        answers_of(commits, lookup, generate, events),
        0 <= k < events.len(),
        events[k] matches BatchEvent::Generated(Err(description)) && rate_limited(description@),
    ensures
        k == events.len() - 1,
{
    if k + 1 < events.len() {
        // The answer at `k` aborts the run, and a run that was aborted asks
        // for nothing; yet the record holds an answer at `k + 1`.
        let start = BatchModel::initial(hashes_of(commits));
        let before = start.replay(events.take(k));
        let upto = events.take(k + 1);
        assert(before.next_action() is Generate);
        assert(upto.drop_last() =~= events.take(k));
        assert(start.replay(upto) == before.step(events[k]));
        assert(start.replay(upto).aborted);
    }
}

/// Runs a whole batch: for each commit in order, `lookup` fetches what is
/// stored and, where a summary is needed, `generate` produces and stores the
/// summary. The run ends after the last commit or at the first rate-limited
/// failure.
///
/// The report is the one that the state machine reaches on the callbacks'
/// answers; after a rate-limited failure no callback is called again.
pub fn run<L, G>(commits: Vec<CommitRecord>, lookup: L, generate: G) -> (report: BatchReport) where
    L: Fn(&CommitRecord) -> Option<StoredSummaryState>,
    G: Fn(&CommitRecord) -> Result<(), String>,

    requires
        forall|commit: &CommitRecord| lookup.requires((commit,)),
        forall|commit: &CommitRecord| generate.requires((commit,)),
    ensures
        exists|events: Seq<BatchEvent>|
            {
                let end = #[trigger] BatchModel::initial(hashes_of(commits@)).replay(events);
                &&& answers_of(commits@, lookup, generate, events)
                &&& end.finished()
                &&& report@ == end.report
            },
{
    let ghost list = commits@;
    let ghost start = BatchModel::initial(hashes_of(list));
    let ghost mut events: Seq<BatchEvent> = Seq::empty();
    let mut orchestrator = BatchOrchestrator::new(commits);
    let mut action = orchestrator.next_action();
    loop
        invariant
            forall|commit: &CommitRecord| lookup.requires((commit,)),
            forall|commit: &CommitRecord| generate.requires((commit,)),
            start == BatchModel::initial(hashes_of(list)),
            orchestrator.commit_list() == list,
            orchestrator@ == start.replay(events),
            action == orchestrator@.next_action(),
            answers_of(list, lookup, generate, events),
        ensures
            orchestrator@ == start.replay(events),
            orchestrator@.finished(),
            answers_of(list, lookup, generate, events),
        decreases orchestrator@.remaining(),
    {
        let event = match action {
            BatchAction::Lookup(index) => {
                let list_ref = orchestrator.commits();
                BatchEvent::Existing(lookup(&list_ref[index]))
            },
            BatchAction::Generate(index) => {
                let list_ref = orchestrator.commits();
                BatchEvent::Generated(generate(&list_ref[index]))
            },
            BatchAction::Finished => {
                break ;
            },
        };
        proof {
            let longer = events.push(event);
            assert(longer.drop_last() =~= events);
            assert forall|k: int| 0 <= k < longer.len() implies match (#[trigger] start.replay(
                longer.take(k),
            )).next_action() {
                BatchAction::Lookup(index) => {
                    &&& index < list.len()
                    &&& longer[k] matches BatchEvent::Existing(existing)
                    &&& lookup.ensures((&list[index as int],), existing)
                },
                BatchAction::Generate(index) => {
                    &&& index < list.len()
                    &&& longer[k] matches BatchEvent::Generated(outcome)
                    &&& generate.ensures((&list[index as int],), outcome)
                },
                BatchAction::Finished => false,
            } by {
                if k < events.len() {
                    assert(longer.take(k) =~= events.take(k));
                }
            }
            events = longer;
        }
        let (next, next_action) = orchestrator.step(event);
        orchestrator = next;
        action = next_action;
    }
    orchestrator.into_report()
}

} // verus!
