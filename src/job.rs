//! The decisions of a job client that submits work to a remote job service,
//! polls the job's status a bounded number of times, and fetches the first
//! record of the job's result collection.
//!
//! The transport stays outside: the caller performs each request that the
//! poller asks for and hands the reply back.
use vstd::prelude::*;
use serde_json::Value;
use crate::text::opt_view;
use crate::json::{
    entry, object_entries, object_get, object_of, parse_array, parse_object, parsed_array,
    parsed_object, string_entry, string_field, value_object, JsonObject,
};

verus! {

/// The member of a job service response that describes the job.
pub const DATA_KEY: &'static str = "data";

/// The job's identifier.
pub const ID_KEY: &'static str = "id";

/// The time the job finished; absent or `null` while it runs.
pub const FINISHED_AT_KEY: &'static str = "finishedAt";

/// The identifier of the job's result collection.
pub const COLLECTION_ID_KEY: &'static str = "defaultDatasetId";

/// What the library reads from a job service response.
pub struct JobSnapshot {
    pub job_id: Option<String>,
    pub finished: bool,
    pub collection_id: Option<String>,
}

/// The model of a job snapshot.
pub struct SnapshotView {
    pub job_id: Option<Seq<char>>,
    pub finished: bool,
    pub collection_id: Option<Seq<char>>,
}

impl View for JobSnapshot {
    type V = SnapshotView;

    open spec fn view(&self) -> SnapshotView {
        SnapshotView {
            job_id: opt_view(self.job_id),
            finished: self.finished,
            collection_id: opt_view(self.collection_id),
        }
    }
}

/// The snapshot that a response object describes: the string members `id`,
/// `finishedAt` and `defaultDatasetId` of its `data` object. The job has
/// finished when `finishedAt` is a string.
pub open spec fn snapshot_of(response: Map<Seq<char>, Value>) -> SnapshotView {
    let data = match entry(response, DATA_KEY@) {
        Some(d) => object_of(d),
        None => None,
    };
    match data {
        Some(d) => SnapshotView {
            job_id: string_entry(d, ID_KEY@),
            finished: string_entry(d, FINISHED_AT_KEY@) is Some,
            collection_id: string_entry(d, COLLECTION_ID_KEY@),
        },
        None => SnapshotView { job_id: None, finished: false, collection_id: None },
    }
}

/// A reply of the job service as the transport delivered it: a successful
/// response with its body, or anything else.
pub enum Reply {
    Success(String),
    Failure,
}

/// The snapshot that a reply carries, if it is a successful response whose
/// body is a JSON object.
pub open spec fn reply_status(reply: Reply) -> Option<SnapshotView> {
    match reply {
        Reply::Success(body) => match parsed_object(body@) {
            Some(response) => Some(snapshot_of(response)),
            None => None,
        },
        Reply::Failure => None,
    }
}

impl JobSnapshot {
    /// Reads a snapshot out of a response body; `None` when the body is not a JSON object.
    pub fn from_body(body: &str) -> (r: Option<JobSnapshot>)
        ensures
            r is None <==> parsed_object(body@) is None,
            r matches Some(s) ==> s@ == snapshot_of(parsed_object(body@)->0),
    {
        let response = match parse_object(body) {
            Ok(m) => m,
            Err(_) => return None,
        };
        Some(JobSnapshot::from_response(&response))
    }

    /// Reads a snapshot out of a response object.
    fn from_response(response: &JsonObject) -> (r: JobSnapshot)
        ensures
            r@ == snapshot_of(object_entries(*response)),
    {
        let data = match object_get(response, DATA_KEY) {
            Some(d) => value_object(d),
            None => None,
        };
        match data {
            Some(d) => JobSnapshot {
                job_id: match string_field(d, ID_KEY) {
                    Some(s) => Some(s.to_owned()),
                    None => None,
                },
                finished: string_field(d, FINISHED_AT_KEY).is_some(),
                collection_id: match string_field(d, COLLECTION_ID_KEY) {
                    Some(s) => Some(s.to_owned()),
                    None => None,
                },
            },
            None => JobSnapshot { job_id: None, finished: false, collection_id: None },
        }
    }

    /// The snapshot that a reply carries.
    pub fn from_reply(reply: &Reply) -> (r: Option<JobSnapshot>)
        ensures
            r is None <==> reply_status(*reply) is None,
            r matches Some(s) ==> Some(s@) == reply_status(*reply),
    {
        match reply {
            Reply::Success(body) => JobSnapshot::from_body(body.as_str()),
            Reply::Failure => None,
        }
    }
}

/// Why a fetch failed.
#[derive(PartialEq, Eq, Structural, Clone, Copy, Debug)]
pub enum FetchFailure {
    /// The finished job names no result collection.
    MissingCollectionId,
    /// A status or collection request failed, or its reply was not the JSON expected.
    Http,
}

/// The failures of a job client call.
#[derive(PartialEq, Eq, Structural, Clone, Copy, Debug)]
pub enum JobError {
    /// The submission failed or was not acknowledged with a job id.
    Submission,
    /// The job did not finish within the attempt budget.
    PollTimeout,
    /// A status query or the result fetch failed.
    Fetch(FetchFailure),
    /// The result collection is empty.
    EmptyResult,
}

/// How often and how many times to query a job's status. `max_attempts` is at least 1.
pub struct PollPolicy {
    pub interval_ms: u64,
    pub max_attempts: u32,
}

/// The model of a poller.
pub struct PollerView {
    pub job_id: Seq<char>,
    pub attempts_left: nat,
    pub status: SnapshotView,
}

/// What the poller asks for next.
pub enum PollAction {
    /// Wait for the interval, then query the job's status.
    Query,
    /// Fetch the result collection with this id.
    Collect(String),
    /// Polling has failed.
    Fail(JobError),
}

/// The model of a poll action.
pub enum PollStep {
    Query,
    Collect(Seq<char>),
    Fail(JobError),
}

impl PollAction {
    /// The model of this action.
    pub open spec fn step(&self) -> PollStep {
        match self {
            PollAction::Query => PollStep::Query,
            PollAction::Collect(c) => PollStep::Collect(c@),
            PollAction::Fail(e) => PollStep::Fail(*e),
        }
    }
}

/// The poller right after an acknowledged submission.
pub open spec fn started(max_attempts: nat, ack: SnapshotView) -> PollerView {
    PollerView { job_id: ack.job_id->0, attempts_left: max_attempts, status: ack }
}

/// What a poller in state `p` does next: collect once the job has finished,
/// fail when the attempts are spent, query otherwise.
pub open spec fn next_step(p: PollerView) -> PollStep {
    if p.status.finished {
        match p.status.collection_id {
            Some(c) => PollStep::Collect(c),
            None => PollStep::Fail(JobError::Fetch(FetchFailure::MissingCollectionId)),
        }
    } else if p.attempts_left == 0 {
        PollStep::Fail(JobError::PollTimeout)
    } else {
        PollStep::Query
    }
}

/// The poller after a status query that returned `status`, or failed (`None`).
pub open spec fn after_query(p: PollerView, status: Option<SnapshotView>) -> Result<PollerView, JobError> {
    match status {
        Some(s) => Ok(PollerView { job_id: p.job_id, attempts_left: (p.attempts_left - 1) as nat, status: s }),
        None => Err(JobError::Fetch(FetchFailure::Http)),
    }
}

/// How a run of the poller ends.
pub enum PollEnd {
    /// It still wants to query.
    Pending,
    /// It collects this result collection.
    Collect(Seq<char>),
    Failed(JobError),
}

/// Drives a poller with the given status query outcomes, in order: the
/// number of queries it makes and how it ends.
pub open spec fn poll_run(p: PollerView, outcomes: Seq<Option<SnapshotView>>) -> (nat, PollEnd)
    decreases outcomes.len(),
{
    match next_step(p) {
        PollStep::Query => if outcomes.len() == 0 {
            (0, PollEnd::Pending)
        } else {
            match after_query(p, outcomes[0]) {
                Ok(q) => {
                    let (n, end) = poll_run(q, outcomes.drop_first());
                    (n + 1, end)
                },
                Err(e) => (1, PollEnd::Failed(e)),
            }
        },
        PollStep::Collect(c) => (0, PollEnd::Collect(c)),
        PollStep::Fail(e) => (0, PollEnd::Failed(e)),
    }
}

/// Polls one submitted job.
pub struct JobPoller {
    job_id: String,
    interval_ms: u64,
    attempts_left: u32,
    status: JobSnapshot,
}

impl View for JobPoller {
    type V = PollerView;

    closed spec fn view(&self) -> PollerView {
        PollerView { job_id: self.job_id@, attempts_left: self.attempts_left as nat, status: self.status@ }
    }
}

impl JobPoller {
    /// The wait before each status query.
    pub closed spec fn interval(&self) -> u64 {
        self.interval_ms
    }

    /// Starts polling from the submission's reply. The reply must be a
    /// successful JSON object response that names the job.
    pub fn start(policy: &PollPolicy, ack: &Reply) -> (r: Result<JobPoller, JobError>)
        requires
            policy.max_attempts >= 1,
        ensures
            match reply_status(*ack) {
                Some(s) => if s.job_id is Some {
                    r matches Ok(p) && p@ == started(policy.max_attempts as nat, s) && p.interval()
                        == policy.interval_ms
                } else {
                    r == Err::<JobPoller, JobError>(JobError::Submission)
                },
                None => r == Err::<JobPoller, JobError>(JobError::Submission),
            },
    {
        let status = match JobSnapshot::from_reply(ack) {
            Some(s) => s,
            None => return Err(JobError::Submission),
        };
        let job_id = match &status.job_id {
            Some(id) => id.clone(),
            None => return Err(JobError::Submission),
        };
        Ok(JobPoller { job_id, interval_ms: policy.interval_ms, attempts_left: policy.max_attempts, status })
    }

    /// The job being polled.
    pub fn job_id(&self) -> (r: &str)
        ensures
            r@ == self@.job_id,
    {
        self.job_id.as_str()
    }

    /// How long to wait before each status query.
    pub fn interval_ms(&self) -> (r: u64)
        ensures
            r == self.interval(),
    {
        self.interval_ms
    }

    /// What to do next.
    pub fn next_action(&self) -> (r: PollAction)
        ensures
            r.step() == next_step(self@),
    {
        if self.status.finished {
            match &self.status.collection_id {
                Some(c) => PollAction::Collect(c.clone()),
                None => PollAction::Fail(JobError::Fetch(FetchFailure::MissingCollectionId)),
            }
        } else if self.attempts_left == 0 {
            PollAction::Fail(JobError::PollTimeout)
        } else {
            PollAction::Query
        }
    }

    /// Takes the reply to a status query that `next_action` asked for. A
    /// failed query aborts polling; it is not retried.
    pub fn on_status(&mut self, reply: &Reply) -> (r: Result<(), JobError>)
        requires
            next_step(old(self)@) is Query,
        ensures
            match after_query(old(self)@, reply_status(*reply)) {
                Ok(q) => r is Ok && final(self)@ == q,
                Err(e) => r == Err::<(), JobError>(e) && final(self)@ == old(self)@,
            },
            final(self).interval() == old(self).interval(),
    {
        match JobSnapshot::from_reply(reply) {
            Some(s) => {
                self.status = s;
                self.attempts_left = self.attempts_left - 1;
                Ok(())
            },
            None => Err(JobError::Fetch(FetchFailure::Http)),
        }
    }
}

/// The first record of a result collection, from the reply to the fetch.
pub open spec fn first_record(reply: Reply) -> Result<Value, JobError> {
    match reply {
        Reply::Success(body) => match parsed_array(body@) {
            Some(items) => if items.len() > 0 {
                Ok(items[0])
            } else {
                Err(JobError::EmptyResult)
            },
            None => Err(JobError::Fetch(FetchFailure::Http)),
        },
        Reply::Failure => Err(JobError::Fetch(FetchFailure::Http)),
    }
}

/// Returns the first record of the fetched result collection, verbatim.
pub fn collect_first(reply: &Reply) -> (r: Result<Value, JobError>)
    ensures
        r == first_record(*reply),
        reply matches Reply::Success(body) && parsed_array(body@) == Some(Seq::<Value>::empty())
            ==> r == Err::<Value, JobError>(JobError::EmptyResult),
{
    match reply {
        Reply::Success(body) => match parse_array(body.as_str()) {
            Ok(mut items) => if items.len() > 0 {
                Ok(items.remove(0))
            } else {
                Err(JobError::EmptyResult)
            },
            Err(_) => Err(JobError::Fetch(FetchFailure::Http)),
        },
        Reply::Failure => Err(JobError::Fetch(FetchFailure::Http)),
    }
}

/// A status query that succeeded and reports the job as still running.
pub open spec fn still_running(outcome: Option<SnapshotView>) -> bool {
    outcome matches Some(s) && !s.finished
}

/// A poller whose job never reports completion makes one status query per
/// remaining attempt and then times out.
proof fn lemma_unfinished_runs_out(p: PollerView, outcomes: Seq<Option<SnapshotView>>)
    requires
        !p.status.finished,
        outcomes.len() >= p.attempts_left,
        forall|i: int| 0 <= i < outcomes.len() ==> #[trigger] still_running(outcomes[i]),
    ensures
        poll_run(p, outcomes) == (p.attempts_left, PollEnd::Failed(JobError::PollTimeout)),
    decreases p.attempts_left,
{
    if p.attempts_left > 0 {
        assert(still_running(outcomes[0]));
        let q = after_query(p, outcomes[0])->Ok_0;
        assert(q.attempts_left == p.attempts_left - 1);
        assert forall|i: int| 0 <= i < outcomes.drop_first().len() implies still_running(
            outcomes.drop_first()[i],
        ) by {
            assert(outcomes.drop_first()[i] == outcomes[i + 1]);
        }
        lemma_unfinished_runs_out(q, outcomes.drop_first());
    }
}

/// For every poll policy, a job that never reports completion is queried
/// exactly `max_attempts` times, and polling then fails with a timeout.
pub proof fn lemma_poll_times_out(max_attempts: nat, ack: SnapshotView, outcomes: Seq<Option<SnapshotView>>)
    requires
        max_attempts >= 1,
        !ack.finished,
        outcomes.len() >= max_attempts,
        forall|i: int| 0 <= i < outcomes.len() ==> #[trigger] still_running(outcomes[i]),
    ensures
        poll_run(started(max_attempts, ack), outcomes) == (max_attempts, PollEnd::Failed(JobError::PollTimeout)),
{
    lemma_unfinished_runs_out(started(max_attempts, ack), outcomes);
}

/// How polling ends once the job has reported completion: with the
/// collection it names, or with a missing-collection error.
pub open spec fn end_after_completion(status: SnapshotView) -> PollEnd {
    match status.collection_id {
        Some(c) => PollEnd::Collect(c),
        None => PollEnd::Failed(JobError::Fetch(FetchFailure::MissingCollectionId)),
    }
}

/// A submission that already reports completion is never polled: no status
/// query is made, whatever the replies would have been.
pub proof fn lemma_finished_submission_is_not_polled(
    max_attempts: nat,
    ack: SnapshotView,
    outcomes: Seq<Option<SnapshotView>>,
)
    requires
        ack.finished,
    ensures
        poll_run(started(max_attempts, ack), outcomes) == (0nat, end_after_completion(ack)),
{
}

/// A job whose first status query reports completion is queried exactly
/// once: polling stops there, whatever the later replies would have been.
pub proof fn lemma_completion_on_first_query_stops_polling(
    max_attempts: nat,
    ack: SnapshotView,
    outcomes: Seq<Option<SnapshotView>>,
)
    requires
        max_attempts >= 1,
        !ack.finished,
        outcomes.len() >= 1,
        outcomes[0] is Some,
        outcomes[0]->0.finished,
    ensures
        poll_run(started(max_attempts, ack), outcomes) == (1nat, end_after_completion(outcomes[0]->0)),
{
    let q = after_query(started(max_attempts, ack), outcomes[0])->Ok_0;
    assert(poll_run(q, outcomes.drop_first()) == (0nat, end_after_completion(outcomes[0]->0)));
}

} // verus!
