use outreach::job::{collect_first, FetchFailure, JobError, JobPoller, JobSnapshot, PollAction, PollPolicy, Reply};

fn status_body(finished: bool, collection: Option<&str>) -> String {
    let finished_at = if finished { "\"2024-01-01T00:00:00Z\"" } else { "null" };
    let collection = match collection {
        Some(c) => format!("\"{}\"", c),
        None => "null".to_string(),
    };
    format!(
        "{{\"data\":{{\"id\":\"run-1\",\"finishedAt\":{},\"defaultDatasetId\":{}}}}}",
        finished_at, collection
    )
}

fn running() -> Reply {
    Reply::Success(status_body(false, Some("ds-1")))
}

fn done(collection: Option<&str>) -> Reply {
    Reply::Success(status_body(true, collection))
}

/// Drives a poller with the given status replies; returns the number of
/// status queries and how polling ended.
fn drive(max_attempts: u32, ack: Reply, replies: Vec<Reply>) -> (usize, Result<String, JobError>) {
    let policy = PollPolicy { interval_ms: 5000, max_attempts };
    let mut poller = match JobPoller::start(&policy, &ack) {
        Ok(p) => p,
        Err(e) => return (0, Err(e)),
    };
    let mut queries = 0;
    let mut replies = replies.into_iter();
    loop {
        match poller.next_action() {
            PollAction::Query => {
                queries += 1;
                let reply = replies.next().expect("a reply for each query");
                if let Err(e) = poller.on_status(&reply) {
                    return (queries, Err(e));
                }
            }
            PollAction::Collect(c) => return (queries, Ok(c)),
            PollAction::Fail(e) => return (queries, Err(e)),
        }
    }
}

#[test]
fn unfinished_job_is_queried_max_attempts_times() {
    for max in [1u32, 2, 3, 10] {
        let replies: Vec<Reply> = (0..20).map(|_| running()).collect();
        let (queries, end) = drive(max, running(), replies);
        assert_eq!(queries, max as usize);
        assert_eq!(end, Err(JobError::PollTimeout));
    }
}

#[test]
fn completion_on_first_query_stops_polling() {
    let (queries, end) = drive(10, running(), vec![done(Some("ds-9")), running(), running()]);
    assert_eq!(queries, 1);
    assert_eq!(end, Ok("ds-9".to_string()));
}

#[test]
fn completed_submission_needs_no_query() {
    let (queries, end) = drive(10, done(Some("ds-2")), vec![]);
    assert_eq!(queries, 0);
    assert_eq!(end, Ok("ds-2".to_string()));
}

#[test]
fn completion_on_last_attempt_is_collected() {
    let (queries, end) = drive(3, running(), vec![running(), running(), done(Some("ds-3"))]);
    assert_eq!(queries, 3);
    assert_eq!(end, Ok("ds-3".to_string()));
}

#[test]
fn finished_job_without_collection_fails() {
    let (_, end) = drive(5, running(), vec![done(None)]);
    assert_eq!(end, Err(JobError::Fetch(FetchFailure::MissingCollectionId)));
}

#[test]
fn failed_status_query_is_not_retried() {
    let (queries, end) = drive(5, running(), vec![Reply::Failure, running()]);
    assert_eq!(queries, 1);
    assert_eq!(end, Err(JobError::Fetch(FetchFailure::Http)));
    let (queries, end) = drive(5, running(), vec![Reply::Success("<html>".to_string())]);
    assert_eq!(queries, 1);
    assert_eq!(end, Err(JobError::Fetch(FetchFailure::Http)));
}

#[test]
fn submission_must_name_the_job() {
    assert_eq!(drive(5, Reply::Failure, vec![]).1, Err(JobError::Submission));
    assert_eq!(drive(5, Reply::Success("{\"data\":{}}".to_string()), vec![]).1, Err(JobError::Submission));
    assert_eq!(drive(5, Reply::Success("oops".to_string()), vec![]).1, Err(JobError::Submission));
}

#[test]
fn poller_reports_job_and_interval() {
    let policy = PollPolicy { interval_ms: 250, max_attempts: 2 };
    let poller = JobPoller::start(&policy, &running()).unwrap();
    assert_eq!(poller.job_id(), "run-1");
    assert_eq!(poller.interval_ms(), 250);
}

#[test]
fn snapshot_reads_status_fields() {
    let s = JobSnapshot::from_body(&status_body(true, Some("ds-5"))).unwrap();
    assert_eq!(s.job_id.as_deref(), Some("run-1"));
    assert!(s.finished);
    assert_eq!(s.collection_id.as_deref(), Some("ds-5"));
    let s = JobSnapshot::from_body("{\"other\":1}").unwrap();
    assert_eq!(s.job_id, None);
    assert!(!s.finished);
    assert!(JobSnapshot::from_body("[]").is_none());
}

#[test]
fn empty_collection_is_an_error() {
    assert_eq!(collect_first(&Reply::Success("[]".to_string())), Err(JobError::EmptyResult));
}

#[test]
fn collection_yields_its_first_record() {
    let first = collect_first(&Reply::Success("[{\"fullName\":\"Ann\"},{\"fullName\":\"Bob\"}]".to_string())).unwrap();
    assert_eq!(first["fullName"], "Ann");
    assert_eq!(collect_first(&Reply::Failure), Err(JobError::Fetch(FetchFailure::Http)));
    assert_eq!(collect_first(&Reply::Success("{}".to_string())), Err(JobError::Fetch(FetchFailure::Http)));
}
