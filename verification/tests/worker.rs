use galion::errors::GalionError;
use galion::jobs::{JobState, JobStatus, JobsList, SyncJob, SyncJobData};
use galion::json::parse;
use galion::worker::{
    crash_error, is_finished, outcome_of, poll_outcome, submit_outcome, Checked, JobTracker,
    Phase, PollOutcome, WorkerAction, WorkerEvent, POLL_INTERVAL_MS,
};

const RUNNING: &str =
    r#"{"finished":false,"success":false,"duration":1.5,"error":"","startTime":"2024-05-01T10:00:00Z","id":7}"#;
const FINISHED: &str =
    r#"{"finished":true,"success":true,"duration":12.5,"error":"","startTime":"2024-05-01T10:00:00Z","id":7}"#;

fn ok(text: &str) -> Result<String, String> {
    Ok(text.to_string())
}

fn backup(job_id: u64) -> SyncJobData {
    SyncJobData {
        job_id,
        name: "backup".to_string(),
        src: "/data".to_string(),
        dest: "remote:bucket".to_string(),
    }
}

fn compact(text: &str) -> String {
    serde_json::from_str::<serde_json::Value>(text).unwrap().to_string()
}

fn tracking_job_seven() -> JobTracker {
    let mut tracker = JobTracker::new();
    assert_eq!(tracker.action(), WorkerAction::AwaitCommand);
    let action = tracker.step(WorkerEvent::Received(Some(SyncJob::Sync(backup(0)))));
    assert_eq!(
        action,
        WorkerAction::SubmitSync { src: "/data".to_string(), dest: "remote:bucket".to_string() }
    );
    let action = tracker.submit_reply(&ok(r#"{"jobid":7}"#));
    assert_eq!(action, WorkerAction::PollStatus(7));
    tracker
}

#[test]
fn a_submitted_job_is_tracked_until_the_engine_reports_it_finished() {
    let mut tracker = tracking_job_seven();
    assert_eq!(tracker.jobs().len(), 1);
    assert_eq!(tracker.jobs().key_at(0), &backup(7));
    assert_eq!(tracker.jobs().state_at(0), &JobState::Sent);
    assert!(tracker.is_jobs_waiting());

    let action = tracker.status_reply(&ok(RUNNING));
    let pending = JobStatus {
        success: false,
        duration: "1.5".to_string(),
        error: String::new(),
        start_time: "2024-05-01T10:00:00Z".to_string(),
        debug_str: Some(compact(RUNNING)),
    };
    assert_eq!(tracker.jobs().state_at(0), &JobState::Pending(pending));
    let mut expected = JobsList::new();
    expected.insert(backup(7), tracker.jobs().state_at(0).clone());
    assert_eq!(action, WorkerAction::SendSnapshot(expected));

    assert_eq!(tracker.step(WorkerEvent::Published(true)), WorkerAction::CheckCommand);
    assert_eq!(
        tracker.step(WorkerEvent::Checked(Checked::Empty)),
        WorkerAction::Sleep(POLL_INTERVAL_MS)
    );
    assert_eq!(POLL_INTERVAL_MS, 500);
    assert_eq!(tracker.step(WorkerEvent::Slept), WorkerAction::PollStatus(7));

    let action = tracker.status_reply(&ok(FINISHED));
    let done = match tracker.jobs().state_at(0) {
        JobState::Done(status) => status.clone(),
        other => panic!("not done: {:?}", other),
    };
    assert!(done.success);
    assert_eq!(done.duration.parse::<f64>(), Ok(12.5));
    assert_eq!(done.error, "");
    assert!(matches!(action, WorkerAction::SendSnapshot(_)));
    assert!(!tracker.is_jobs_waiting());

    assert_eq!(tracker.step(WorkerEvent::Published(true)), WorkerAction::CheckCommand);
    assert_eq!(
        tracker.step(WorkerEvent::Checked(Checked::Empty)),
        WorkerAction::Sleep(POLL_INTERVAL_MS)
    );
    assert_eq!(tracker.step(WorkerEvent::Slept), WorkerAction::AwaitCommand);
    assert_eq!(tracker.jobs().state_at(0), &JobState::Done(done.clone()));

    let action = tracker.step(WorkerEvent::Received(Some(SyncJob::Sync(backup(0)))));
    assert!(matches!(action, WorkerAction::SubmitSync { .. }));
    let action = tracker.submit_reply(&ok(r#"{"jobid":8}"#));
    assert_eq!(action, WorkerAction::PollStatus(8));
    tracker.status_reply(&ok(RUNNING));
    assert_eq!(tracker.jobs().len(), 2);
    assert_eq!(tracker.jobs().state_at(0), &JobState::Done(done));
    assert!(matches!(tracker.jobs().state_at(1), JobState::Pending(_)));
}

#[test]
fn a_poll_that_fails_leaves_the_job_as_it_is() {
    let mut tracker = tracking_job_seven();
    let action = tracker.status_reply(&Err("connection refused".to_string()));
    assert_eq!(tracker.jobs().state_at(0), &JobState::Sent);
    assert!(matches!(action, WorkerAction::SendSnapshot(_)));
    tracker.step(WorkerEvent::Published(true));
    tracker.step(WorkerEvent::Checked(Checked::Empty));
    assert_eq!(tracker.step(WorkerEvent::Slept), WorkerAction::PollStatus(7));
    let action = tracker.status_reply(&ok("<html>"));
    assert_eq!(tracker.jobs().state_at(0), &JobState::Sent);
    assert!(matches!(action, WorkerAction::SendSnapshot(_)));
}

#[test]
fn a_malformed_report_stops_the_worker_after_telling_the_front_end() {
    let mut tracker = tracking_job_seven();
    let action = tracker.status_reply(&ok(r#"{"finished":true,"success":"yes"}"#));
    assert_eq!(action, WorkerAction::SendTermination);
    assert_eq!(tracker.jobs().state_at(0), &JobState::Sent);
    let action = tracker.step(WorkerEvent::Notified);
    let expected = GalionError::new("Background thread crashed: invalid job status: success");
    assert_eq!(action, WorkerAction::Finish(Err(expected.clone())));
    assert_eq!(tracker.phase(), &Phase::Stopped(Some(expected.clone())));
    assert_eq!(tracker.step(WorkerEvent::Slept), WorkerAction::Finish(Err(expected)));
}

#[test]
fn a_failed_submission_stops_the_worker_with_the_engine_error() {
    let mut tracker = JobTracker::new();
    tracker.step(WorkerEvent::Received(Some(SyncJob::Sync(backup(0)))));
    let action = tracker.submit_reply(&Err(r#"{"error":"no such remote"}"#.to_string()));
    assert_eq!(action, WorkerAction::SendTermination);
    assert!(tracker.jobs().is_empty());
    let action = tracker.step(WorkerEvent::Notified);
    assert_eq!(
        action,
        WorkerAction::Finish(Err(GalionError::new("Background thread crashed: no such remote")))
    );
}

#[test]
fn a_reply_without_job_id_adds_no_job() {
    let mut tracker = JobTracker::new();
    tracker.step(WorkerEvent::Received(Some(SyncJob::Sync(backup(0)))));
    let action = tracker.submit_reply(&ok(r#"{"accepted":true}"#));
    assert_eq!(action, WorkerAction::AwaitCommand);
    assert!(tracker.jobs().is_empty());
}

#[test]
fn the_worker_stops_on_request_and_when_the_front_end_is_gone() {
    let mut tracker = JobTracker::new();
    assert_eq!(tracker.step(WorkerEvent::Received(Some(SyncJob::Exit))), WorkerAction::Finish(Ok(())));
    assert_eq!(tracker.phase(), &Phase::Stopped(None));

    let mut tracker = JobTracker::new();
    assert_eq!(tracker.step(WorkerEvent::Received(None)), WorkerAction::Finish(Ok(())));

    let mut tracker = tracking_job_seven();
    tracker.status_reply(&ok(RUNNING));
    assert_eq!(tracker.step(WorkerEvent::Published(false)), WorkerAction::Finish(Ok(())));

    let mut tracker = tracking_job_seven();
    tracker.status_reply(&ok(RUNNING));
    tracker.step(WorkerEvent::Published(true));
    assert_eq!(
        tracker.step(WorkerEvent::Checked(Checked::Disconnected)),
        WorkerAction::Finish(Ok(()))
    );

    let mut tracker = tracking_job_seven();
    tracker.status_reply(&ok(RUNNING));
    tracker.step(WorkerEvent::Published(true));
    assert_eq!(
        tracker.step(WorkerEvent::Checked(Checked::Command(SyncJob::Exit))),
        WorkerAction::Finish(Ok(()))
    );
}

#[test]
fn an_event_that_answers_no_awaited_action_changes_nothing() {
    let mut tracker = tracking_job_seven();
    assert_eq!(tracker.step(WorkerEvent::Slept), WorkerAction::PollStatus(7));
    assert_eq!(tracker.step(WorkerEvent::Published(true)), WorkerAction::PollStatus(7));
    assert_eq!(tracker.step(WorkerEvent::Notified), WorkerAction::PollStatus(7));
    assert_eq!(tracker.phase(), &Phase::Polling(0));
    let mut idle = JobTracker::new();
    assert_eq!(idle.step(WorkerEvent::Checked(Checked::Empty)), WorkerAction::AwaitCommand);
}

#[test]
fn every_waiting_job_is_polled_in_a_round() {
    let mut tracker = tracking_job_seven();
    tracker.status_reply(&ok(FINISHED));
    tracker.step(WorkerEvent::Published(true));
    let action = tracker.step(WorkerEvent::Checked(Checked::Command(SyncJob::Sync(backup(0)))));
    assert!(matches!(action, WorkerAction::SubmitSync { .. }));
    assert_eq!(tracker.submit_reply(&ok(r#"{"jobid":3}"#)), WorkerAction::PollStatus(3));
    tracker.status_reply(&ok(RUNNING));
    tracker.step(WorkerEvent::Published(true));
    let action = tracker.step(WorkerEvent::Checked(Checked::Command(SyncJob::Sync(backup(0)))));
    assert!(matches!(action, WorkerAction::SubmitSync { .. }));
    assert_eq!(tracker.submit_reply(&ok(r#"{"jobid":9}"#)), WorkerAction::PollStatus(3));
    assert_eq!(tracker.status_reply(&ok(RUNNING)), WorkerAction::PollStatus(9));
    assert!(matches!(tracker.status_reply(&ok(RUNNING)), WorkerAction::SendSnapshot(_)));
    assert_eq!(tracker.jobs().len(), 3);
}

#[test]
fn reports_are_decoded_field_by_field() {
    let value = parse(FINISHED).unwrap();
    assert!(is_finished(&value));
    assert!(!is_finished(&parse(RUNNING).unwrap()));
    assert!(!is_finished(&parse(r#"{"finished":"true"}"#).unwrap()));
    let status = JobStatus::from_json(&value, None).unwrap();
    assert_eq!(
        status,
        JobStatus {
            success: true,
            duration: "12.5".to_string(),
            error: String::new(),
            start_time: "2024-05-01T10:00:00Z".to_string(),
            debug_str: None,
        }
    );
    let cases = [
        (r#"{"duration":1,"error":"","startTime":""}"#, "success"),
        (r#"{"success":true,"duration":"1","error":"","startTime":""}"#, "duration"),
        (r#"{"success":true,"duration":1,"error":null,"startTime":""}"#, "error"),
        (r#"{"success":true,"duration":1,"error":""}"#, "startTime"),
        (r#"[true,1,"",""]"#, "success"),
    ];
    for (text, field) in cases {
        let error = JobStatus::from_json(&parse(text).unwrap(), None).unwrap_err();
        assert_eq!(error, GalionError::new(&format!("invalid job status: {}", field)));
        assert_eq!(
            outcome_of(&parse(text).unwrap(), None),
            PollOutcome::Malformed(GalionError::new(&format!("invalid job status: {}", field)))
        );
    }
    let whole = JobStatus::from_json(&parse(r#"{"success":false,"duration":3,"error":"x","startTime":"t"}"#).unwrap(), None).unwrap();
    assert_eq!(whole.duration, "3");
    assert_eq!(whole.to_string(), "success: false (x), duration: 3");
}

#[test]
fn outcomes_follow_the_reply() {
    assert_eq!(poll_outcome(&Err("down".to_string())), PollOutcome::Unavailable);
    assert_eq!(poll_outcome(&ok("nonsense")), PollOutcome::Unavailable);
    match poll_outcome(&ok(RUNNING)) {
        PollOutcome::Report { finished, status } => {
            assert!(!finished);
            assert_eq!(status.debug_str, Some(compact(RUNNING)));
        },
        other => panic!("no report: {:?}", other),
    }
    assert_eq!(submit_outcome(&ok(r#"{"jobid":7}"#)), Ok(Some(7)));
    assert_eq!(submit_outcome(&ok(r#"{}"#)), Ok(None));
    assert_eq!(
        submit_outcome(&Err(r#"{"error":"denied"}"#.to_string())),
        Err(GalionError::new("denied"))
    );
    assert_eq!(
        crash_error(&GalionError::caused_by("eof")),
        GalionError::new("Background thread crashed: eof - caused by: eof")
    );
}
