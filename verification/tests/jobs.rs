use beluga::jobs::client::{accepted_response, answer_result, job_names, job_ready, jobs_client_ready, Answer};
use beluga::jobs::time::{covert_date_time, DateTimeParts};
use beluga::jobs::{
    step_timeout, step_timeout_from_minutes, Description, JobDescription, JobExecutionSummaryOwned,
    JobExecutionSummaryParts, JobInfoOwned, JobInfoParts, JobStatus, JobsSummaryOwned, RejectedErrorCode,
    RejectedOwned, RejectedParts,
};
use beluga::mqtt::error::Error;

fn parts(year: i32, month: u32, day: u32, hour: u32, minute: u32, second: u32) -> DateTimeParts {
    DateTimeParts { year, month, day, hour, minute, second }
}

#[test]
fn date_times_that_exist() {
    let dt = covert_date_time(Some(parts(2024, 2, 29, 23, 59, 59))).unwrap();
    assert_eq!(dt.to_string(), "2024-02-29 23:59:59");
    assert!(covert_date_time(Some(parts(2023, 2, 29, 0, 0, 0))).is_none());
    assert!(covert_date_time(Some(parts(2024, 13, 1, 0, 0, 0))).is_none());
    assert!(covert_date_time(Some(parts(2024, 1, 1, 24, 0, 0))).is_none());
    assert!(covert_date_time(Some(parts(2024, 1, 1, 0, 0, 60))).is_none());
    assert!(covert_date_time(Some(parts(1900, 2, 29, 0, 0, 0))).is_none());
    assert!(covert_date_time(Some(parts(2000, 2, 29, 0, 0, 0))).is_some());
    assert!(covert_date_time(Some(parts(262142, 12, 31, 0, 0, 0))).is_some());
    assert!(covert_date_time(Some(parts(262143, 1, 1, 0, 0, 0))).is_none());
    assert!(covert_date_time(None).is_none());
}

fn info_parts(document: &[u8]) -> JobInfoParts {
    JobInfoParts {
        job_id: Some("job-1".to_string()),
        job_document: document.to_vec(),
        status: Some(JobStatus::QUEUED),
        version_number: Some(3),
        queue_at: Some(parts(2024, 5, 6, 7, 8, 9)),
        thing_name: Some("thing".to_string()),
        execution_number: Some(12),
        last_updated_at: Some(parts(2025, 1, 1, 0, 0, 0)),
        started_at: Some(parts(2024, 5, 6, 7, 9, 0)),
    }
}

#[test]
fn job_info_from_parts() {
    let info = JobInfoOwned::from_parts(info_parts(br#"{"operation":"reboot"}"#));
    assert_eq!(info.job_id.as_deref(), Some("job-1"));
    assert_eq!(info.job_document.unwrap()["operation"], "reboot");
    assert_eq!(info.status, Some(JobStatus::QUEUED));
    assert_eq!(info.version_number, Some(3));
    assert_eq!(info.thing_name.as_deref(), Some("thing"));
    assert_eq!(info.execution_number, Some(12));
    assert_eq!(info.queue_at.unwrap().to_string(), "2024-05-06 07:08:09");
    assert_eq!(info.last_updated_at.unwrap().to_string(), "2024-05-06 07:08:09");
    assert_eq!(info.started_at.unwrap().to_string(), "2024-05-06 07:09:00");
}

#[test]
fn job_info_drops_bad_document() {
    let info = JobInfoOwned::from_parts(info_parts(b"{not json"));
    assert!(info.job_document.is_none());
}

fn summary(job_id: Option<&str>, execution_number: Option<i64>) -> JobExecutionSummaryOwned {
    JobExecutionSummaryOwned {
        job_id: job_id.map(str::to_string),
        version_number: None,
        execution_number,
        started_at: None,
        queued_at: None,
    }
}

#[test]
fn description_from_summary() {
    let d = Description::from_summary("thing", JobStatus::IN_PROGRESS, summary(Some("j"), Some(4))).unwrap();
    assert_eq!(d.name(), "thing");
    assert_eq!(d.id(), "j");
    assert_eq!(d.status(), JobStatus::IN_PROGRESS);
    assert_eq!(d.execution_number(), 4);
    assert!(d.document().is_none());
    assert!(matches!(
        Description::from_summary("thing", JobStatus::QUEUED, summary(None, Some(4))),
        Err(Error::JobCreate)
    ));
    assert!(matches!(
        Description::from_summary("thing", JobStatus::QUEUED, summary(Some("j"), None)),
        Err(Error::JobCreate)
    ));
}

#[test]
fn description_from_pending() {
    let info = JobInfoOwned::from_parts(info_parts(b"[1, 2]"));
    let d = Description::from_pending(
        "thing".to_string(),
        JobDescription { client_token: None, data: Some(info) },
    )
    .unwrap();
    assert_eq!(d.id(), "job-1");
    assert_eq!(d.status(), JobStatus::QUEUED);
    assert_eq!(d.execution_number(), 12);
    assert_eq!(d.document().unwrap()[1], 2);
    let no_document = JobInfoOwned::from_parts(info_parts(b"oops"));
    assert!(matches!(
        Description::from_pending(
            "thing".to_string(),
            JobDescription { client_token: None, data: Some(no_document) }
        ),
        Err(Error::NoPendingJobs)
    ));
    assert!(matches!(
        Description::from_pending("thing".to_string(), JobDescription { client_token: None, data: None }),
        Err(Error::NoPendingJobs)
    ));
}

#[test]
fn accepted_update_moves_execution_number() {
    let mut d = Description::from_summary("t", JobStatus::QUEUED, summary(Some("j"), Some(1))).unwrap();
    d.record_update_accepted(JobStatus::IN_PROGRESS);
    assert_eq!(d.status(), JobStatus::IN_PROGRESS);
    d.record_update_accepted(JobStatus::SUCCEEDED);
    assert_eq!(d.status(), JobStatus::SUCCEEDED);
    assert_eq!(d.execution_number(), 3);
    assert_eq!(d.id(), "j");
}

#[test]
fn step_timeouts() {
    assert_eq!(step_timeout_from_minutes(Some(5)), Some(5));
    assert_eq!(step_timeout_from_minutes(Some(0)), None);
    assert_eq!(step_timeout_from_minutes(Some(-3)), None);
    assert_eq!(step_timeout_from_minutes(None), None);
    assert_eq!(step_timeout(Some(chrono::TimeDelta::seconds(150))), Some(2));
    assert_eq!(step_timeout(Some(chrono::TimeDelta::seconds(59))), None);
    assert_eq!(step_timeout(None), None);
}

#[test]
fn job_names_for_the_c_side() {
    let (t, j) = job_names("thing", "job").unwrap();
    assert_eq!(t, "thing");
    assert_eq!(j, "job");
    assert!(matches!(job_names("th\0ing", "j\0ob"), Err(Error::StringConversion(2))));
    assert!(matches!(job_names("thing", "jo\0b"), Err(Error::StringConversion(2))));
}

#[test]
fn clients_come_up() {
    assert!(job_ready(true, Some(true)).is_ok());
    assert!(matches!(job_ready(false, Some(true)), Err(Error::JobCreate)));
    assert!(matches!(job_ready(true, Some(false)), Err(Error::JobCreate)));
    assert!(matches!(job_ready(true, None), Err(Error::JobCreate)));
    assert!(jobs_client_ready(true, Some(true)).is_ok());
    assert!(matches!(jobs_client_ready(true, None), Err(Error::JobsClientCreate)));
    assert!(matches!(jobs_client_ready(false, Some(true)), Err(Error::JobsClientCreate)));
}

#[test]
fn answers() {
    assert!(matches!(answer_result(Answer::Accepted(Some(7))), Ok(7)));
    assert!(matches!(answer_result::<u8>(Answer::Accepted(None)), Err(Error::Receive)));
    assert!(matches!(answer_result::<u8>(Answer::Rejected(None)), Err(Error::Receive)));
    let rejected = RejectedOwned {
        timestamp: None,
        code: Some(RejectedErrorCode::VERSION_MISMATCH),
        message: Some("stale".to_string()),
        client_token: None,
    };
    match answer_result::<u8>(Answer::Rejected(Some(rejected))) {
        Err(Error::Rejected(r)) => {
            assert_eq!(r.code, Some(RejectedErrorCode::VERSION_MISMATCH));
            assert_eq!(r.message.as_deref(), Some("stale"));
        }
        other => panic!("unexpected {other:?}"),
    }
    assert_eq!(accepted_response(0, "x"), Some("x"));
    assert_eq!(accepted_response(5, "x"), None);
}

#[test]
fn rejection_from_parts() {
    let r = RejectedOwned::from_parts(RejectedParts {
        timestamp: Some(parts(2024, 4, 31, 0, 0, 0)),
        code: Some(RejectedErrorCode::INVALID_JSON),
        message: Some("bad".to_string()),
        client_token: Some("token".to_string()),
    });
    assert!(r.timestamp.is_none());
    assert_eq!(r.code, Some(RejectedErrorCode::INVALID_JSON));
    assert_eq!(r.message.as_deref(), Some("bad"));
    assert_eq!(r.client_token.as_deref(), Some("token"));
    let r = RejectedOwned::from_parts(RejectedParts {
        timestamp: Some(parts(2024, 4, 30, 12, 0, 1)),
        code: None,
        message: None,
        client_token: None,
    });
    assert_eq!(r.timestamp.unwrap().to_string(), "2024-04-30 12:00:01");
}

fn summary_parts(id: &str, n: i64) -> JobExecutionSummaryParts {
    JobExecutionSummaryParts {
        job_id: Some(id.to_string()),
        version_number: Some(1),
        execution_number: Some(n),
        started_at: None,
        queued_at: Some(parts(2023, 12, 31, 23, 0, 0)),
    }
}

#[test]
fn jobs_summary_from_parts() {
    let s = JobsSummaryOwned::from_parts(vec![summary_parts("a", 1), summary_parts("b", 2)], vec![summary_parts("c", 3)]);
    let queued: Vec<_> = s.queued_jobs.iter().map(|j| j.job_id.clone().unwrap()).collect();
    assert_eq!(queued, vec!["a", "b"]);
    assert_eq!(s.progres_jobs.len(), 1);
    let c = &s.progres_jobs[0];
    assert_eq!(c.execution_number, Some(3));
    assert!(c.started_at.is_none());
    assert_eq!(c.queued_at.unwrap().to_string(), "2023-12-31 23:00:00");
    let single = JobExecutionSummaryOwned::from_parts(summary_parts("d", 9));
    assert_eq!(single.job_id.as_deref(), Some("d"));
}

#[test]
fn status_and_rejection_codes() {
    assert_eq!(JobStatus::IN_PROGRESS.code(), 0);
    assert_eq!(JobStatus::REMOVED.code(), 7);
    assert_eq!(JobStatus::from_code(4), Some(JobStatus::SUCCEEDED));
    assert_eq!(JobStatus::from_code(8), None);
    assert_eq!(JobStatus::from_code(-1), None);
    for s in [JobStatus::FAILED, JobStatus::QUEUED, JobStatus::TIMED_OUT, JobStatus::CANCELED, JobStatus::REJECTED] {
        assert_eq!(JobStatus::from_code(s.code()), Some(s));
    }
    assert_eq!(RejectedErrorCode::from_code(5), Some(RejectedErrorCode::VERSION_MISMATCH));
    assert_eq!(RejectedErrorCode::TERMINAL_STATE_REACHED.code(), 8);
    assert_eq!(RejectedErrorCode::from_code(9), None);
}
