//! AWS IoT jobs: job records and the decisions of the jobs client.
use vstd::prelude::*;
use crate::mqtt::error::Error;

pub mod time;
pub mod client;

use self::time::{covert_date_time, date_time_of, DateTimeParts};

verus! {

#[verifier::external_type_specification]
#[verifier::external_body]
pub struct ExJsonValue(serde_json::Value);

#[verifier::external_type_specification]
#[verifier::external_body]
pub struct ExNaiveDateTime(chrono::NaiveDateTime);

#[verifier::external_type_specification]
#[verifier::external_body]
pub struct ExTimeDelta(chrono::TimeDelta);

/// Status of a job execution.
#[allow(non_camel_case_types)]
#[derive(Clone, Copy, Debug, PartialEq, Eq, Structural)]
pub enum JobStatus {
    IN_PROGRESS,
    FAILED,
    QUEUED,
    TIMED_OUT,
    SUCCEEDED,
    CANCELED,
    REJECTED,
    REMOVED,
}

/// Why the jobs service rejected a request.
#[allow(non_camel_case_types)]
#[derive(Clone, Copy, Debug, PartialEq, Eq, Structural)]
pub enum RejectedErrorCode {
    INVALID_TOPIC,
    INVALID_JSON,
    INVALID_REQUEST,
    INVALID_STATE_TRANSITION,
    RESOURCE_NOT_FOUND,
    VERSION_MISMATCH,
    INTERNAL_ERROR,
    REQUEST_THROTTLED,
    TERMINAL_STATE_REACHED,
}

/// The number the C side gives each job status, in declaration order.
pub open spec fn job_status_code(v: JobStatus) -> i32 {
    match v {
        JobStatus::IN_PROGRESS => 0,
        JobStatus::FAILED => 1,
        JobStatus::QUEUED => 2,
        JobStatus::TIMED_OUT => 3,
        JobStatus::SUCCEEDED => 4,
        JobStatus::CANCELED => 5,
        JobStatus::REJECTED => 6,
        JobStatus::REMOVED => 7,
    }
}

impl JobStatus {
    /// The number the C side gives the value.
    pub fn code(self) -> (r: i32)
        ensures
            r == job_status_code(self),
    {
        match self {
            JobStatus::IN_PROGRESS => 0,
            JobStatus::FAILED => 1,
            JobStatus::QUEUED => 2,
            JobStatus::TIMED_OUT => 3,
            JobStatus::SUCCEEDED => 4,
            JobStatus::CANCELED => 5,
            JobStatus::REJECTED => 6,
            JobStatus::REMOVED => 7,
        }
    }

    /// The value the C side numbers `code`; `None` for a number it does not
    /// give.
    pub fn from_code(code: i32) -> (r: Option<JobStatus>)
        ensures
            r is Some <==> 0 <= code < 8,
            r matches Some(v) ==> job_status_code(v) == code,
    {
        match code {
            0 => Some(JobStatus::IN_PROGRESS),
            1 => Some(JobStatus::FAILED),
            2 => Some(JobStatus::QUEUED),
            3 => Some(JobStatus::TIMED_OUT),
            4 => Some(JobStatus::SUCCEEDED),
            5 => Some(JobStatus::CANCELED),
            6 => Some(JobStatus::REJECTED),
            7 => Some(JobStatus::REMOVED),
            _ => None,
        }
    }
}

/// The number the C side gives each rejection reason, in declaration order.
pub open spec fn rejected_error_code(v: RejectedErrorCode) -> i32 {
    match v {
        RejectedErrorCode::INVALID_TOPIC => 0,
        RejectedErrorCode::INVALID_JSON => 1,
        RejectedErrorCode::INVALID_REQUEST => 2,
        RejectedErrorCode::INVALID_STATE_TRANSITION => 3,
        RejectedErrorCode::RESOURCE_NOT_FOUND => 4,
        RejectedErrorCode::VERSION_MISMATCH => 5,
        RejectedErrorCode::INTERNAL_ERROR => 6,
        RejectedErrorCode::REQUEST_THROTTLED => 7,
        RejectedErrorCode::TERMINAL_STATE_REACHED => 8,
    }
}

impl RejectedErrorCode {
    /// The number the C side gives the value.
    pub fn code(self) -> (r: i32)
        ensures
            r == rejected_error_code(self),
    {
        match self {
            RejectedErrorCode::INVALID_TOPIC => 0,
            RejectedErrorCode::INVALID_JSON => 1,
            RejectedErrorCode::INVALID_REQUEST => 2,
            RejectedErrorCode::INVALID_STATE_TRANSITION => 3,
            RejectedErrorCode::RESOURCE_NOT_FOUND => 4,
            RejectedErrorCode::VERSION_MISMATCH => 5,
            RejectedErrorCode::INTERNAL_ERROR => 6,
            RejectedErrorCode::REQUEST_THROTTLED => 7,
            RejectedErrorCode::TERMINAL_STATE_REACHED => 8,
        }
    }

    /// The value the C side numbers `code`; `None` for a number it does not
    /// give.
    pub fn from_code(code: i32) -> (r: Option<RejectedErrorCode>)
        ensures
            r is Some <==> 0 <= code < 9,
            r matches Some(v) ==> rejected_error_code(v) == code,
    {
        match code {
            0 => Some(RejectedErrorCode::INVALID_TOPIC),
            1 => Some(RejectedErrorCode::INVALID_JSON),
            2 => Some(RejectedErrorCode::INVALID_REQUEST),
            3 => Some(RejectedErrorCode::INVALID_STATE_TRANSITION),
            4 => Some(RejectedErrorCode::RESOURCE_NOT_FOUND),
            5 => Some(RejectedErrorCode::VERSION_MISMATCH),
            6 => Some(RejectedErrorCode::INTERNAL_ERROR),
            7 => Some(RejectedErrorCode::REQUEST_THROTTLED),
            8 => Some(RejectedErrorCode::TERMINAL_STATE_REACHED),
            _ => None,
        }
    }
}

/// Each job status has its own number in `0..8`, so reading back the
/// number of a status gives that status.
pub proof fn lemma_job_status_codes(a: JobStatus, b: JobStatus)
    ensures
        0 <= job_status_code(a) < 8,
        job_status_code(a) == job_status_code(b) ==> a == b,
{
}

/// Each rejection reason has its own number in `0..9`, so reading back the
/// number of a reason gives that reason.
pub proof fn lemma_rejected_error_codes(a: RejectedErrorCode, b: RejectedErrorCode)
    ensures
        0 <= rejected_error_code(a) < 9,
        rejected_error_code(a) == rejected_error_code(b) ==> a == b,
{
}

/// A rejection by the jobs service.
#[derive(Debug)]
pub struct RejectedOwned {
    pub timestamp: Option<chrono::NaiveDateTime>,
    pub code: Option<RejectedErrorCode>,
    pub message: Option<String>,
    pub client_token: Option<String>,
}

/// What the jobs service reported of a rejection, its time still split
/// into its parts.
pub struct RejectedParts {
    pub timestamp: Option<DateTimeParts>,
    pub code: Option<RejectedErrorCode>,
    pub message: Option<String>,
    pub client_token: Option<String>,
}

impl RejectedOwned {
    /// The rejection the service reported: its time is kept when it names
    /// an existing date and time.
    pub fn from_parts(parts: RejectedParts) -> (r: RejectedOwned)
        ensures
            r.timestamp == date_time_of(parts.timestamp),
            r.code == parts.code,
            r.message == parts.message,
            r.client_token == parts.client_token,
    {
        RejectedOwned {
            timestamp: covert_date_time(parts.timestamp),
            code: parts.code,
            message: parts.message,
            client_token: parts.client_token,
        }
    }
}

/// What the jobs service reported of a job execution, field by field as
/// it arrived (times still split into their parts, the document still raw
/// bytes).
pub struct JobInfoParts {
    pub job_id: Option<String>,
    pub job_document: Vec<u8>,
    pub status: Option<JobStatus>,
    pub version_number: Option<i32>,
    pub queue_at: Option<DateTimeParts>,
    pub thing_name: Option<String>,
    pub execution_number: Option<i64>,
    pub last_updated_at: Option<DateTimeParts>,
    pub started_at: Option<DateTimeParts>,
}

/// A job execution as the jobs service reported it.
#[derive(Debug)]
pub struct JobInfoOwned {
    pub job_id: Option<String>,
    pub job_document: Option<serde_json::Value>,
    pub status: Option<JobStatus>,
    pub version_number: Option<i32>,
    pub queue_at: Option<chrono::NaiveDateTime>,
    pub thing_name: Option<String>,
    pub execution_number: Option<i64>,
    pub last_updated_at: Option<chrono::NaiveDateTime>,
    pub started_at: Option<chrono::NaiveDateTime>,
}

/// The JSON document `serde_json::from_slice::<serde_json::Value>` reads
/// from the bytes, `None` when they do not parse.
pub uninterp spec fn json_document(bytes: Seq<u8>) -> Option<serde_json::Value>;

/// Parses a job document (`serde_json::from_slice::<serde_json::Value>`).
/// The contract claims only that the outcome is the named reading of the
/// bytes, a function of the bytes alone; what a parsed value holds is left
/// to serde_json.
#[verifier::external_body]
fn parse_json_document(bytes: &[u8]) -> (r: Option<serde_json::Value>)
    ensures
        r == json_document(bytes@),
{
    serde_json::from_slice(bytes).ok()
}

impl JobInfoOwned {
    /// Builds the record from what the service reported. The document is
    /// kept when it parses as JSON; a time is kept when it names an
    /// existing date and time. The last update time is taken from the
    /// queue time.
    pub fn from_parts(parts: JobInfoParts) -> (r: JobInfoOwned)
        ensures
            r.job_id == parts.job_id,
            r.job_document == json_document(parts.job_document@),
            r.status == parts.status,
            r.version_number == parts.version_number,
            r.queue_at == date_time_of(parts.queue_at),
            r.thing_name == parts.thing_name,
            r.execution_number == parts.execution_number,
            r.last_updated_at == date_time_of(parts.queue_at),
            r.started_at == date_time_of(parts.started_at),
    {
        JobInfoOwned {
            job_document: parse_json_document(parts.job_document.as_slice()),
            queue_at: covert_date_time(parts.queue_at),
            last_updated_at: covert_date_time(parts.queue_at),
            started_at: covert_date_time(parts.started_at),
            job_id: parts.job_id,
            status: parts.status,
            version_number: parts.version_number,
            thing_name: parts.thing_name,
            execution_number: parts.execution_number,
        }
    }
}

/// A summary of one job execution.
#[derive(Debug)]
pub struct JobExecutionSummaryOwned {
    pub job_id: Option<String>,
    pub version_number: Option<i32>,
    pub execution_number: Option<i64>,
    pub started_at: Option<chrono::NaiveDateTime>,
    pub queued_at: Option<chrono::NaiveDateTime>,
}

/// What the jobs service reported of one job execution in a summary,
/// times still split into their parts.
pub struct JobExecutionSummaryParts {
    pub job_id: Option<String>,
    pub version_number: Option<i32>,
    pub execution_number: Option<i64>,
    pub started_at: Option<DateTimeParts>,
    pub queued_at: Option<DateTimeParts>,
}

/// `s` is the summary of the reported parts `p`.
pub open spec fn summary_of(p: JobExecutionSummaryParts, s: JobExecutionSummaryOwned) -> bool {
    &&& s.job_id == p.job_id
    &&& s.version_number == p.version_number
    &&& s.execution_number == p.execution_number
    &&& (s.started_at == date_time_of(p.started_at))
    &&& (s.queued_at == date_time_of(p.queued_at))
}

impl JobExecutionSummaryOwned {
    /// The summary of the reported parts: a time is kept when it names an
    /// existing date and time.
    pub fn from_parts(parts: JobExecutionSummaryParts) -> (r: JobExecutionSummaryOwned)
        ensures
            summary_of(parts, r),
    {
        JobExecutionSummaryOwned {
            started_at: covert_date_time(parts.started_at),
            queued_at: covert_date_time(parts.queued_at),
            job_id: parts.job_id,
            version_number: parts.version_number,
            execution_number: parts.execution_number,
        }
    }
}

/// The queued and the in-progress job executions of a thing.
#[derive(Debug)]
pub struct JobsSummaryOwned {
    pub queued_jobs: Vec<JobExecutionSummaryOwned>,
    pub progres_jobs: Vec<JobExecutionSummaryOwned>,
}

/// Each summary of `s` is that of the parts at the same place of `p`.
pub open spec fn summaries_of(p: Seq<JobExecutionSummaryParts>, s: Seq<JobExecutionSummaryOwned>) -> bool {
    &&& s.len() == p.len()
    &&& forall|i: int| 0 <= i < s.len() ==> summary_of(#[trigger] p[i], s[i])
}

fn summaries_from_parts(parts: Vec<JobExecutionSummaryParts>) -> (r: Vec<JobExecutionSummaryOwned>)
    ensures
        summaries_of(parts@, r@),
{
    let ghost all = parts@;
    let mut rest = parts;
    let mut out: Vec<JobExecutionSummaryOwned> = Vec::new();
    let n = rest.len();
    let mut i: usize = 0;
    while i < n
        invariant
            n == all.len(),
            i <= n,
            rest@ == all.skip(i as int),
            out@.len() == i,
            forall|j: int| 0 <= j < i ==> summary_of(#[trigger] all[j], out@[j]),
        decreases n - i,
    {
        let p = rest.remove(0);
        assert(p == all[i as int]);
        out.push(JobExecutionSummaryOwned::from_parts(p));
        assert(rest@ =~= all.skip(i + 1));
        i = i + 1;
    }
    out
}

impl JobsSummaryOwned {
    /// The summary of the reported queued and in-progress executions, in
    /// the order reported.
    pub fn from_parts(queued: Vec<JobExecutionSummaryParts>, in_progress: Vec<JobExecutionSummaryParts>) -> (r:
        JobsSummaryOwned)
        ensures
            summaries_of(queued@, r.queued_jobs@),
            summaries_of(in_progress@, r.progres_jobs@),
    {
        JobsSummaryOwned {
            queued_jobs: summaries_from_parts(queued),
            progres_jobs: summaries_from_parts(in_progress),
        }
    }
}

/// An accepted response of the jobs service about a job execution.
#[derive(Debug)]
pub struct JobDescription {
    pub client_token: Option<String>,
    pub data: Option<JobInfoOwned>,
}

/// The kinds of responses the jobs client waits for.
#[derive(Clone, Copy, Debug, PartialEq, Eq, Structural)]
pub enum JobTag {
    Execution,
    NextChangedExecution,
    Pending,
    Update,
}

/// What identifies a job execution of a thing, and its current state.
#[derive(Debug)]
pub struct Description {
    pub thing_name: String,
    pub job_id: String,
    pub execution_number: i64,
    pub status: JobStatus,
    pub document: Option<serde_json::Value>,
}

impl Description {
    /// The job of a summary: the summary must name the job and its
    /// execution number, else the job cannot be created.
    pub fn from_summary(thing_name: &str, status: JobStatus, summary: JobExecutionSummaryOwned) -> (r:
        Result<Description, Error>)
        ensures
            (summary.job_id is Some && summary.execution_number is Some) <==> r is Ok,
            r is Err ==> r matches Err(Error::JobCreate),
            r matches Ok(d) ==> {
                &&& d.thing_name@ == thing_name@
                &&& Some(d.job_id) == summary.job_id
                &&& Some(d.execution_number) == summary.execution_number
                &&& d.status == status
                &&& d.document is None
            },
    {
        match (summary.job_id, summary.execution_number) {
            (Some(job_id), Some(execution_number)) => Ok(
                Description {
                    thing_name: thing_name.to_owned(),
                    job_id,
                    execution_number,
                    status,
                    document: None,
                },
            ),
            _ => Err(Error::JobCreate),
        }
    }

    /// The job to start from the next pending execution the service
    /// described: it must carry the job id, status, execution number and
    /// document, else there is no pending job.
    pub fn from_pending(thing_name: String, description: JobDescription) -> (r: Result<Description, Error>)
        ensures
            r is Ok <==> (description.data matches Some(info) && info.job_id is Some
                && info.status is Some && info.execution_number is Some
                && info.job_document is Some),
            r is Err ==> r matches Err(Error::NoPendingJobs),
            r matches Ok(d) ==> description.data matches Some(info) && {
                &&& d.thing_name == thing_name
                &&& Some(d.job_id) == info.job_id
                &&& Some(d.status) == info.status
                &&& Some(d.execution_number) == info.execution_number
                &&& d.document is Some
            },
    {
        match description.data {
            Some(info) => match (info.job_id, info.status, info.execution_number, info.job_document) {
                (Some(job_id), Some(status), Some(execution_number), Some(document)) => Ok(
                    Description {
                        thing_name,
                        job_id,
                        execution_number,
                        status,
                        document: Some(document),
                    },
                ),
                _ => Err(Error::NoPendingJobs),
            },
            None => Err(Error::NoPendingJobs),
        }
    }

    /// Returns the unique ID of the job.
    pub fn id(&self) -> (r: &str)
        ensures
            r@ == self.job_id@,
    {
        self.job_id.as_str()
    }

    /// Returns the name of the thing.
    pub fn name(&self) -> (r: &str)
        ensures
            r@ == self.thing_name@,
    {
        self.thing_name.as_str()
    }

    /// Returns the current status of the job.
    pub fn status(&self) -> (r: JobStatus)
        ensures
            r == self.status,
    {
        self.status
    }

    /// Returns the current execution number of the job.
    pub fn execution_number(&self) -> (r: i64)
        ensures
            r == self.execution_number,
    {
        self.execution_number
    }

    /// Returns the document associated with the job, if one exists.
    pub fn document(&self) -> (r: Option<&serde_json::Value>)
        ensures
            r is Some <==> self.document is Some,
            r matches Some(d) ==> self.document == Some(*d),
    {
        match &self.document {
            Some(d) => Some(d),
            None => None,
        }
    }

    /// Records an accepted update to `status`: the job's status becomes the
    /// requested one and the execution number moves on by one.
    pub fn record_update_accepted(&mut self, status: JobStatus)
        requires
            old(self).execution_number < i64::MAX,
        ensures
            final(self).status == status,
            final(self).execution_number == old(self).execution_number + 1,
            final(self).thing_name == old(self).thing_name,
            final(self).job_id == old(self).job_id,
            final(self).document == old(self).document,
    {
        self.status = status;
        self.execution_number = self.execution_number + 1;
    }
}

/// The whole minutes of a duration, as `chrono::TimeDelta::num_minutes`
/// counts them (whole seconds divided by sixty, rounded toward zero).
pub uninterp spec fn time_delta_minutes(d: chrono::TimeDelta) -> i64;

/// `chrono::TimeDelta::num_minutes`: the contract claims only that the result
/// is the named whole minutes of the duration, a function of the duration alone.
#[verifier::external_body]
fn duration_minutes(d: &chrono::TimeDelta) -> (r: i64)
    ensures
        r == time_delta_minutes(*d),
{
    d.num_minutes()
}

/// The step timeout sent with a start request, from the requested minutes:
/// only a positive number of minutes is sent.
pub fn step_timeout_from_minutes(minutes: Option<i64>) -> (r: Option<i64>)
    ensures
        r == (match minutes {
            Some(m) => if m > 0 {
                Some(m)
            } else {
                None
            },
            None => None,
        }),
{
    let step_timeout: i64 = match minutes {
        Some(m) => m,
        None => -1,
    };
    if step_timeout > 0 {
        Some(step_timeout)
    } else {
        None
    }
}

/// The step timeout sent with a start request: the whole minutes of the
/// requested timeout, when there is one and it is positive.
pub fn step_timeout(timeout: Option<chrono::TimeDelta>) -> (r: Option<i64>)
    ensures
        r == (match timeout {
            Some(d) => if time_delta_minutes(d) > 0 {
                Some(time_delta_minutes(d))
            } else {
                None
            },
            None => None,
        }),
{
    let minutes = match &timeout {
        Some(d) => Some(duration_minutes(d)),
        None => None,
    };
    step_timeout_from_minutes(minutes)
}

} // verus!
