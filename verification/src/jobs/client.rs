//! What the jobs clients decide around their requests to the AWS IoT jobs
//! service: the names handed to the C side, whether a client came up, and
//! what an answer to a request means.
use vstd::prelude::*;
use vstd::string::StringSliceAdditionalSpecFns;
use crate::jobs::RejectedOwned;
use crate::mqtt::config::{c_string, first_nul};
use crate::mqtt::error::Error;

verus! {

/// The thing name and the job id as the C side takes them. A NUL byte in
/// the thing name is reported first, then one in the job id, each with its
/// position.
pub fn job_names(thing_name: &str, job_id: &str) -> (r: Result<(String, String), Error>)
    ensures
        first_nul(thing_name.spec_bytes()) matches Some(p) ==> (r matches Err(Error::StringConversion(q))
            && q == p),
        first_nul(thing_name.spec_bytes()) is None ==> (first_nul(job_id.spec_bytes()) matches Some(p)
            ==> (r matches Err(Error::StringConversion(q)) && q == p)),
        first_nul(thing_name.spec_bytes()) is None && first_nul(job_id.spec_bytes()) is None ==> (
        r matches Ok((t, j)) && t@ == thing_name@ && j@ == job_id@),
{
    let t = c_string(thing_name)?;
    let j = c_string(job_id)?;
    Ok((t, j))
}

/// Whether a job came up: the library must have created it (`created`),
/// and its subscriptions must have completed without error (`subscribed`,
/// `None` when no report came).
pub fn job_ready(created: bool, subscribed: Option<bool>) -> (r: Result<(), Error>)
    ensures
        r is Ok <==> created && subscribed == Some(true),
        r is Err ==> r matches Err(Error::JobCreate),
{
    if !created {
        return Err(Error::JobCreate);
    }
    match subscribed {
        Some(true) => Ok(()),
        _ => Err(Error::JobCreate),
    }
}

/// Whether a jobs client came up, as [`job_ready`] decides for a job.
pub fn jobs_client_ready(created: bool, subscribed: Option<bool>) -> (r: Result<(), Error>)
    ensures
        r is Ok <==> created && subscribed == Some(true),
        r is Err ==> r matches Err(Error::JobsClientCreate),
{
    if !created {
        return Err(Error::JobsClientCreate);
    }
    match subscribed {
        Some(true) => Ok(()),
        _ => Err(Error::JobsClientCreate),
    }
}

/// The first thing that came back for a request: an accepted answer or a
/// rejection, each `None` when its channel closed instead.
pub enum Answer<T> {
    Accepted(Option<T>),
    Rejected(Option<RejectedOwned>),
}

/// What an answer means: an accepted value is the result, a rejection is
/// the error, and a closed channel is a failure to receive.
pub fn answer_result<T>(answer: Answer<T>) -> (r: Result<T, Error>)
    ensures
        answer matches Answer::Accepted(Some(v)) ==> r == Ok::<T, Error>(v),
        answer matches Answer::Rejected(Some(rej)) ==> r == Err::<T, Error>(Error::Rejected(rej)),
        answer matches Answer::Accepted(None) ==> r matches Err(Error::Receive),
        answer matches Answer::Rejected(None) ==> r matches Err(Error::Receive),
{
    match answer {
        Answer::Accepted(Some(v)) => Ok(v),
        Answer::Accepted(None) => Err(Error::Receive),
        Answer::Rejected(Some(rej)) => Err(Error::Rejected(rej)),
        Answer::Rejected(None) => Err(Error::Receive),
    }
}

/// What an accepted-answer callback passes on: the value, only when the
/// library reported no error.
pub fn accepted_response<T>(io_err: i32, value: T) -> (r: Option<T>)
    ensures
        io_err == 0 ==> r == Some(value),
        io_err != 0 ==> r is None,
{
    if io_err == 0 {
        Some(value)
    } else {
        None
    }
}

} // verus!
