use vstd::prelude::*;
use vstd::string::StringExecFns;

use crate::client::SEE_OTHER;
use crate::outside::{uuid_string, uuid_text};
use crate::registry::{PollOutcome, Submitted, WorkItem};

verus! {

pub const OK: u16 = 200;

pub const NOT_FOUND: u16 = 404;

/// The path under which the status of job `id` is polled.
pub open spec fn location_text(id: u128) -> Seq<char> {
    "/work/"@ + uuid_text(id)
}

/// An HTTP answer of the work service, before it is written to the wire.
pub struct Reply {
    pub status: u16,
    /// The `Location` header, if any.
    pub location: Option<String>,
    /// The `Retry-After` header, in seconds, if any.
    pub retry_after_secs: Option<u64>,
    /// The finished job that the body reports, if any.
    pub body: Option<WorkItem>,
}

pub fn work_location(id: u128) -> (r: String)
    ensures
        r@ == location_text(id),
{
    let mut path = String::from_str("/work/");
    let text = uuid_string(id);
    path.append(text.as_str());
    path
}

/// The answer to a submission: see the job's status resource, after half the
/// job's duration.
pub fn start_work_reply(s: &Submitted) -> (r: Reply)
    ensures
        r.status == SEE_OTHER,
        r.location is Some && r.location->0@ == location_text(s.work_id),
        r.retry_after_secs == Some(s.retry_after_secs),
        r.body is None,
{
    Reply {
        status: SEE_OTHER,
        location: Some(work_location(s.work_id)),
        retry_after_secs: Some(s.retry_after_secs),
        body: None,
    }
}

/// The answer to a poll of job `id`: not found; see the same resource again
/// after the hint; or the finished job.
pub fn poll_reply(id: u128, outcome: &PollOutcome) -> (r: Reply)
    ensures
        match *outcome {
            PollOutcome::NotFound => r.status == NOT_FOUND && r.location is None
                && r.retry_after_secs is None && r.body is None,
            PollOutcome::Pending { retry_after_secs } => {
                &&& r.status == SEE_OTHER
                &&& r.location is Some && r.location->0@ == location_text(id)
                &&& r.retry_after_secs == Some(retry_after_secs)
                &&& r.body is None
            },
            PollOutcome::Done { item } => r.status == OK && r.location is None
                && r.retry_after_secs is None && r.body == Some(item),
        },
{
    match outcome {
        PollOutcome::NotFound => Reply {
            status: NOT_FOUND,
            location: None,
            retry_after_secs: None,
            body: None,
        },
        PollOutcome::Pending { retry_after_secs } => Reply {
            status: SEE_OTHER,
            location: Some(work_location(id)),
            retry_after_secs: Some(*retry_after_secs),
            body: None,
        },
        PollOutcome::Done { item } => Reply {
            status: OK,
            location: None,
            retry_after_secs: None,
            body: Some(*item),
        },
    }
}

} // verus!
