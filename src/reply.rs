//! The whole-request deadline, and the reply that each result earns.

use vstd::prelude::*;
use crate::session::{
    outcome_after, steps_to, Action, Event, FailureKind, UploadOutcome, UploadSession,
};

verus! {

/// The request ran past its deadline and was abandoned.
#[derive(Clone, Copy, Debug, PartialEq, Eq, Structural)]
pub struct UploadTimeout;

/// Where uploads go and how long one request may take.
pub struct UploadConfig {
    pub root: String,
    pub deadline_secs: u64,
    pub payload_limit: u64,
}

pub const DEFAULT_DEADLINE_SECS: u64 = 3600;

/// Ten GiB.
pub const DEFAULT_PAYLOAD_LIMIT: u64 = 10737418240;

impl UploadConfig {
    /// `./uploads`, a deadline of one hour, and a body of at most ten GiB.
    pub fn standard() -> (r: UploadConfig)
        ensures
            r.root@ == seq!['.', '/', 'u', 'p', 'l', 'o', 'a', 'd', 's'],
            r.deadline_secs == 3600,
            r.payload_limit == 10 * 1024 * 1024 * 1024,
    {
        let root = String::from_str("./uploads");
        proof {
            reveal_strlit("./uploads");
            assert(root@ =~= seq!['.', '/', 'u', 'p', 'l', 'o', 'a', 'd', 's']);
        }
        UploadConfig { root, deadline_secs: DEFAULT_DEADLINE_SECS, payload_limit: DEFAULT_PAYLOAD_LIMIT }
    }

    /// The same settings with another deadline.
    pub fn with_deadline_secs(self, secs: u64) -> (r: UploadConfig)
        ensures
            r.root == self.root,
            r.deadline_secs == secs,
            r.payload_limit == self.payload_limit,
    {
        UploadConfig { deadline_secs: secs, ..self }
    }
}

pub open spec fn guard_spec(completed: Option<UploadOutcome>) -> Result<UploadOutcome, UploadTimeout> {
    match completed {
        Some(o) => Ok(o),
        None => Err(UploadTimeout),
    }
}

/// The result of a request raced against its deadline: the outcome unchanged
/// when the work finished first (`Some`), a timeout when the deadline did
/// (`None`).
pub fn guard_outcome(completed: Option<UploadOutcome>) -> (r: Result<UploadOutcome, UploadTimeout>)
    ensures
        r == guard_spec(completed),
{
    match completed {
        Some(o) => Ok(o),
        None => Err(UploadTimeout),
    }
}

/// An HTTP status and a short body.
#[derive(Debug, PartialEq, Eq)]
pub struct Reply {
    pub status: u16,
    pub body: String,
}

pub open spec fn status_spec(r: Result<UploadOutcome, UploadTimeout>) -> u16 {
    match r {
        Ok(UploadOutcome::Success(_)) => 200,
        Ok(UploadOutcome::NoFilesWritten) => 400,
        Ok(UploadOutcome::Failure(FailureKind::Decode)) => 400,
        Ok(UploadOutcome::Failure(_)) => 500,
        Err(_) => 504,
    }
}

pub open spec fn body_spec(r: Result<UploadOutcome, UploadTimeout>) -> Seq<char> {
    match r {
        Ok(UploadOutcome::Success(_)) => "File uploaded successfully"@,
        Ok(UploadOutcome::NoFilesWritten) => "No file uploaded"@,
        Ok(UploadOutcome::Failure(FailureKind::StorageUnavailable)) => "Failed to create uploads directory"@,
        Ok(UploadOutcome::Failure(FailureKind::Decode)) => "Malformed multipart body"@,
        Ok(UploadOutcome::Failure(FailureKind::Io)) => "Failed to write to file"@,
        Err(_) => "Upload timed out"@,
    }
}

/// The reply to a request: 200 when files were written, 400 for an empty or
/// malformed body, 500 when storage failed, 504 when the deadline passed.
pub fn reply_for(r: Result<UploadOutcome, UploadTimeout>) -> (rep: Reply)
    ensures
        rep.status == status_spec(r),
        rep.body@ == body_spec(r),
{
    match r {
        Ok(UploadOutcome::Success(_)) => Reply { status: 200, body: String::from_str("File uploaded successfully") },
        Ok(UploadOutcome::NoFilesWritten) => Reply { status: 400, body: String::from_str("No file uploaded") },
        Ok(UploadOutcome::Failure(FailureKind::StorageUnavailable)) => Reply {
            status: 500,
            body: String::from_str("Failed to create uploads directory"),
        },
        Ok(UploadOutcome::Failure(FailureKind::Decode)) => Reply {
            status: 400,
            body: String::from_str("Malformed multipart body"),
        },
        Ok(UploadOutcome::Failure(FailureKind::Io)) => Reply { status: 500, body: String::from_str("Failed to write to file") },
        Err(_) => Reply { status: 504, body: String::from_str("Upload timed out") },
    }
}

/// A request whose fields run out before any was written ends with
/// `NoFilesWritten` and a 400 reply: never a success, never a server error.
pub proof fn lemma_empty_request_is_client_error(pre: UploadSession, post: UploadSession, action: Action)
    requires
        pre.files_written_spec() == 0,
        steps_to(pre, Event::FieldsExhausted, post, action),
    ensures
        action == Action::Finish(UploadOutcome::NoFilesWritten),
        !(outcome_after(pre.files_written_spec()) is Success),
        status_spec(guard_spec(Some(UploadOutcome::NoFilesWritten))) == 400,
{
}

/// A request that has not finished when its deadline passes ends with a
/// timeout and a 504 reply, whatever it was doing.
pub proof fn lemma_deadline_gives_gateway_timeout()
    ensures
        guard_spec(None) == Err::<UploadOutcome, UploadTimeout>(UploadTimeout),
        status_spec(guard_spec(None)) == 504,
{
}

/// The deadline hides nothing: a request that finishes in time gets the
/// reply of its own outcome.
pub proof fn lemma_in_time_outcome_unchanged(o: UploadOutcome)
    ensures
        guard_spec(Some(o)) == Ok::<UploadOutcome, UploadTimeout>(o),
        status_spec(guard_spec(Some(o))) == status_spec(Ok(o)),
{
}

} // verus!
