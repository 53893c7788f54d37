//! Jobs: what an asynchronous request leaves behind, and the job endpoints.

use vstd::prelude::*;
use vstd::string::*;

verus! {

/// Job Information from an asynchronous invocation
#[derive(Clone, Debug, PartialEq, Eq)]
pub struct JobInfo {
    /// The response code
    pub code: u16,
    /// The id if valid
    pub id: Option<String>,
}

impl JobInfo {
    /// The job information of a response with status `code` and, when the
    /// server stored the job, its id.
    pub fn new(code: u16, id: Option<String>) -> (r: Self)
        ensures
            r.code == code && r.id == id,
    {
        JobInfo { code, id }
    }

    /// The response code
    pub fn code(&self) -> (r: &u16)
        ensures
            *r == self.code,
    {
        &self.code
    }

    /// The id if valid
    pub fn id(&self) -> (r: &Option<String>)
        ensures
            *r == self.id,
    {
        &self.id
    }
}

/// The path of the job API.
pub const JOB_SUFFIX: &'static str = "_api/job";

/// The path that lists the finished jobs.
pub const JOBS_DONE_SUFFIX: &'static str = "_api/job/done#by-type";

/// The path of the job `id`: `_api/job/<id>`.
pub open spec fn job_path(id: Seq<char>) -> Seq<char> {
    "_api/job/"@ + id
}

/// The path of the job `id`, whose status a `GET` reads and whose result a
/// `PUT` fetches.
pub fn job_suffix(id: &str) -> (r: String)
    ensures
        r@ == job_path(id@),
{
    let mut s = String::from_str("_api/job/");
    s.append(id);
    s
}

/// The path of the job `id` (`r`, what `job_suffix` gives): the id under
/// `_api/job/`.
pub proof fn lemma_job_path(id: Seq<char>, r: Seq<char>)
    requires
        r == job_path(id),
    ensures
        r == "_api/job/"@ + id,
{
}

} // verus!
