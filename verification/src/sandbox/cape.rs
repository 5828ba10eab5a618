//! The rules of the CAPE sandbox client: where its requests go, and what it
//! makes of the answers. Sending the requests is left to the caller.

use vstd::prelude::*;
use vstd::string::*;
use crate::decimal::{append_decimal, decimal};

verus! {

/// `s` without the slashes at its end.
pub open spec fn without_trailing_slashes(s: Seq<char>) -> Seq<char>
    decreases s.len(),
{
    if s.len() > 0 && s.last() == '/' {
        without_trailing_slashes(s.drop_last())
    } else {
        s
    }
}

/// Address of the request that submits a file.
pub open spec fn submit_url_text(base: Seq<char>) -> Seq<char> {
    base + "/tasks/create/file/"@
}

/// Address of the request that asks for the state of a task.
pub open spec fn view_url_text(base: Seq<char>, task_id: u64) -> Seq<char> {
    base + "/tasks/view/"@ + decimal(task_id as nat) + "/"@
}

/// Address of the request that asks for the report of a task.
pub open spec fn report_url_text(base: Seq<char>, task_id: u64) -> Seq<char> {
    base + "/tasks/report/"@ + decimal(task_id as nat) + "/"@
}

/// Seconds to wait between two polls of a task.
pub const POLL_INTERVAL_SECS: u64 = 5;

/// What one answer to a poll means for the wait.
#[derive(Clone, Copy, Debug, PartialEq, Eq, Structural)]
pub enum PollVerdict {
    /// The analysis is done and reported.
    Reported,
    /// The analysis failed inside the sandbox.
    Failed,
    /// Nothing final yet: wait this many seconds and ask again.
    RetryAfter(u64),
}

/// Why a request to the sandbox came to nothing.
#[derive(Debug)]
pub enum CapeFailure {
    /// The wait for the analysis took longer than allowed.
    Timeout,
    /// The analysis failed inside the sandbox.
    AnalysisFailed,
    /// The sandbox refused the submission; the text is what it answered.
    SubmissionFailed(String),
    /// The answer to the submission named no task.
    NoTaskId,
}

impl CapeFailure {
    /// The diagnostic text of the failure.
    pub open spec fn text(&self) -> Seq<char> {
        match self {
            CapeFailure::Timeout => "Analysis timeout detected!"@,
            CapeFailure::AnalysisFailed => "Analysis failed inside CAPE"@,
            CapeFailure::SubmissionFailed(answer) => "CAPE submission failed: "@ + answer@,
            CapeFailure::NoTaskId => "No task_id in response"@,
        }
    }

    /// The diagnostic text of the failure.
    pub fn message(&self) -> (text: String)
        ensures
            text@ == self.text(),
    {
        match self {
            CapeFailure::Timeout => String::from_str("Analysis timeout detected!"),
            CapeFailure::AnalysisFailed => String::from_str("Analysis failed inside CAPE"),
            CapeFailure::SubmissionFailed(answer) => String::from_str(
                "CAPE submission failed: ",
            ).concat(answer.as_str()),
            CapeFailure::NoTaskId => String::from_str("No task_id in response"),
        }
    }
}

/// Whether two texts are the same.
fn same_text(a: &str, b: &str) -> (same: bool)
    ensures
        same == (a@ == b@),
{
    String::from_str(a) == String::from_str(b)
}

/// Where a CAPE server is, and the token to present to it.
#[derive(Debug)]
pub struct CapeClient {
    base_url: String,
    api_token: String,
}

impl CapeClient {
    /// The address of the server, without a slash at its end.
    pub closed spec fn base(&self) -> Seq<char> {
        self.base_url@
    }

    /// The token to present to the server.
    pub closed spec fn token(&self) -> Seq<char> {
        self.api_token@
    }

    /// A client for the server at `base_url`. Slashes at the end of the
    /// address are dropped.
    pub fn new(base_url: &str, token: &str) -> (client: CapeClient)
        ensures
            client.base() == without_trailing_slashes(base_url@),
            client.token() == token@,
    {
        let mut end = base_url.unicode_len();
        assert(base_url@.subrange(0, end as int) =~= base_url@);
        while end > 0 && base_url.get_char(end - 1) == '/'
            invariant
                end <= base_url@.len(),
                without_trailing_slashes(base_url@) == without_trailing_slashes(
                    base_url@.subrange(0, end as int),
                ),
            decreases end,
        {
            proof {
                let kept = base_url@.subrange(0, end as int);
                assert(kept.drop_last() =~= base_url@.subrange(0, end - 1));
            }
            end -= 1;
        }
        CapeClient {
            base_url: String::from_str(base_url.substring_char(0, end)),
            api_token: String::from_str(token),
        }
    }

    pub fn base_url(&self) -> (text: &str)
        ensures
            text@ == self.base(),
    {
        self.base_url.as_str()
    }

    pub fn api_token(&self) -> (text: &str)
        ensures
            text@ == self.token(),
    {
        self.api_token.as_str()
    }

    /// Address of the request that submits a file.
    pub fn submit_url(&self) -> (url: String)
        ensures
            url@ == submit_url_text(self.base()),
    {
        self.base_url.clone().concat("/tasks/create/file/")
    }

    /// Address of the request that asks for the state of the task
    /// `task_id`.
    pub fn view_url(&self, task_id: u64) -> (url: String)
        ensures
            url@ == view_url_text(self.base(), task_id),
    {
        let mut url = self.base_url.clone().concat("/tasks/view/");
        append_decimal(&mut url, task_id);
        url.concat("/")
    }

    /// Address of the request that asks for the report of the task
    /// `task_id`.
    pub fn report_url(&self, task_id: u64) -> (url: String)
        ensures
            url@ == report_url_text(self.base(), task_id),
    {
        let mut url = self.base_url.clone().concat("/tasks/report/");
        append_decimal(&mut url, task_id);
        url.concat("/")
    }

    /// What the answer to a submission means: the task that the sandbox
    /// created, if the request succeeded and the answer names one.
    /// `answer` is the text of an answer that reports a failure.
    pub fn judge_submission(success: bool, answer: String, task_id: Option<u64>) -> (r: Result<
        u64,
        CapeFailure,
    >)
        ensures
            !success ==> r is Err && r->Err_0 is SubmissionFailed
                && r->Err_0->SubmissionFailed_0@ == answer@,
            success && task_id is None ==> r is Err && r->Err_0 is NoTaskId,
            success && task_id is Some ==> r == Ok::<u64, CapeFailure>(task_id->0),
    {
        if !success {
            return Err(CapeFailure::SubmissionFailed(answer));
        }
        match task_id {
            Some(id) => Ok(id),
            None => Err(CapeFailure::NoTaskId),
        }
    }

    /// Whether a wait that has lasted `elapsed_secs` seconds is over its
    /// limit of `timeout_secs` seconds.
    pub fn deadline_passed(elapsed_secs: u64, timeout_secs: u64) -> (passed: bool)
        ensures
            passed == (elapsed_secs > timeout_secs),
    {
        elapsed_secs > timeout_secs
    }

    /// What one answer to a poll means. `success` says whether the request
    /// succeeded, `status` is the status of the task that the answer
    /// carries, if it carries one.
    ///
    /// Only the status `reported` ends the wait well and only
    /// `failed_analysis` ends it badly; after a failed request, an answer
    /// without status or any other status the poll is repeated.
    pub fn judge_poll(success: bool, status: Option<&str>) -> (verdict: PollVerdict)
        ensures
            verdict == (if success && status is Some && status->0@ == "reported"@ {
                PollVerdict::Reported
            } else if success && status is Some && status->0@ == "failed_analysis"@ {
                PollVerdict::Failed
            } else {
                PollVerdict::RetryAfter(POLL_INTERVAL_SECS)
            }),
    {
        if !success {
            return PollVerdict::RetryAfter(POLL_INTERVAL_SECS);
        }
        match status {
            Some(text) => {
                if same_text(text, "reported") {
                    PollVerdict::Reported
                } else if same_text(text, "failed_analysis") {
                    PollVerdict::Failed
                } else {
                    PollVerdict::RetryAfter(POLL_INTERVAL_SECS)
                }
            },
            None => PollVerdict::RetryAfter(POLL_INTERVAL_SECS),
        }
    }

    /// One round of the wait for an analysis: gives up if the wait is over
    /// its limit, and otherwise judges the answer to the poll.
    pub fn wait_step(
        elapsed_secs: u64,
        timeout_secs: u64,
        success: bool,
        status: Option<&str>,
    ) -> (r: Result<PollVerdict, CapeFailure>)
        ensures
            elapsed_secs > timeout_secs ==> r is Err && r->Err_0 is Timeout,
            elapsed_secs <= timeout_secs ==> r is Ok && r->Ok_0 == (if success && status is Some
                && status->0@ == "reported"@ {
                PollVerdict::Reported
            } else if success && status is Some && status->0@ == "failed_analysis"@ {
                PollVerdict::Failed
            } else {
                PollVerdict::RetryAfter(POLL_INTERVAL_SECS)
            }),
    {
        if Self::deadline_passed(elapsed_secs, timeout_secs) {
            Err(CapeFailure::Timeout)
        } else {
            Ok(Self::judge_poll(success, status))
        }
    }
}

} // verus!
