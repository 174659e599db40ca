//! Bounded polling for a submitted job.
//!
//! The service has no way to call back, so the caller asks for the result at
//! a fixed interval, at most a fixed number of times. The decisions live in
//! [`Poller`]: the caller waits, queries, hands the answer to
//! [`Poller::observe`] and does what the returned action says.
use vstd::prelude::*;
use crate::json::{json_parses, json_str_at, lookup_str};

verus! {

/// The number of status queries made for one job.
pub const DEFAULT_MAX_ATTEMPTS: u32 = 11;

/// The wait before each status query, in milliseconds.
pub const POLL_DELAY_MILLIS: u64 = 10000;

/// What one status query found.
pub enum PollStatus {
    /// The picture is not ready yet.
    Pending,
    /// The picture is at this address.
    Ready(String),
    /// The answer could not be read.
    Malformed,
}

/// Why a job ended without a picture.
#[derive(PartialEq, Eq, Structural, Debug, Clone, Copy)]
pub enum PollFailure {
    Timeout,
    Parse,
}

/// What the caller does next.
pub enum PollAction {
    /// Wait, then query the status again.
    Poll,
    /// The job is done: send the picture at this address.
    Deliver(String),
    /// The job is over without a picture.
    GiveUp(PollFailure),
}

/// The action after the query numbered `made` (counting from one) found
/// `st`.
pub open spec fn action_after(made: int, max: int, st: PollStatus) -> PollAction {
    match st {
        PollStatus::Ready(u) => PollAction::Deliver(u),
        PollStatus::Malformed => PollAction::GiveUp(PollFailure::Parse),
        PollStatus::Pending => if made >= max {
            PollAction::GiveUp(PollFailure::Timeout)
        } else {
            PollAction::Poll
        },
    }
}

/// The whole sequence against a service whose query number `i` (counting
/// from zero) answers `answers[i]`, from the point where `made` queries are
/// behind: how many queries are made in all, and how it ends.
pub open spec fn drive(max: int, answers: Seq<PollStatus>, made: int) -> (int, PollAction)
    decreases max - made,
{
    if made >= max {
        (made, PollAction::GiveUp(PollFailure::Timeout))
    } else {
        let a = action_after(made + 1, max, answers[made]);
        if a is Poll {
            drive(max, answers, made + 1)
        } else {
            (made + 1, a)
        }
    }
}

/// A service that answers "pending" `k` times and then gives an address
/// is queried exactly `k + 1` times, and that address is delivered.
pub proof fn lemma_ready_after_pending(max: int, answers: Seq<PollStatus>, k: int, url: String)
    requires
        0 <= k < max,
        k < answers.len(),
        forall|i: int| 0 <= i < k ==> answers[i] is Pending,
        answers[k] == PollStatus::Ready(url),
    ensures
        drive(max, answers, 0) == (k + 1, PollAction::Deliver(url)),
{
    lemma_ready_from(max, answers, k, url, 0);
}

proof fn lemma_ready_from(max: int, answers: Seq<PollStatus>, k: int, url: String, made: int)
    requires
        0 <= made <= k < max,
        k < answers.len(),
        forall|i: int| 0 <= i < k ==> answers[i] is Pending,
        answers[k] == PollStatus::Ready(url),
    ensures
        drive(max, answers, made) == (k + 1, PollAction::Deliver(url)),
    decreases k - made,
{
    if made < k {
        lemma_ready_from(max, answers, k, url, made + 1);
    }
}

/// A service that never has the picture is queried exactly `max` times, and
/// the sequence ends in a timeout.
pub proof fn lemma_always_pending(max: int, answers: Seq<PollStatus>)
    requires
        0 <= max <= answers.len(),
        forall|i: int| 0 <= i < answers.len() ==> answers[i] is Pending,
    ensures
        drive(max, answers, 0) == (max, PollAction::GiveUp(PollFailure::Timeout)),
{
    lemma_pending_from(max, answers, 0);
}

proof fn lemma_pending_from(max: int, answers: Seq<PollStatus>, made: int)
    requires
        0 <= made <= max <= answers.len(),
        forall|i: int| 0 <= i < answers.len() ==> answers[i] is Pending,
    ensures
        drive(max, answers, made) == (max, PollAction::GiveUp(PollFailure::Timeout)),
    decreases max - made,
{
    if made < max {
        lemma_pending_from(max, answers, made + 1);
    }
}

/// The state of one polling sequence.
pub struct Poller {
    /// Queries made so far.
    pub attempts: u32,
    /// The most queries that will be made.
    pub max_attempts: u32,
    /// Whether the sequence is over.
    pub finished: bool,
}

impl Poller {
    pub open spec fn wf(&self) -> bool {
        self.attempts <= self.max_attempts
    }

    /// A sequence that will make at most `max_attempts` queries.
    pub fn new(max_attempts: u32) -> (r: Poller)
        ensures
            r.wf(),
            r.attempts == 0,
            r.max_attempts == max_attempts,
            !r.finished,
    {
        Poller { attempts: 0, max_attempts, finished: false }
    }

    /// The first action: query, unless no query is allowed at all.
    pub fn start(&mut self) -> (r: PollAction)
        requires
            old(self).wf(),
            old(self).attempts == 0,
        ensures
            final(self).wf(),
            final(self).attempts == 0,
            final(self).max_attempts == old(self).max_attempts,
            r == drive_start(old(self).max_attempts as int),
            final(self).finished == !(r is Poll),
    {
        if self.max_attempts == 0 {
            self.finished = true;
            PollAction::GiveUp(PollFailure::Timeout)
        } else {
            self.finished = false;
            PollAction::Poll
        }
    }

    /// Takes the answer to one query and says what to do next.
    pub fn observe(&mut self, status: PollStatus) -> (r: PollAction)
        requires
            old(self).wf(),
            !old(self).finished,
            old(self).attempts < old(self).max_attempts,
        ensures
            final(self).wf(),
            final(self).attempts == old(self).attempts + 1,
            final(self).max_attempts == old(self).max_attempts,
            r == action_after(final(self).attempts as int, final(self).max_attempts as int, status),
            final(self).finished == !(r is Poll),
    {
        self.attempts = self.attempts + 1;
        match status {
            PollStatus::Ready(u) => {
                self.finished = true;
                PollAction::Deliver(u)
            },
            PollStatus::Malformed => {
                self.finished = true;
                PollAction::GiveUp(PollFailure::Parse)
            },
            PollStatus::Pending => {
                if self.attempts >= self.max_attempts {
                    self.finished = true;
                    PollAction::GiveUp(PollFailure::Timeout)
                } else {
                    PollAction::Poll
                }
            },
        }
    }
}

/// The action before any query.
pub open spec fn drive_start(max: int) -> PollAction {
    if max <= 0 {
        PollAction::GiveUp(PollFailure::Timeout)
    } else {
        PollAction::Poll
    }
}

pub open spec fn pic_url_pointer() -> Seq<char> {
    "/data/picUrl"@
}

/// The status that a query found, given what the lookup of `data.picUrl` in
/// its answer found: a picture once that field holds a non-empty string.
pub open spec fn status_is(st: PollStatus, found: Option<Option<Seq<char>>>) -> bool {
    match found {
        None => st is Malformed,
        Some(Some(u)) => if u.len() > 0 {
            st matches PollStatus::Ready(v) && v@ == u
        } else {
            st is Pending
        },
        Some(None) => st is Pending,
    }
}

/// The status, given what the lookup of `data.picUrl` found.
pub fn poll_status_from(found: Result<Option<String>, serde_json::Error>) -> (r: PollStatus)
    ensures
        status_is(
            r,
            match found {
                Ok(Some(u)) => Some(Some(u@)),
                Ok(None) => Some(None),
                Err(_) => None,
            },
        ),
{
    match found {
        Err(_) => PollStatus::Malformed,
        Ok(None) => PollStatus::Pending,
        Ok(Some(u)) => {
            if u.as_str().unicode_len() > 0 {
                PollStatus::Ready(u)
            } else {
                PollStatus::Pending
            }
        },
    }
}

/// The status in the service's answer to a status query.
pub fn poll_status_of(response: &str) -> (r: PollStatus)
    ensures
        status_is(
            r,
            if json_parses(response@) {
                Some(json_str_at(response@, pic_url_pointer()))
            } else {
                None
            },
        ),
{
    poll_status_from(lookup_str(response, "/data/picUrl"))
}

} // verus!
