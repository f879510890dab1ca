use vstd::prelude::*;
use vstd::string::StrSliceExecFns;

verus! {

pub const MOVED_PERMANENTLY: u16 = 301;

pub const FOUND: u16 = 302;

pub const SEE_OTHER: u16 = 303;

pub const TEMPORARY_REDIRECT: u16 = 307;

pub const TOO_MANY_REQUESTS: u16 = 429;

pub const SERVICE_UNAVAILABLE: u16 = 503;

/// Past this many chained redirects the transport's own redirect handling errs.
pub const MAX_CHAINED_REDIRECTS: usize = 5;

/// Statuses after which a request may be tried again, given a wait hint.
pub open spec fn retry_status(status: u16) -> bool {
    status == TOO_MANY_REQUESTS || status == SERVICE_UNAVAILABLE || status == MOVED_PERMANENTLY
        || status == FOUND || status == SEE_OTHER || status == TEMPORARY_REDIRECT
}

pub open spec fn is_digit(c: char) -> bool {
    '0' <= c <= '9'
}

pub open spec fn all_digits(s: Seq<char>) -> bool {
    forall|i: int| 0 <= i < s.len() ==> is_digit(#[trigger] s[i])
}

/// The number that a string of decimal digits writes.
pub open spec fn digits_value(s: Seq<char>) -> int
    decreases s.len(),
{
    if s.len() == 0 {
        0
    } else {
        digits_value(s.drop_last()) * 10 + (s.last() as int - '0' as int)
    }
}

/// The digits of a number written with an optional leading `+`.
pub open spec fn unsigned_digits(s: Seq<char>) -> Seq<char> {
    if s.len() > 0 && s[0] == '+' {
        s.drop_first()
    } else {
        s
    }
}

/// A wait hint read as a whole number of seconds: an optional `+` and one or
/// more decimal digits whose value fits in 64 bits; anything else is no hint.
pub open spec fn parsed_seconds(s: Seq<char>) -> Option<u64> {
    let d = unsigned_digits(s);
    if d.len() > 0 && all_digits(d) && digits_value(d) <= u64::MAX {
        Some(digits_value(d) as u64)
    } else {
        None
    }
}

/// The wait hint that makes a response retryable, if it is.
pub open spec fn retry_hint(status: u16, retry_after: Option<Seq<char>>) -> Option<u64> {
    if !retry_status(status) {
        None
    } else {
        match retry_after {
            Some(s) => parsed_seconds(s),
            None => None,
        }
    }
}

proof fn lemma_digits_value_nonneg(s: Seq<char>)
    requires
        all_digits(s),
    ensures
        digits_value(s) >= 0,
    decreases s.len(),
{
    if s.len() > 0 {
        lemma_digits_value_nonneg(s.drop_last());
    }
}

/// A longer run of digits writes a number at least as large as its prefix.
proof fn lemma_digits_value_grows(s: Seq<char>, j: int)
    requires
        all_digits(s),
        0 <= j <= s.len(),
    ensures
        digits_value(s.subrange(0, j)) <= digits_value(s),
    decreases s.len() - j,
{
    if j < s.len() {
        let p = s.subrange(0, j + 1);
        assert(p.drop_last() =~= s.subrange(0, j));
        lemma_digits_value_nonneg(s.subrange(0, j));
        lemma_digits_value_grows(s, j + 1);
    } else {
        assert(s.subrange(0, j) =~= s);
    }
}

/// Reads a wait hint as a whole number of seconds.
pub fn parse_seconds(s: &str) -> (r: Option<u64>)
    ensures
        r == parsed_seconds(s@),
{
    let n = s.unicode_len();
    let mut start: usize = 0;
    if n > 0 && s.get_char(0) == '+' {
        start = 1;
    }
    let ghost d = unsigned_digits(s@);
    proof {
        assert(d =~= s@.subrange(start as int, n as int));
    }
    if start == n {
        return None;
    }
    let mut value: u64 = 0;
    let mut i: usize = start;
    while i < n
        invariant
            start <= i <= n,
            n == s@.len(),
            d == unsigned_digits(s@),
            d =~= s@.subrange(start as int, n as int),
            all_digits(d.subrange(0, i - start)),
            value as int == digits_value(d.subrange(0, i - start)),
        decreases n - i,
    {
        let c = s.get_char(i);
        let ghost k = i - start;
        proof {
            assert(d[k] == c);
        }
        if c < '0' || c > '9' {
            proof {
                assert(k < d.len());
                assert(!is_digit(d[k]));
                assert(!all_digits(d));
            }
            return None;
        }
        let digit = (c as u32 - '0' as u32) as u64;
        proof {
            let p = d.subrange(0, k + 1);
            assert(p.drop_last() =~= d.subrange(0, k));
            assert(p.last() == c);
            assert(all_digits(p));
            assert(digits_value(p) == value * 10 + digit);
        }
        if value > (u64::MAX - digit) / 10 {
            proof {
                let p = d.subrange(0, k + 1);
                assert(value * 10 + digit > u64::MAX) by (nonlinear_arith)
                    requires
                        value > (u64::MAX - digit) / 10,
                        digit <= 9,
                ;
                assert(digits_value(p) > u64::MAX);
                if all_digits(d) {
                    assert(d.subrange(0, k + 1) =~= p);
                    lemma_digits_value_grows(d, k + 1);
                    assert(digits_value(d) > u64::MAX);
                }
            }
            return None;
        }
        value = value * 10 + digit;
        i = i + 1;
        proof {
            assert(all_digits(d.subrange(0, i - start)));
        }
    }
    proof {
        assert(d.subrange(0, i - start) =~= d);
    }
    Some(value)
}

/// Reads the wait hint of a response, if the response is retryable.
pub fn retry_after_secs(status: u16, retry_after: &Option<String>) -> (r: Option<u64>)
    ensures
        r == retry_hint(
            status,
            match retry_after {
                Some(s) => Some(s@),
                None => None,
            },
        ),
{
    if !(status == TOO_MANY_REQUESTS || status == SERVICE_UNAVAILABLE || status
        == MOVED_PERMANENTLY || status == FOUND || status == SEE_OTHER || status
        == TEMPORARY_REDIRECT) {
        return None;
    }
    match retry_after {
        Some(s) => parse_seconds(s.as_str()),
        None => None,
    }
}

/// The request to send after a wait.
pub enum NextRequest {
    /// Send the original request again, unchanged.
    Replay,
    /// Send a `GET` to the redirect target, or to the original address where
    /// there is none, keeping the original headers, timeout and version.
    FollowGet { location: Option<String> },
}

/// What to do with a response.
pub enum Step {
    /// The response is final: hand it to the caller.
    Finish,
    /// Wait `wait_secs` seconds, then send `next`.
    Retry { wait_secs: u64, next: NextRequest },
}

#[derive(Clone, Copy, Debug, PartialEq, Eq, Structural)]
pub enum ClientError {
    /// The request cannot be sent a second time.
    NonRetryableRequest,
    /// The retry budget ran out before a final response came.
    ClientTimeout,
}

/// What the transport does with a redirect that it sees.
#[derive(Clone, Copy, Debug, PartialEq, Eq, Structural)]
pub enum RedirectAction {
    Follow,
    Stop,
    Error,
}

/// Redirect handling below the retry loop: stop at `see other`, so that the
/// loop sees its wait hint, and err past a chain of redirects.
pub open spec fn redirect_rule(previous: usize, status: u16) -> RedirectAction {
    if previous > MAX_CHAINED_REDIRECTS {
        RedirectAction::Error
    } else if status == SEE_OTHER {
        RedirectAction::Stop
    } else {
        RedirectAction::Follow
    }
}

pub fn redirect_policy(previous: usize, status: u16) -> (r: RedirectAction)
    ensures
        r == redirect_rule(previous, status),
{
    if previous > MAX_CHAINED_REDIRECTS {
        RedirectAction::Error
    } else if status == SEE_OTHER {
        RedirectAction::Stop
    } else {
        RedirectAction::Follow
    }
}

/// The state of one logical request's retry loop.
pub struct RetryLoop {
    pub max_retries: u64,
    pub retries: u64,
}

impl RetryLoop {
    /// Starts a loop that may retry at most `max_retries` times; a request that
    /// cannot be copied cannot be retried at all.
    pub fn start(request_clonable: bool, max_retries: u64) -> (r: Result<RetryLoop, ClientError>)
        ensures
            request_clonable <==> r.is_ok(),
            match r {
                Ok(l) => l.max_retries == max_retries && l.retries == 0,
                Err(e) => e == ClientError::NonRetryableRequest,
            },
    {
        if !request_clonable {
            return Err(ClientError::NonRetryableRequest);
        }
        Ok(RetryLoop { max_retries, retries: 0 })
    }

    /// Decides what follows a response of `status` with the given wait hint and
    /// redirect target headers.
    pub fn on_response(
        &mut self,
        status: u16,
        retry_after: &Option<String>,
        location: Option<String>,
    ) -> (r: Result<Step, ClientError>)
        ensures
            final(self).max_retries == old(self).max_retries,
            ({
                let hint = retry_hint(
                    status,
                    match retry_after {
                        Some(s) => Some(s@),
                        None => None,
                    },
                );
                match hint {
                    None => r is Ok && r->Ok_0 is Finish && final(self).retries == old(
                        self,
                    ).retries,
                    Some(secs) => if old(self).retries >= old(self).max_retries {
                        r == Err::<Step, ClientError>(ClientError::ClientTimeout)
                            && final(self).retries == old(self).retries
                    } else {
                        &&& final(self).retries == old(self).retries + 1
                        &&& r is Ok
                        &&& r->Ok_0 is Retry
                        &&& r->Ok_0->wait_secs == secs
                        &&& if status == SEE_OTHER {
                            r->Ok_0->next is FollowGet && r->Ok_0->next->location == location
                        } else {
                            r->Ok_0->next is Replay
                        }
                    },
                }
            }),
    {
        match retry_after_secs(status, retry_after) {
            None => Ok(Step::Finish),
            Some(secs) => {
                if self.retries >= self.max_retries {
                    return Err(ClientError::ClientTimeout);
                }
                self.retries = self.retries + 1;
                let next = if status == SEE_OTHER {
                    NextRequest::FollowGet { location }
                } else {
                    NextRequest::Replay
                };
                Ok(Step::Retry { wait_secs: secs, next })
            },
        }
    }
}

} // verus!
