//! Judging what the development server answers, and deciding whether to ask
//! again.

use crate::failure::Failure;
use crate::text::{bytes_eq, eq_ignore_ascii_case, same_ignoring_case};
use vstd::prelude::*;
use vstd::string::StringSliceAdditionalSpecFns;
use vstd::utf8::encode_utf8;

verus! {

/// The pause before each request of a polling loop, in milliseconds.
pub const POLL_INTERVAL_MS: u64 = 100;

/// How long a polling loop goes on asking, in milliseconds.
pub const LIVENESS_TIMEOUT_MS: u64 = 10000;

/// The status of a response that succeeded.
pub const STATUS_OK: u16 = 200;

/// What kind of asset a response carries.
#[derive(Clone, Copy, Debug, PartialEq, Eq, Structural)]
pub enum ContentKind {
    Html,
    Json,
    JavaScript,
}

impl ContentKind {
    pub open spec fn mime_spec(self) -> &'static str {
        match self {
            ContentKind::Html => "text/html",
            ContentKind::Json => "application/json",
            ContentKind::JavaScript => "application/javascript",
        }
    }

    /// A `Content-Type` value names this kind if it is the kind's media type
    /// and nothing more, in any case of letters.
    pub open spec fn matches_spec(self, header: Seq<u8>) -> bool {
        same_ignoring_case(header, self.mime_spec().spec_bytes())
    }

    /// The media type of this kind.
    pub fn mime(self) -> (mime: &'static str)
        ensures
            mime == self.mime_spec(),
    {
        match self {
            ContentKind::Html => "text/html",
            ContentKind::Json => "application/json",
            ContentKind::JavaScript => "application/javascript",
        }
    }

    /// Whether the `Content-Type` value `header` names this kind.
    pub fn matches(self, header: &str) -> (matched: bool)
        ensures
            matched == self.matches_spec(header.spec_bytes()),
    {
        eq_ignore_ascii_case(header.as_bytes(), self.mime().as_bytes())
    }
}

/// What the server answered to one request.
#[derive(Debug, PartialEq, Eq)]
pub struct Response {
    pub status: u16,
    pub content_type: Option<String>,
    pub body: Vec<u8>,
}

impl Response {
    pub open spec fn is_ok_spec(self) -> bool {
        self.status == STATUS_OK
    }

    /// The response carries a `Content-Type` that names `kind`.
    pub open spec fn has_kind_spec(self, kind: ContentKind) -> bool {
        match self.content_type {
            Some(header) => kind.matches_spec(encode_utf8(header@)),
            None => false,
        }
    }

    /// Whether the status is 200.
    pub fn is_ok(&self) -> (ok: bool)
        ensures
            ok == self.is_ok_spec(),
    {
        self.status == STATUS_OK
    }

    /// Whether the response carries a `Content-Type` that names `kind`.
    pub fn has_kind(&self, kind: ContentKind) -> (matched: bool)
        ensures
            matched == self.has_kind_spec(kind),
    {
        match &self.content_type {
            Some(header) => kind.matches(header.as_str()),
            None => false,
        }
    }
}

/// What a polling loop does after a request.
#[derive(Debug, PartialEq, Eq)]
pub enum Poll {
    /// What was waited for is there: here is the response that shows it.
    Ready(Response),
    /// Not yet, and there is time left: pause, then ask again.
    Retry,
    /// Not yet, and the time is up.
    TimedOut,
    /// The request went wrong in a way that waiting does not mend.
    Failed(Failure),
}

/// The decision of a loop that waits for any response at all.
pub open spec fn poll_until_success_spec(
    attempt: Option<Response>,
    elapsed_ms: u64,
    timeout_ms: u64,
) -> Poll {
    match attempt {
        Some(response) => Poll::Ready(response),
        None => if elapsed_ms < timeout_ms {
            Poll::Retry
        } else {
            Poll::TimedOut
        },
    }
}

/// One round of waiting for the server to come up. `attempt` is what the
/// last request gave, `None` if the connection failed; `elapsed_ms` is the
/// time since the loop began. A response of any status ends the loop; a
/// failed connection is tried again as long as time is left.
pub fn poll_until_success(attempt: Option<Response>, elapsed_ms: u64, timeout_ms: u64) -> (next:
    Poll)
    ensures
        next == poll_until_success_spec(attempt, elapsed_ms, timeout_ms),
{
    match attempt {
        Some(response) => Poll::Ready(response),
        None => if elapsed_ms < timeout_ms {
            Poll::Retry
        } else {
            Poll::TimedOut
        },
    }
}

/// One round of waiting until a response satisfies `predicate`. Here the
/// server is up already: a failed connection or a status other than 200 ends
/// the loop with that failure. A response that satisfies the predicate ends
/// it with the response; any other is asked for again as long as time is
/// left.
pub fn poll_until_predicate<F: Fn(&Response) -> bool>(
    attempt: Option<Response>,
    predicate: F,
    elapsed_ms: u64,
    timeout_ms: u64,
) -> (next: Poll)
    requires
        attempt matches Some(response) ==> call_requires(predicate, (&response,)),
    ensures
        match attempt {
            None => next == Poll::Failed(Failure::Unreachable),
            Some(response) => if !response.is_ok_spec() {
                next == Poll::Failed(Failure::Status(response.status))
            } else {
                match next {
                    Poll::Ready(ready) => ready == response && call_ensures(
                        predicate,
                        (&response,),
                        true,
                    ),
                    Poll::Retry => elapsed_ms < timeout_ms && call_ensures(
                        predicate,
                        (&response,),
                        false,
                    ),
                    Poll::TimedOut => elapsed_ms >= timeout_ms && call_ensures(
                        predicate,
                        (&response,),
                        false,
                    ),
                    Poll::Failed(_) => false,
                }
            },
        },
{
    match attempt {
        None => Poll::Failed(Failure::Unreachable),
        Some(response) => {
            if !response.is_ok() {
                Poll::Failed(Failure::Status(response.status))
            } else if predicate(&response) {
                Poll::Ready(response)
            } else if elapsed_ms < timeout_ms {
                Poll::Retry
            } else {
                Poll::TimedOut
            }
        },
    }
}

/// The body differs from the one remembered.
pub open spec fn changed_spec(remembered: Seq<u8>, body: Seq<u8>) -> bool {
    remembered != body
}

/// Whether `body` differs from the remembered one.
pub fn changed(remembered: &[u8], body: &[u8]) -> (differs: bool)
    ensures
        differs == changed_spec(remembered@, body@),
{
    !bytes_eq(remembered, body)
}

/// A loop that waits for a response never asks again once the time is up,
/// and never gives up while time is left.
pub proof fn lemma_poll_bounded(attempt: Option<Response>, elapsed_ms: u64, timeout_ms: u64)
    ensures
        poll_until_success_spec(attempt, elapsed_ms, timeout_ms) == Poll::Retry ==> elapsed_ms
            < timeout_ms,
        poll_until_success_spec(attempt, elapsed_ms, timeout_ms) == Poll::TimedOut ==> elapsed_ms
            >= timeout_ms && attempt is None,
        attempt is Some ==> poll_until_success_spec(attempt, elapsed_ms, timeout_ms)
            == Poll::Ready(attempt->0),
{
}

} // verus!
