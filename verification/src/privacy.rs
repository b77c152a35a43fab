//! Output redaction through the privacy-filter service. Every exec / poll
//! result is sent to the service's `/redact/batch` endpoint and the
//! caller-facing stdout/stderr are replaced with the redacted text. The
//! audit trail keeps the raw output; this only shapes what the caller sees.
//!
//! The HTTP exchange is made by the caller; this module decides where to send
//! it, whether to send at all, and what the caller receives for each reply.

use vstd::prelude::*;
use crate::text::{concat_str, trim_end_slashes, trim_end_slashes_str};

verus! {

/// The batch redaction endpoint under `base_url` (trailing slashes of the
/// base are dropped).
pub open spec fn redact_endpoint(base_url: Seq<char>) -> Seq<char> {
    trim_end_slashes(base_url) + "/redact/batch"@
}

/// What the caller is shown when the service fails and the filter fails closed.
pub open spec fn withheld_text() -> Seq<char> {
    "[privacy-filter unavailable; output withheld]"@
}

/// A usable reply: exactly one redacted text per submitted text.
pub open spec fn reply_usable(reply: Option<Seq<Seq<char>>>) -> bool {
    reply matches Some(r) && r.len() == 2
}

/// The (stdout, stderr) the caller receives, given the raw output and the
/// service's reply (`None` when the call failed).
pub open spec fn filter_outcome(
    fail_open: bool,
    stdout: Seq<char>,
    stderr: Seq<char>,
    reply: Option<Seq<Seq<char>>>,
) -> (Seq<char>, Seq<char>) {
    if reply_usable(reply) {
        (reply->Some_0[0], reply->Some_0[1])
    } else if fail_open {
        (stdout, stderr)
    } else {
        (Seq::empty(), withheld_text())
    }
}

/// The views of a reply's texts.
pub open spec fn reply_view(reply: Option<Vec<String>>) -> Option<Seq<Seq<char>>> {
    match reply {
        Some(v) => Some(v.deep_view()),
        None => None,
    }
}

/// Client-side settings of the redaction service.
pub struct PrivacyFilter {
    endpoint: String,
    /// On service error: return the raw output (true) or withhold it (false).
    fail_open: bool,
}

impl PrivacyFilter {
    /// The endpoint requests go to.
    pub closed spec fn endpoint_view(&self) -> Seq<char> {
        self.endpoint@
    }

    /// Whether failures pass the raw output through.
    pub closed spec fn is_fail_open(&self) -> bool {
        self.fail_open
    }

    /// Settings for the service at `base_url`.
    pub fn new(base_url: String, fail_open: bool) -> (r: PrivacyFilter)
        ensures
            r.endpoint_view() == redact_endpoint(base_url@),
            r.is_fail_open() == fail_open,
    {
        let base = trim_end_slashes_str(base_url.as_str());
        let endpoint = concat_str(base.as_str(), "/redact/batch");
        PrivacyFilter { endpoint, fail_open }
    }

    /// The batch endpoint.
    pub fn endpoint(&self) -> (r: &str)
        ensures
            r@ == self.endpoint_view(),
    {
        self.endpoint.as_str()
    }

    /// Whether failures pass the raw output through.
    pub fn fail_open(&self) -> (r: bool)
        ensures
            r == self.is_fail_open(),
    {
        self.fail_open
    }

    /// Whether there is anything to redact: empty output is left as it is and
    /// no request is made.
    pub fn needs_redaction(stdout: &str, stderr: &str) -> (r: bool)
        ensures
            r == !(stdout@.len() == 0 && stderr@.len() == 0),
    {
        !(stdout.unicode_len() == 0 && stderr.unicode_len() == 0)
    }

    /// What the caller receives for the raw `stdout`/`stderr`, given the
    /// service's reply to the batch `[stdout, stderr]` (`None` when the call
    /// failed). A reply of the wrong shape counts as a failure.
    pub fn filter_output(&self, stdout: String, stderr: String, reply: Option<Vec<String>>) -> (r: (
        String,
        String,
    ))
        ensures
            (r.0@, r.1@) == filter_outcome(
                self.is_fail_open(),
                stdout@,
                stderr@,
                reply_view(reply),
            ),
            reply is Some && reply->Some_0@.len() == 2 ==> r.0 == reply->Some_0@[0] && r.1
                == reply->Some_0@[1],
            !reply_usable(reply_view(reply)) && self.is_fail_open() ==> r.0 == stdout && r.1
                == stderr,
    {
        match reply {
            Some(mut v) => {
                if v.len() == 2 {
                    let ghost v0 = v@;
                    let err = v.pop().unwrap();
                    let out = v.pop().unwrap();
                    assert(out == v0[0] && err == v0[1]);
                    return (out, err);
                }
                assert(!reply_usable(reply_view(Some(v))));
            },
            None => {},
        }
        if self.fail_open {
            (stdout, stderr)
        } else {
            (String::new(), String::from_str("[privacy-filter unavailable; output withheld]"))
        }
    }
}

/// A trailing slash on the base address does not change the endpoint.
pub proof fn law_endpoint_ignores_trailing_slash(base_url: Seq<char>)
    ensures
        redact_endpoint(base_url.push('/')) == redact_endpoint(base_url),
{
    assert(base_url.push('/').drop_last() =~= base_url);
}

/// When the service fails, a fail-closed filter shows the same fixed text
/// whatever the raw output was, so no raw output reaches the caller; a
/// fail-open filter shows the raw output unchanged.
pub proof fn law_failure_outcome(
    stdout: Seq<char>,
    stderr: Seq<char>,
    other_stdout: Seq<char>,
    other_stderr: Seq<char>,
    reply: Option<Seq<Seq<char>>>,
)
    requires
        !reply_usable(reply),
    ensures
        filter_outcome(false, stdout, stderr, reply) == filter_outcome(
            false,
            other_stdout,
            other_stderr,
            reply,
        ),
        filter_outcome(false, stdout, stderr, reply) == (Seq::<char>::empty(), withheld_text()),
        filter_outcome(true, stdout, stderr, reply) == (stdout, stderr),
{
}

} // verus!
