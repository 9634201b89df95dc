//! Checking one URL with `HEAD` requests: the URLs to try, in order, and the
//! status that the responses decide.

use crate::legacy::server_messages::CheckStatus;
use crate::probe::{build_candidate_url, candidate_url, find_probe_base, probe_base};
use crate::url_parts::{trim_root_url, trimmed_root_url, UrlParts};
use vstd::prelude::*;
use vstd::string::*;

verus! {

/// The number of requests tried for one URL: two schemes, with or without a
/// trailing slash.
pub const ATTEMPTS: usize = 4;

/// The URL tried at `attempt`: `https` before `http`, and for each of them
/// first without then with a trailing slash.
pub open spec fn attempt_url(base: Seq<char>, attempt: nat) -> Seq<char> {
    candidate_url(base, attempt / 2 == 0, attempt % 2 == 1)
}

/// How a `HEAD` request for a URL ended.
pub enum ProbeOutcome {
    /// A successful response, from the URL it finally came from.
    Success(UrlParts),
    /// A response with an unsuccessful status, written as text.
    Status(String),
    /// The request failed, with this error text.
    Failure(String),
}

/// The check of a URL, as values.
pub struct UrlCheckView {
    pub url: Seq<char>,
    pub base: Seq<char>,
    pub attempt: nat,
}

/// The status that a successful response gives to `url`, where `trimmed` is
/// the URL of the response without its last character when its path is `/`.
pub open spec fn success_status(url: Seq<char>, trimmed: Seq<char>, status: CheckStatus) -> bool {
    if trimmed == url {
        status is Updated
    } else {
        status matches CheckStatus::Update { url: new_url } && new_url@ == trimmed
    }
}

/// A successful response decides the status from the trimmed final URL
/// alone: the checked URL is up to date exactly when that URL equals it
/// character for character, and otherwise it is to be replaced by exactly
/// that URL; a successful response never gives an error.
pub proof fn law_success_status_compares_exactly(url: Seq<char>, trimmed: Seq<char>, status: CheckStatus)
    requires
        success_status(url, trimmed, status),
    ensures
        status is Updated <==> trimmed == url,
        !(status is Error),
        !(status is Updated) ==> (status matches CheckStatus::Update { url: new_url } && new_url@ == trimmed
            && new_url@ != url),
{
}

/// The check after its present request failed: the next request, or
/// nothing when that request was the last.
pub open spec fn after_failure(check: UrlCheckView) -> Option<UrlCheckView> {
    if check.attempt + 1 < ATTEMPTS {
        Some(UrlCheckView { attempt: check.attempt + 1, ..check })
    } else {
        None
    }
}

/// The check after `failures` more failed requests, if it still goes on.
pub open spec fn after_failures(check: UrlCheckView, failures: nat) -> Option<UrlCheckView>
    decreases failures,
{
    if failures == 0 {
        Some(check)
    } else {
        match after_failure(check) {
            Some(next) => after_failures(next, (failures - 1) as nat),
            None => None,
        }
    }
}

/// A check goes on through the requests that are left and ends, with an
/// error, at the failure of the last one: no URL is tried more than four times.
pub proof fn law_check_ends_after_last_request(check: UrlCheckView, failures: nat)
    requires
        check.attempt < ATTEMPTS,
    ensures
        failures < ATTEMPTS - check.attempt ==> after_failures(check, failures) == Some(
            UrlCheckView { attempt: check.attempt + failures, ..check },
        ),
        failures >= ATTEMPTS - check.attempt ==> after_failures(check, failures) is None,
    decreases failures,
{
    if failures > 0 {
        if check.attempt + 1 < ATTEMPTS {
            law_check_ends_after_last_request(UrlCheckView { attempt: check.attempt + 1, ..check }, (failures - 1) as nat);
        }
    }
}

/// The check of one URL in progress.
pub struct UrlCheck {
    url: String,
    base: String,
    attempt: usize,
}

/// Where the check of a URL stands after a step.
pub enum CheckProgress {
    /// Another request is to be tried.
    Probe(UrlCheck),
    /// The URL has its status.
    Finished(CheckStatus),
}

impl View for UrlCheck {
    type V = UrlCheckView;

    closed spec fn view(&self) -> UrlCheckView {
        UrlCheckView { url: self.url@, base: self.base@, attempt: self.attempt as nat }
    }
}

impl UrlCheck {
    #[verifier::type_invariant]
    closed spec fn inv(self) -> bool {
        &&& self.attempt < ATTEMPTS
        &&& probe_base(self.url@) == Some(self.base@)
    }

    /// Starts the check of `url`: a URL that is not an HTTP URL gets the error
    /// `Invalid URL.` at once, and any other is probed from its first request.
    pub fn start(url: String) -> (progress: CheckProgress)
        ensures
            match probe_base(url@) {
                None => progress matches CheckProgress::Finished(CheckStatus::Error { message })
                    && message@ == "Invalid URL."@,
                Some(base) => progress matches CheckProgress::Probe(check)
                    && check@ == (UrlCheckView { url: url@, base, attempt: 0 }),
            },
    {
        match find_probe_base(url.as_str()) {
            None => CheckProgress::Finished(CheckStatus::Error { message: String::from_str("Invalid URL.") }),
            Some(base) => {
                let base = String::from_str(base);
                CheckProgress::Probe(UrlCheck { url, base, attempt: 0 })
            },
        }
    }

    /// The URL to send a `HEAD` request to now.
    pub fn request(&self) -> (url: String)
        ensures
            url@ == attempt_url(self@.base, self@.attempt),
            self@.attempt < ATTEMPTS,
    {
        proof {
            use_type_invariant(self);
        }
        build_candidate_url(self.base.as_str(), self.attempt / 2 == 0, self.attempt % 2 == 1)
    }

    /// Takes how the present request ended. A successful response decides the
    /// status; any other outcome moves on to the next request, or, after the
    /// last one, gives an error with the text of that last outcome.
    pub fn on_outcome(self, outcome: ProbeOutcome) -> (progress: CheckProgress)
        ensures
            match outcome {
                ProbeOutcome::Success(final_url) => progress matches CheckProgress::Finished(status)
                    && success_status(self@.url, trimmed_root_url(final_url@), status)
                    && (status is Updated <==> trimmed_root_url(final_url@) == self@.url)
                    && (status is Updated || (status matches CheckStatus::Update { url: new_url } && new_url@ == trimmed_root_url(final_url@))),
                ProbeOutcome::Status(text) | ProbeOutcome::Failure(text) => match after_failure(self@) {
                    Some(next) => progress matches CheckProgress::Probe(check) && check@ == next,
                    None => progress matches CheckProgress::Finished(CheckStatus::Error { message })
                        && message@ == text@,
                },
            },
    {
        proof {
            use_type_invariant(&self);
        }
        match outcome {
            ProbeOutcome::Success(final_url) => {
                let trimmed = String::from_str(trim_root_url(&final_url));
                if trimmed == self.url {
                    CheckProgress::Finished(CheckStatus::Updated)
                } else {
                    CheckProgress::Finished(CheckStatus::Update { url: trimmed })
                }
            },
            ProbeOutcome::Status(text) | ProbeOutcome::Failure(text) => {
                if self.attempt + 1 < ATTEMPTS {
                    CheckProgress::Probe(UrlCheck { url: self.url, base: self.base, attempt: self.attempt + 1 })
                } else {
                    CheckProgress::Finished(CheckStatus::Error { message: text })
                }
            },
        }
    }
}

} // verus!
