use vstd::prelude::*;

use crate::error::{LimitKind, RequestTooLarge};

verus! {

/// The body limit used when none, or zero, is given: 5 MB.
pub const MAX_BODY_DEFAULT: u64 = 5000000;

/// The URL limit used when none is given, in characters.
pub const MAX_URL_DEFAULT: usize = 256;

/// The verdict on a request from its URL and declared length.
#[derive(Clone, Copy, Debug, PartialEq, Eq, Structural)]
pub enum Admission {
    /// The request goes on to the handlers.
    Admit,
    /// The request is answered with this error and goes no further.
    Reject(RequestTooLarge),
    /// The URL is within its limit and no body length was declared: the caller
    /// drains the body, counts its bytes and hands the count to
    /// `RequestLimit::check_payload`. The body is consumed on this path and is
    /// not there for later stages to read.
    CountBody,
}

/// The limits on the size of a request's body and of its URL.
pub struct RequestLimit {
    /// The largest body admitted, in bytes.
    max_body: u64,
    /// The longest serialized URL admitted, in characters.
    max_url_length: usize,
}

/// The body limit that a requested one stands for: zero gives the default.
pub open spec fn effective_body_limit(requested: u64) -> u64 {
    if requested == 0 {
        MAX_BODY_DEFAULT
    } else {
        requested
    }
}

/// The verdict on a body of `total` bytes under the limit `max_body`.
pub open spec fn payload_verdict(total: u64, max_body: u64) -> Result<(), RequestTooLarge> {
    if total > max_body {
        Err(RequestTooLarge { kind: LimitKind::BodyTooLarge })
    } else {
        Ok(())
    }
}

/// The verdict that the body check gives on a request whose URL has passed:
/// a declared length decides, and without one the body has to be counted.
pub open spec fn body_admission(declared_len: Option<u64>, max_body: u64) -> Admission {
    match declared_len {
        Some(len) => match payload_verdict(len, max_body) {
            Ok(_) => Admission::Admit,
            Err(e) => Admission::Reject(e),
        },
        None => Admission::CountBody,
    }
}

/// The verdict on a request whose URL is `url_len` characters long and which
/// declares `declared_len` bytes of body, if it declares any. The URL is held
/// against its limit first, and the body only once the URL has passed.
pub open spec fn admission_of(
    url_len: nat,
    declared_len: Option<u64>,
    max_body: u64,
    max_url_length: usize,
) -> Admission {
    if url_len > max_url_length {
        Admission::Reject(RequestTooLarge { kind: LimitKind::UrlTooLong })
    } else {
        body_admission(declared_len, max_body)
    }
}

impl RequestLimit {
    /// The body limit in force.
    pub closed spec fn body_limit(&self) -> u64 {
        self.max_body
    }

    /// The URL limit in force.
    pub closed spec fn url_limit(&self) -> usize {
        self.max_url_length
    }

    /// Both limits are positive.
    pub open spec fn wf(&self) -> bool {
        self.body_limit() > 0 && self.url_limit() > 0
    }

    /// The verdict of these limits on a request with a URL of `url_len`
    /// characters and the declared body length `declared_len`.
    pub open spec fn admission(&self, url_len: nat, declared_len: Option<u64>) -> Admission {
        admission_of(url_len, declared_len, self.body_limit(), self.url_limit())
    }

    /// Limits taken as given; the caller makes sure that both are positive.
    pub fn new(max_body: u64, max_url_length: usize) -> (r: RequestLimit)
        requires
            max_body > 0,
            max_url_length > 0,
        ensures
            r.body_limit() == max_body,
            r.url_limit() == max_url_length,
            r.wf(),
    {
        RequestLimit { max_body, max_url_length }
    }

    /// A body limit with the default URL limit. A body limit of zero is
    /// replaced by the default one.
    pub fn with_default_url_length(max_body: u64) -> (r: RequestLimit)
        ensures
            r.body_limit() == effective_body_limit(max_body),
            r.url_limit() == MAX_URL_DEFAULT,
            r.wf(),
    {
        let max_body = if max_body == 0 {
            MAX_BODY_DEFAULT
        } else {
            max_body
        };
        RequestLimit { max_body, max_url_length: MAX_URL_DEFAULT }
    }

    /// Overrides the body limit. A limit of zero is replaced by the default
    /// one, as at construction.
    pub fn set_max_body_size(&mut self, max_body: u64)
        requires
            old(self).wf(),
        ensures
            final(self).body_limit() == effective_body_limit(max_body),
            final(self).url_limit() == old(self).url_limit(),
            final(self).wf(),
    {
        self.max_body = if max_body == 0 {
            MAX_BODY_DEFAULT
        } else {
            max_body
        };
    }

    /// Overrides the URL limit; the caller makes sure that it is positive.
    pub fn set_max_url_length(&mut self, max_url_length: usize)
        requires
            old(self).wf(),
            max_url_length > 0,
        ensures
            final(self).url_limit() == max_url_length,
            final(self).body_limit() == old(self).body_limit(),
            final(self).wf(),
    {
        self.max_url_length = max_url_length;
    }

    pub fn max_body_size(&self) -> (r: u64)
        ensures
            r == self.body_limit(),
    {
        self.max_body
    }

    pub fn max_url_length(&self) -> (r: usize)
        ensures
            r == self.url_limit(),
    {
        self.max_url_length
    }

    /// Rejects a body of `total` bytes that is over the body limit.
    pub fn check_payload(&self, total: u64) -> (r: Result<(), RequestTooLarge>)
        ensures
            r == payload_verdict(total, self.body_limit()),
    {
        if total > self.max_body {
            Err(RequestTooLarge::body())
        } else {
            Ok(())
        }
    }

    /// Whether a serialized URL is within the URL limit.
    pub fn check_url_length(&self, serialized: &str) -> (r: bool)
        ensures
            r == (serialized@.len() <= self.url_limit()),
    {
        serialized.unicode_len() <= self.max_url_length
    }

    /// The verdict on a request with the serialized URL `serialized` and the
    /// declared body length `declared_len`. A URL over its limit is rejected
    /// without a look at the body; otherwise a declared length decides, and
    /// without one the body has to be counted.
    pub fn decide(&self, serialized: &str, declared_len: Option<u64>) -> (r: Admission)
        ensures
            r == self.admission(serialized@.len(), declared_len),
    {
        if !self.check_url_length(serialized) {
            return Admission::Reject(RequestTooLarge::url());
        }
        match declared_len {
            Some(len) => match self.check_payload(len) {
                Ok(()) => Admission::Admit,
                Err(e) => Admission::Reject(e),
            },
            None => Admission::CountBody,
        }
    }
}

impl Default for RequestLimit {
    /// Both default limits: 5 MB of body and 256 characters of URL.
    fn default() -> (r: RequestLimit)
        ensures
            r.body_limit() == MAX_BODY_DEFAULT,
            r.url_limit() == MAX_URL_DEFAULT,
            r.wf(),
    {
        RequestLimit { max_body: MAX_BODY_DEFAULT, max_url_length: MAX_URL_DEFAULT }
    }
}

} // verus!
