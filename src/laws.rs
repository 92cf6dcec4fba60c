use vstd::prelude::*;

use crate::error::{LimitKind, RequestTooLarge, rejection};
use crate::limit::{
    Admission,
    MAX_BODY_DEFAULT,
    MAX_URL_DEFAULT,
    RequestLimit,
    body_admission,
    effective_body_limit,
    payload_verdict,
};

verus! {

/// Under any body limit M, a declared length L with L <= M passes the body
/// check and L > M fails it as a body too large; for a request whose URL is
/// within its limit, that is the verdict on the request.
pub proof fn lemma_declared_length_decides(limit: RequestLimit, url: Seq<char>, declared: u64)
    ensures
        declared <= limit.body_limit() ==> payload_verdict(declared, limit.body_limit()) is Ok,
        declared > limit.body_limit() ==> payload_verdict(declared, limit.body_limit()) == Err::<(), RequestTooLarge>(rejection(LimitKind::BodyTooLarge)),
        url.len() <= limit.url_limit() && declared <= limit.body_limit()
            ==> limit.admission(url.len(), Some(declared)) == Admission::Admit,
        url.len() <= limit.url_limit() && declared > limit.body_limit()
            ==> limit.admission(url.len(), Some(declared)) == Admission::Reject(
            rejection(LimitKind::BodyTooLarge),
        ),
{
}

/// Under any URL limit U, a serialized URL whose length is at most U leaves the
/// verdict to the body check, and a longer one is rejected as a URL too long
/// whatever the body, which is then never asked for.
pub proof fn lemma_url_limit_decides(limit: RequestLimit, url: Seq<char>, declared: Option<u64>)
    ensures
        url.len() <= limit.url_limit() ==> limit.admission(
            url.len(),
            declared,
        ) == body_admission(declared, limit.body_limit()),
        url.len() > limit.url_limit() ==> limit.admission(
            url.len(),
            declared,
        ) == Admission::Reject(rejection(LimitKind::UrlTooLong)),
{
}

/// A request with a declared length gets a final verdict, which never asks for
/// the body, so that deciding on it twice under the same limits gives the same
/// verdict both times.
pub proof fn lemma_declared_verdict_repeats(
    first: RequestLimit,
    second: RequestLimit,
    url: Seq<char>,
    declared: u64,
)
    requires
        first.body_limit() == second.body_limit(),
        first.url_limit() == second.url_limit(),
    ensures
        first.admission(url.len(), Some(declared)) == second.admission(
            url.len(),
            Some(declared),
        ),
        first.admission(url.len(), Some(declared)) != Admission::CountBody,
{
}

/// Limits built with a body limit of zero decide every request, and every
/// counted body, as the limits built explicitly with the default body limit.
pub proof fn lemma_default_substitution(
    requested: u64,
    substituted: RequestLimit,
    explicit: RequestLimit,
    url: Seq<char>,
    declared: Option<u64>,
    total: u64,
)
    requires
        requested == 0,
        substituted.body_limit() == effective_body_limit(requested),
        substituted.url_limit() == MAX_URL_DEFAULT,
        explicit.body_limit() == MAX_BODY_DEFAULT,
        explicit.url_limit() == MAX_URL_DEFAULT,
    ensures
        substituted.admission(url.len(), declared) == explicit.admission(
            url.len(),
            declared,
        ),
        payload_verdict(total, substituted.body_limit()) == payload_verdict(
            total,
            explicit.body_limit(),
        ),
{
}

/// When both the URL and the declared body are over their limits, the error
/// reported is the URL's; without a declared length the body is not even
/// counted.
pub proof fn lemma_url_reported_first(limit: RequestLimit, url: Seq<char>, declared: u64)
    requires
        url.len() > limit.url_limit(),
        declared > limit.body_limit(),
    ensures
        limit.admission(url.len(), Some(declared)) == Admission::Reject(
            rejection(LimitKind::UrlTooLong),
        ),
        limit.admission(url.len(), None) == Admission::Reject(
            rejection(LimitKind::UrlTooLong),
        ),
{
}

} // verus!
