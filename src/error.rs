use vstd::prelude::*;

verus! {

/// The protocol status that every rejection carries: 413, Payload Too Large.
pub const PAYLOAD_TOO_LARGE: u16 = 413;

/// Which of the two limits a request broke.
#[derive(Clone, Copy, Debug, PartialEq, Eq, Structural)]
pub enum LimitKind {
    /// The declared or counted body is longer than the body limit.
    BodyTooLarge,
    /// The serialized URL is longer than the URL limit.
    UrlTooLong,
}

/// The rejection of a request. Both kinds answer with the same status, but the
/// kind is kept so that logs and metrics can tell them apart.
#[derive(Clone, Copy, Debug, PartialEq, Eq, Structural)]
pub struct RequestTooLarge {
    pub kind: LimitKind,
}

/// The fixed message sent to the client for each kind of rejection.
pub open spec fn message_of(kind: LimitKind) -> Seq<char> {
    match kind {
        LimitKind::BodyTooLarge => "Request body too large."@,
        LimitKind::UrlTooLong => "Request URL too long."@,
    }
}

/// The rejection of the given kind.
pub open spec fn rejection(kind: LimitKind) -> RequestTooLarge {
    RequestTooLarge { kind }
}

impl RequestTooLarge {
    /// The rejection of a body over the limit.
    pub fn body() -> (r: RequestTooLarge)
        ensures
            r.kind == LimitKind::BodyTooLarge,
    {
        RequestTooLarge { kind: LimitKind::BodyTooLarge }
    }

    /// The rejection of a URL over the limit.
    pub fn url() -> (r: RequestTooLarge)
        ensures
            r.kind == LimitKind::UrlTooLong,
    {
        RequestTooLarge { kind: LimitKind::UrlTooLong }
    }

    pub fn kind(&self) -> (r: LimitKind)
        ensures
            r == self.kind,
    {
        self.kind
    }

    /// The status code of the response: the same for both kinds.
    pub fn status_code(&self) -> (r: u16)
        ensures
            r == PAYLOAD_TOO_LARGE,
    {
        PAYLOAD_TOO_LARGE
    }

    /// The message of the response for this kind.
    pub fn description(&self) -> (r: &'static str)
        ensures
            r@ == message_of(self.kind),
    {
        match self.kind {
            LimitKind::BodyTooLarge => "Request body too large.",
            LimitKind::UrlTooLong => "Request URL too long.",
        }
    }
}

} // verus!
