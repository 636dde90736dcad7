//! The failure kinds of the gateway and the replies they are answered with.

use vstd::prelude::*;

verus! {

/// Status of a reply that carries the provider's answer.
pub const STATUS_OK: u16 = 200;

/// Status answered when no route matches the inbound request.
pub const STATUS_NOT_FOUND: u16 = 404;

/// Status answered when the request cannot be turned into a provider call.
pub const STATUS_BAD_REQUEST: u16 = 400;

/// Status answered when the provider could not be reached or read.
pub const STATUS_BAD_GATEWAY: u16 = 502;

/// Status answered to every failure that has no kind of its own.
pub const STATUS_INTERNAL_SERVER_ERROR: u16 = 500;

/// Body of the reply when no route matches the inbound request.
pub const REASON_NOT_FOUND: &'static str = "NOT_FOUND";

/// Body of the reply when the request cannot be turned into a provider call.
pub const REASON_BAD_REQUEST: &'static str = "BAD_REQUEST";

/// Body of the reply when the provider could not be reached or read.
pub const REASON_BAD_GATEWAY: &'static str = "BAD_GATEWAY";

/// Body of the reply to every failure that has no kind of its own.
pub const REASON_INTERNAL_SERVER_ERROR: &'static str = "INTERNAL_SERVER_ERROR";

/// The method of the one inbound route.
pub const ROUTED_METHOD: &'static str = "POST";

/// Why a request did not end in an envelope.
#[derive(Clone, Copy, Debug, PartialEq, Eq, Structural)]
pub enum Failure {
    /// No inbound route matches the request.
    RouteNotFound,
    /// A required field is missing, or the configured base URL does not parse.
    BadRequest,
    /// The provider could not be reached, or its answer could not be read.
    BadGateway,
    /// Anything else.
    Unclassified,
}

/// What goes back to the inbound caller.
#[derive(Clone, Debug, PartialEq, Eq)]
pub struct Reply {
    /// HTTP status code.
    pub status: u16,
    /// Value of the content-type header, where the reply sets one.
    pub content_type: Option<String>,
    /// The body, verbatim.
    pub body: String,
}

/// The mathematical content of a [`Reply`].
pub struct ReplyView {
    pub status: u16,
    pub content_type: Option<Seq<char>>,
    pub body: Seq<char>,
}

impl View for Reply {
    type V = ReplyView;

    open spec fn view(&self) -> ReplyView {
        ReplyView {
            status: self.status,
            content_type: match self.content_type {
                Some(value) => Some(value@),
                None => None,
            },
            body: self.body@,
        }
    }
}

impl Failure {
    /// The status code this failure is answered with.
    pub open spec fn status(self) -> u16 {
        match self {
            Failure::RouteNotFound => STATUS_NOT_FOUND,
            Failure::BadRequest => STATUS_BAD_REQUEST,
            Failure::BadGateway => STATUS_BAD_GATEWAY,
            Failure::Unclassified => STATUS_INTERNAL_SERVER_ERROR,
        }
    }

    /// The plain-text body this failure is answered with.
    pub open spec fn reason(self) -> Seq<char> {
        match self {
            Failure::RouteNotFound => REASON_NOT_FOUND@,
            Failure::BadRequest => REASON_BAD_REQUEST@,
            Failure::BadGateway => REASON_BAD_GATEWAY@,
            Failure::Unclassified => REASON_INTERNAL_SERVER_ERROR@,
        }
    }

    /// The whole reply to this failure: its status, its reason as the body,
    /// and no content type of its own.
    pub open spec fn reply(self) -> ReplyView {
        ReplyView { status: self.status(), content_type: None, body: self.reason() }
    }

    /// Computes [`Failure::status`].
    pub fn status_code(self) -> (code: u16)
        ensures
            code == self.status(),
    {
        match self {
            Failure::RouteNotFound => STATUS_NOT_FOUND,
            Failure::BadRequest => STATUS_BAD_REQUEST,
            Failure::BadGateway => STATUS_BAD_GATEWAY,
            Failure::Unclassified => STATUS_INTERNAL_SERVER_ERROR,
        }
    }

    /// Maps the failure to the reply that answers it. Every failure kind has
    /// exactly one status and one plain-text body, and none sets a content
    /// type.
    pub fn to_reply(self) -> (reply: Reply)
        ensures
            reply@ == self.reply(),
    {
        Reply {
            status: self.status_code(),
            content_type: None,
            body: self.reason_phrase().to_owned(),
        }
    }

    /// Computes [`Failure::reason`].
    pub fn reason_phrase(self) -> (text: &'static str)
        ensures
            text@ == self.reason(),
    {
        match self {
            Failure::RouteNotFound => REASON_NOT_FOUND,
            Failure::BadRequest => REASON_BAD_REQUEST,
            Failure::BadGateway => REASON_BAD_GATEWAY,
            Failure::Unclassified => REASON_INTERNAL_SERVER_ERROR,
        }
    }
}

/// What is known of a request that was turned away before it was answered.
#[derive(Clone, Copy, Debug, PartialEq, Eq)]
pub struct Rejection {
    /// Whether it was turned away because no route matched.
    pub not_found: bool,
    /// The failure that was given as the cause, where one was given.
    pub cause: Option<Failure>,
}

impl Rejection {
    /// The failure kind of a rejection: a missing route comes first, then the
    /// cause that was given, and what has neither is unclassified.
    pub open spec fn kind(self) -> Failure {
        if self.not_found {
            Failure::RouteNotFound
        } else {
            match self.cause {
                Some(failure) => failure,
                None => Failure::Unclassified,
            }
        }
    }

    /// Computes [`Rejection::kind`].
    pub fn classify(self) -> (failure: Failure)
        ensures
            failure == self.kind(),
    {
        if self.not_found {
            Failure::RouteNotFound
        } else {
            match self.cause {
                Some(failure) => failure,
                None => Failure::Unclassified,
            }
        }
    }
}

/// Answers a rejection: the reply to its failure kind. Total: every rejection
/// has exactly one status and one plain-text body.
pub fn handle_rejection(rejection: Rejection) -> (reply: Reply)
    ensures
        reply@ == rejection.kind().reply(),
{
    rejection.classify().to_reply()
}

/// The one inbound route: a POST, on any path.
pub open spec fn is_routed(method: Seq<char>) -> bool {
    method == ROUTED_METHOD@
}

/// Decides whether an inbound request with this method has a route.
pub fn route(method: &str) -> (matched: Result<(), Failure>)
    ensures
        matched is Ok <==> is_routed(method@),
        matched is Err ==> matched == Err::<(), Failure>(Failure::RouteNotFound),
{
    let given: String = method.to_owned();
    let routed: String = ROUTED_METHOD.to_owned();
    if given == routed {
        Ok(())
    } else {
        Err(Failure::RouteNotFound)
    }
}

} // verus!
