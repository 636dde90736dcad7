//! What came back from the provider, and the reply it is turned into.

use crate::envelope::{envelope, format_envelope, XML_CONTENT_TYPE};
use crate::failure::{Failure, Reply, ReplyView, STATUS_OK};
use vstd::prelude::*;

verus! {

/// The raw result of one call to the provider.
#[derive(Clone, Debug, PartialEq, Eq)]
pub enum Fetched {
    /// No response arrived: the connection, the name lookup or the exchange
    /// itself failed.
    Unreachable,
    /// A response arrived.
    Answered {
        /// The provider's HTTP status code.
        status: u16,
        /// The body as text, or `None` where it could not be read as text.
        body: Option<String>,
    },
}

/// The mathematical content of a [`Fetched`].
pub enum FetchedView {
    Unreachable,
    Answered { status: u16, body: Option<Seq<char>> },
}

impl View for Fetched {
    type V = FetchedView;

    open spec fn view(&self) -> FetchedView {
        match *self {
            Fetched::Unreachable => FetchedView::Unreachable,
            Fetched::Answered { status, body } => FetchedView::Answered {
                status,
                body: match body {
                    Some(text) => Some(text@),
                    None => None,
                },
            },
        }
    }
}

/// How a request to the provider ended.
#[derive(Clone, Debug, PartialEq, Eq)]
pub enum GatewayOutcome {
    /// The provider answered with a readable body.
    Success(String),
    /// The provider could not be reached, or its body could not be read.
    TransportFailure,
    /// The configured base URL does not parse, so no call was made.
    MalformedConfig,
}

/// The mathematical content of a [`GatewayOutcome`].
pub enum OutcomeView {
    Success(Seq<char>),
    TransportFailure,
    MalformedConfig,
}

impl View for GatewayOutcome {
    type V = OutcomeView;

    open spec fn view(&self) -> OutcomeView {
        match *self {
            GatewayOutcome::Success(body) => OutcomeView::Success(body@),
            GatewayOutcome::TransportFailure => OutcomeView::TransportFailure,
            GatewayOutcome::MalformedConfig => OutcomeView::MalformedConfig,
        }
    }
}

/// The outcome of a raw result. Only reachability and a readable body count:
/// the provider's own status code plays no part.
pub open spec fn classified(fetched: FetchedView) -> OutcomeView {
    match fetched {
        FetchedView::Answered { status, body: Some(text) } => OutcomeView::Success(text),
        _ => OutcomeView::TransportFailure,
    }
}

/// Classifies the raw result of a call to the provider.
pub fn classify(fetched: Fetched) -> (outcome: GatewayOutcome)
    ensures
        outcome@ == classified(fetched@),
{
    match fetched {
        Fetched::Answered { status: _, body: Some(text) } => GatewayOutcome::Success(text),
        _ => GatewayOutcome::TransportFailure,
    }
}

/// Content type of a reply that carries an envelope.
pub open spec fn xml_content_type() -> Seq<char> {
    XML_CONTENT_TYPE@
}

/// The reply that carries the envelope of a provider body.
pub open spec fn success_reply(body: Seq<char>) -> ReplyView {
    ReplyView { status: STATUS_OK, content_type: Some(xml_content_type()), body: envelope(body) }
}

/// The failure that an outcome other than success stands for.
pub open spec fn failure_of(outcome: OutcomeView) -> Option<Failure> {
    match outcome {
        OutcomeView::Success(_) => None,
        OutcomeView::TransportFailure => Some(Failure::BadGateway),
        OutcomeView::MalformedConfig => Some(Failure::BadRequest),
    }
}

/// The reply to an outcome: the envelope for a success, and the plain-text
/// reply of its failure otherwise.
pub open spec fn reply_of(outcome: OutcomeView) -> ReplyView {
    match outcome {
        OutcomeView::Success(body) => success_reply(body),
        OutcomeView::TransportFailure => Failure::BadGateway.reply(),
        OutcomeView::MalformedConfig => Failure::BadRequest.reply(),
    }
}

/// Renders the reply to an outcome.
pub fn reply_to(outcome: &GatewayOutcome) -> (reply: Reply)
    ensures
        reply@ == reply_of(outcome@),
{
    match outcome {
        GatewayOutcome::Success(body) => Reply {
            status: STATUS_OK,
            content_type: Some(XML_CONTENT_TYPE.to_owned()),
            body: format_envelope(body.as_str()),
        },
        GatewayOutcome::TransportFailure => Failure::BadGateway.to_reply(),
        GatewayOutcome::MalformedConfig => Failure::BadRequest.to_reply(),
    }
}

} // verus!
