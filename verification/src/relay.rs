//! The relay of one request, as a state machine: each event moves the request
//! to its next phase and names the one thing to do next.

use crate::config::{ConfigView, GatewayConfig};
use crate::failure::{Failure, Reply, ReplyView};
use crate::form::{is_complete, required_fields, validate, InboundForm};
use crate::gateway::{
    classified, classify, reply_of, reply_to, Fetched, FetchedView, GatewayOutcome, OutcomeView,
};
use crate::outbound::{
    base_fits, base_parses, base_url_parses, base_within_limits, build_request, built_view,
    query_of, request_bound, request_url, url_with_params, within_limits, OutboundRequest,
};
use vstd::prelude::*;

verus! {

/// How far the relay of one request has come.
#[derive(Clone, Copy, Debug, PartialEq, Eq, Structural)]
pub enum Phase {
    /// The request has arrived and nothing has been done about it.
    Received,
    /// The provider has been called and has not answered yet.
    AwaitingGateway,
    /// The reply has been given.
    Done,
}

/// What happened.
pub enum Event {
    /// The inbound request delivered its form.
    Inbound(InboundForm),
    /// The call to the provider ended.
    Fetched(Fetched),
}

/// The mathematical content of an [`Event`].
pub enum EventView {
    Inbound(Map<Seq<char>, Seq<char>>),
    Fetched(FetchedView),
}

impl View for Event {
    type V = EventView;

    open spec fn view(&self) -> EventView {
        match *self {
            Event::Inbound(form) => EventView::Inbound(form@),
            Event::Fetched(fetched) => EventView::Fetched(fetched@),
        }
    }
}

/// What to do next.
#[derive(Clone, Debug, PartialEq, Eq)]
pub enum Action {
    /// Call the provider, once, and report how the call ended.
    Get(OutboundRequest),
    /// Answer the inbound caller.
    Respond(Reply),
}

/// The mathematical content of an [`Action`].
pub enum ActionView {
    Get(Seq<char>),
    Respond(ReplyView),
}

impl View for Action {
    type V = ActionView;

    open spec fn view(&self) -> ActionView {
        match *self {
            Action::Get(request) => ActionView::Get(request@),
            Action::Respond(reply) => ActionView::Respond(reply@),
        }
    }
}

/// Ends the relay with the plain-text reply of a failure.
pub open spec fn fail(failure: Failure) -> (Phase, ActionView) {
    (Phase::Done, ActionView::Respond(failure.reply()))
}

/// What a built request leads to: the call of the provider at its URL. Where
/// none could be built, the configuration is malformed, and the relay ends with
/// the reply to that.
pub open spec fn built_step(built: Result<Seq<char>, Failure>) -> (Phase, ActionView) {
    match built {
        Ok(url) => (Phase::AwaitingGateway, ActionView::Get(url)),
        Err(_) => (Phase::Done, ActionView::Respond(reply_of(OutcomeView::MalformedConfig))),
    }
}

/// What an inbound form leads to.
///
/// A form without `msg` or `tel` is a bad request. A complete one is a bad
/// request too where the base URL does not parse, whatever the fields hold.
/// Otherwise it leads to the call of the provider at the URL made of the base
/// URL and the three parameters; only a request whose URL could outgrow what a
/// URL can hold ends as an unclassified failure instead.
pub open spec fn inbound_step(config: ConfigView, form: Map<Seq<char>, Seq<char>>) -> (
    Phase,
    ActionView,
) {
    let fields = required_fields(form);
    if !is_complete(form) {
        fail(Failure::BadRequest)
    } else if base_within_limits(config.base_url) && !base_url_parses(config.base_url) {
        built_step(Err(Failure::BadRequest))
    } else if !within_limits(config.base_url, query_of(fields, config.secret)) {
        fail(Failure::Unclassified)
    } else {
        built_step(Ok(request_url(config, fields)))
    }
}

/// What the end of the provider call leads to: the reply to its outcome.
pub open spec fn fetched_step(fetched: FetchedView) -> (Phase, ActionView) {
    (Phase::Done, ActionView::Respond(reply_of(classified(fetched))))
}

/// The transition of the relay. An event that the phase does not wait for
/// ends the relay as an unclassified failure.
pub open spec fn step(config: ConfigView, phase: Phase, event: EventView) -> (Phase, ActionView) {
    match (phase, event) {
        (Phase::Received, EventView::Inbound(form)) => inbound_step(config, form),
        (Phase::AwaitingGateway, EventView::Fetched(fetched)) => fetched_step(fetched),
        _ => fail(Failure::Unclassified),
    }
}

/// Decides what a built request, or the failure to build one, leads to.
pub fn on_built(built: Result<OutboundRequest, Failure>) -> (next: (Phase, Action))
    ensures
        (next.0, next.1@) == built_step(built_view(built)),
{
    match built {
        Ok(request) => (Phase::AwaitingGateway, Action::Get(request)),
        Err(_) => (Phase::Done, Action::Respond(reply_to(&GatewayOutcome::MalformedConfig))),
    }
}

/// Decides what an inbound form leads to.
///
/// With a complete form the reply is `400 BAD_REQUEST` exactly when the base
/// URL does not parse, and the provider is called exactly when it does; the
/// one exception is a request beyond the limits, of which the first holds only
/// as far as the base URL itself is within them.
pub fn on_inbound(config: &GatewayConfig, form: &InboundForm) -> (next: (Phase, Action))
    ensures
        (next.0, next.1@) == inbound_step(config@, form@),
        !is_complete(form@) ==> next.1@ == ActionView::Respond(Failure::BadRequest.reply()),
        is_complete(form@) && base_within_limits(config@.base_url) ==> (next.1@
            == ActionView::Respond(Failure::BadRequest.reply()) <==> !base_url_parses(
            config@.base_url,
        )),
        is_complete(form@) && within_limits(
            config@.base_url,
            query_of(required_fields(form@), config@.secret),
        ) ==> (next.1 is Get <==> base_url_parses(config@.base_url)),
        next.1 matches Action::Get(request) ==> url_with_params(
            config@.base_url,
            query_of(required_fields(form@), config@.secret),
        ) == Some(request@),
{
    match validate(form) {
        Err(failure) => (Phase::Done, Action::Respond(failure.to_reply())),
        Ok(fields) => {
            if request_bound(&fields, config).is_some() {
                on_built(build_request(&fields, config))
            } else if base_fits(config) && !base_parses(config) {
                on_built(Err(Failure::BadRequest))
            } else {
                (Phase::Done, Action::Respond(Failure::Unclassified.to_reply()))
            }
        },
    }
}

/// Decides what the end of the provider call leads to.
pub fn on_fetched(fetched: Fetched) -> (next: (Phase, Action))
    ensures
        (next.0, next.1@) == fetched_step(fetched@),
{
    let outcome = classify(fetched);
    (Phase::Done, Action::Respond(reply_to(&outcome)))
}

/// Moves the relay of one request by one event: returns the next phase and the
/// action to take.
///
/// A caller starts in [`Phase::Received`] with the inbound form, performs each
/// [`Action::Get`] and hands its result back as the next event, and is done
/// when it is told to respond.
pub fn process_request(config: &GatewayConfig, phase: Phase, event: Event) -> (next: (
    Phase,
    Action,
))
    ensures
        (next.0, next.1@) == step(config@, phase, event@),
        next.1 is Get <==> next.0 == Phase::AwaitingGateway,
        next.1 is Respond <==> next.0 == Phase::Done,
        phase == Phase::Received ==> (event@ matches EventView::Inbound(form) ==> {
            let query = query_of(required_fields(form), config@.secret);
            &&& !is_complete(form) ==> next.1@ == ActionView::Respond(Failure::BadRequest.reply())
            &&& is_complete(form) && base_within_limits(config@.base_url) ==> (next.1@
                == ActionView::Respond(Failure::BadRequest.reply()) <==> !base_url_parses(
                config@.base_url,
            ))
            &&& is_complete(form) && within_limits(config@.base_url, query) ==> (next.1 is Get
                <==> base_url_parses(config@.base_url))
            &&& next.1 matches Action::Get(request) ==> url_with_params(config@.base_url, query)
                == Some(request@)
        }),
{
    match (phase, event) {
        (Phase::Received, Event::Inbound(form)) => on_inbound(config, &form),
        (Phase::AwaitingGateway, Event::Fetched(fetched)) => on_fetched(fetched),
        _ => (Phase::Done, Action::Respond(Failure::Unclassified.to_reply())),
    }
}

} // verus!
