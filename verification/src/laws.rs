//! What holds of every relay: the laws that the transition function obeys,
//! stated over whole runs and proved.

use crate::config::{ConfigView, GatewayConfig};
use crate::envelope::envelope;
use crate::failure::{is_routed, Failure, Rejection};
use crate::form::{required_fields, FIELD_MSG, FIELD_TEL};
use crate::gateway::{success_reply, xml_content_type, FetchedView};
use crate::outbound::{
    base_url_parses, base_within_limits, query_of, request_url, url_with_params, within_limits,
    PARAM_SECRET, PARAM_SENDER, PARAM_TEXT,
};
use crate::relay::{step, ActionView, Event, EventView, Phase};
use vstd::prelude::*;

verus! {

/// The actions that a run of events leads to, one for each event, from the
/// phase the run starts in.
pub open spec fn trace(config: ConfigView, phase: Phase, events: Seq<EventView>) -> Seq<
    ActionView,
>
    decreases events.len(),
{
    if events.len() == 0 {
        Seq::empty()
    } else {
        let (next, action) = step(config, phase, events.first());
        seq![action] + trace(config, next, events.drop_first())
    }
}

/// How many calls of the provider a run of events leads to.
pub open spec fn calls_made(config: ConfigView, phase: Phase, events: Seq<EventView>) -> nat
    decreases events.len(),
{
    if events.len() == 0 {
        0
    } else {
        let (next, action) = step(config, phase, events.first());
        let here: nat = if action is Get {
            1
        } else {
            0
        };
        here + calls_made(config, next, events.drop_first())
    }
}

/// Every transition either calls the provider and then waits for it, or
/// replies and is done. Only an inbound form in a fresh relay leads to a call.
pub proof fn lemma_step_shape(config: ConfigView, phase: Phase, event: EventView)
    ensures
        step(config, phase, event).1 is Get <==> step(config, phase, event).0
            == Phase::AwaitingGateway,
        step(config, phase, event).1 is Respond <==> step(config, phase, event).0 == Phase::Done,
        step(config, phase, event).1 is Get ==> phase == Phase::Received && event is Inbound,
{
}

/// Once the provider has been called, or the reply given, no run of events
/// leads to another call.
pub proof fn lemma_no_call_after_the_first(config: ConfigView, phase: Phase, events: Seq<EventView>)
    requires
        phase != Phase::Received,
    ensures
        calls_made(config, phase, events) == 0,
    decreases events.len(),
{
    if events.len() > 0 {
        lemma_step_shape(config, phase, events.first());
        lemma_no_call_after_the_first(config, Phase::Done, events.drop_first());
    }
}

/// No run of events, whatever it holds, leads to more than one call of the
/// provider.
pub proof fn lemma_at_most_one_call(config: ConfigView, phase: Phase, events: Seq<EventView>)
    ensures
        calls_made(config, phase, events) <= 1,
{
    if events.len() > 0 {
        let next = step(config, phase, events.first()).0;
        lemma_step_shape(config, phase, events.first());
        lemma_no_call_after_the_first(config, next, events.drop_first());
    }
}

/// A form that lacks `msg`, `tel` or both is answered with `400 BAD_REQUEST`,
/// and the provider is never called, whatever happens afterwards.
pub proof fn lemma_incomplete_form_is_bad_request(
    config: ConfigView,
    form: Map<Seq<char>, Seq<char>>,
    later: Seq<EventView>,
)
    requires
        !form.contains_key(FIELD_MSG@) || !form.contains_key(FIELD_TEL@),
    ensures
        step(config, Phase::Received, EventView::Inbound(form)) == (
            Phase::Done,
            ActionView::Respond(Failure::BadRequest.reply()),
        ),
        Failure::BadRequest.reply().status == 400,
        Failure::BadRequest.reply().body == "BAD_REQUEST"@,
        calls_made(config, Phase::Received, seq![EventView::Inbound(form)] + later) == 0,
{
    assert((seq![EventView::Inbound(form)] + later).drop_first() =~= later);
    lemma_no_call_after_the_first(config, Phase::Done, later);
}

/// A form that holds `msg` and `tel`, whatever their values, leads to exactly
/// one call of the provider when the base URL parses: a GET of the URL made of
/// the base URL and the query parameters `sender`, `text` and `secret`, which
/// hold the form's `tel`, the form's `msg` and the configured secret, and no
/// others.
///
/// The law speaks of requests whose URL is sure to fit a URL's serialization.
pub proof fn lemma_complete_form_calls_provider_once(
    config: ConfigView,
    form: Map<Seq<char>, Seq<char>>,
    later: Seq<EventView>,
)
    requires
        form.contains_key(FIELD_MSG@),
        form.contains_key(FIELD_TEL@),
        base_url_parses(config.base_url),
        within_limits(config.base_url, query_of(required_fields(form), config.secret)),
    ensures
        query_of(required_fields(form), config.secret) == seq![
            (PARAM_SENDER@, form[FIELD_TEL@]),
            (PARAM_TEXT@, form[FIELD_MSG@]),
            (PARAM_SECRET@, config.secret),
        ],
        request_url(config, required_fields(form)) == url_with_params(
            config.base_url,
            query_of(required_fields(form), config.secret),
        )->0,
        step(config, Phase::Received, EventView::Inbound(form)) == (
            Phase::AwaitingGateway,
            ActionView::Get(request_url(config, required_fields(form))),
        ),
        calls_made(config, Phase::Received, seq![EventView::Inbound(form)] + later) == 1,
{
    assert((seq![EventView::Inbound(form)] + later).drop_first() =~= later);
    lemma_no_call_after_the_first(config, Phase::AwaitingGateway, later);
}

/// Where the configured base URL does not parse, a complete form is answered
/// with `400 BAD_REQUEST` too, whatever its fields hold, and the provider is
/// never called.
///
/// The law speaks of base URLs that are themselves within the limits.
pub proof fn lemma_malformed_config_is_bad_request(
    config: ConfigView,
    form: Map<Seq<char>, Seq<char>>,
    later: Seq<EventView>,
)
    requires
        form.contains_key(FIELD_MSG@),
        form.contains_key(FIELD_TEL@),
        base_within_limits(config.base_url),
        !base_url_parses(config.base_url),
    ensures
        step(config, Phase::Received, EventView::Inbound(form)) == (
            Phase::Done,
            ActionView::Respond(Failure::BadRequest.reply()),
        ),
        calls_made(config, Phase::Received, seq![EventView::Inbound(form)] + later) == 0,
{
    assert((seq![EventView::Inbound(form)] + later).drop_first() =~= later);
    lemma_no_call_after_the_first(config, Phase::Done, later);
}

/// With a complete form and a base URL within the limits, the reply is
/// `400 BAD_REQUEST` exactly when the base URL does not parse; and a request
/// within the limits leads to the call exactly when it does.
pub proof fn lemma_bad_request_exactly_for_a_bad_base_url(
    config: ConfigView,
    form: Map<Seq<char>, Seq<char>>,
)
    requires
        form.contains_key(FIELD_MSG@),
        form.contains_key(FIELD_TEL@),
        base_within_limits(config.base_url),
    ensures
        step(config, Phase::Received, EventView::Inbound(form)).1 == ActionView::Respond(
            Failure::BadRequest.reply(),
        ) <==> !base_url_parses(config.base_url),
        within_limits(config.base_url, query_of(required_fields(form), config.secret)) ==> (step(
            config,
            Phase::Received,
            EventView::Inbound(form),
        ).1 is Get <==> base_url_parses(config.base_url)),
{
}

/// A call that fails in transport, or whose body cannot be read, is answered
/// with `502 BAD_GATEWAY`.
pub proof fn lemma_transport_failure_is_bad_gateway(config: ConfigView, fetched: FetchedView)
    requires
        fetched is Unreachable || fetched matches FetchedView::Answered { body: None, .. },
    ensures
        step(config, Phase::AwaitingGateway, EventView::Fetched(fetched)) == (
            Phase::Done,
            ActionView::Respond(Failure::BadGateway.reply()),
        ),
        Failure::BadGateway.reply().status == 502,
        Failure::BadGateway.reply().body == "BAD_GATEWAY"@,
{
}

/// A readable body is answered with status 200 and the envelope of the body as
/// XML, whatever status the provider gave.
pub proof fn lemma_provider_status_is_ignored(config: ConfigView, status: u16, body: Seq<char>)
    ensures
        step(
            config,
            Phase::AwaitingGateway,
            EventView::Fetched(FetchedView::Answered { status, body: Some(body) }),
        ) == (Phase::Done, ActionView::Respond(success_reply(body))),
        success_reply(body).status == 200,
        success_reply(body).content_type == Some(xml_content_type()),
        success_reply(body).body == envelope(body),
{
}

/// Every reply is the envelope of a provider body with status 200, or one of
/// the four plain-text replies of a failure.
pub proof fn lemma_reply_is_envelope_or_failure(config: ConfigView, phase: Phase, event: EventView)
    ensures
        step(config, phase, event).1 matches ActionView::Respond(reply) ==> {
            ||| exists|body: Seq<char>| reply == success_reply(body)
            ||| exists|failure: Failure| reply == failure.reply()
        },
{
}

/// A request that no route matches is answered with `404 NOT_FOUND`, whether
/// the rejection says so itself or names the missing route as its cause. Every
/// method but `POST` is without a route.
pub proof fn lemma_missing_route_is_not_found(rejection: Rejection)
    requires
        rejection.not_found || rejection.cause == Some(Failure::RouteNotFound),
    ensures
        rejection.kind() == Failure::RouteNotFound,
        rejection.kind().reply().status == 404,
        rejection.kind().reply().body == "NOT_FOUND"@,
        rejection.kind().reply().content_type is None,
        forall|method: Seq<char>| method != "POST"@ ==> !#[trigger] is_routed(method),
{
}

/// The status and body of each failure.
pub proof fn lemma_failure_table()
    ensures
        Failure::RouteNotFound.status() == 404 && Failure::RouteNotFound.reason() == "NOT_FOUND"@,
        Failure::BadRequest.status() == 400 && Failure::BadRequest.reason() == "BAD_REQUEST"@,
        Failure::BadGateway.status() == 502 && Failure::BadGateway.reason() == "BAD_GATEWAY"@,
        Failure::Unclassified.status() == 500 && Failure::Unclassified.reason()
            == "INTERNAL_SERVER_ERROR"@,
        forall|failure: Failure| (#[trigger] failure.reply()).content_type is None,
{
}

/// Relaying is a function of what the values hold: configurations and events
/// with the same content lead to the same phase and the same action, and so to
/// the same calls and the same replies.
pub proof fn lemma_same_inputs_same_outputs(
    config_a: GatewayConfig,
    config_b: GatewayConfig,
    phase: Phase,
    event_a: Event,
    event_b: Event,
)
    requires
        config_a@ == config_b@,
        event_a@ == event_b@,
    ensures
        step(config_a@, phase, event_a@) == step(config_b@, phase, event_b@),
{
}

/// Runs of events with the same content, under configurations with the same
/// content, lead to the same actions.
pub proof fn lemma_same_runs_same_traces(
    config_a: GatewayConfig,
    config_b: GatewayConfig,
    phase: Phase,
    events_a: Seq<Event>,
    events_b: Seq<Event>,
)
    requires
        config_a@ == config_b@,
        events_a.len() == events_b.len(),
        forall|i: int| 0 <= i < events_a.len() ==> events_a[i]@ == events_b[i]@,
    ensures
        trace(config_a@, phase, events_a.map_values(|e: Event| e@)) == trace(
            config_b@,
            phase,
            events_b.map_values(|e: Event| e@),
        ),
{
    assert(events_a.map_values(|e: Event| e@) =~= events_b.map_values(|e: Event| e@));
}

} // verus!
