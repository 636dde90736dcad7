//! A single-endpoint gateway that relays a form-encoded webhook to a messaging
//! provider and wraps the provider's answer in a fixed XML envelope.
//!
//! The crate holds the decisions of that relay as verified functions over plain
//! values: validating the inbound form, building the provider request,
//! classifying what came back, and rendering the reply. The sockets live with
//! the caller, which performs each [`relay::Action`] and reports the result as
//! the next [`relay::Event`].

pub mod config;
pub mod envelope;
pub mod failure;
pub mod form;
pub mod gateway;
pub mod laws;
pub mod outbound;
pub mod relay;

pub use crate::config::{default_port, GatewayConfig};
pub use crate::envelope::format_envelope;
pub use crate::failure::{handle_rejection, route, Failure, Rejection, Reply};
pub use crate::form::{validate, InboundForm, ValidatedFields};
pub use crate::gateway::{classify, reply_to, Fetched, GatewayOutcome};
pub use crate::outbound::{build_request, OutboundRequest};
pub use crate::relay::{process_request, Action, Event, Phase};
