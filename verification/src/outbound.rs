//! Building the provider request from validated fields and configuration.

use crate::config::{ConfigView, GatewayConfig};
use crate::failure::Failure;
use crate::form::{FieldsView, ValidatedFields};
use vstd::prelude::*;
use vstd::utf8::encode_utf8;

verus! {

/// Name of the query parameter that carries the sender.
pub const PARAM_SENDER: &'static str = "sender";

/// Name of the query parameter that carries the message.
pub const PARAM_TEXT: &'static str = "text";

/// Name of the query parameter that carries the shared secret.
pub const PARAM_SECRET: &'static str = "secret";

/// The most bytes the serialization of a URL may take. The `url` crate keeps
/// positions in a serialization as `u32`.
pub const MAX_URL_BYTES: u64 = 0xFFFF_FFFF;

/// How many bytes one byte of a parameter's name or value becomes at most when
/// it is appended to a query string: form encoding writes a byte as it is, or
/// as `%` and two hex digits.
pub const PARAM_GROWTH: u64 = 3;

/// How many bytes one byte of a base URL is taken to become at most when the
/// base URL is parsed. Percent-encoding makes three of one; a host that is not
/// ASCII is re-encoded label by label, for which no factor as small is known,
/// so the bound is set generously.
pub const BASE_GROWTH: u64 = 256;

/// A query string as a sequence of name and value pairs.
pub type QueryView = Seq<(Seq<char>, Seq<char>)>;

/// Length of `text` in bytes of UTF-8.
pub open spec fn byte_len(text: Seq<char>) -> nat {
    encode_utf8(text).len()
}

/// The query parameters of the provider request, in the order they are sent:
/// the sender is the form's `tel`, the text its `msg`, and the secret the
/// configured one. There are no others.
pub open spec fn query_of(fields: FieldsView, secret: Seq<char>) -> QueryView {
    seq![(PARAM_SENDER@, fields.tel), (PARAM_TEXT@, fields.msg), (PARAM_SECRET@, secret)]
}

/// The most bytes a parameter adds to a query string: its name and its value
/// in form encoding, the `=` between them and the `&` before them.
pub open spec fn param_bytes(param: (Seq<char>, Seq<char>)) -> nat {
    PARAM_GROWTH as nat * byte_len(param.0) + PARAM_GROWTH as nat * byte_len(param.1) + 2
}

/// The most bytes a query adds to a query string.
pub open spec fn query_bytes(query: QueryView) -> nat
    decreases query.len(),
{
    if query.len() == 0 {
        0
    } else {
        query_bytes(query.drop_last()) + param_bytes(query.last())
    }
}

/// The most bytes the URL made of a base URL and a query takes: the parsed
/// base URL, the `?` before the query, and the query.
pub open spec fn url_bound(base: Seq<char>, query: QueryView) -> nat {
    BASE_GROWTH as nat * byte_len(base) + 1 + query_bytes(query)
}

/// Whether the URL made of a base URL and a query is sure to take at most
/// [`MAX_URL_BYTES`] bytes.
pub open spec fn within_limits(base: Seq<char>, query: QueryView) -> bool {
    url_bound(base, query) <= MAX_URL_BYTES
}

/// Whether a base URL alone is within the limits.
pub open spec fn base_within_limits(base: Seq<char>) -> bool {
    within_limits(base, Seq::empty())
}

/// The serialization of the URL that `Url::parse_with_params` of the `url`
/// crate makes of a base URL and query parameters, or `None` where it reports
/// a parse error. The parameters are appended to the query string of the base
/// URL, in their order, in form encoding.
pub uninterp spec fn url_with_params(base: Seq<char>, query: Seq<(Seq<char>, Seq<char>)>) -> Option<Seq<char>>;

/// Whether a base URL parses as an absolute URL.
pub open spec fn base_url_parses(base: Seq<char>) -> bool {
    url_with_params(base, Seq::empty()) is Some
}

/// The view of an optional string.
pub open spec fn text_of(text: Option<String>) -> Option<Seq<char>> {
    match text {
        Some(text) => Some(text@),
        None => None,
    }
}

/// Calls `Url::parse_with_params`, which `reqwest` re-exports from the `url`
/// crate, and hands back the serialization of the URL it built.
///
/// The call parses `base` and, where that succeeds, appends each pair to the
/// query string in form encoding; so whether it succeeds depends on `base`
/// alone. The crate keeps positions in the serialization as `u32` and panics
/// where the serialization outgrows them while the query is appended, so
/// inputs whose URL could take more than [`MAX_URL_BYTES`] bytes are left out:
/// a byte of a parameter is counted [`PARAM_GROWTH`] times, as form encoding
/// may write it, and a byte of the base URL [`BASE_GROWTH`] times.
#[verifier::external_body]
fn parse_with_params(base: &str, query: &Vec<(String, String)>) -> (url: Option<String>)
    requires
        within_limits(base@, query.deep_view()),
    ensures
        text_of(url) == url_with_params(base@, query.deep_view()),
        url is Some <==> base_url_parses(base@),
{
    match reqwest::Url::parse_with_params(base, query) {
        Ok(url) => Some(String::from(url)),
        Err(_) => None,
    }
}

/// One call to the provider: a GET of `url`.
#[derive(Clone, Debug, PartialEq, Eq)]
pub struct OutboundRequest {
    /// The absolute URL to fetch, query string included.
    pub url: String,
}

impl View for OutboundRequest {
    type V = Seq<char>;

    open spec fn view(&self) -> Seq<char> {
        self.url@
    }
}

/// What becomes of a parse result: the URL to fetch, or a bad request where
/// the base URL did not parse.
pub open spec fn request_of(parsed: Option<Seq<char>>) -> Result<Seq<char>, Failure> {
    match parsed {
        Some(url) => Ok(url),
        None => Err(Failure::BadRequest),
    }
}

/// The view of a build result.
pub open spec fn built_view(built: Result<OutboundRequest, Failure>) -> Result<
    Seq<char>,
    Failure,
> {
    match built {
        Ok(request) => Ok(request@),
        Err(failure) => Err(failure),
    }
}

/// Turns the result of parsing into a request, or into the failure that an
/// unparseable base URL is answered with.
pub fn request_from_parsed(parsed: Option<String>) -> (built: Result<OutboundRequest, Failure>)
    ensures
        built_view(built) == request_of(text_of(parsed)),
{
    match parsed {
        Some(url) => Ok(OutboundRequest { url }),
        None => Err(Failure::BadRequest),
    }
}

/// The query parameters for validated fields and a secret.
pub fn query_params(fields: &ValidatedFields, secret: &str) -> (query: Vec<(String, String)>)
    ensures
        query.deep_view() == query_of(fields@, secret@),
{
    let mut query: Vec<(String, String)> = Vec::new();
    query.push((PARAM_SENDER.to_owned(), fields.tel.clone()));
    query.push((PARAM_TEXT.to_owned(), fields.msg.clone()));
    query.push((PARAM_SECRET.to_owned(), secret.to_owned()));
    query
}

/// The bound of a three-parameter query is the sum of its parameters' bounds.
proof fn lemma_query_bytes_of_three(query: QueryView)
    requires
        query.len() == 3,
    ensures
        query_bytes(query) == param_bytes(query[0]) + param_bytes(query[1]) + param_bytes(
            query[2],
        ),
{
    let two = query.drop_last();
    let one = two.drop_last();
    assert(query_bytes(one) == param_bytes(query[0])) by {
        reveal_with_fuel(query_bytes, 2);
    }
    assert(query_bytes(two) == query_bytes(one) + param_bytes(query[1]));
}

/// Length of `text` in bytes, where it is at most [`MAX_URL_BYTES`].
fn bounded_len(text: &str) -> (len: Option<u64>)
    ensures
        match len {
            Some(n) => n == byte_len(text@) && n <= MAX_URL_BYTES,
            None => byte_len(text@) > MAX_URL_BYTES,
        },
{
    let len: usize = text.as_bytes().len();
    if len > 0xFFFF_FFFF {
        None
    } else {
        Some(len as u64)
    }
}

/// Computes [`param_bytes`], where it is at most [`MAX_URL_BYTES`].
fn param_cost(name: &str, value: &str) -> (cost: Option<u64>)
    ensures
        match cost {
            Some(n) => n == param_bytes((name@, value@)) && n <= MAX_URL_BYTES,
            None => param_bytes((name@, value@)) > MAX_URL_BYTES,
        },
{
    match (bounded_len(name), bounded_len(value)) {
        (Some(name_len), Some(value_len)) => {
            let cost: u64 = PARAM_GROWTH * name_len + PARAM_GROWTH * value_len + 2;
            if cost > MAX_URL_BYTES {
                None
            } else {
                Some(cost)
            }
        },
        _ => None,
    }
}

/// Computes [`url_bound`] of a base URL without a query, where it is at most
/// [`MAX_URL_BYTES`].
fn base_cost(base: &str) -> (cost: Option<u64>)
    ensures
        match cost {
            Some(n) => n == url_bound(base@, Seq::empty()) && n <= MAX_URL_BYTES,
            None => url_bound(base@, Seq::empty()) > MAX_URL_BYTES,
        },
{
    match bounded_len(base) {
        Some(len) => {
            let cost: u64 = BASE_GROWTH * len + 1;
            if cost > MAX_URL_BYTES {
                None
            } else {
                Some(cost)
            }
        },
        None => None,
    }
}

/// Whether the configured base URL alone is within the limits.
pub fn base_fits(config: &GatewayConfig) -> (fits: bool)
    ensures
        fits == base_within_limits(config@.base_url),
{
    base_cost(config.base_url()).is_some()
}

/// Computes [`url_bound`] of the request for validated fields: the most bytes
/// its URL takes, or `None` where that is more than [`MAX_URL_BYTES`].
pub fn request_bound(fields: &ValidatedFields, config: &GatewayConfig) -> (bound: Option<u64>)
    ensures
        match bound {
            Some(n) => n == url_bound(config@.base_url, query_of(fields@, config@.secret)) && n
                <= MAX_URL_BYTES,
            None => !within_limits(config@.base_url, query_of(fields@, config@.secret)),
        },
{
    proof {
        lemma_query_bytes_of_three(query_of(fields@, config@.secret));
    }
    let base = base_cost(config.base_url());
    let sender = param_cost(PARAM_SENDER, fields.tel.as_str());
    let text = param_cost(PARAM_TEXT, fields.msg.as_str());
    let secret = param_cost(PARAM_SECRET, config.secret());
    match (base, sender, text, secret) {
        (Some(base), Some(sender), Some(text), Some(secret)) => {
            let bound: u64 = base + sender + text + secret;
            if bound > MAX_URL_BYTES {
                None
            } else {
                Some(bound)
            }
        },
        _ => None,
    }
}

/// Whether the configured base URL parses as an absolute URL.
pub fn base_parses(config: &GatewayConfig) -> (parses: bool)
    requires
        base_within_limits(config@.base_url),
    ensures
        parses == base_url_parses(config@.base_url),
{
    let none: Vec<(String, String)> = Vec::new();
    parse_with_params(config.base_url(), &none).is_some()
}

/// The URL of the provider request: what `Url::parse_with_params` makes of the
/// base URL and the three query parameters. It makes one exactly when the base
/// URL parses.
pub open spec fn request_url(config: ConfigView, fields: FieldsView) -> Seq<char> {
    url_with_params(config.base_url, query_of(fields, config.secret))->0
}

/// What a request is built into: the URL that the base URL and the three
/// query parameters parse into, or a bad request where the base URL does not
/// parse.
pub open spec fn built_request(config: ConfigView, fields: FieldsView) -> Result<
    Seq<char>,
    Failure,
> {
    request_of(url_with_params(config.base_url, query_of(fields, config.secret)))
}

/// Builds the provider request for validated fields: the configured base URL
/// with `sender`, `text` and `secret` appended to its query string. Fails with
/// a bad request exactly when the base URL does not parse.
///
/// The request must be within the limits; [`request_bound`] tells.
pub fn build_request(fields: &ValidatedFields, config: &GatewayConfig) -> (built: Result<
    OutboundRequest,
    Failure,
>)
    requires
        within_limits(config@.base_url, query_of(fields@, config@.secret)),
    ensures
        built_view(built) == built_request(config@, fields@),
        built is Ok <==> base_url_parses(config@.base_url),
        built matches Err(failure) ==> failure == Failure::BadRequest,
{
    let query = query_params(fields, config.secret());
    let parsed = parse_with_params(config.base_url(), &query);
    request_from_parsed(parsed)
}

} // verus!
