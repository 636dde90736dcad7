use approxy::config::{default_port, GatewayConfig};
use approxy::form::InboundForm;
use approxy::gateway::Fetched;
use approxy::failure::Failure;
use approxy::outbound::OutboundRequest;
use approxy::relay::{on_built, on_fetched, on_inbound, process_request, Action, Event, Phase};

fn config(base: &str) -> GatewayConfig {
    GatewayConfig::new(base.to_string(), "s3cr3t".to_string(), default_port())
}

fn form(pairs: &[(&str, &str)]) -> InboundForm {
    let mut form = InboundForm::new();
    for (name, value) in pairs {
        form.insert(name.to_string(), value.to_string());
    }
    form
}

fn inbound(pairs: &[(&str, &str)]) -> Event {
    Event::Inbound(form(pairs))
}

fn answered(status: u16, body: &str) -> Event {
    Event::Fetched(Fetched::Answered { status, body: Some(body.to_string()) })
}

fn expect_reply(next: (Phase, Action), status: u16, content_type: Option<&str>, body: &str) {
    assert_eq!(next.0, Phase::Done);
    match next.1 {
        Action::Respond(reply) => {
            assert_eq!(reply.status, status);
            assert_eq!(reply.content_type.as_deref(), content_type);
            assert_eq!(reply.body, body);
        }
        Action::Get(request) => panic!("unexpected call {:?}", request),
    }
}

fn expect_get(next: (Phase, Action), url: &str) {
    assert_eq!(next.0, Phase::AwaitingGateway);
    match next.1 {
        Action::Get(request) => assert_eq!(request.url, url),
        Action::Respond(reply) => panic!("unexpected reply {:?}", reply),
    }
}

#[test]
fn complete_form_calls_the_provider_once() {
    let config = config("http://provider.example/send");
    let next = process_request(
        &config,
        Phase::Received,
        inbound(&[("msg", "hello world"), ("tel", "+4912345")]),
    );
    expect_get(
        next,
        "http://provider.example/send?sender=%2B4912345&text=hello+world&secret=s3cr3t",
    );
    let next = process_request(&config, Phase::AwaitingGateway, answered(200, "  OK  "));
    expect_reply(
        next,
        200,
        Some("text/xml; charset=utf-8"),
        "<root><status>0</status><message>OK</message></root>",
    );
}

#[test]
fn missing_msg_is_bad_request() {
    let next = process_request(
        &config("http://provider.example/send"),
        Phase::Received,
        inbound(&[("tel", "123")]),
    );
    expect_reply(next, 400, None, "BAD_REQUEST");
}

#[test]
fn missing_tel_is_bad_request() {
    let next = process_request(
        &config("http://provider.example/send"),
        Phase::Received,
        inbound(&[("msg", "hello")]),
    );
    expect_reply(next, 400, None, "BAD_REQUEST");
}

#[test]
fn missing_both_is_bad_request() {
    let config = config("http://provider.example/send");
    expect_reply(process_request(&config, Phase::Received, inbound(&[])), 400, None, "BAD_REQUEST");
    expect_reply(
        process_request(&config, Phase::Received, inbound(&[("text", "x"), ("sender", "y")])),
        400,
        None,
        "BAD_REQUEST",
    );
}

#[test]
fn missing_field_wins_over_a_bad_base_url() {
    let next = process_request(&config("not a url"), Phase::Received, inbound(&[("msg", "m")]));
    expect_reply(next, 400, None, "BAD_REQUEST");
}

#[test]
fn empty_values_are_relayed() {
    let next = process_request(
        &config("http://provider.example/send"),
        Phase::Received,
        inbound(&[("msg", ""), ("tel", "")]),
    );
    expect_get(next, "http://provider.example/send?sender=&text=&secret=s3cr3t");
}

#[test]
fn other_fields_are_not_relayed() {
    let next = process_request(
        &config("http://provider.example/send"),
        Phase::Received,
        inbound(&[("msg", "m"), ("tel", "t"), ("secret", "mine"), ("extra", "x")]),
    );
    expect_get(next, "http://provider.example/send?sender=t&text=m&secret=s3cr3t");
}

#[test]
fn bad_base_url_is_bad_request() {
    let next = process_request(
        &config("not a url"),
        Phase::Received,
        inbound(&[("msg", "hello"), ("tel", "123")]),
    );
    expect_reply(next, 400, None, "BAD_REQUEST");
}

#[test]
fn transport_failure_is_bad_gateway() {
    let next = process_request(
        &config("http://provider.example/send"),
        Phase::AwaitingGateway,
        Event::Fetched(Fetched::Unreachable),
    );
    expect_reply(next, 502, None, "BAD_GATEWAY");
}

#[test]
fn unreadable_body_is_bad_gateway() {
    let next = process_request(
        &config("http://provider.example/send"),
        Phase::AwaitingGateway,
        Event::Fetched(Fetched::Answered { status: 200, body: None }),
    );
    expect_reply(next, 502, None, "BAD_GATEWAY");
}

#[test]
fn body_with_surrounding_white_space_is_trimmed() {
    let next = process_request(
        &config("http://provider.example/send"),
        Phase::AwaitingGateway,
        answered(200, "  OK  "),
    );
    expect_reply(
        next,
        200,
        Some("text/xml; charset=utf-8"),
        "<root><status>0</status><message>OK</message></root>",
    );
}

#[test]
fn provider_error_status_is_still_a_success() {
    let next = process_request(
        &config("http://provider.example/send"),
        Phase::AwaitingGateway,
        answered(500, "down"),
    );
    expect_reply(
        next,
        200,
        Some("text/xml; charset=utf-8"),
        "<root><status>0</status><message>down</message></root>",
    );
}

#[test]
fn every_provider_status_gives_the_same_reply() {
    let config = config("http://provider.example/send");
    for status in [0u16, 100, 200, 201, 302, 400, 401, 404, 418, 500, 503, 999, u16::MAX] {
        let next = process_request(&config, Phase::AwaitingGateway, answered(status, " sent\n"));
        expect_reply(
            next,
            200,
            Some("text/xml; charset=utf-8"),
            "<root><status>0</status><message>sent</message></root>",
        );
    }
}

#[test]
fn large_fields_are_relayed() {
    let msg = "m".repeat(32 * 1024 * 1024);
    let tel = "t".repeat(17 * 1024 * 1024);
    let next = process_request(
        &config("http://provider.example/send"),
        Phase::Received,
        inbound(&[("msg", &msg), ("tel", &tel)]),
    );
    assert_eq!(next.0, Phase::AwaitingGateway);
    match next.1 {
        Action::Get(request) => {
            assert_eq!(
                request.url.len(),
                "http://provider.example/send?sender=&text=&secret=s3cr3t".len()
                    + 49 * 1024 * 1024
            );
            assert!(request.url.starts_with("http://provider.example/send?sender=tttt"));
            assert!(request.url.ends_with("mmmm&secret=s3cr3t"));
        }
        Action::Respond(reply) => panic!("unexpected reply {}", reply.status),
    }
}

#[test]
fn bad_base_url_is_bad_request_whatever_the_fields_hold() {
    let msg = "m".repeat(32 * 1024 * 1024);
    for base in ["not a url", "", "/send", "http://"] {
        let next =
            process_request(&config(base), Phase::Received, inbound(&[("msg", &msg), ("tel", "t")]));
        expect_reply(next, 400, None, "BAD_REQUEST");
    }
}

fn long_base(prefix: &str) -> String {
    let mut base = prefix.to_string();
    base.push_str(&"a".repeat(16_777_214 - prefix.len()));
    base
}

#[test]
fn request_at_the_limit_is_relayed() {
    // 256 * 16_777_214 + 1 + 20 + (14 + 3 * 146) + 38 is u32::MAX.
    let base = long_base("http://provider.example/");
    let msg = "m".repeat(146);
    let next =
        process_request(&config(&base), Phase::Received, inbound(&[("msg", &msg), ("tel", "")]));
    let mut url = base;
    url.push_str("?sender=&text=");
    url.push_str(&msg);
    url.push_str("&secret=s3cr3t");
    expect_get(next, &url);
}

#[test]
fn request_beyond_the_limit_is_unclassified() {
    let base = long_base("http://provider.example/");
    let msg = "m".repeat(147);
    let next =
        process_request(&config(&base), Phase::Received, inbound(&[("msg", &msg), ("tel", "")]));
    expect_reply(next, 500, None, "INTERNAL_SERVER_ERROR");
}

#[test]
fn bad_base_url_comes_before_the_size_of_the_request() {
    let base = long_base("provider.example/");
    let msg = "m".repeat(147);
    let next =
        process_request(&config(&base), Phase::Received, inbound(&[("msg", &msg), ("tel", "")]));
    expect_reply(next, 400, None, "BAD_REQUEST");
}

#[test]
fn base_url_beyond_the_limit_is_unclassified() {
    let mut base = "http://provider.example/".to_string();
    base.push_str(&"a".repeat(16 * 1024 * 1024));
    let next = process_request(&config(&base), Phase::Received, inbound(&[("msg", "m"), ("tel", "t")]));
    expect_reply(next, 500, None, "INTERNAL_SERVER_ERROR");
}

#[test]
fn unexpected_event_is_unclassified() {
    let config = config("http://provider.example/send");
    expect_reply(
        process_request(&config, Phase::Received, answered(200, "OK")),
        500,
        None,
        "INTERNAL_SERVER_ERROR",
    );
    expect_reply(
        process_request(&config, Phase::Received, Event::Fetched(Fetched::Unreachable)),
        500,
        None,
        "INTERNAL_SERVER_ERROR",
    );
    expect_reply(
        process_request(&config, Phase::AwaitingGateway, inbound(&[("msg", "m"), ("tel", "t")])),
        500,
        None,
        "INTERNAL_SERVER_ERROR",
    );
}

#[test]
fn nothing_is_called_once_done() {
    let config = config("http://provider.example/send");
    expect_reply(
        process_request(&config, Phase::Done, inbound(&[("msg", "m"), ("tel", "t")])),
        500,
        None,
        "INTERNAL_SERVER_ERROR",
    );
    expect_reply(
        process_request(&config, Phase::Done, answered(200, "OK")),
        500,
        None,
        "INTERNAL_SERVER_ERROR",
    );
}

#[test]
fn a_run_calls_the_provider_at_most_once() {
    let config = config("http://provider.example/send");
    let mut phase = Phase::Received;
    let mut calls = 0;
    let events = vec![
        inbound(&[("msg", "m"), ("tel", "t")]),
        inbound(&[("msg", "m"), ("tel", "t")]),
        answered(200, "OK"),
        inbound(&[("msg", "m"), ("tel", "t")]),
    ];
    for event in events {
        let (next, action) = process_request(&config, phase, event);
        if matches!(action, Action::Get(_)) {
            calls += 1;
        }
        phase = next;
    }
    assert_eq!(calls, 1);
    assert_eq!(phase, Phase::Done);
}

#[test]
fn same_inputs_give_the_same_outputs() {
    let run = || {
        let config = config("https://provider.example/api?v=2");
        let first = process_request(
            &config,
            Phase::Received,
            inbound(&[("tel", "0170 1234567"), ("msg", "Gr\u{fc}\u{df}e & more")]),
        );
        let second = process_request(&config, Phase::AwaitingGateway, answered(503, "\tqueued \n"));
        (first, second)
    };
    let one = run();
    let other = run();
    assert_eq!(one, other);
    expect_get(
        one.0,
        "https://provider.example/api?v=2&sender=0170+1234567&text=Gr%C3%BC%C3%9Fe+%26+more&secret=s3cr3t",
    );
    expect_reply(
        one.1,
        200,
        Some("text/xml; charset=utf-8"),
        "<root><status>0</status><message>queued</message></root>",
    );
}

#[test]
fn built_request_is_called() {
    let request = OutboundRequest { url: "http://provider.example/?sender=t".to_string() };
    expect_get(on_built(Ok(request)), "http://provider.example/?sender=t");
}

#[test]
fn failure_to_build_is_bad_request() {
    expect_reply(on_built(Err(Failure::BadRequest)), 400, None, "BAD_REQUEST");
}

#[test]
fn on_inbound_is_the_first_step() {
    let config = config("http://provider.example/send");
    let direct = on_inbound(&config, &form(&[("msg", "m"), ("tel", "t")]));
    let stepped = process_request(&config, Phase::Received, inbound(&[("msg", "m"), ("tel", "t")]));
    assert_eq!(direct, stepped);
    expect_get(direct, "http://provider.example/send?sender=t&text=m&secret=s3cr3t");
}

#[test]
fn on_fetched_is_the_second_step() {
    let config = config("http://provider.example/send");
    let direct = on_fetched(Fetched::Answered { status: 200, body: Some(" OK ".to_string()) });
    let stepped = process_request(&config, Phase::AwaitingGateway, answered(200, " OK "));
    assert_eq!(direct, stepped);
}

#[test]
fn root_exports_the_relay() {
    let config = approxy::GatewayConfig::new(
        "http://provider.example/".to_string(),
        "k".to_string(),
        approxy::default_port(),
    );
    let mut form = approxy::InboundForm::new();
    form.insert("msg".to_string(), "m".to_string());
    form.insert("tel".to_string(), "t".to_string());
    let next = approxy::process_request(&config, approxy::Phase::Received, approxy::Event::Inbound(form));
    expect_get(next, "http://provider.example/?sender=t&text=m&secret=k");
}
