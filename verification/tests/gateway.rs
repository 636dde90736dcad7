use approxy::gateway::{classify, reply_to, Fetched, GatewayOutcome};

#[test]
fn unreachable_is_a_transport_failure() {
    assert_eq!(classify(Fetched::Unreachable), GatewayOutcome::TransportFailure);
}

#[test]
fn unreadable_body_is_a_transport_failure() {
    assert_eq!(
        classify(Fetched::Answered { status: 200, body: None }),
        GatewayOutcome::TransportFailure
    );
    assert_eq!(
        classify(Fetched::Answered { status: 500, body: None }),
        GatewayOutcome::TransportFailure
    );
}

#[test]
fn readable_body_is_a_success() {
    assert_eq!(
        classify(Fetched::Answered { status: 200, body: Some("  OK  ".to_string()) }),
        GatewayOutcome::Success("  OK  ".to_string())
    );
}

#[test]
fn provider_status_is_not_inspected() {
    for status in [100u16, 200, 204, 301, 400, 404, 500, 502, 503, 599, 0, u16::MAX] {
        assert_eq!(
            classify(Fetched::Answered { status, body: Some("down".to_string()) }),
            GatewayOutcome::Success("down".to_string()),
            "status {}",
            status
        );
    }
}

#[test]
fn empty_body_is_a_success() {
    assert_eq!(
        classify(Fetched::Answered { status: 204, body: Some(String::new()) }),
        GatewayOutcome::Success(String::new())
    );
}

#[test]
fn reply_to_success_is_the_envelope() {
    let reply = reply_to(&GatewayOutcome::Success("  OK  ".to_string()));
    assert_eq!(reply.status, 200);
    assert_eq!(reply.content_type, Some("text/xml; charset=utf-8".to_string()));
    assert_eq!(reply.body, "<root><status>0</status><message>OK</message></root>");
}

#[test]
fn reply_to_transport_failure_is_bad_gateway() {
    let reply = reply_to(&GatewayOutcome::TransportFailure);
    assert_eq!(reply.status, 502);
    assert_eq!(reply.content_type, None);
    assert_eq!(reply.body, "BAD_GATEWAY");
}

#[test]
fn reply_to_malformed_config_is_bad_request() {
    let reply = reply_to(&GatewayOutcome::MalformedConfig);
    assert_eq!(reply.status, 400);
    assert_eq!(reply.content_type, None);
    assert_eq!(reply.body, "BAD_REQUEST");
}
