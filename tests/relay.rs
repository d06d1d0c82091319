use district::relay::{
    bad_request_response, dispatch_response, RelayChannel, WebsocketRoute, WireEnvelope,
    WsBasicResponse, WsCommandResponse, WsMessageResponse, WsResponseStatus, WsResponseType,
    WsResponses,
};

fn same(a: &WsResponses, b: &WsResponses) -> bool {
    match (a, b) {
        (WsResponses::Basic(x), WsResponses::Basic(y)) => {
            x.kind == y.kind && x.status == y.status && x.message == y.message
        }
        (WsResponses::Message(x), WsResponses::Message(y)) => {
            x.kind == y.kind && x.status == y.status && x.message == y.message && x.response == y.response
        }
        (WsResponses::Command(x), WsResponses::Command(y)) => {
            x.kind == y.kind && x.status == y.status && x.message == y.message && x.command == y.command
        }
        _ => false,
    }
}

#[test]
fn every_envelope_variant_round_trips() {
    let all = vec![
        WsBasicResponse::create(WsResponseStatus::Success, "Ok"),
        WsBasicResponse::create(WsResponseStatus::WrongAuth, "Wrong auth"),
        WsMessageResponse::create(WsResponseStatus::InternalError, "Internal Error", Some("boom")),
        WsMessageResponse::create(WsResponseStatus::BadRequest, "Bad Request", None),
        WsCommandResponse::create(WsResponseStatus::Success, "Ok", Some("kick 3")),
    ];
    for e in &all {
        let w = e.to_wire();
        let back = w.decode().expect("decodes");
        assert!(same(e, &back));
    }
}

#[test]
fn wire_fields_follow_the_variant() {
    let w = WsMessageResponse::create(WsResponseStatus::InternalError, "m", Some("p")).to_wire();
    assert_eq!((w.kind, w.status), (1, 500));
    assert_eq!(w.response, Some("p".to_string()));
    assert_eq!(w.command, None);
    let c = WsCommandResponse::create(WsResponseStatus::Success, "Ok", Some("x")).to_wire();
    assert_eq!((c.kind, c.status, c.command), (2, 200, Some("x".to_string())));
    let b = WsBasicResponse::create(WsResponseStatus::WrongAuth, "no").to_wire();
    assert_eq!((b.kind, b.status), (0, 421));
}

#[test]
fn malformed_wire_fields_are_rejected() {
    let bad_kind = WireEnvelope { kind: 3, status: 200, message: "m".to_string(), response: None, command: None };
    assert!(bad_kind.decode().is_none());
    let bad_status = WireEnvelope { kind: 0, status: 201, message: "m".to_string(), response: None, command: None };
    assert!(bad_status.decode().is_none());
    let no_payload = WireEnvelope { kind: 1, status: 200, message: "m".to_string(), response: None, command: None };
    assert!(no_payload.decode().is_none());
}

#[test]
fn routes_by_number() {
    assert_eq!(WebsocketRoute::from_code(0), Some(WebsocketRoute::LogsRoute));
    assert_eq!(WebsocketRoute::from_code(1), Some(WebsocketRoute::StatsRoute));
    assert_eq!(WebsocketRoute::from_code(2), None);
    assert_eq!(WsResponseType::from_code(2), Some(WsResponseType::Command));
    assert_eq!(WsResponseStatus::from_code(421), Some(WsResponseStatus::WrongAuth));
}

#[test]
fn dispatch_outcomes_become_answers() {
    match dispatch_response(&Ok("Success".to_string())) {
        WsResponses::Message(m) => {
            assert_eq!(m.status, WsResponseStatus::Success);
            assert_eq!(m.message, "Ok");
            assert_eq!(m.response, "Success");
        }
        _ => panic!("expected a message"),
    }
    match dispatch_response(&Err("no db".to_string())) {
        WsResponses::Message(m) => {
            assert_eq!(m.status, WsResponseStatus::InternalError);
            assert_eq!(m.message, "Internal Error");
            assert_eq!(m.response, "no db");
        }
        _ => panic!("expected a message"),
    }
    match bad_request_response("expected value") {
        WsResponses::Message(m) => {
            assert_eq!(m.status, WsResponseStatus::BadRequest);
            assert_eq!(m.response, "expected value");
        }
        _ => panic!("expected a message"),
    }
}

#[test]
fn drain_writes_commands_then_answers() {
    let mut conn = RelayChannel::new(4);
    conn.record_outcome(&Ok("a".to_string()));
    conn.record_bad_request("b");
    let mut commands = vec![WsCommandResponse::create(WsResponseStatus::Success, "Ok", Some("c"))];
    let out = conn.drain(&mut commands);
    assert_eq!(out.len(), 3);
    assert!(matches!(out[0], WsResponses::Command(_)));
    match &out[2] {
        WsResponses::Message(m) => assert_eq!(m.response, "b"),
        _ => panic!("expected a message"),
    }
    assert!(commands.is_empty());
    assert!(conn.outbox.is_empty());
    assert!(conn.should_continue());
    conn.read_failed();
    assert!(!conn.should_continue());
}
