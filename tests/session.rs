use magic_crypt::{MagicCrypt256, MagicCryptTrait};
use outbreak::error::{GameError, Invalid, Missing};
use outbreak::game::WSResponse;
use outbreak::session::{decrypt_data, dispatch, envelope, ws_response, Frame, FrameAction, Game, Liveness, RequestKind};

#[test]
fn dispatch_knows_each_kind() {
    assert_eq!(dispatch(&"Seed".to_string()), Ok(RequestKind::Seed));
    assert_eq!(dispatch(&"Start".to_string()), Ok(RequestKind::Start));
    assert_eq!(dispatch(&"Control".to_string()), Ok(RequestKind::Control));
    assert_eq!(dispatch(&"Event".to_string()), Ok(RequestKind::Event));
    assert_eq!(dispatch(&"Save".to_string()), Ok(RequestKind::Save));
    assert_eq!(dispatch(&"".to_string()), Err(GameError::InvalidRequest(Invalid::UnknownKind)));
    assert_eq!(dispatch(&"save".to_string()), Err(GameError::InvalidRequest(Invalid::UnknownKind)));
}

#[test]
fn errors_become_error_responses() {
    match ws_response(Err(GameError::InsufficientFunds)) {
        WSResponse::Error(m) => assert_eq!(m, "Not enough money"),
        _ => panic!("expected an error"),
    }
    match ws_response(Err(GameError::PersistenceFailure)) {
        WSResponse::Error(m) => assert_eq!(m, "Internal Server Error"),
        _ => panic!("expected an error"),
    }
    match ws_response(Ok(WSResponse::Info("Saving".to_string()))) {
        WSResponse::Info(m) => assert_eq!(m, "Saving"),
        _ => panic!("expected the response itself"),
    }
    assert_eq!(GameError::NotFound(Missing::User).message(), "User not found");
    assert_eq!(GameError::NotApplied.message(), "Control Measure was not applied");
    assert!(GameError::IntegrationFailure.is_internal());
    assert!(!GameError::AlreadyApplied.is_internal());
}

#[test]
fn response_names_on_the_wire() {
    assert_eq!(WSResponse::Notice("x".to_string()).event_type(), "Ok");
    assert_eq!(WSResponse::Error("x".to_string()).event_type(), "Error");
    assert_eq!(WSResponse::Seed("x".to_string()).event_type(), "Seed");
}

#[test]
fn envelope_frames_kind_and_body() {
    let e = envelope(&"Ok".to_string(), &"\"done\"".to_string());
    assert_eq!(e, "{\"event_type\":\"Ok\",\"payload\":\"done\"}");
}

#[test]
fn stringify_quotes_the_body() {
    let r = WSResponse::Error("ignored".to_string());
    let s = r.stringify(&"{\"a\":\"b\"}".to_string()).unwrap();
    assert_eq!(s, "{\"event_type\":\"Error\",\"payload\":\"{\\\"a\\\":\\\"b\\\"}\"}");
}

#[test]
fn decrypts_what_was_encrypted() {
    let key = "secret-key".to_string();
    let mc = MagicCrypt256::new(&key, None::<String>);
    let cipher = mc.encrypt_str_to_base64("{\"kind\":\"Seed\"}");
    assert_eq!(decrypt_data(&key, &cipher), Ok("{\"kind\":\"Seed\"}".to_string()));
    assert_eq!(decrypt_data(&key, &"not base64!".to_string()), Err("Couldn't decrypt data".to_string()));
}

#[test]
fn heartbeat_stops_silent_sessions() {
    let g = Game::new(1_000);
    assert_eq!(g.heartbeat(11_000), Liveness::Ping);
    assert_eq!(g.heartbeat(11_001), Liveness::Stop);
    assert_eq!(g.heartbeat(500), Liveness::Ping);
}

#[test]
fn frames_update_liveness() {
    let mut g = Game::new(0);
    match g.on_frame(Frame::Ping(vec![1, 2]), 50) {
        FrameAction::Pong(p) => assert_eq!(p, vec![1, 2]),
        _ => panic!("expected a pong"),
    }
    assert_eq!(g.heartbeat, 50);
    assert!(matches!(g.on_frame(Frame::Pong, 70), FrameAction::Nothing));
    assert_eq!(g.heartbeat, 70);
    match g.on_frame(Frame::Text("hello".to_string()), 90) {
        FrameAction::Serve(t) => assert_eq!(t, "hello"),
        _ => panic!("expected a request"),
    }
    assert_eq!(g.heartbeat, 70);
    assert!(matches!(g.on_frame(Frame::Other, 95), FrameAction::Stop));
}

#[test]
fn stringify_escapes_special_characters() {
    let r = WSResponse::Notice("x".to_string());
    let body = "a\"b\\c\u{08}\t\n\u{0c}\r\u{01}\u{1f} é".to_string();
    let s = r.stringify(&body).unwrap();
    assert_eq!(
        s,
        "{\"event_type\":\"Ok\",\"payload\":\"a\\\"b\\\\c\\b\\t\\n\\f\\r\\u0001\\u001f é\"}"
    );
}
