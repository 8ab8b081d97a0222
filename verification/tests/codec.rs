use weird_input::api::{
    decode_auth, decode_response, encode_request, ApiError, AuthMessage, HassEvent, HassRequest,
    HassResponse, HassWrapper, IdGen,
};
use weird_input::handshake::{HandshakeMachine, HsAction, HsError, HsState};
use weird_input::json::{empty_object, json_eq, Json};

fn s(x: &str) -> String {
    x.to_string()
}

fn obj(pairs: Vec<(&str, Json)>) -> Json {
    Json::Obj(pairs.into_iter().map(|(k, v)| (s(k), v)).collect())
}

fn result_frame(id: i64, success: bool) -> Json {
    obj(vec![
        ("id", Json::Int(id)),
        ("type", Json::Str(s("result"))),
        ("success", Json::Bool(success)),
        ("result", Json::Null),
    ])
}

#[test]
fn json_eq_compares_structurally() {
    let a = obj(vec![("a", Json::Int(1)), ("b", Json::Arr(vec![Json::Bool(true), Json::Null]))]);
    let b = obj(vec![("a", Json::Int(1)), ("b", Json::Arr(vec![Json::Bool(true), Json::Null]))]);
    assert!(json_eq(&a, &b));
    let c = obj(vec![("b", Json::Arr(vec![Json::Bool(true), Json::Null])), ("a", Json::Int(1))]);
    assert!(!json_eq(&a, &c));
    assert!(!json_eq(&Json::Int(0), &Json::Bool(false)));
    assert!(json_eq(&empty_object(), &Json::Obj(Vec::new())));
}

#[test]
fn ids_start_at_one_and_increase() {
    let mut ids = IdGen::new();
    let w1 = HassWrapper::new(HassRequest::GetStates, &mut ids);
    // every envelope consumes an id, even if the caller discards the result
    let _ = HassWrapper::new(HassRequest::GetStates, &mut ids);
    let w3 = HassWrapper::new(HassRequest::GetStates, &mut ids);
    assert_eq!(w1.id, 1);
    assert_eq!(w3.id, 3);
    assert!(w1.id < w3.id);
}

#[test]
fn encode_decode_round_trips_the_id() {
    let mut ids = IdGen::new();
    let w = HassWrapper::new(
        HassRequest::SubscribeEvents { event_type: Some(s("zha_event")) },
        &mut ids,
    );
    let frame = encode_request(&w);
    // pull the id the encoder wrote into the frame
    let echoed = match &frame {
        Json::Obj(fields) => match fields.iter().find(|(k, _)| k == "id") {
            Some((_, Json::Int(n))) => *n,
            _ => panic!("no id field"),
        },
        _ => panic!("not an object"),
    };
    // a server echo of that id decodes back to the same integer
    let reply = result_frame(echoed, true);
    let decoded = decode_response(&reply).ok().expect("reply decodes");
    assert_eq!(decoded.id, w.id);
    assert_eq!(decoded.id, 1);
}

#[test]
fn encode_writes_type_and_event_type() {
    let mut ids = IdGen::new();
    let w = HassWrapper::new(
        HassRequest::SubscribeEvents { event_type: Some(s("zha_event")) },
        &mut ids,
    );
    let frame = encode_request(&w);
    let fields = match &frame {
        Json::Obj(fields) => fields,
        _ => panic!("not an object"),
    };
    let ty = fields.iter().find(|(k, _)| k == "type").map(|(_, v)| v).unwrap();
    assert!(json_eq(ty, &Json::Str(s("subscribe_events"))));
    let et = fields.iter().find(|(k, _)| k == "event_type").map(|(_, v)| v).unwrap();
    assert!(json_eq(et, &Json::Str(s("zha_event"))));
}

#[test]
fn decode_response_rejects_bad_frames() {
    // not an object: the error keeps the frame
    let e = decode_response(&Json::Bool(true)).err().expect("must fail");
    assert!(json_eq(&e.frame, &Json::Bool(true)));
    // unknown discriminant
    let bad = obj(vec![("id", Json::Int(1)), ("type", Json::Str(s("mystery")))]);
    assert!(decode_response(&bad).is_err());
    // missing id
    let bad = obj(vec![("type", Json::Str(s("result"))), ("success", Json::Bool(true))]);
    assert!(decode_response(&bad).is_err());
    // id out of the i32 id space
    let bad = result_frame(i64::MAX, true);
    assert!(decode_response(&bad).is_err());
}

#[test]
fn decode_auth_covers_all_variants() {
    let f = obj(vec![("type", Json::Str(s("auth_required"))), ("ha_version", Json::Str(s("9")))]);
    assert!(matches!(
        decode_auth(&f),
        Ok(AuthMessage::AuthRequired { ha_version }) if ha_version == "9"
    ));
    let f = obj(vec![("type", Json::Str(s("auth"))), ("access_token", Json::Str(s("tok")))]);
    assert!(matches!(
        decode_auth(&f),
        Ok(AuthMessage::Auth { access_token }) if access_token == "tok"
    ));
    let f = obj(vec![("type", Json::Str(s("auth_ok"))), ("ha_version", Json::Str(s("9")))]);
    assert!(matches!(decode_auth(&f), Ok(AuthMessage::AuthOk { .. })));
    let f = obj(vec![("type", Json::Str(s("auth_invalid"))), ("message", Json::Str(s("no")))]);
    assert!(matches!(decode_auth(&f), Ok(AuthMessage::AuthInvalid { .. })));
    let f = obj(vec![("type", Json::Str(s("greeting")))]);
    let e = decode_auth(&f).err().expect("unknown discriminant must fail");
    assert!(json_eq(&e.frame, &obj(vec![("type", Json::Str(s("greeting")))])));
}

#[test]
fn duplicate_keys_first_wins() {
    let f = Json::Obj(vec![
        (s("type"), Json::Str(s("auth_ok"))),
        (s("type"), Json::Str(s("auth_invalid"))),
        (s("ha_version"), Json::Str(s("9"))),
    ]);
    assert!(matches!(decode_auth(&f), Ok(AuthMessage::AuthOk { .. })));
}

#[test]
fn into_result_unwraps_the_envelope() {
    let ok = decode_response(&result_frame(7, true)).ok().unwrap();
    assert!(matches!(ok.into_result(), Ok(Json::Null)));

    let failed = decode_response(&result_frame(7, false)).ok().unwrap();
    assert!(matches!(failed.into_result(), Err(ApiError::RequestFailed { .. })));

    let ev = HassWrapper::<HassResponse> {
        id: 7,
        data: HassResponse::Event {
            event: HassEvent::StateChanged {
                entity_id: s("light.k"),
                old_state: Json::Null,
                new_state: Json::Null,
            },
        },
    };
    assert!(matches!(ev.into_result(), Err(ApiError::UnexpectedResponse)));
}

fn machine_at_subscribe() -> (HandshakeMachine, IdGen) {
    let mut hs = HandshakeMachine::new(s("secret"));
    let mut ids = IdGen::new();
    let greeting =
        obj(vec![("type", Json::Str(s("auth_required"))), ("ha_version", Json::Str(s("9")))]);
    let act = hs.step(Some(&greeting), &mut ids);
    assert!(matches!(
        act,
        HsAction::SendAuth(AuthMessage::Auth { access_token }) if access_token == "secret"
    ));
    assert!(matches!(hs.state, HsState::AwaitAuthResult));
    let ok = obj(vec![("type", Json::Str(s("auth_ok"))), ("ha_version", Json::Str(s("9")))]);
    let act = hs.step(Some(&ok), &mut ids);
    match act {
        HsAction::SendSubscribe(w) => {
            assert_eq!(w.id, 1);
            assert!(matches!(
                w.data,
                HassRequest::SubscribeEvents { event_type: Some(et) } if et == "zha_event"
            ));
        }
        _ => panic!("expected a subscription request"),
    }
    assert!(matches!(hs.state, HsState::AwaitSubscribeResult));
    (hs, ids)
}

#[test]
fn subscribe_success_completes_the_handshake() {
    let (mut hs, mut ids) = machine_at_subscribe();
    let act = hs.step(Some(&result_frame(1, true)), &mut ids);
    assert!(matches!(act, HsAction::Complete));
    assert!(matches!(hs.state, HsState::Subscribed));
}

#[test]
fn subscribe_failure_aborts_the_handshake() {
    let (mut hs, mut ids) = machine_at_subscribe();
    let act = hs.step(Some(&result_frame(1, false)), &mut ids);
    assert!(matches!(act, HsAction::Abort(HsError::SubscribeFailed)));
    assert!(matches!(hs.state, HsState::Failed));
}

#[test]
fn auth_invalid_does_not_abort() {
    let mut hs = HandshakeMachine::new(s("secret"));
    let mut ids = IdGen::new();
    let greeting =
        obj(vec![("type", Json::Str(s("auth_required"))), ("ha_version", Json::Str(s("9")))]);
    hs.step(Some(&greeting), &mut ids);
    let invalid =
        obj(vec![("type", Json::Str(s("auth_invalid"))), ("message", Json::Str(s("bad token")))]);
    let act = hs.step(Some(&invalid), &mut ids);
    // the permissive policy: an invalid-token verdict still proceeds to subscribe
    assert!(matches!(act, HsAction::SendSubscribe(_)));
    assert!(matches!(hs.state, HsState::AwaitSubscribeResult));
}

#[test]
fn handshake_is_lenient_about_the_greeting() {
    let mut hs = HandshakeMachine::new(s("secret"));
    let mut ids = IdGen::new();
    // any authentication-phase message is taken as the greeting
    let odd = obj(vec![("type", Json::Str(s("auth_ok"))), ("ha_version", Json::Str(s("9")))]);
    let act = hs.step(Some(&odd), &mut ids);
    assert!(matches!(act, HsAction::SendAuth(_)));
    assert!(matches!(hs.state, HsState::AwaitAuthResult));
}

#[test]
fn undecodable_handshake_frames_abort() {
    let mut hs = HandshakeMachine::new(s("secret"));
    let mut ids = IdGen::new();
    let act = hs.step(Some(&Json::Int(3)), &mut ids);
    assert!(matches!(act, HsAction::Abort(HsError::BadFrame)));
    assert!(matches!(hs.state, HsState::Failed));

    let mut hs = HandshakeMachine::new(s("secret"));
    let act = hs.step(None, &mut ids);
    assert!(matches!(act, HsAction::Abort(HsError::BadFrame)));

    let (mut hs, mut ids) = machine_at_subscribe();
    let ev = obj(vec![("id", Json::Int(1)), ("type", Json::Str(s("unheard")))]);
    let act = hs.step(Some(&ev), &mut ids);
    assert!(matches!(act, HsAction::Abort(HsError::BadFrame)));
}

#[test]
fn non_result_answer_to_subscribe_aborts() {
    let (mut hs, mut ids) = machine_at_subscribe();
    let ev = obj(vec![
        ("id", Json::Int(1)),
        ("type", Json::Str(s("event"))),
        (
            "event",
            obj(vec![
                ("event_type", Json::Str(s("state_changed"))),
                (
                    "data",
                    obj(vec![
                        ("entity_id", Json::Str(s("light.k"))),
                        ("old_state", Json::Null),
                        ("new_state", Json::Null),
                    ]),
                ),
            ]),
        ),
    ]);
    let act = hs.step(Some(&ev), &mut ids);
    assert!(matches!(act, HsAction::Abort(HsError::UnexpectedResponse)));
    assert!(matches!(hs.state, HsState::Failed));
}
