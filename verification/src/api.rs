//! Message envelope codec for the hub's wire protocol.
//!
//! Outgoing requests are wrapped in a correlation envelope whose id comes
//! from a monotonically increasing counter starting at 1. Inbound frames
//! (already in structured [`Json`] form) are decoded, discriminant first,
//! into typed response, event and authentication messages; an unknown or
//! ill-shaped frame yields a [`DecodeError`] carrying the frame itself.

use crate::json::{json_equal, Json};
use vstd::prelude::*;
use vstd::string::StringExecFns;

verus! {

/// The correlation-id counter: hands out 1, 2, 3, ... and never reuses a
/// value. One counter is shared by all requests of a client instance.
#[derive(Debug)]
pub struct IdGen {
    pub next: i32,
}

impl IdGen {
    /// A fresh counter, positioned on the first id.
    pub fn new() -> (r: IdGen)
        ensures
            r.next == 1,
    {
        IdGen { next: 1 }
    }

    /// Consumes and returns the next id. Ids strictly increase across
    /// calls; the id space must not be exhausted.
    pub fn fresh_id(&mut self) -> (id: i32)
        requires
            old(self).next < i32::MAX,
        ensures
            id == old(self).next,
            final(self).next == old(self).next + 1,
    {
        let id = self.next;
        self.next = self.next + 1;
        id
    }
}

/// The correlation envelope around a request or response payload.
#[derive(Debug)]
pub struct HassWrapper<T> {
    pub id: i32,
    pub data: T,
}

/// An outgoing request payload.
#[derive(Debug)]
pub enum HassRequest {
    SubscribeEvents { event_type: Option<String> },
    GetStates,
}

/// An inbound enveloped payload: a correlated result or a domain event.
#[derive(Debug)]
pub enum HassResponse {
    Result { success: bool, result: Json },
    Event { event: HassEvent },
}

/// A domain event carried by an inbound `event` message.
#[derive(Debug)]
pub enum HassEvent {
    StateChanged { entity_id: String, old_state: Json, new_state: Json },
    ZhaEvent { device_ieee: String, command: String, params: Json },
}

/// A message of the authentication phase.
#[derive(Debug)]
pub enum AuthMessage {
    AuthRequired { ha_version: String },
    Auth { access_token: String },
    AuthOk { ha_version: String },
    AuthInvalid { message: String },
}

/// A frame that does not decode; it keeps the offending frame for
/// diagnostics.
#[derive(Debug)]
pub struct DecodeError {
    pub frame: Json,
}

impl HassWrapper<HassRequest> {
    /// Envelopes a request under the next correlation id.
    pub fn new(data: HassRequest, ids: &mut IdGen) -> (r: Self)
        requires
            old(ids).next < i32::MAX,
        ensures
            r.id == old(ids).next,
            r.data == data,
            final(ids).next == old(ids).next + 1,
    {
        let id = ids.fresh_id();
        HassWrapper { id, data }
    }
}

/// The value of the first field named `key`, if any.
pub open spec fn spec_lookup(fields: Seq<(String, Json)>, key: Seq<char>) -> Option<Json>
    decreases fields.len(),
{
    if fields.len() == 0 {
        None
    } else if fields[0].0@ == key {
        Some(fields[0].1)
    } else {
        spec_lookup(fields.subrange(1, fields.len() as int), key)
    }
}

/// Finds the first field of `fields` named `key`.
#[verifier::loop_isolation(false)]
pub fn lookup_field<'a>(fields: &'a Vec<(String, Json)>, key: &String) -> (r: Option<
    &'a Json,
>)
    ensures
        match r {
            Some(v) => spec_lookup(fields@, key@) == Some(*v),
            None => spec_lookup(fields@, key@) is None,
        },
{
    let n = fields.len();
    let mut i: usize = 0;
    proof {
        assert(fields@.subrange(0, n as int) =~= fields@);
    }
    while i < n
        invariant
            i <= n,
            n == fields@.len(),
            spec_lookup(fields@, key@) == spec_lookup(
                fields@.subrange(i as int, n as int),
                key@,
            ),
        decreases n - i,
    {
        proof {
            assert(fields@.subrange(i as int, n as int)[0] == fields@[i as int]);
        }
        if fields[i].0 == *key {
            return Some(&fields[i].1);
        }
        proof {
            assert(fields@.subrange(i as int, n as int).subrange(
                1,
                fields@.subrange(i as int, n as int).len() as int,
            ) =~= fields@.subrange(i as int + 1, n as int));
        }
        i = i + 1;
    }
    proof {
        assert(fields@.subrange(i as int, n as int).len() == 0);
    }
    None
}

/// Decoding of an inbound `event` payload, discriminant first: the
/// `event_type` field selects the variant, whose fields come from `data`.
/// Unknown discriminants and missing or ill-typed fields decode to nothing.
pub open spec fn spec_decode_event(j: Json) -> Option<HassEvent> {
    match j {
        Json::Obj(fields) => match spec_lookup(fields@, "event_type"@) {
            Some(Json::Str(t)) => if t@ == "zha_event"@ {
                match spec_lookup(fields@, "data"@) {
                    Some(Json::Obj(data)) => match (
                        spec_lookup(data@, "device_ieee"@),
                        spec_lookup(data@, "command"@),
                        spec_lookup(data@, "params"@),
                    ) {
                        (Some(Json::Str(ieee)), Some(Json::Str(cmd)), Some(p)) => Some(
                            HassEvent::ZhaEvent { device_ieee: ieee, command: cmd, params: p },
                        ),
                        _ => None,
                    },
                    _ => None,
                }
            } else if t@ == "state_changed"@ {
                match spec_lookup(fields@, "data"@) {
                    Some(Json::Obj(data)) => match (
                        spec_lookup(data@, "entity_id"@),
                        spec_lookup(data@, "old_state"@),
                        spec_lookup(data@, "new_state"@),
                    ) {
                        (Some(Json::Str(ent)), Some(os), Some(ns)) => Some(
                            HassEvent::StateChanged {
                                entity_id: ent,
                                old_state: os,
                                new_state: ns,
                            },
                        ),
                        _ => None,
                    },
                    _ => None,
                }
            } else {
                None
            },
            _ => None,
        },
        _ => None,
    }
}

/// Decoding of an inbound enveloped payload: the `type` field selects
/// between a correlated result and a domain event.
pub open spec fn spec_decode_payload(j: Json) -> Option<HassResponse> {
    match j {
        Json::Obj(fields) => match spec_lookup(fields@, "type"@) {
            Some(Json::Str(t)) => if t@ == "result"@ {
                match (spec_lookup(fields@, "success"@), spec_lookup(fields@, "result"@)) {
                    (Some(Json::Bool(s)), Some(v)) => Some(
                        HassResponse::Result { success: s, result: v },
                    ),
                    _ => None,
                }
            } else if t@ == "event"@ {
                match spec_lookup(fields@, "event"@) {
                    Some(ev) => match spec_decode_event(ev) {
                        Some(e) => Some(HassResponse::Event { event: e }),
                        None => None,
                    },
                    None => None,
                }
            } else {
                None
            },
            _ => None,
        },
        _ => None,
    }
}

/// The correlation id of an inbound frame: its integral `id` field, which
/// must fit the id space.
pub open spec fn spec_frame_id(j: Json) -> Option<i32> {
    match j {
        Json::Obj(fields) => match spec_lookup(fields@, "id"@) {
            Some(Json::Int(n)) => if i32::MIN as i64 <= n && n <= i32::MAX as i64 {
                Some(n as i32)
            } else {
                None
            },
            _ => None,
        },
        _ => None,
    }
}

/// Decoding of a whole inbound frame into its correlation envelope.
pub open spec fn spec_decode_response(j: Json) -> Option<HassWrapper<HassResponse>> {
    match (spec_frame_id(j), spec_decode_payload(j)) {
        (Some(id), Some(data)) => Some(HassWrapper { id, data }),
        _ => None,
    }
}

/// Decoding of an authentication-phase frame: the `type` field selects the
/// variant, which carries one text field.
pub open spec fn spec_decode_auth(j: Json) -> Option<AuthMessage> {
    match j {
        Json::Obj(fields) => match spec_lookup(fields@, "type"@) {
            Some(Json::Str(t)) => if t@ == "auth_required"@ {
                match spec_lookup(fields@, "ha_version"@) {
                    Some(Json::Str(v)) => Some(AuthMessage::AuthRequired { ha_version: v }),
                    _ => None,
                }
            } else if t@ == "auth"@ {
                match spec_lookup(fields@, "access_token"@) {
                    Some(Json::Str(v)) => Some(AuthMessage::Auth { access_token: v }),
                    _ => None,
                }
            } else if t@ == "auth_ok"@ {
                match spec_lookup(fields@, "ha_version"@) {
                    Some(Json::Str(v)) => Some(AuthMessage::AuthOk { ha_version: v }),
                    _ => None,
                }
            } else if t@ == "auth_invalid"@ {
                match spec_lookup(fields@, "message"@) {
                    Some(Json::Str(v)) => Some(AuthMessage::AuthInvalid { message: v }),
                    _ => None,
                }
            } else {
                None
            },
            _ => None,
        },
        _ => None,
    }
}

/// Field-for-field sameness of two domain events (text by content, payloads
/// by structural equality).
pub open spec fn event_equal(a: HassEvent, b: HassEvent) -> bool {
    match (a, b) {
        (
            HassEvent::StateChanged { entity_id: e1, old_state: o1, new_state: n1 },
            HassEvent::StateChanged { entity_id: e2, old_state: o2, new_state: n2 },
        ) => e1@ == e2@ && json_equal(o1, o2) && json_equal(n1, n2),
        (
            HassEvent::ZhaEvent { device_ieee: d1, command: c1, params: p1 },
            HassEvent::ZhaEvent { device_ieee: d2, command: c2, params: p2 },
        ) => d1@ == d2@ && c1@ == c2@ && json_equal(p1, p2),
        _ => false,
    }
}

/// Field-for-field sameness of two enveloped payloads.
pub open spec fn response_equal(a: HassResponse, b: HassResponse) -> bool {
    match (a, b) {
        (
            HassResponse::Result { success: s1, result: r1 },
            HassResponse::Result { success: s2, result: r2 },
        ) => s1 == s2 && json_equal(r1, r2),
        (HassResponse::Event { event: e1 }, HassResponse::Event { event: e2 }) => event_equal(
            e1,
            e2,
        ),
        _ => false,
    }
}

/// Field-for-field sameness of two authentication messages.
pub open spec fn auth_equal(a: AuthMessage, b: AuthMessage) -> bool {
    match (a, b) {
        (
            AuthMessage::AuthRequired { ha_version: v1 },
            AuthMessage::AuthRequired { ha_version: v2 },
        ) => v1@ == v2@,
        (AuthMessage::Auth { access_token: v1 }, AuthMessage::Auth { access_token: v2 }) => v1@
            == v2@,
        (AuthMessage::AuthOk { ha_version: v1 }, AuthMessage::AuthOk { ha_version: v2 }) => v1@
            == v2@,
        (AuthMessage::AuthInvalid { message: v1 }, AuthMessage::AuthInvalid { message: v2 }) => v1@
            == v2@,
        _ => false,
    }
}

/// Decodes an inbound `event` payload, as [`spec_decode_event`] describes.
pub fn decode_event(j: &Json) -> (r: Option<HassEvent>)
    ensures
        match spec_decode_event(*j) {
            Some(m) => r matches Some(e) && event_equal(e, m),
            None => r is None,
        },
{
    let fields = match j {
        Json::Obj(fields) => fields,
        _ => {
            return None;
        },
    };
    let t = match lookup_field(fields, &String::from_str("event_type")) {
        Some(Json::Str(t)) => t,
        _ => {
            return None;
        },
    };
    if *t == String::from_str("zha_event") {
        let data = match lookup_field(fields, &String::from_str("data")) {
            Some(Json::Obj(data)) => data,
            _ => {
                return None;
            },
        };
        let ieee = match lookup_field(data, &String::from_str("device_ieee")) {
            Some(Json::Str(s)) => s,
            _ => {
                return None;
            },
        };
        let cmd = match lookup_field(data, &String::from_str("command")) {
            Some(Json::Str(s)) => s,
            _ => {
                return None;
            },
        };
        let p = match lookup_field(data, &String::from_str("params")) {
            Some(p) => p,
            None => {
                return None;
            },
        };
        Some(
            HassEvent::ZhaEvent {
                device_ieee: ieee.clone(),
                command: cmd.clone(),
                params: crate::json::json_clone(p),
            },
        )
    } else if *t == String::from_str("state_changed") {
        let data = match lookup_field(fields, &String::from_str("data")) {
            Some(Json::Obj(data)) => data,
            _ => {
                return None;
            },
        };
        let ent = match lookup_field(data, &String::from_str("entity_id")) {
            Some(Json::Str(s)) => s,
            _ => {
                return None;
            },
        };
        let os = match lookup_field(data, &String::from_str("old_state")) {
            Some(v) => v,
            None => {
                return None;
            },
        };
        let ns = match lookup_field(data, &String::from_str("new_state")) {
            Some(v) => v,
            None => {
                return None;
            },
        };
        Some(
            HassEvent::StateChanged {
                entity_id: ent.clone(),
                old_state: crate::json::json_clone(os),
                new_state: crate::json::json_clone(ns),
            },
        )
    } else {
        None
    }
}

/// Decodes an inbound enveloped payload, as [`spec_decode_payload`]
/// describes.
pub fn decode_payload(j: &Json) -> (r: Option<HassResponse>)
    ensures
        match spec_decode_payload(*j) {
            Some(m) => r matches Some(p) && response_equal(p, m),
            None => r is None,
        },
{
    let fields = match j {
        Json::Obj(fields) => fields,
        _ => {
            return None;
        },
    };
    let t = match lookup_field(fields, &String::from_str("type")) {
        Some(Json::Str(t)) => t,
        _ => {
            return None;
        },
    };
    if *t == String::from_str("result") {
        let s = match lookup_field(fields, &String::from_str("success")) {
            Some(Json::Bool(b)) => *b,
            _ => {
                return None;
            },
        };
        let v = match lookup_field(fields, &String::from_str("result")) {
            Some(v) => v,
            None => {
                return None;
            },
        };
        Some(HassResponse::Result { success: s, result: crate::json::json_clone(v) })
    } else if *t == String::from_str("event") {
        let ev = match lookup_field(fields, &String::from_str("event")) {
            Some(ev) => ev,
            None => {
                return None;
            },
        };
        match decode_event(ev) {
            Some(e) => Some(HassResponse::Event { event: e }),
            None => None,
        }
    } else {
        None
    }
}

/// Decodes a whole inbound frame into its correlation envelope, as
/// [`spec_decode_response`] describes; anything else is a [`DecodeError`]
/// keeping the frame.
pub fn decode_response(j: &Json) -> (r: Result<HassWrapper<HassResponse>, DecodeError>)
    ensures
        match spec_decode_response(*j) {
            Some(m) => r matches Ok(w) && w.id == m.id && response_equal(w.data, m.data),
            None => r matches Err(e) && json_equal(e.frame, *j),
        },
{
    let id_opt: Option<i32> = match j {
        Json::Obj(fields) => match lookup_field(fields, &String::from_str("id")) {
            Some(Json::Int(n)) => if i32::MIN as i64 <= *n && *n <= i32::MAX as i64 {
                Some(*n as i32)
            } else {
                None
            },
            _ => None,
        },
        _ => None,
    };
    match id_opt {
        Some(id) => match decode_payload(j) {
            Some(data) => Ok(HassWrapper { id, data }),
            None => Err(DecodeError { frame: crate::json::json_clone(j) }),
        },
        None => Err(DecodeError { frame: crate::json::json_clone(j) }),
    }
}

/// Decodes an authentication-phase frame, as [`spec_decode_auth`]
/// describes; anything else is a [`DecodeError`] keeping the frame.
pub fn decode_auth(j: &Json) -> (r: Result<AuthMessage, DecodeError>)
    ensures
        match spec_decode_auth(*j) {
            Some(m) => r matches Ok(a) && auth_equal(a, m),
            None => r matches Err(e) && json_equal(e.frame, *j),
        },
{
    let fields = match j {
        Json::Obj(fields) => fields,
        _ => {
            return Err(DecodeError { frame: crate::json::json_clone(j) });
        },
    };
    let t = match lookup_field(fields, &String::from_str("type")) {
        Some(Json::Str(t)) => t,
        _ => {
            return Err(DecodeError { frame: crate::json::json_clone(j) });
        },
    };
    if *t == String::from_str("auth_required") {
        match lookup_field(fields, &String::from_str("ha_version")) {
            Some(Json::Str(v)) => Ok(AuthMessage::AuthRequired { ha_version: v.clone() }),
            _ => Err(DecodeError { frame: crate::json::json_clone(j) }),
        }
    } else if *t == String::from_str("auth") {
        match lookup_field(fields, &String::from_str("access_token")) {
            Some(Json::Str(v)) => Ok(AuthMessage::Auth { access_token: v.clone() }),
            _ => Err(DecodeError { frame: crate::json::json_clone(j) }),
        }
    } else if *t == String::from_str("auth_ok") {
        match lookup_field(fields, &String::from_str("ha_version")) {
            Some(Json::Str(v)) => Ok(AuthMessage::AuthOk { ha_version: v.clone() }),
            _ => Err(DecodeError { frame: crate::json::json_clone(j) }),
        }
    } else if *t == String::from_str("auth_invalid") {
        match lookup_field(fields, &String::from_str("message")) {
            Some(Json::Str(v)) => Ok(AuthMessage::AuthInvalid { message: v.clone() }),
            _ => Err(DecodeError { frame: crate::json::json_clone(j) }),
        }
    } else {
        Err(DecodeError { frame: crate::json::json_clone(j) })
    }
}

/// The wire shape of an encoded enveloped request: an object carrying the
/// correlation id, the request discriminant, and the request's fields.
pub open spec fn encodes_request(j: Json, w: HassWrapper<HassRequest>) -> bool {
    match j {
        Json::Obj(fields) => {
            &&& spec_lookup(fields@, "id"@) == Some(Json::Int(w.id as i64))
            &&& match w.data {
                HassRequest::SubscribeEvents { event_type } => {
                    &&& (spec_lookup(fields@, "type"@) matches Some(Json::Str(t)) && t@
                        == "subscribe_events"@)
                    &&& match event_type {
                        Some(et) => spec_lookup(fields@, "event_type"@) matches Some(
                            Json::Str(e),
                        ) && e@ == et@,
                        None => spec_lookup(fields@, "event_type"@) is None,
                    }
                },
                HassRequest::GetStates => spec_lookup(fields@, "type"@) matches Some(
                    Json::Str(t),
                ) && t@ == "get_states"@,
            }
        },
        _ => false,
    }
}

/// Encodes an enveloped request into its wire object.
pub fn encode_request(w: &HassWrapper<HassRequest>) -> (j: Json)
    ensures
        encodes_request(j, *w),
{
    let mut fields: Vec<(String, Json)> = Vec::new();
    fields.push((String::from_str("id"), Json::Int(w.id as i64)));
    match &w.data {
        HassRequest::SubscribeEvents { event_type } => {
            fields.push(
                (String::from_str("type"), Json::Str(String::from_str("subscribe_events"))),
            );
            match event_type {
                Some(et) => {
                    fields.push((String::from_str("event_type"), Json::Str(et.clone())));
                },
                None => {},
            }
        },
        HassRequest::GetStates => {
            fields.push((String::from_str("type"), Json::Str(String::from_str("get_states"))));
        },
    }
    proof {
        reveal_strlit("id");
        reveal_strlit("type");
        reveal_strlit("event_type");
        assert("id"@.len() == 2 && "type"@.len() == 4 && "event_type"@.len() == 10);
        assert("id"@ != "type"@ && "id"@ != "event_type"@ && "type"@ != "event_type"@);
        let f = fields@;
        let f1 = f.subrange(1, f.len() as int);
        assert(f1[0] == f[1]);
        assert(spec_lookup(f, "id"@) == Some(f[0].1));
        assert(spec_lookup(f, "type"@) == spec_lookup(f1, "type"@));
        assert(spec_lookup(f1, "type"@) == Some(f[1].1));
        assert(spec_lookup(f, "event_type"@) == spec_lookup(f1, "event_type"@));
        if f.len() == 3 {
            let f2 = f1.subrange(1, f1.len() as int);
            assert(f2[0] == f[2]);
            assert(spec_lookup(f1, "event_type"@) == spec_lookup(f2, "event_type"@));
            assert(spec_lookup(f2, "event_type"@) == Some(f[2].1));
        } else {
            let f2 = f1.subrange(1, f1.len() as int);
            assert(f2.len() == 0);
            assert(spec_lookup(f1, "event_type"@) == spec_lookup(f2, "event_type"@));
            assert(spec_lookup(f2, "event_type"@) is None);
        }
    }
    Json::Obj(fields)
}

/// The wire shape of an encoded authentication message: an object carrying
/// the discriminant and the variant's one text field.
pub open spec fn encodes_auth(j: Json, m: AuthMessage) -> bool {
    match j {
        Json::Obj(fields) => match m {
            AuthMessage::AuthRequired { ha_version } => {
                &&& (spec_lookup(fields@, "type"@) matches Some(Json::Str(t)) && t@
                    == "auth_required"@)
                &&& (spec_lookup(fields@, "ha_version"@) matches Some(Json::Str(v)) && v@
                    == ha_version@)
            },
            AuthMessage::Auth { access_token } => {
                &&& (spec_lookup(fields@, "type"@) matches Some(Json::Str(t)) && t@ == "auth"@)
                &&& (spec_lookup(fields@, "access_token"@) matches Some(Json::Str(v)) && v@
                    == access_token@)
            },
            AuthMessage::AuthOk { ha_version } => {
                &&& (spec_lookup(fields@, "type"@) matches Some(Json::Str(t)) && t@ == "auth_ok"@)
                &&& (spec_lookup(fields@, "ha_version"@) matches Some(Json::Str(v)) && v@
                    == ha_version@)
            },
            AuthMessage::AuthInvalid { message } => {
                &&& (spec_lookup(fields@, "type"@) matches Some(Json::Str(t)) && t@
                    == "auth_invalid"@)
                &&& (spec_lookup(fields@, "message"@) matches Some(Json::Str(v)) && v@
                    == message@)
            },
        },
        _ => false,
    }
}

/// Encodes an authentication message into its wire object.
pub fn encode_auth(m: &AuthMessage) -> (j: Json)
    ensures
        encodes_auth(j, *m),
{
    let mut fields: Vec<(String, Json)> = Vec::new();
    match m {
        AuthMessage::AuthRequired { ha_version } => {
            fields.push((String::from_str("type"), Json::Str(String::from_str("auth_required"))));
            fields.push((String::from_str("ha_version"), Json::Str(ha_version.clone())));
        },
        AuthMessage::Auth { access_token } => {
            fields.push((String::from_str("type"), Json::Str(String::from_str("auth"))));
            fields.push((String::from_str("access_token"), Json::Str(access_token.clone())));
        },
        AuthMessage::AuthOk { ha_version } => {
            fields.push((String::from_str("type"), Json::Str(String::from_str("auth_ok"))));
            fields.push((String::from_str("ha_version"), Json::Str(ha_version.clone())));
        },
        AuthMessage::AuthInvalid { message } => {
            fields.push((String::from_str("type"), Json::Str(String::from_str("auth_invalid"))));
            fields.push((String::from_str("message"), Json::Str(message.clone())));
        },
    }
    proof {
        reveal_strlit("type");
        reveal_strlit("ha_version");
        reveal_strlit("access_token");
        reveal_strlit("message");
        assert("type"@.len() == 4 && "ha_version"@.len() == 10 && "access_token"@.len() == 12
            && "message"@.len() == 7);
        let f = fields@;
        let f1 = f.subrange(1, f.len() as int);
        assert(f1[0] == f[1]);
        assert(spec_lookup(f, "type"@) == Some(f[0].1));
        assert(spec_lookup(f1, f[1].0@) == Some(f[1].1));
        assert(spec_lookup(f, f[1].0@) == spec_lookup(f1, f[1].0@));
    }
    Json::Obj(fields)
}

/// The error of unwrapping a correlated result envelope.
#[derive(Debug)]
pub enum ApiError {
    RequestFailed { result: Json },
    UnexpectedResponse,
}

impl HassWrapper<HassResponse> {
    /// Unwraps a correlated result envelope: the carried value on success,
    /// the carried value as an error on failure, and an error for a
    /// non-result payload.
    pub fn into_result(self) -> (r: Result<Json, ApiError>)
        ensures
            match self.data {
                HassResponse::Result { success, result } => if success {
                    r == Ok::<Json, ApiError>(result)
                } else {
                    r matches Err(ApiError::RequestFailed { result: rr }) && rr == result
                },
                HassResponse::Event { .. } => r matches Err(ApiError::UnexpectedResponse),
            },
    {
        match self.data {
            HassResponse::Result { success, result } => if success {
                Ok(result)
            } else {
                Err(ApiError::RequestFailed { result })
            },
            HassResponse::Event { .. } => Err(ApiError::UnexpectedResponse),
        }
    }
}

/// Law: decoding a response recovers, as the envelope's id, exactly the id
/// the encoder wrote into the request, whenever the server echoes the
/// request's id field back.
pub proof fn lemma_encode_decode_id(
    w: HassWrapper<HassRequest>,
    j: Json,
    reply: Json,
    m: HassWrapper<HassResponse>,
)
    requires
        encodes_request(j, w),
        spec_decode_response(reply) == Some(m),
        spec_frame_id(reply) == spec_frame_id(j),
    ensures
        m.id == w.id,
{
    assert(spec_frame_id(j) == Some(w.id));
}

/// Law: ids strictly increase across successive encodes from one counter;
/// the requires restate what enveloping two requests in a row establishes.
pub proof fn lemma_ids_strictly_increase(
    g0: IdGen,
    g1: IdGen,
    g2: IdGen,
    w1: HassWrapper<HassRequest>,
    w2: HassWrapper<HassRequest>,
)
    requires
        w1.id == g0.next,
        g1.next == g0.next + 1,
        w2.id == g1.next,
        g2.next == g1.next + 1,
    ensures
        w2.id > w1.id,
{
}

} // verus!
