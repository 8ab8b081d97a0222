//! The authentication/subscription handshake, as a state machine.
//!
//! The driver owning the connection feeds each inbound frame to
//! [`HandshakeMachine::step`] and performs the action it returns. The
//! machine expects the hub's greeting (leniently: any authentication-phase
//! message will do), answers with the bearer token, takes the
//! authentication verdict (an invalid-token verdict is noted but does not
//! abort), subscribes to remote-command events, and completes only when the
//! subscription's result envelope reports success. A frame that does not
//! decode, and a failed or ill-typed subscription result, abort the
//! handshake.

use crate::api::{
    spec_decode_auth, spec_decode_response, AuthMessage, HassRequest, HassResponse, HassWrapper,
    IdGen,
};
use crate::json::Json;
use vstd::prelude::*;
use vstd::string::StringExecFns;

verus! {

/// Where the handshake stands.
#[derive(Debug)]
pub enum HsState {
    AwaitAuthRequired,
    AwaitAuthResult,
    AwaitSubscribeResult,
    Subscribed,
    Failed,
}

/// Why the handshake aborted.
#[derive(Debug)]
pub enum HsError {
    /// A frame of the handshake did not decode.
    BadFrame,
    /// The subscription's result envelope reported failure.
    SubscribeFailed,
    /// The subscription was answered by a non-result payload.
    UnexpectedResponse,
}

/// What the driver must do after a step.
#[derive(Debug)]
pub enum HsAction {
    /// Send this authentication message.
    SendAuth(AuthMessage),
    /// Send this enveloped subscription request.
    SendSubscribe(HassWrapper<HassRequest>),
    /// The handshake is complete; domain events follow.
    Complete,
    /// The handshake failed; drop the connection.
    Abort(HsError),
}

/// The frame fed to a step, as the specification sees it (nothing stands
/// for a frame that could not be read as text).
pub open spec fn spec_frame(frame: Option<&Json>) -> Option<Json> {
    match frame {
        Some(j) => Some(*j),
        None => None,
    }
}

/// The state after one step: which frame moves the handshake forward, and
/// which frame fails it.
pub open spec fn hs_transition(s: HsState, frame: Option<Json>) -> HsState {
    match s {
        HsState::AwaitAuthRequired => match frame {
            Some(j) => if spec_decode_auth(j) is Some {
                HsState::AwaitAuthResult
            } else {
                HsState::Failed
            },
            None => HsState::Failed,
        },
        HsState::AwaitAuthResult => match frame {
            Some(j) => if spec_decode_auth(j) is Some {
                HsState::AwaitSubscribeResult
            } else {
                HsState::Failed
            },
            None => HsState::Failed,
        },
        HsState::AwaitSubscribeResult => match frame {
            Some(j) => match spec_decode_response(j) {
                Some(w) => match w.data {
                    HassResponse::Result { success, .. } => if success {
                        HsState::Subscribed
                    } else {
                        HsState::Failed
                    },
                    _ => HsState::Failed,
                },
                None => HsState::Failed,
            },
            None => HsState::Failed,
        },
        _ => s,
    }
}

/// The handshake controller of one connection: its position in the
/// handshake and the bearer token it authenticates with.
#[derive(Debug)]
pub struct HandshakeMachine {
    pub state: HsState,
    pub token: String,
}

impl HandshakeMachine {
    /// A fresh handshake, waiting for the hub's greeting.
    pub fn new(token: String) -> (r: HandshakeMachine)
        ensures
            r.state == HsState::AwaitAuthRequired,
            r.token@ == token@,
    {
        HandshakeMachine { state: HsState::AwaitAuthRequired, token }
    }

    /// Feeds one inbound frame (nothing: the frame could not be read as
    /// text) and returns what the driver must do next. The new state
    /// follows [`hs_transition`]; the returned action carries the message
    /// to send, when one is owed.
    pub fn step(&mut self, frame: Option<&Json>, ids: &mut IdGen) -> (act: HsAction)
        requires
            !(old(self).state is Subscribed),
            !(old(self).state is Failed),
            old(ids).next < i32::MAX,
        ensures
            final(self).token@ == old(self).token@,
            final(self).state == hs_transition(old(self).state, spec_frame(frame)),
            match old(self).state {
                HsState::AwaitAuthRequired => *final(ids) == *old(ids) && if final(self).state
                    is AwaitAuthResult {
                    act matches HsAction::SendAuth(m) && (m matches AuthMessage::Auth {
                        access_token,
                    } && access_token@ == old(self).token@)
                } else {
                    act == HsAction::Abort(HsError::BadFrame)
                },
                HsState::AwaitAuthResult => if final(self).state is AwaitSubscribeResult {
                    &&& final(ids).next == old(ids).next + 1
                    &&& act matches HsAction::SendSubscribe(w) && w.id == old(ids).next && (
                    w.data matches HassRequest::SubscribeEvents { event_type } && (
                    event_type matches Some(et) && et@ == "zha_event"@))
                } else {
                    *final(ids) == *old(ids) && act == HsAction::Abort(HsError::BadFrame)
                },
                HsState::AwaitSubscribeResult => *final(ids) == *old(ids) && match spec_frame(
                    frame,
                ) {
                    Some(j) => match spec_decode_response(j) {
                        Some(w) => match w.data {
                            HassResponse::Result { success, .. } => if success {
                                act == HsAction::Complete
                            } else {
                                act == HsAction::Abort(HsError::SubscribeFailed)
                            },
                            _ => act == HsAction::Abort(HsError::UnexpectedResponse),
                        },
                        None => act == HsAction::Abort(HsError::BadFrame),
                    },
                    None => act == HsAction::Abort(HsError::BadFrame),
                },
                _ => true,
            },
    {
        match self.state {
            HsState::AwaitAuthRequired => match frame {
                Some(j) => match crate::api::decode_auth(j) {
                    Ok(_) => {
                        self.state = HsState::AwaitAuthResult;
                        HsAction::SendAuth(
                            AuthMessage::Auth { access_token: self.token.clone() },
                        )
                    },
                    Err(_) => {
                        self.state = HsState::Failed;
                        HsAction::Abort(HsError::BadFrame)
                    },
                },
                None => {
                    self.state = HsState::Failed;
                    HsAction::Abort(HsError::BadFrame)
                },
            },
            HsState::AwaitAuthResult => match frame {
                Some(j) => match crate::api::decode_auth(j) {
                    Ok(_) => {
                        self.state = HsState::AwaitSubscribeResult;
                        let req = HassRequest::SubscribeEvents {
                            event_type: Some(String::from_str("zha_event")),
                        };
                        HsAction::SendSubscribe(HassWrapper::<HassRequest>::new(req, ids))
                    },
                    Err(_) => {
                        self.state = HsState::Failed;
                        HsAction::Abort(HsError::BadFrame)
                    },
                },
                None => {
                    self.state = HsState::Failed;
                    HsAction::Abort(HsError::BadFrame)
                },
            },
            HsState::AwaitSubscribeResult => match frame {
                Some(j) => match crate::api::decode_response(j) {
                    Ok(w) => match w.data {
                        HassResponse::Result { success, .. } => if success {
                            self.state = HsState::Subscribed;
                            HsAction::Complete
                        } else {
                            self.state = HsState::Failed;
                            HsAction::Abort(HsError::SubscribeFailed)
                        },
                        _ => {
                            self.state = HsState::Failed;
                            HsAction::Abort(HsError::UnexpectedResponse)
                        },
                    },
                    Err(_) => {
                        self.state = HsState::Failed;
                        HsAction::Abort(HsError::BadFrame)
                    },
                },
                None => {
                    self.state = HsState::Failed;
                    HsAction::Abort(HsError::BadFrame)
                },
            },
            _ => HsAction::Abort(HsError::BadFrame),
        }
    }
}

/// Law: a result envelope reporting failure, fed to the subscription step,
/// fails the handshake; one reporting success completes it.
pub proof fn lemma_subscribe_result_decides(j: Json, w: HassWrapper<HassResponse>)
    requires
        spec_decode_response(j) == Some(w),
    ensures
        (w.data matches HassResponse::Result { success: false, .. }) ==> hs_transition(
            HsState::AwaitSubscribeResult,
            Some(j),
        ) == HsState::Failed,
        (w.data matches HassResponse::Result { success: true, .. }) ==> hs_transition(
            HsState::AwaitSubscribeResult,
            Some(j),
        ) == HsState::Subscribed,
{
}

/// Law: an invalid-token verdict does not abort the handshake; the machine
/// proceeds to subscribe all the same.
pub proof fn lemma_auth_invalid_continues(j: Json, m: AuthMessage)
    requires
        spec_decode_auth(j) == Some(m),
        m matches AuthMessage::AuthInvalid { .. },
    ensures
        hs_transition(HsState::AwaitAuthResult, Some(j)) == HsState::AwaitSubscribeResult,
{
}

} // verus!
