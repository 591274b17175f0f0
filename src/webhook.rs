//! Authentication of inbound webhook calls and the reply owed to each.
use vstd::prelude::*;

verus! {

/// HTTP status of an accepted call.
pub const STATUS_OK: u16 = 200;

/// HTTP status of a call that is turned away.
pub const STATUS_BAD_REQUEST: u16 = 400;

/// A message event of the chat platform.
pub struct Event {
    pub channel: String,
    pub user: String,
    pub text: String,
}

/// The body of a webhook call.
pub struct EventRequest {
    pub token: String,
    pub challenge: Option<String>,
    pub event: Option<Event>,
}

/// Settings fixed at start-up and shared by every call.
pub struct AppState {
    /// The secret that every webhook call must carry.
    pub verification_token: String,
    /// The token with which the bot posts messages.
    pub bot_user_oauth_token: String,
    /// The bot's own user id, whose messages trigger nothing.
    pub bot_user: String,
    /// The region whose listings are watched.
    pub tdfk: String,
}

/// The reply to a webhook call: `{ok, challenge?}` under an HTTP status.
pub struct Reply {
    pub status: u16,
    pub ok: bool,
    pub challenge: Option<String>,
}

impl Reply {
    /// The acknowledgement of an accepted message event.
    pub fn ack() -> (r: Reply)
        ensures
            r.status == STATUS_OK,
            r.ok,
            r.challenge is None,
    {
        Reply { status: STATUS_OK, ok: true, challenge: None }
    }

    /// The reply to a call whose token is wrong.
    pub fn rejected() -> (r: Reply)
        ensures
            r.status == STATUS_BAD_REQUEST,
            !r.ok,
            r.challenge is None,
    {
        Reply { status: STATUS_BAD_REQUEST, ok: false, challenge: None }
    }
}

impl Event {
    /// Checks the call's token and extracts its event. A call without an
    /// event is a handshake, answered at once with its challenge; a call
    /// with a wrong token is refused. Either way the reply comes back as
    /// the error, to be sent as it is.
    pub fn from_request(req: EventRequest, state: &AppState) -> (r: Result<Event, Reply>)
        ensures
            req.token@ != state.verification_token@ ==> (r matches Err(reply) && reply.status
                == STATUS_BAD_REQUEST && !reply.ok && reply.challenge is None),
            req.token@ == state.verification_token@ && req.event is Some ==> r == Ok::<
                Event,
                Reply,
            >(req.event.unwrap()),
            req.token@ == state.verification_token@ && req.event is None ==> (r matches Err(
                reply,
            ) && reply.status == STATUS_OK && reply.ok && reply.challenge == req.challenge),
    {
        if req.token != state.verification_token {
            Err(Reply::rejected())
        } else {
            match req.event {
                Some(event) => Ok(event),
                None => Err(Reply { status: STATUS_OK, ok: true, challenge: req.challenge }),
            }
        }
    }
}

/// What to do with a webhook call: the reply to send at once, and the event
/// whose workflow to start in the background, if any.
pub struct Dispatch {
    pub reply: Reply,
    pub task: Option<Event>,
}

/// Decides on a webhook call. A message event with the right token is
/// acknowledged and handed on; a handshake or a refused call is answered
/// and starts nothing.
pub fn dispatch(req: EventRequest, state: &AppState) -> (r: Dispatch)
    ensures
        req.token@ != state.verification_token@ ==> r.reply.status == STATUS_BAD_REQUEST
            && !r.reply.ok && r.reply.challenge is None && r.task is None,
        req.token@ == state.verification_token@ && req.event is None ==> r.reply.status
            == STATUS_OK && r.reply.ok && r.reply.challenge == req.challenge && r.task is None,
        req.token@ == state.verification_token@ && req.event is Some ==> r.reply.status
            == STATUS_OK && r.reply.ok && r.reply.challenge is None && r.task == req.event,
{
    match Event::from_request(req, state) {
        Ok(event) => Dispatch { reply: Reply::ack(), task: Some(event) },
        Err(reply) => Dispatch { reply, task: None },
    }
}

} // verus!
