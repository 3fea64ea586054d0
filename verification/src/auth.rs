//! The authenticated API client: interpretation of the login response, the
//! textual encoding of a bearer credential, and the bounded re-authentication
//! policy applied to every authenticated call.
//!
//! The policy is a small state machine, `AuthFlow`, driven by the caller: it
//! starts by consulting the credential cache, logs in when the cache is
//! empty, sends the request, and on a rejected credential (unauthorized or
//! bad request) performs exactly one re-login followed by exactly one retry.
//! A second rejection is fatal. The surrounding application performs the
//! cache reads, logins and sends that the returned actions name, and feeds
//! each outcome back as an event.

use vstd::prelude::*;
use vstd::string::StringExecFns;
use crate::error::ApiError;

verus! {

/// A bearer credential: the token and its type, presented on requests in the
/// textual encoding `<type> <token>`.
pub struct Credential {
    pub token_type: String,
    pub access_token: String,
}

impl Credential {
    /// The textual encoding `<type> <token>`.
    pub open spec fn encoding(&self) -> Seq<char> {
        self.token_type@ + " "@ + self.access_token@
    }

    /// Builds the textual encoding `<type> <token>`.
    pub fn encode(&self) -> (r: String)
        ensures
            r@ == self.encoding(),
    {
        let mut r = self.token_type.clone();
        r.append(" ");
        r.append(self.access_token.as_str());
        r
    }
}

/// The parsed body of a login response: the service-level code and the two
/// parts of the issued credential.
pub struct AuthPayload {
    pub code: i32,
    pub token_type: String,
    pub access_token: String,
}

/// Exactly what `login` returns for every input: a credential if and only if
/// the response was a 200 with service code 0, and otherwise the error that
/// names what went wrong.
pub open spec fn login_post(
    status: u16,
    body: String,
    payload: Option<AuthPayload>,
    r: Result<Credential, ApiError>,
) -> bool {
    match r {
        Ok(c) => {
            &&& status == 200
            &&& payload matches Some(p) && p.code == 0 && c.token_type == p.token_type
                && c.access_token == p.access_token
        },
        Err(e) => match e {
            ApiError::Unexpected { status: st, body: b } => {
                &&& status != 200
                &&& st == status
                &&& b == body
            },
            ApiError::MalformedResponse => {
                &&& status == 200
                &&& payload is None
            },
            ApiError::ServiceRefused { code } => {
                &&& status == 200
                &&& payload matches Some(p) && p.code == code && code != 0
            },
            _ => false,
        },
    }
}

/// Interprets a login response. `status` is the HTTP status, `body` the raw
/// response text, and `payload` its parsed form where parsing succeeded.
/// Succeeds exactly on a 200 response whose service-level code is zero, and
/// then returns the issued credential unchanged.
pub fn login(status: u16, body: String, payload: Option<AuthPayload>) -> (r: Result<
    Credential,
    ApiError,
>)
    ensures
        login_post(status, body, payload, r),
{
    if status != 200 {
        return Err(ApiError::Unexpected { status, body });
    }
    match payload {
        None => Err(ApiError::MalformedResponse),
        Some(p) => {
            if p.code != 0 {
                Err(ApiError::ServiceRefused { code: p.code })
            } else {
                Ok(Credential { token_type: p.token_type, access_token: p.access_token })
            }
        },
    }
}

/// The result of a login is a function of the response alone: any two results
/// that meet `login_post` for the same response are equal. In particular a
/// second login with the same response depends in no way on the first.
pub proof fn lemma_login_deterministic(
    status: u16,
    body: String,
    payload: Option<AuthPayload>,
    r1: Result<Credential, ApiError>,
    r2: Result<Credential, ApiError>,
)
    requires
        login_post(status, body, payload, r1),
        login_post(status, body, payload, r2),
    ensures
        r1 == r2,
{
}

/// Where one logical authenticated call stands: consulting the cache, logging
/// in (initially or as the single retry), awaiting the response to a send, or
/// finished.
#[derive(PartialEq, Eq, Structural, Clone, Copy, Debug)]
pub enum AuthPhase {
    AwaitingCache,
    LoggingIn { retry: bool },
    AwaitingResponse { retry: bool },
    Complete,
}

/// What the outside world reported back to the flow.
pub enum AuthEvent {
    CacheHit { authorization: String },
    CacheMiss,
    LoginSucceeded { credential: Credential },
    LoginFailed { error: ApiError },
    ResponseReceived { status: u16, body: String },
    SendFailed { detail: String },
}

/// What the flow asks the outside world to do next.
pub enum AuthAction {
    Login,
    Send { authorization: String, persist: bool },
    Succeed { body: String },
    Fail { error: ApiError },
}

/// One logical authenticated call with its bounded re-authentication policy.
/// The counters record how many sends, logins, and re-logins (logins caused
/// by a rejected credential) have occurred within this call.
pub struct AuthFlow {
    pub phase: AuthPhase,
    pub sends: u32,
    pub logins: u32,
    pub relogins: u32,
}

/// Which events can answer the pending action of each phase.
pub open spec fn auth_event_fits(phase: AuthPhase, event: AuthEvent) -> bool {
    match phase {
        AuthPhase::AwaitingCache => event is CacheHit || event is CacheMiss,
        AuthPhase::LoggingIn { .. } => event is LoginSucceeded || event is LoginFailed,
        AuthPhase::AwaitingResponse { .. } => event is ResponseReceived || event is SendFailed,
        AuthPhase::Complete => false,
    }
}

/// The full transition table of one logical authenticated call.
pub open spec fn auth_step_post(
    pre: AuthFlow,
    event: AuthEvent,
    post: AuthFlow,
    action: AuthAction,
) -> bool {
    match (pre.phase, event) {
        (AuthPhase::AwaitingCache, AuthEvent::CacheHit { authorization }) => {
            &&& post.phase == (AuthPhase::AwaitingResponse { retry: false })
            &&& post.sends == pre.sends + 1
            &&& post.logins == pre.logins
            &&& post.relogins == pre.relogins
            &&& action == (AuthAction::Send { authorization, persist: false })
        },
        (AuthPhase::AwaitingCache, AuthEvent::CacheMiss) => {
            &&& post.phase == (AuthPhase::LoggingIn { retry: false })
            &&& post.sends == pre.sends
            &&& post.logins == pre.logins + 1
            &&& post.relogins == pre.relogins
            &&& action == AuthAction::Login
        },
        (AuthPhase::LoggingIn { retry }, AuthEvent::LoginSucceeded { credential }) => {
            &&& post.phase == (AuthPhase::AwaitingResponse { retry })
            &&& post.sends == pre.sends + 1
            &&& post.logins == pre.logins
            &&& post.relogins == pre.relogins
            &&& action matches AuthAction::Send { authorization, persist }
            &&& action->Send_authorization@ == credential.encoding()
            &&& action->Send_persist == true
        },
        (AuthPhase::LoggingIn { .. }, AuthEvent::LoginFailed { error }) => {
            &&& post.phase == AuthPhase::Complete
            &&& post.sends == pre.sends
            &&& post.logins == pre.logins
            &&& post.relogins == pre.relogins
            &&& action == (AuthAction::Fail { error })
        },
        (AuthPhase::AwaitingResponse { retry }, AuthEvent::ResponseReceived { status, body }) => {
            if status == 200 {
                &&& post.phase == AuthPhase::Complete
                &&& post.sends == pre.sends
                &&& post.logins == pre.logins
                &&& post.relogins == pre.relogins
                &&& action == (AuthAction::Succeed { body })
            } else if status == 401 || status == 400 {
                if !retry {
                    &&& post.phase == (AuthPhase::LoggingIn { retry: true })
                    &&& post.sends == pre.sends
                    &&& post.logins == pre.logins + 1
                    &&& post.relogins == pre.relogins + 1
                    &&& action == AuthAction::Login
                } else {
                    &&& post.phase == AuthPhase::Complete
                    &&& post.sends == pre.sends
                    &&& post.logins == pre.logins
                    &&& post.relogins == pre.relogins
                    &&& action == (AuthAction::Fail { error: ApiError::AuthenticationFailed })
                }
            } else {
                &&& post.phase == AuthPhase::Complete
                &&& post.sends == pre.sends
                &&& post.logins == pre.logins
                &&& post.relogins == pre.relogins
                &&& action == (AuthAction::Fail { error: ApiError::Unexpected { status, body } })
            }
        },
        (AuthPhase::AwaitingResponse { .. }, AuthEvent::SendFailed { detail }) => {
            &&& post.phase == AuthPhase::Complete
            &&& post.sends == pre.sends
            &&& post.logins == pre.logins
            &&& post.relogins == pre.relogins
            &&& action == (AuthAction::Fail { error: ApiError::Transport { detail } })
        },
        _ => false,
    }
}

impl AuthFlow {
    /// The phase pins the counters exactly: a first send can be in flight
    /// only with no re-login behind it, a retried send only with exactly one.
    pub open spec fn inv(&self) -> bool {
        &&& self.relogins <= 1
        &&& self.logins <= self.relogins + 1
        &&& self.sends <= 2
        &&& match self.phase {
            AuthPhase::AwaitingCache => self.sends == 0 && self.logins == 0 && self.relogins
                == 0,
            AuthPhase::LoggingIn { retry } => if retry {
                self.sends == 1 && self.relogins == 1
            } else {
                self.sends == 0 && self.logins == 1 && self.relogins == 0
            },
            AuthPhase::AwaitingResponse { retry } => if retry {
                self.sends == 2 && self.relogins == 1
            } else {
                self.sends == 1 && self.relogins == 0
            },
            AuthPhase::Complete => true,
        }
    }

    /// A fresh flow for one logical call: nothing sent yet, cache about to be
    /// consulted.
    pub fn new() -> (f: AuthFlow)
        ensures
            f.inv(),
            f.phase == AuthPhase::AwaitingCache,
            f.sends == 0 && f.logins == 0 && f.relogins == 0,
    {
        AuthFlow { phase: AuthPhase::AwaitingCache, sends: 0, logins: 0, relogins: 0 }
    }

    /// Feeds one outcome to the flow and returns what to do next, exactly as
    /// `auth_step_post` describes.
    pub fn step(&mut self, event: AuthEvent) -> (action: AuthAction)
        requires
            old(self).inv(),
            auth_event_fits(old(self).phase, event),
        ensures
            final(self).inv(),
            auth_step_post(*old(self), event, *final(self), action),
    {
        match self.phase {
            AuthPhase::AwaitingCache => {
                match event {
                    AuthEvent::CacheHit { authorization } => {
                        self.phase = AuthPhase::AwaitingResponse { retry: false };
                        self.sends = self.sends + 1;
                        AuthAction::Send { authorization, persist: false }
                    },
                    AuthEvent::CacheMiss => {
                        self.phase = AuthPhase::LoggingIn { retry: false };
                        self.logins = self.logins + 1;
                        AuthAction::Login
                    },
                    _ => vstd::pervasive::unreached(),
                }
            },
            AuthPhase::LoggingIn { retry } => {
                match event {
                    AuthEvent::LoginSucceeded { credential } => {
                        self.phase = AuthPhase::AwaitingResponse { retry };
                        self.sends = self.sends + 1;
                        AuthAction::Send { authorization: credential.encode(), persist: true }
                    },
                    AuthEvent::LoginFailed { error } => {
                        self.phase = AuthPhase::Complete;
                        AuthAction::Fail { error }
                    },
                    _ => vstd::pervasive::unreached(),
                }
            },
            AuthPhase::AwaitingResponse { retry } => {
                match event {
                    AuthEvent::ResponseReceived { status, body } => {
                        if status == 200 {
                            self.phase = AuthPhase::Complete;
                            AuthAction::Succeed { body }
                        } else if status == 401 || status == 400 {
                            if !retry {
                                self.phase = AuthPhase::LoggingIn { retry: true };
                                self.logins = self.logins + 1;
                                self.relogins = self.relogins + 1;
                                AuthAction::Login
                            } else {
                                self.phase = AuthPhase::Complete;
                                AuthAction::Fail { error: ApiError::AuthenticationFailed }
                            }
                        } else {
                            self.phase = AuthPhase::Complete;
                            AuthAction::Fail { error: ApiError::Unexpected { status, body } }
                        }
                    },
                    AuthEvent::SendFailed { detail } => {
                        self.phase = AuthPhase::Complete;
                        AuthAction::Fail { error: ApiError::Transport { detail } }
                    },
                    _ => vstd::pervasive::unreached(),
                }
            },
            AuthPhase::Complete => vstd::pervasive::unreached(),
        }
    }
}

/// Per logical call, no more than two requests are ever sent and no more than
/// one re-login ever occurs; while the single retry is in flight, exactly one
/// re-login has happened. A permanently rejected credential therefore cannot
/// cause unbounded retries.
pub proof fn lemma_bounded_reauthentication(f: AuthFlow)
    requires
        f.inv(),
    ensures
        f.sends <= 2,
        f.relogins <= 1,
        f.logins <= 2,
        f.phase == (AuthPhase::AwaitingResponse { retry: true }) ==> f.relogins == 1 && f.sends
            == 2,
{
}

} // verus!
