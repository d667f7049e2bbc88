//! The sign-in with a mailed code: the code is checked, then the user's
//! session is found or opened. The caller performs each action and hands back
//! what came of it; the sign-in decides the next action.

use vstd::prelude::*;
use crate::access::session_ttl_days;
use crate::clock::{add_span, later_by, now_micros, MAX_CLOCK_MICROS, MICROS_PER_DAY};
use crate::errors::{status_of, AppError};
use crate::generator::{new_uuid_token, uuid_shape};
use crate::models::{verify_code_request_errors, NewUserVerifyResponse, VerifyCodeRequest};
use crate::register::ttl_days_of;
use crate::text::text_of;
use crate::validation::{json_object_of_lists, message_lists, validation_errors_to_response};

verus! {

/// Where a sign-in stands.
#[derive(Debug, Clone, Copy, PartialEq, Eq, Structural)]
pub enum LoginPhase {
    /// Waiting for the code to be checked against the store.
    Code,
    /// Waiting for the user with the address.
    User,
    /// Waiting for the user's session token.
    Token,
    /// Waiting for a new session token to be stored.
    Storing,
    /// Finished.
    Done,
}

/// What came of the last action.
#[derive(Debug)]
pub enum LoginEvent {
    /// Whether the store accepted (and used up) the code.
    CodeChecked(bool),
    /// The id of the user with the address, if there is one.
    UserFound(Option<i64>),
    /// The user lookup failed.
    UserLookupFailed,
    /// The user's session token, if there is one.
    TokenFound(Option<String>),
    /// The token lookup failed.
    TokenLookupFailed,
    /// Whether the new session token was stored.
    TokenStored(bool),
}

/// What the caller is to do next.
#[derive(Debug)]
pub enum LoginAction {
    /// Check the code for the address against the store (which uses it up).
    VerifyCode { email: String, code: String },
    /// Look for the user with the address.
    FindUser(String),
    /// Look for the user's session token.
    FindToken(i64),
    /// Store a new session token for the user, valid until `expires_at`.
    StoreToken { user_id: i64, token: String, expires_at: i64 },
    /// Answer that the address belongs to no user yet.
    RespondNewUser,
    /// Answer with the user's session.
    RespondSession(NewUserVerifyResponse),
    /// Answer with the error.
    Fail(AppError),
}

/// The HTTP status an answering action is sent with: 201 where the address
/// belongs to no user yet, 200 with a session, the error's own status for a
/// failure; `None` for an action that is no answer.
pub open spec fn login_answer_status(a: LoginAction) -> Option<u16> {
    match a {
        LoginAction::RespondNewUser => Some(201u16),
        LoginAction::RespondSession(_) => Some(200u16),
        LoginAction::Fail(e) => Some(status_of(e)),
        _ => None,
    }
}

impl LoginAction {
    /// The HTTP status this action is answered with, if it is an answer.
    pub fn response_status(&self) -> (r: Option<u16>)
        ensures
            r == login_answer_status(*self),
    {
        match self {
            LoginAction::RespondNewUser => Some(201),
            LoginAction::RespondSession(_) => Some(200),
            LoginAction::Fail(e) => Some(e.status_code()),
            _ => None,
        }
    }
}

/// A sign-in under way.
#[derive(Debug)]
pub struct CodeLogin {
    pub phase: LoginPhase,
    pub email: String,
    pub ttl_days: i64,
    pub user_id: i64,
    pub token: String,
}

/// Whether an event answers the action of a phase.
pub open spec fn login_expects(p: LoginPhase, e: LoginEvent) -> bool {
    match p {
        LoginPhase::Code => e is CodeChecked,
        LoginPhase::User => e is UserFound || e is UserLookupFailed,
        LoginPhase::Token => e is TokenFound || e is TokenLookupFailed,
        LoginPhase::Storing => e is TokenStored,
        LoginPhase::Done => false,
    }
}

/// The phase a sign-in moves to on an event it expects.
pub open spec fn login_next(p: LoginPhase, e: LoginEvent) -> LoginPhase {
    match p {
        LoginPhase::Code => if e == LoginEvent::CodeChecked(true) {
            LoginPhase::User
        } else {
            LoginPhase::Done
        },
        LoginPhase::User => if e matches LoginEvent::UserFound(Some(_)) {
            LoginPhase::Token
        } else {
            LoginPhase::Done
        },
        LoginPhase::Token => if e == LoginEvent::TokenFound(None) {
            LoginPhase::Storing
        } else {
            LoginPhase::Done
        },
        _ => LoginPhase::Done,
    }
}

/// The phase after a run of events from a valid request.
pub open spec fn login_phase_after(es: Seq<LoginEvent>) -> LoginPhase
    decreases es.len(),
{
    if es.len() == 0 {
        LoginPhase::Code
    } else {
        login_next(login_phase_after(es.drop_last()), es.last())
    }
}

/// What one step does: from `before` on the event `e`, with `token` as a
/// new session token and `now` as the time, the sign-in becomes `after` and
/// asks for `a`.
pub open spec fn login_step(
    before: CodeLogin,
    after: CodeLogin,
    e: LoginEvent,
    a: LoginAction,
    token: Seq<char>,
    now: i64,
) -> bool {
    &&& after.phase == login_next(before.phase, e)
    &&& after.email == before.email
    &&& after.ttl_days == before.ttl_days
    &&& (a is StoreToken) <==> after.phase == LoginPhase::Storing
    &&& match before.phase {
        LoginPhase::Code => if e == LoginEvent::CodeChecked(true) {
            a matches LoginAction::FindUser(m) && m@ == before.email@
        } else {
            a matches LoginAction::Fail(AppError::BadRequest(m)) && m@ == "Invalid or expired code"@
        },
        LoginPhase::User => match e {
            LoginEvent::UserFound(Some(id)) => a == LoginAction::FindToken(id) && after.user_id == id,
            LoginEvent::UserFound(None) => a is RespondNewUser,
            _ => (a matches LoginAction::Fail(AppError::Internal(m)) && m@
                == "Database error find user by email"@),
        },
        LoginPhase::Token => match e {
            LoginEvent::TokenFound(Some(t)) => {
                &&& a matches LoginAction::RespondSession(r)
                &&& !r.is_new_user
                &&& r.token@ == t@
                &&& r.user_id == before.user_id
            },
            LoginEvent::TokenFound(None) => {
                &&& a matches LoginAction::StoreToken { user_id, token: t, expires_at }
                &&& user_id == before.user_id
                &&& t@ == token
                &&& expires_at == later_by(now, before.ttl_days, MICROS_PER_DAY)
                &&& after.token@ == token
                &&& after.user_id == before.user_id
            },
            _ => (a matches LoginAction::Fail(AppError::Internal(m)) && m@
                == "Database error find user by token"@),
        },
        LoginPhase::Storing => if e == LoginEvent::TokenStored(true) {
            &&& a matches LoginAction::RespondSession(r)
            &&& !r.is_new_user
            &&& r.token@ == before.token@
            &&& r.user_id == before.user_id
        } else {
            a matches LoginAction::Fail(AppError::Internal(m)) && m@ == "Failed to create session"@
        },
        LoginPhase::Done => false,
    }
}

impl CodeLogin {
    /// Starts a sign-in with `request`; `ttl_setting` is the `TTL_USER_TOKEN`
    /// setting. A request that breaks a field rule fails at once with the
    /// validation errors; otherwise the code is checked first.
    pub fn start(request: VerifyCodeRequest, ttl_setting: &Option<String>) -> (r: (CodeLogin, LoginAction))
        ensures
            r.0.email@ == request.email@,
            r.0.ttl_days == ttl_days_of(*ttl_setting),
            verify_code_request_errors(request).len() == 0 ==> {
                &&& r.0.phase == LoginPhase::Code
                &&& r.1 matches LoginAction::VerifyCode { email, code }
                &&& email@ == request.email@
                &&& code@ == request.code@
            },
            verify_code_request_errors(request).len() > 0 ==> {
                &&& r.0.phase == LoginPhase::Done
                &&& r.1 matches LoginAction::Fail(AppError::BadRequest(m))
                &&& m@ == json_object_of_lists(message_lists(verify_code_request_errors(request)))
            },
    {
        let ttl_days = session_ttl_days(ttl_setting);
        match request.validate() {
            Err(errors) => {
                let e = validation_errors_to_response(errors);
                let login = CodeLogin { phase: LoginPhase::Done, email: request.email, ttl_days, user_id: 0, token: String::new() };
                (login, LoginAction::Fail(e))
            },
            Ok(()) => {
                let email = request.email.clone();
                let login = CodeLogin { phase: LoginPhase::Code, email: request.email, ttl_days, user_id: 0, token: String::new() };
                (login, LoginAction::VerifyCode { email, code: request.code })
            },
        }
    }

    /// Whether the sign-in expects `e` now.
    pub fn expects(&self, e: &LoginEvent) -> (r: bool)
        ensures
            r == login_expects(self.phase, *e),
    {
        match self.phase {
            LoginPhase::Code => matches!(e, LoginEvent::CodeChecked(_)),
            LoginPhase::User => matches!(e, LoginEvent::UserFound(_)) || matches!(e, LoginEvent::UserLookupFailed),
            LoginPhase::Token => matches!(e, LoginEvent::TokenFound(_)) || matches!(e, LoginEvent::TokenLookupFailed),
            LoginPhase::Storing => matches!(e, LoginEvent::TokenStored(_)),
            LoginPhase::Done => false,
        }
    }

    /// Takes what came of the last action and gives the next one, with `token`
    /// as a new session token and `now` as the time. A code that is refused
    /// is "Invalid or expired code"; an address of no user is answered as a
    /// new user; a user with a session gets it back, one without gets a new
    /// one that lasts `ttl_days` days. Failed lookups and stores are internal
    /// errors that name them.
    pub fn step_with(&mut self, e: LoginEvent, token: String, now: i64) -> (a: LoginAction)
        requires
            login_expects(old(self).phase, e),
        ensures
            login_step(*old(self), *final(self), e, a, token@, now),
    {
        match self.phase {
            LoginPhase::Code => {
                if let LoginEvent::CodeChecked(true) = e {
                    self.phase = LoginPhase::User;
                    LoginAction::FindUser(self.email.clone())
                } else {
                    self.phase = LoginPhase::Done;
                    LoginAction::Fail(AppError::BadRequest(text_of("Invalid or expired code")))
                }
            },
            LoginPhase::User => {
                match e {
                    LoginEvent::UserFound(Some(id)) => {
                        self.user_id = id;
                        self.phase = LoginPhase::Token;
                        LoginAction::FindToken(id)
                    },
                    LoginEvent::UserFound(None) => {
                        self.phase = LoginPhase::Done;
                        LoginAction::RespondNewUser
                    },
                    _ => {
                        self.phase = LoginPhase::Done;
                        LoginAction::Fail(AppError::Internal(text_of("Database error find user by email")))
                    },
                }
            },
            LoginPhase::Token => {
                match e {
                    LoginEvent::TokenFound(Some(t)) => {
                        self.phase = LoginPhase::Done;
                        LoginAction::RespondSession(NewUserVerifyResponse { is_new_user: false, token: t, user_id: self.user_id })
                    },
                    LoginEvent::TokenFound(None) => {
                        let expires_at = add_span(now, self.ttl_days, MICROS_PER_DAY);
                        self.token = token.clone();
                        self.phase = LoginPhase::Storing;
                        LoginAction::StoreToken { user_id: self.user_id, token, expires_at }
                    },
                    _ => {
                        self.phase = LoginPhase::Done;
                        LoginAction::Fail(AppError::Internal(text_of("Database error find user by token")))
                    },
                }
            },
            LoginPhase::Storing => {
                self.phase = LoginPhase::Done;
                if let LoginEvent::TokenStored(true) = e {
                    LoginAction::RespondSession(
                        NewUserVerifyResponse { is_new_user: false, token: self.token.clone(), user_id: self.user_id },
                    )
                } else {
                    LoginAction::Fail(AppError::Internal(text_of("Failed to create session")))
                }
            },
            LoginPhase::Done => LoginAction::Fail(AppError::Internal(text_of("Sign-in out of order"))),
        }
    }

    /// `step_with` with a fresh random UUID as the new token and the current
    /// time. The instant is the one
    /// the system clock gives during the call; that clock may be set to any
    /// instant and may go back, so the contract holds for every instant it
    /// can give, and nothing ties it to a reading taken before the call.
    pub fn step(&mut self, e: LoginEvent) -> (a: LoginAction)
        requires
            login_expects(old(self).phase, e),
        ensures
            exists|token: Seq<char>, now: i64|
                0 <= now <= MAX_CLOCK_MICROS && uuid_shape(token)
                    && #[trigger] login_step(*old(self), *final(self), e, a, token, now),
    {
        let token = new_uuid_token();
        let now = now_micros();
        let ghost t = token@;
        let ghost before = *self;
        let a = self.step_with(e, token, now);
        assert(login_step(before, *self, e, a, t, now));
        a
    }
}

/// A sign-in that finds no user with the address answers at once that the
/// user is new, with `201 Created`, and neither asks for nor stores a session
/// token.
pub proof fn law_unknown_address_is_new_user(
    before: CodeLogin,
    after: CodeLogin,
    a: LoginAction,
    token: Seq<char>,
    now: i64,
)
    requires
        before.phase == LoginPhase::User,
        login_step(before, after, LoginEvent::UserFound(None), a, token, now),
    ensures
        a is RespondNewUser,
        login_answer_status(a) == Some(201u16),
        after.phase == LoginPhase::Done,
{
}

/// A sign-in reaches the user lookup, and so any session it hands out, only
/// after the store accepted the code.
pub proof fn law_session_needs_accepted_code(es: Seq<LoginEvent>)
    requires
        login_phase_after(es) != LoginPhase::Code,
        login_phase_after(es) != LoginPhase::Done,
    ensures
        es.len() > 0 && es[0] == LoginEvent::CodeChecked(true),
    decreases es.len(),
{
    let t = es.drop_last();
    if login_phase_after(t) == LoginPhase::Code {
        assert(t.len() == 0) by {
            if t.len() > 0 {
                lemma_code_only_at_start(t);
            }
        }
        assert(es[0] == es.last());
    } else {
        law_session_needs_accepted_code(t);
        assert(es[0] == t[0]);
    }
}

/// Only the empty run waits for the code.
proof fn lemma_code_only_at_start(es: Seq<LoginEvent>)
    requires
        es.len() > 0,
    ensures
        login_phase_after(es) != LoginPhase::Code,
{
}

} // verus!
