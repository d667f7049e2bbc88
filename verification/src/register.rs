//! The registration of a new user, as the steps it takes between validation,
//! the database and the session it opens. The caller performs each action and
//! hands back what came of it; the registration decides the next action.

use vstd::prelude::*;
use crate::access::{classify_create_user_error, contains_text, session_ttl_days};
use crate::clock::{add_span, later_by, now_micros, MAX_CLOCK_MICROS, MICROS_PER_DAY};
use crate::errors::AppError;
use crate::generator::{Generator, all_lower_hex};
use crate::models::{register_request_errors, RegisterRequest, RegisterRequestWrapper, RegisterResponse};
use crate::text::{parse_in_range, text_of};
use crate::user::opt_view;
use crate::validation::{json_object_of_lists, message_lists, validation_errors_to_response};

verus! {

/// Where a registration stands.
#[derive(Debug, Clone, Copy, PartialEq, Eq, Structural)]
pub enum RegisterPhase {
    /// Waiting to learn whether the address is taken.
    Email,
    /// Waiting to learn whether the username is taken.
    Username,
    /// Waiting for the new user's row.
    Creating,
    /// Waiting for the session token to be stored.
    Storing,
    /// Finished.
    Done,
}

/// What came of the last action.
#[derive(Debug)]
pub enum RegisterEvent {
    /// Whether a user has the address; `None` where the lookup failed.
    EmailTaken(Option<bool>),
    /// Whether a user has the username; `None` where the lookup failed.
    UsernameTaken(Option<bool>),
    /// The new user's id, or the database's message where the insert failed.
    Created(Result<i64, String>),
    /// Whether the session token was stored.
    TokenStored(bool),
}

/// What the caller is to do next.
#[derive(Debug)]
pub enum RegisterAction {
    /// Look for a user with this address.
    FindEmail(String),
    /// Look for a user with this username.
    FindUsername(String),
    /// Insert the new user.
    CreateUser {
        username: String,
        email: String,
        display_name: String,
        birthday: Option<String>,
        description: Option<String>,
    },
    /// Store the session token of the new user, valid until `expires_at`.
    StoreToken { user_id: i64, token: String, expires_at: i64 },
    /// Answer `201 Created` with the session.
    Respond(RegisterResponse),
    /// Answer with the error.
    Fail(AppError),
}

/// A registration under way.
#[derive(Debug)]
pub struct Registration {
    pub phase: RegisterPhase,
    pub request: RegisterRequest,
    pub ttl_days: i64,
    pub user_id: i64,
    pub token: String,
}

/// Whether an event answers the action of a phase.
pub open spec fn register_expects(p: RegisterPhase, e: RegisterEvent) -> bool {
    match p {
        RegisterPhase::Email => e is EmailTaken,
        RegisterPhase::Username => e is UsernameTaken,
        RegisterPhase::Creating => e is Created,
        RegisterPhase::Storing => e is TokenStored,
        RegisterPhase::Done => false,
    }
}

/// The phase a registration moves to on an event it expects.
pub open spec fn register_next(p: RegisterPhase, e: RegisterEvent) -> RegisterPhase {
    match p {
        RegisterPhase::Email => if e == RegisterEvent::EmailTaken(Some(false)) {
            RegisterPhase::Username
        } else {
            RegisterPhase::Done
        },
        RegisterPhase::Username => if e == RegisterEvent::UsernameTaken(Some(false)) {
            RegisterPhase::Creating
        } else {
            RegisterPhase::Done
        },
        RegisterPhase::Creating => if e matches RegisterEvent::Created(Ok(_)) {
            RegisterPhase::Storing
        } else {
            RegisterPhase::Done
        },
        _ => RegisterPhase::Done,
    }
}

/// The phase after a run of events from a valid request.
pub open spec fn register_phase_after(es: Seq<RegisterEvent>) -> RegisterPhase
    decreases es.len(),
{
    if es.len() == 0 {
        RegisterPhase::Email
    } else {
        register_next(register_phase_after(es.drop_last()), es.last())
    }
}

/// The days a session lasts, from the `TTL_USER_TOKEN` setting.
pub open spec fn ttl_days_of(setting: Option<String>) -> i64 {
    match setting {
        Some(s) => match parse_in_range(s@, true, i64::MIN as int, i64::MAX as int) {
            Some(v) => v as i64,
            None => 30i64,
        },
        None => 30i64,
    }
}

/// Whether a failed insert's message reads as a duplicate username or
/// address.
pub open spec fn duplicate_user(message: Seq<char>) -> bool {
    contains_text(message, "duplicate key"@) && (contains_text(message, "username"@) || contains_text(
        message,
        "email"@,
    ))
}

/// What one step does: from `before` on the event `e`, with `token` as the
/// new session token and `now` as the time, the registration becomes `after`
/// and asks for `a`.
pub open spec fn register_step(
    before: Registration,
    after: Registration,
    e: RegisterEvent,
    a: RegisterAction,
    token: Seq<char>,
    now: i64,
) -> bool {
    &&& after.phase == register_next(before.phase, e)
    &&& after.request == before.request
    &&& after.ttl_days == before.ttl_days
    &&& (a is StoreToken) <==> after.phase == RegisterPhase::Storing
    &&& match before.phase {
        RegisterPhase::Email => match e {
            RegisterEvent::EmailTaken(Some(false)) => (a matches RegisterAction::FindUsername(u) && u@
                == before.request.username@),
            RegisterEvent::EmailTaken(Some(true)) => a matches RegisterAction::Fail(AppError::Conflict),
            _ => (a matches RegisterAction::Fail(AppError::Internal(m)) && m@
                == "Database error find user by email"@),
        },
        RegisterPhase::Username => match e {
            RegisterEvent::UsernameTaken(Some(false)) => {
                &&& a matches RegisterAction::CreateUser { username, email, display_name, birthday, description }
                &&& username@ == before.request.username@
                &&& email@ == before.request.email@
                &&& display_name@ == before.request.display_name@
                &&& opt_view(birthday) == opt_view(before.request.birthday)
                &&& opt_view(description) == opt_view(before.request.description)
            },
            RegisterEvent::UsernameTaken(Some(true)) => a matches RegisterAction::Fail(AppError::Conflict),
            _ => (a matches RegisterAction::Fail(AppError::Internal(m)) && m@
                == "Database error find user by username"@),
        },
        RegisterPhase::Creating => match e {
            RegisterEvent::Created(Ok(id)) => {
                &&& a matches RegisterAction::StoreToken { user_id, token: t, expires_at }
                &&& user_id == id
                &&& t@ == token
                &&& expires_at == later_by(now, before.ttl_days, MICROS_PER_DAY)
                &&& after.user_id == id
                &&& after.token@ == token
            },
            RegisterEvent::Created(Err(msg)) => if duplicate_user(msg@) {
                a matches RegisterAction::Fail(AppError::Conflict)
            } else {
                a matches RegisterAction::Fail(AppError::Internal(m)) && m@ == "Database error for create user"@
            },
            _ => false,
        },
        RegisterPhase::Storing => match e {
            RegisterEvent::TokenStored(true) => (a matches RegisterAction::Respond(r) && r.token@
                == before.token@ && r.user_id == before.user_id),
            _ => (a matches RegisterAction::Fail(AppError::Internal(m)) && m@ == "Failed to create session"@),
        },
        RegisterPhase::Done => false,
    }
}

/// A copy of an optional text.
fn copy_opt(s: &Option<String>) -> (r: Option<String>)
    ensures
        opt_view(r) == opt_view(*s),
{
    match s {
        Some(t) => Some(t.clone()),
        None => None,
    }
}

impl Registration {
    /// Starts the registration of `wrapper.user`; `ttl_setting` is the
    /// `TTL_USER_TOKEN` setting. A request that breaks a field rule fails at
    /// once with the validation errors; otherwise the address is looked up
    /// first.
    pub fn start(wrapper: RegisterRequestWrapper, ttl_setting: &Option<String>) -> (r: (Registration, RegisterAction))
        ensures
            r.0.request == wrapper.user,
            r.0.ttl_days == ttl_days_of(*ttl_setting),
            register_request_errors(wrapper.user).len() == 0 ==> {
                &&& r.0.phase == RegisterPhase::Email
                &&& r.1 matches RegisterAction::FindEmail(m)
                &&& m@ == wrapper.user.email@
            },
            register_request_errors(wrapper.user).len() > 0 ==> {
                &&& r.0.phase == RegisterPhase::Done
                &&& r.1 matches RegisterAction::Fail(AppError::BadRequest(m))
                &&& m@ == json_object_of_lists(message_lists(register_request_errors(wrapper.user)))
            },
    {
        let request = wrapper.user;
        let ttl_days = session_ttl_days(ttl_setting);
        match request.validate() {
            Err(errors) => {
                let e = validation_errors_to_response(errors);
                let reg = Registration { phase: RegisterPhase::Done, request, ttl_days, user_id: 0, token: String::new() };
                (reg, RegisterAction::Fail(e))
            },
            Ok(()) => {
                let email = request.email.clone();
                let reg = Registration { phase: RegisterPhase::Email, request, ttl_days, user_id: 0, token: String::new() };
                (reg, RegisterAction::FindEmail(email))
            },
        }
    }

    /// Whether the registration expects `e` now.
    pub fn expects(&self, e: &RegisterEvent) -> (r: bool)
        ensures
            r == register_expects(self.phase, *e),
    {
        match self.phase {
            RegisterPhase::Email => matches!(e, RegisterEvent::EmailTaken(_)),
            RegisterPhase::Username => matches!(e, RegisterEvent::UsernameTaken(_)),
            RegisterPhase::Creating => matches!(e, RegisterEvent::Created(_)),
            RegisterPhase::Storing => matches!(e, RegisterEvent::TokenStored(_)),
            RegisterPhase::Done => false,
        }
    }

    /// Takes what came of the last action and gives the next one, with `token`
    /// as the new session token and `now` as the time. A taken address or
    /// username is a conflict; a failed lookup is an internal error naming it;
    /// a failed insert is a conflict where it reads as a duplicate username or
    /// address, else "Database error for create user"; a token that cannot be
    /// stored is "Failed to create session". A session lasts `ttl_days` days.
    pub fn step_with(&mut self, e: RegisterEvent, token: String, now: i64) -> (a: RegisterAction)
        requires
            register_expects(old(self).phase, e),
        ensures
            register_step(*old(self), *final(self), e, a, token@, now),
    {
        match self.phase {
            RegisterPhase::Email => {
                match e {
                    RegisterEvent::EmailTaken(Some(false)) => {
                        self.phase = RegisterPhase::Username;
                        RegisterAction::FindUsername(self.request.username.clone())
                    },
                    RegisterEvent::EmailTaken(Some(true)) => {
                        self.phase = RegisterPhase::Done;
                        RegisterAction::Fail(AppError::Conflict)
                    },
                    _ => {
                        self.phase = RegisterPhase::Done;
                        RegisterAction::Fail(AppError::Internal(text_of("Database error find user by email")))
                    },
                }
            },
            RegisterPhase::Username => {
                match e {
                    RegisterEvent::UsernameTaken(Some(false)) => {
                        self.phase = RegisterPhase::Creating;
                        RegisterAction::CreateUser {
                            username: self.request.username.clone(),
                            email: self.request.email.clone(),
                            display_name: self.request.display_name.clone(),
                            birthday: copy_opt(&self.request.birthday),
                            description: copy_opt(&self.request.description),
                        }
                    },
                    RegisterEvent::UsernameTaken(Some(true)) => {
                        self.phase = RegisterPhase::Done;
                        RegisterAction::Fail(AppError::Conflict)
                    },
                    _ => {
                        self.phase = RegisterPhase::Done;
                        RegisterAction::Fail(AppError::Internal(text_of("Database error find user by username")))
                    },
                }
            },
            RegisterPhase::Creating => {
                match e {
                    RegisterEvent::Created(Ok(id)) => {
                        let expires_at = add_span(now, self.ttl_days, MICROS_PER_DAY);
                        self.user_id = id;
                        self.token = token.clone();
                        self.phase = RegisterPhase::Storing;
                        RegisterAction::StoreToken { user_id: id, token, expires_at }
                    },
                    RegisterEvent::Created(Err(msg)) => {
                        self.phase = RegisterPhase::Done;
                        RegisterAction::Fail(classify_create_user_error(msg.as_str()))
                    },
                    _ => {
                        self.phase = RegisterPhase::Done;
                        RegisterAction::Fail(AppError::Internal(text_of("Registration out of order")))
                    },
                }
            },
            RegisterPhase::Storing => {
                self.phase = RegisterPhase::Done;
                match e {
                    RegisterEvent::TokenStored(true) => RegisterAction::Respond(
                        RegisterResponse { token: self.token.clone(), user_id: self.user_id },
                    ),
                    _ => RegisterAction::Fail(AppError::Internal(text_of("Failed to create session"))),
                }
            },
            RegisterPhase::Done => RegisterAction::Fail(AppError::Internal(text_of("Registration out of order"))),
        }
    }

    /// `step_with` with a fresh random session token (32 lowercase hexadecimal
    /// digits) and the current time. The instant is the one
    /// the system clock gives during the call; that clock may be set to any
    /// instant and may go back, so the contract holds for every instant it
    /// can give, and nothing ties it to a reading taken before the call.
    pub fn step(&mut self, e: RegisterEvent) -> (a: RegisterAction)
        requires
            register_expects(old(self).phase, e),
        ensures
            exists|token: Seq<char>, now: i64|
                0 <= now <= MAX_CLOCK_MICROS && token.len() == 32 && all_lower_hex(token)
                    && #[trigger] register_step(*old(self), *final(self), e, a, token, now),
    {
        let token = Generator::new_session_token();
        let now = now_micros();
        let ghost t = token@;
        let ghost before = *self;
        let a = self.step_with(e, token, now);
        assert(register_step(before, *self, e, a, t, now));
        a
    }
}

/// A registration stores a session token only after the address was found
/// free, then the username was found free, then the user was created.
pub proof fn law_session_follows_checks(es: Seq<RegisterEvent>)
    requires
        register_phase_after(es) == RegisterPhase::Storing,
    ensures
        exists|i: int, j: int, k: int|
            0 <= i < j < k < es.len() && #[trigger] es[i] == RegisterEvent::EmailTaken(Some(false))
                && #[trigger] es[j] == RegisterEvent::UsernameTaken(Some(false)) && (#[trigger] es[k] matches RegisterEvent::Created(
                Ok(_),
            )),
{
    let t = es.drop_last();
    let u = t.drop_last();
    assert(register_phase_after(t) == RegisterPhase::Creating);
    assert(register_phase_after(u) == RegisterPhase::Username);
    assert(u.len() > 0);
    assert(es[es.len() - 3] == u.last());
    assert(es[es.len() - 2] == t.last());
}

} // verus!
