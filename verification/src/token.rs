//! Session tokens: a random text given to a user, valid until it expires.

use vstd::prelude::*;
use crate::clock::{now_micros, add_span, later_by, MICROS_PER_DAY, MAX_CLOCK_MICROS, MAX_TTL_DAYS};
use crate::generator::{Generator, all_lower_hex};
use crate::text::same_text;

verus! {

/// A session token of a user.
#[derive(Debug)]
pub struct TokenStore {
    pub id: u64,
    pub user_id: u64,
    pub token: String,
    pub created_at: i64,
    pub expires_at: i64,
}

/// Whether a token that expires at `expires_at` has expired at `now`.
pub open spec fn token_expired(expires_at: i64, now: i64) -> bool {
    now > expires_at
}

impl TokenStore {
    /// The token `token` of `user_id`, made at `now`, living `ttl_days` days;
    /// its own id is 0 until the database gives it one.
    pub fn new_at(user_id: u64, ttl_days: i64, token: String, now: i64) -> (t: Self)
        requires
            -MAX_TTL_DAYS <= ttl_days <= MAX_TTL_DAYS,
        ensures
            t.id == 0,
            t.user_id == user_id,
            t.token@ == token@,
            t.created_at == now,
            t.expires_at == later_by(now, ttl_days, MICROS_PER_DAY),
    {
        let expires_at = add_span(now, ttl_days, MICROS_PER_DAY);
        TokenStore { id: 0, user_id, token, created_at: now, expires_at }
    }

    /// A fresh random token of `user_id`, made now, living `ttl_days` days.
    pub fn new(user_id: u64, ttl: i64) -> (t: Self)
        requires
            -MAX_TTL_DAYS <= ttl <= MAX_TTL_DAYS,
        ensures
            t.id == 0,
            t.user_id == user_id,
            t.token@.len() == 32,
            all_lower_hex(t.token@),
            0 <= t.created_at <= MAX_CLOCK_MICROS,
            t.expires_at == later_by(t.created_at, ttl, MICROS_PER_DAY),
    {
        let token = Generator::new_session_token();
        let now = now_micros();
        Self::new_at(user_id, ttl, token, now)
    }

    /// Whether the token has expired at `now`.
    pub fn is_expired_at(&self, now: i64) -> (r: bool)
        ensures
            r == token_expired(self.expires_at, now),
    {
        now > self.expires_at
    }

    /// Whether the token has expired by now.
    pub fn is_expired(&self) -> (r: bool)
        ensures
            exists|now: i64| 0 <= now <= MAX_CLOCK_MICROS && r == #[trigger] token_expired(self.expires_at, now),
    {
        self.is_expired_at(now_micros())
    }

    /// Whether `input_token` is this token and it has not expired at `now`.
    pub fn is_valid_at(&self, input_token: &str, now: i64) -> (r: bool)
        ensures
            r == (!token_expired(self.expires_at, now) && self.token@ == input_token@),
    {
        if self.is_expired_at(now) {
            return false;
        }
        same_text(self.token.as_str(), input_token)
    }

    /// Whether `input_token` is this token and it has not expired by now. The instant is the one
    /// the system clock gives during the call; that clock may be set to any
    /// instant and may go back, so the contract holds for every instant it
    /// can give, and nothing ties it to a reading taken before the call.
    pub fn is_valid(&self, input_token: &str) -> (r: bool)
        ensures
            exists|now: i64|
                0 <= now <= MAX_CLOCK_MICROS && r == (!#[trigger] token_expired(self.expires_at, now) && self.token@
                    == input_token@),
            r ==> self.token@ == input_token@,
    {
        self.is_valid_at(input_token, now_micros())
    }
}

/// A token made at an instant the clock can give, living no more than
/// 11 725 748 days (some 32 000 years), expires exactly that many days later
/// and has not expired when it is made.
pub proof fn law_fresh_token_outlives_creation(ttl_days: i64, now: i64)
    requires
        0 <= now <= MAX_CLOCK_MICROS,
        0 <= ttl_days <= 11_725_748,
    ensures
        later_by(now, ttl_days, MICROS_PER_DAY) == now + ttl_days * MICROS_PER_DAY,
        !token_expired(later_by(now, ttl_days, MICROS_PER_DAY), now),
{
    assert(0 <= ttl_days * MICROS_PER_DAY <= 1_013_104_627_200_000_000) by (nonlinear_arith)
        requires
            0 <= ttl_days <= 11_725_748,
            MICROS_PER_DAY == 86_400_000_000,
    ;
}

} // verus!
