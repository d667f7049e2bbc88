//! Verification codes sent by mail, and the store that keeps the code each
//! address was sent until it is used or expires.

use vstd::prelude::*;
use crate::clock::{
    now_micros, add_span, seconds_between, later_by, whole_seconds, MICROS_PER_MINUTE,
    MAX_CLOCK_MICROS, MAX_TTL_MINUTES,
};
use crate::generator::{Generator, code_text};
use crate::text::{same_text, text_of, all_digits, push_str};

verus! {

/// What a verification code holds: the code, the address it was sent to, when
/// it was made and when it expires.
pub struct CodeRecord {
    pub code: Seq<char>,
    pub email: Seq<char>,
    pub created_at: i64,
    pub expires_at: i64,
}

/// The record of a code made at `now` that lives `ttl_minutes` minutes.
pub open spec fn record_at(email: Seq<char>, code: Seq<char>, ttl_minutes: i64, now: i64) -> CodeRecord {
    CodeRecord {
        code,
        email,
        created_at: now,
        expires_at: later_by(now, ttl_minutes, MICROS_PER_MINUTE),
    }
}

/// Whether a code has expired at `now`.
pub open spec fn expired_at(c: CodeRecord, now: i64) -> bool {
    now > c.expires_at
}

/// Whether `now` lies before the code was made.
pub open spec fn before_creation(c: CodeRecord, now: i64) -> bool {
    now < c.created_at
}

/// Whether a code is accepted at `now` for the text `input`: it has not
/// expired, it was not made after `now`, and it is `input`.
pub open spec fn accepts_at(c: CodeRecord, input: Seq<char>, now: i64) -> bool {
    !expired_at(c, now) && !before_creation(c, now) && c.code == input
}

/// The whole seconds a code has left at `now`; none once it has expired.
pub open spec fn remaining_at(c: CodeRecord, now: i64) -> int {
    if now > c.expires_at {
        0
    } else {
        whole_seconds(c.expires_at - now)
    }
}

/// A code sent to an address.
#[derive(Debug)]
pub struct VerificationCode {
    pub code: String,
    pub email: String,
    pub created_at: i64,
    pub expires_at: i64,
}

impl View for VerificationCode {
    type V = CodeRecord;

    open spec fn view(&self) -> CodeRecord {
        CodeRecord {
            code: self.code@,
            email: self.email@,
            created_at: self.created_at,
            expires_at: self.expires_at,
        }
    }
}

impl VerificationCode {
    /// The minutes a code lives unless told otherwise.
    pub const DEFAULT_TTL_MINUTES: i64 = 15;

    /// The code `code` for `email`, made at `now`, living `ttl_minutes` minutes.
    pub fn new_at(email: String, code: String, ttl_minutes: i64, now: i64) -> (c: Self)
        requires
            -MAX_TTL_MINUTES <= ttl_minutes <= MAX_TTL_MINUTES,
        ensures
            c@ == record_at(email@, code@, ttl_minutes, now),
    {
        let expires_at = add_span(now, ttl_minutes, MICROS_PER_MINUTE);
        VerificationCode { code, email, created_at: now, expires_at }
    }

    /// The code `code` for `email`, made now, living `ttl_minutes` minutes.
    pub fn new(email: String, code: String, ttl_minutes: i64) -> (c: Self)
        requires
            -MAX_TTL_MINUTES <= ttl_minutes <= MAX_TTL_MINUTES,
        ensures
            c@ == record_at(email@, code@, ttl_minutes, c.created_at),
            0 <= c.created_at <= MAX_CLOCK_MICROS,
    {
        let now = now_micros();
        Self::new_at(email, code, ttl_minutes, now)
    }

    /// A fresh random six-digit code for `email`, made now.
    pub fn generate(email: String, ttl_minutes: i64) -> (c: Self)
        requires
            -MAX_TTL_MINUTES <= ttl_minutes <= MAX_TTL_MINUTES,
        ensures
            c@.email == email@,
            c@.expires_at == later_by(c@.created_at, ttl_minutes, MICROS_PER_MINUTE),
            exists|n: nat| n < 1_000_000 && c@.code == code_text(n),
            c@.code.len() == 6,
            all_digits(c@.code),
    {
        Self::new(email, Generator::verification_code(), ttl_minutes)
    }

    /// Whether the code has expired at `now`.
    pub fn is_expired_at(&self, now: i64) -> (r: bool)
        ensures
            r == expired_at(self@, now),
    {
        now > self.expires_at
    }

    /// Whether the code has expired by now.
    pub fn is_expired(&self) -> (r: bool)
        ensures
            exists|now: i64| 0 <= now <= MAX_CLOCK_MICROS && r == expired_at(self@, now),
    {
        self.is_expired_at(now_micros())
    }

    /// Whether `now` lies before the code was made.
    pub fn is_created_at(&self, now: i64) -> (r: bool)
        ensures
            r == before_creation(self@, now),
    {
        now < self.created_at
    }

    /// Whether the present lies before the code was made.
    pub fn is_created(&self) -> (r: bool)
        ensures
            exists|now: i64| 0 <= now <= MAX_CLOCK_MICROS && r == before_creation(self@, now),
    {
        self.is_created_at(now_micros())
    }

    /// Whether the code accepts `input` at `now`.
    pub fn verify_at(&self, input_code: &str, now: i64) -> (r: bool)
        ensures
            r == accepts_at(self@, input_code@, now),
    {
        if self.is_expired_at(now) {
            return false;
        }
        if self.is_created_at(now) {
            return false;
        }
        same_text(self.code.as_str(), input_code)
    }

    /// Whether the code accepts `input` now; the code is left as it was.
    pub fn verify(&mut self, input_code: &str) -> (r: bool)
        ensures
            *final(self) == *old(self),
            exists|now: i64| 0 <= now <= MAX_CLOCK_MICROS && r == accepts_at(old(self)@, input_code@, now),
    {
        let now = now_micros();
        self.verify_at(input_code, now)
    }

    /// The whole seconds left at `now`.
    pub fn remaining_seconds_at(&self, now: i64) -> (r: i64)
        ensures
            r == remaining_at(self@, now),
    {
        if now > self.expires_at {
            0
        } else {
            seconds_between(now, self.expires_at)
        }
    }

    /// The whole seconds left now.
    pub fn remaining_seconds(&self) -> (r: i64)
        ensures
            exists|now: i64| 0 <= now <= MAX_CLOCK_MICROS && r == remaining_at(self@, now),
            r >= 0,
    {
        self.remaining_seconds_at(now_micros())
    }
}

/// Whether some code in `s` was sent to `email`.
pub open spec fn has_email(s: Seq<CodeRecord>, email: Seq<char>) -> bool {
    exists|i: int| 0 <= i < s.len() && #[trigger] s[i].email == email
}

/// The place of the code sent to `email` (meaningful where there is one).
pub open spec fn email_index(s: Seq<CodeRecord>, email: Seq<char>) -> int {
    choose|i: int| 0 <= i < s.len() && #[trigger] s[i].email == email
}

/// Whether no address has two codes in `s`.
pub open spec fn emails_distinct(s: Seq<CodeRecord>) -> bool {
    forall|i: int, j: int|
        0 <= i < s.len() && 0 <= j < s.len() && i != j ==> #[trigger] s[i].email != #[trigger] s[j].email
}

/// The code sent to `email`, if any.
pub open spec fn lookup(s: Seq<CodeRecord>, email: Seq<char>) -> Option<CodeRecord> {
    if has_email(s, email) {
        Some(s[email_index(s, email)])
    } else {
        None
    }
}

/// `s` with the code `r` kept for its address, replacing any earlier one.
pub open spec fn put(s: Seq<CodeRecord>, r: CodeRecord) -> Seq<CodeRecord> {
    if has_email(s, r.email) {
        s.update(email_index(s, r.email), r)
    } else {
        s.push(r)
    }
}

/// `s` without the code sent to `email`.
pub open spec fn without_email(s: Seq<CodeRecord>, email: Seq<char>) -> Seq<CodeRecord> {
    if has_email(s, email) {
        s.remove(email_index(s, email))
    } else {
        s
    }
}

/// The codes of `s` that have not expired at `now`, in order.
pub open spec fn unexpired(s: Seq<CodeRecord>, now: i64) -> Seq<CodeRecord>
    decreases s.len(),
{
    if s.len() == 0 {
        Seq::empty()
    } else {
        let r = unexpired(s.drop_last(), now);
        if expired_at(s.last(), now) {
            r
        } else {
            r.push(s.last())
        }
    }
}

/// How many codes of `s` have expired at `now`.
pub open spec fn count_expired(s: Seq<CodeRecord>, now: i64) -> nat
    decreases s.len(),
{
    if s.len() == 0 {
        0
    } else {
        count_expired(s.drop_last(), now) + if expired_at(s.last(), now) { 1nat } else { 0nat }
    }
}

/// Whether the store `s` accepts `input` for `email` at `now`.
pub open spec fn store_accepts(s: Seq<CodeRecord>, email: Seq<char>, input: Seq<char>, now: i64) -> bool {
    match lookup(s, email) {
        Some(c) => accepts_at(c, input, now),
        None => false,
    }
}

/// Whether a new code may be sent to `email` at `now`.
pub open spec fn resend_allowed(s: Seq<CodeRecord>, email: Seq<char>, cooldown_seconds: i64, now: i64) -> bool {
    match lookup(s, email) {
        Some(c) => whole_seconds(now - c.created_at) >= cooldown_seconds,
        None => true,
    }
}

/// The seconds that must pass between two codes sent to one address, and the
/// minutes a sent code lives.
pub const RESEND_COOLDOWN_SECONDS: i64 = 30;
pub const SENT_CODE_TTL_MINUTES: i64 = 15;

/// What issuing the code `code` for `email` at `now` does: the store before
/// and after, and the answer.
pub open spec fn issue_outcome(
    before: Seq<CodeRecord>,
    after: Seq<CodeRecord>,
    email: Seq<char>,
    code: Seq<char>,
    now: i64,
    r: Result<String, String>,
) -> bool {
    if resend_allowed(before, email, RESEND_COOLDOWN_SECONDS, now) {
        r matches Ok(c) && c@ == code && after == put(before, record_at(email, code, SENT_CODE_TTL_MINUTES, now))
    } else {
        r matches Err(m) && m@ == "Too many requests. Wait before retry"@ && after == before
    }
}

/// The text of the mail that carries a code: `Verification code {code}`.
pub fn verification_mail_body(code: &str) -> (s: String)
    ensures
        s@ == "Verification code "@ + code@,
{
    let mut s = text_of("Verification code ");
    push_str(&mut s, code);
    s
}

/// What `get_or_create` does at `now` with the fresh code `code`: the store
/// before and after, and the text returned.
pub open spec fn get_or_create_outcome(
    before: Seq<CodeRecord>,
    after: Seq<CodeRecord>,
    email: Seq<char>,
    ttl_minutes: i64,
    code: Seq<char>,
    now: i64,
    r: Seq<char>,
) -> bool {
    match lookup(before, email) {
        Some(c) => if !expired_at(c, now) {
            r == c.code && after == before
        } else {
            r == code && after == put(before, record_at(email, code, ttl_minutes, now))
        },
        None => r == code && after == put(before, record_at(email, code, ttl_minutes, now)),
    }
}

/// With distinct addresses, the place of an address is where it stands.
pub proof fn lemma_email_index(s: Seq<CodeRecord>, i: int)
    requires
        emails_distinct(s),
        0 <= i < s.len(),
    ensures
        has_email(s, s[i].email),
        email_index(s, s[i].email) == i,
        lookup(s, s[i].email) == Some(s[i]),
{
    assert(has_email(s, s[i].email));
    let j = email_index(s, s[i].email);
    assert(s[j].email == s[i].email);
}

/// Where the codes were apart by address, they stay so when one is put in.
proof fn lemma_put_distinct(s: Seq<CodeRecord>, r: CodeRecord)
    requires
        emails_distinct(s),
    ensures
        emails_distinct(put(s, r)),
{
    if has_email(s, r.email) {
        let k = email_index(s, r.email);
        let t = put(s, r);
        assert forall|i: int, j: int| 0 <= i < t.len() && 0 <= j < t.len() && i != j implies
            #[trigger] t[i].email != #[trigger] t[j].email by {
            if i != k && j != k {
                assert(t[i] == s[i] && t[j] == s[j]);
            } else if i == k {
                assert(t[j] == s[j]);
                assert(s[k].email == r.email);
            } else {
                assert(t[i] == s[i]);
                assert(s[k].email == r.email);
            }
        }
    } else {
        let t = put(s, r);
        assert forall|i: int, j: int| 0 <= i < t.len() && 0 <= j < t.len() && i != j implies
            #[trigger] t[i].email != #[trigger] t[j].email by {
            if i < s.len() && j < s.len() {
                assert(t[i] == s[i] && t[j] == s[j]);
            } else if i == s.len() {
                assert(t[j] == s[j]);
            } else {
                assert(t[i] == s[i]);
            }
        }
    }
}

/// Where the codes were apart by address, they stay so when one is taken out.
proof fn lemma_without_distinct(s: Seq<CodeRecord>, email: Seq<char>)
    requires
        emails_distinct(s),
    ensures
        emails_distinct(without_email(s, email)),
        !has_email(without_email(s, email), email),
{
    let t = without_email(s, email);
    if has_email(s, email) {
        let k = email_index(s, email);
        assert forall|i: int, j: int| 0 <= i < t.len() && 0 <= j < t.len() && i != j implies
            #[trigger] t[i].email != #[trigger] t[j].email by {
            let a = if i < k { i } else { i + 1 };
            let b = if j < k { j } else { j + 1 };
            assert(t[i] == s[a] && t[j] == s[b]);
        }
        if has_email(t, email) {
            let m = choose|m: int| 0 <= m < t.len() && #[trigger] t[m].email == email;
            let a = if m < k { m } else { m + 1 };
            assert(t[m] == s[a]);
        }
    }
}

/// A code that is put in is the one found for its address, and the codes of
/// the other addresses are found as before.
pub proof fn law_put_then_lookup(s: Seq<CodeRecord>, r: CodeRecord, other: Seq<char>)
    requires
        emails_distinct(s),
    ensures
        emails_distinct(put(s, r)),
        lookup(put(s, r), r.email) == Some(r),
        other != r.email ==> lookup(put(s, r), other) == lookup(s, other),
{
    lemma_put_distinct(s, r);
    let t = put(s, r);
    let k = if has_email(s, r.email) { email_index(s, r.email) } else { s.len() as int };
    assert(t[k] == r);
    lemma_email_index(t, k);
    if other != r.email {
        if has_email(s, other) {
            let m = email_index(s, other);
            assert(t[m] == s[m]);
            lemma_email_index(t, m);
        } else if has_email(t, other) {
            let m = choose|m: int| 0 <= m < t.len() && #[trigger] t[m].email == other;
            assert(m != k);
            assert(t[m] == s[m]);
        }
    }
}

/// A code that is taken out is no longer found, and the codes of the other
/// addresses are found as before.
pub proof fn law_without_then_lookup(s: Seq<CodeRecord>, email: Seq<char>, other: Seq<char>)
    requires
        emails_distinct(s),
    ensures
        emails_distinct(without_email(s, email)),
        lookup(without_email(s, email), email) is None,
        other != email ==> lookup(without_email(s, email), other) == lookup(s, other),
{
    lemma_without_distinct(s, email);
    let t = without_email(s, email);
    if other != email && has_email(s, email) {
        let k = email_index(s, email);
        if has_email(s, other) {
            let m = email_index(s, other);
            assert(m != k);
            let a = if m < k { m } else { m - 1 };
            assert(t[a] == s[m]);
            lemma_email_index(t, a);
        } else if has_email(t, other) {
            let m = choose|m: int| 0 <= m < t.len() && #[trigger] t[m].email == other;
            let a = if m < k { m } else { m + 1 };
            assert(t[m] == s[a]);
        }
    }
}

/// A code that was just made for an address is accepted for that address at
/// any time from its making until it expires, and no other text is.
pub proof fn law_fresh_code_is_accepted(
    s: Seq<CodeRecord>,
    email: Seq<char>,
    code: Seq<char>,
    ttl_minutes: i64,
    now: i64,
    t: i64,
    other_input: Seq<char>,
)
    requires
        emails_distinct(s),
        now <= t <= later_by(now, ttl_minutes, MICROS_PER_MINUTE),
    ensures
        store_accepts(put(s, record_at(email, code, ttl_minutes, now)), email, code, t),
        other_input != code ==> !store_accepts(
            put(s, record_at(email, code, ttl_minutes, now)),
            email,
            other_input,
            t,
        ),
{
    law_put_then_lookup(s, record_at(email, code, ttl_minutes, now), email);
}

/// A code is used once: once the store has accepted a code for an address
/// (and so taken it out), it accepts nothing more for that address until a
/// new code is made, while the other addresses keep their codes.
pub proof fn law_code_is_used_once(
    s: Seq<CodeRecord>,
    email: Seq<char>,
    input: Seq<char>,
    later_input: Seq<char>,
    now: i64,
    later: i64,
    other: Seq<char>,
)
    requires
        emails_distinct(s),
        store_accepts(s, email, input, now),
    ensures
        !store_accepts(without_email(s, email), email, later_input, later),
        other != email ==> lookup(without_email(s, email), other) == lookup(s, other),
{
    law_without_then_lookup(s, email, other);
}

/// After a code is issued for an address at `now`, another may be issued at
/// `later` exactly when `later` lies at least 30 whole seconds after `now`.
pub proof fn law_cooldown_after_issue(s: Seq<CodeRecord>, email: Seq<char>, code: Seq<char>, now: i64, later: i64)
    requires
        emails_distinct(s),
    ensures
        resend_allowed(
            put(s, record_at(email, code, SENT_CODE_TTL_MINUTES, now)),
            email,
            RESEND_COOLDOWN_SECONDS,
            later,
        ) == (whole_seconds(later - now) >= 30),
{
    law_put_then_lookup(s, record_at(email, code, SENT_CODE_TTL_MINUTES, now), email);
}

/// Asking twice at one instant for the code of an address gives the same
/// code and leaves the store as the first asking left it (for a lifetime
/// that is not negative).
pub proof fn law_get_or_create_is_stable(
    s1: Seq<CodeRecord>,
    s2: Seq<CodeRecord>,
    s3: Seq<CodeRecord>,
    email: Seq<char>,
    ttl_minutes: i64,
    code1: Seq<char>,
    code2: Seq<char>,
    now: i64,
    r1: Seq<char>,
    r2: Seq<char>,
)
    requires
        emails_distinct(s1),
        0 <= ttl_minutes <= MAX_TTL_MINUTES,
        get_or_create_outcome(s1, s2, email, ttl_minutes, code1, now, r1),
        get_or_create_outcome(s2, s3, email, ttl_minutes, code2, now, r2),
    ensures
        r2 == r1,
        s3 == s2,
{
    let rec = record_at(email, code1, ttl_minutes, now);
    law_put_then_lookup(s1, rec, email);
    assert(ttl_minutes * MICROS_PER_MINUTE >= 0) by (nonlinear_arith)
        requires
            ttl_minutes >= 0,
    ;
}

/// A code made at an instant the clock can give, living a lifetime of no
/// more than 16 885 086 000 minutes (some 32 000 years), expires exactly that
/// lifetime later, and is accepted for its own text when it is made.
pub proof fn law_fresh_code_outlives_creation(email: Seq<char>, code: Seq<char>, ttl_minutes: i64, now: i64)
    requires
        0 <= now <= MAX_CLOCK_MICROS,
        0 <= ttl_minutes <= 16_885_086_000,
    ensures
        record_at(email, code, ttl_minutes, now).expires_at == now + ttl_minutes * MICROS_PER_MINUTE,
        accepts_at(record_at(email, code, ttl_minutes, now), code, now),
{
    assert(0 <= ttl_minutes * MICROS_PER_MINUTE <= 1_013_105_160_000_000_000) by (nonlinear_arith)
        requires
            0 <= ttl_minutes <= 16_885_086_000,
            MICROS_PER_MINUTE == 60_000_000,
    ;
}

/// Cleaning up keeps exactly the codes that have not expired: none that is
/// left has expired, every one that has not expired is left, and the others
/// are the ones counted.
pub proof fn law_cleanup_keeps_unexpired(s: Seq<CodeRecord>, now: i64)
    ensures
        forall|i: int| 0 <= i < unexpired(s, now).len() ==> !expired_at(#[trigger] unexpired(s, now)[i], now),
        forall|i: int| 0 <= i < s.len() && !expired_at(s[i], now) ==> unexpired(s, now).contains(#[trigger] s[i]),
        forall|i: int| 0 <= i < unexpired(s, now).len() ==> s.contains(#[trigger] unexpired(s, now)[i]),
        unexpired(s, now).len() + count_expired(s, now) == s.len(),
    decreases s.len(),
{
    if s.len() > 0 {
        let t = s.drop_last();
        law_cleanup_keeps_unexpired(t, now);
        let r = unexpired(t, now);
        let u = unexpired(s, now);
        assert forall|i: int| 0 <= i < u.len() implies !expired_at(#[trigger] u[i], now) by {
            if i < r.len() {
                assert(u[i] == r[i]);
            }
        }
        assert forall|i: int| 0 <= i < s.len() && !expired_at(s[i], now) implies u.contains(#[trigger] s[i]) by {
            if i < t.len() {
                assert(t[i] == s[i]);
                assert(r.contains(t[i]));
                let k = choose|k: int| 0 <= k < r.len() && r[k] == t[i];
                assert(u[k] == r[k]);
            } else {
                assert(u[u.len() - 1] == s[i]);
            }
        }
        assert forall|i: int| 0 <= i < u.len() implies s.contains(#[trigger] u[i]) by {
            if i < r.len() {
                assert(u[i] == r[i]);
                assert(t.contains(r[i]));
                let k = choose|k: int| 0 <= k < t.len() && t[k] == r[i];
                assert(s[k] == t[k]);
            } else {
                assert(u[i] == s[s.len() - 1]);
            }
        }
    }
}

/// A code as the store knows it: its text and times, under the address it
/// is kept for (which the code's own `email` field may no longer show once
/// it was changed in place).
pub open spec fn kept_record(address: Seq<char>, c: CodeRecord) -> CodeRecord {
    CodeRecord { code: c.code, email: address, created_at: c.created_at, expires_at: c.expires_at }
}

/// The codes of a store that keeps the addresses `keys` and the codes
/// `values` side by side.
pub open spec fn kept_records(keys: Seq<String>, values: Seq<VerificationCode>) -> Seq<CodeRecord> {
    Seq::new(values.len(), |i: int| kept_record(keys[i]@, values[i]@))
}

/// Whether no two of `keys` are the same address.
pub open spec fn keys_distinct(keys: Seq<String>) -> bool {
    forall|i: int, j: int| 0 <= i < keys.len() && 0 <= j < keys.len() && i != j ==> #[trigger] keys[i]@ != #[trigger] keys[j]@
}

/// Addresses kept side by side with their codes are distinct just where the
/// codes are one per address.
proof fn lemma_keys_distinct(keys: Seq<String>, values: Seq<VerificationCode>)
    requires
        keys.len() == values.len(),
    ensures
        keys_distinct(keys) == emails_distinct(kept_records(keys, values)),
{
    let s = kept_records(keys, values);
    if keys_distinct(keys) {
        assert forall|i: int, j: int| 0 <= i < s.len() && 0 <= j < s.len() && i != j implies #[trigger] s[i].email
            != #[trigger] s[j].email by {
            assert(s[i].email == keys[i]@);
            assert(s[j].email == keys[j]@);
        }
    }
    if emails_distinct(s) {
        assert forall|i: int, j: int| 0 <= i < keys.len() && 0 <= j < keys.len() && i != j implies #[trigger] keys[i]@
            != #[trigger] keys[j]@ by {
            assert(s[i].email == keys[i]@);
            assert(s[j].email == keys[j]@);
        }
    }
}

/// The codes that were sent and not yet used or dropped, each kept under its
/// address, one per address.
#[derive(Debug)]
pub struct VerificationStore {
    keys: Vec<String>,
    values: Vec<VerificationCode>,
}

impl View for VerificationStore {
    type V = Seq<CodeRecord>;

    closed spec fn view(&self) -> Seq<CodeRecord> {
        kept_records(self.keys@, self.values@)
    }
}

impl VerificationStore {
    /// Each code has its address, and no address has two codes.
    #[verifier::type_invariant]
    spec fn one_per_address(self) -> bool {
        &&& self.keys@.len() == self.values@.len()
        &&& keys_distinct(self.keys@)
    }

    /// An empty store.
    pub fn new() -> (s: Self)
        ensures
            s@ == Seq::<CodeRecord>::empty(),
    {
        let s = VerificationStore { keys: Vec::new(), values: Vec::new() };
        assert(s@ =~= Seq::<CodeRecord>::empty());
        s
    }

    /// Takes the whole store out, leaving an empty one.
    fn take(&mut self) -> (r: (Vec<String>, Vec<VerificationCode>))
        ensures
            final(self)@ == Seq::<CodeRecord>::empty(),
            r.0@.len() == r.1@.len(),
            kept_records(r.0@, r.1@) == old(self)@,
            emails_distinct(old(self)@),
    {
        proof {
            use_type_invariant(&*self);
            lemma_keys_distinct(self.keys@, self.values@);
        }
        let mut other = VerificationStore::new();
        std::mem::swap(self, &mut other);
        let VerificationStore { keys, values } = other;
        (keys, values)
    }

    /// The place of the code kept for `email`.
    fn find(&self, email: &str) -> (r: Option<usize>)
        ensures
            self.keys@.len() == self.values@.len(),
            emails_distinct(self@),
            match r {
                Some(i) => i < self@.len() && self@[i as int].email == email@ && email_index(self@, email@) == i,
                None => !has_email(self@, email@),
            },
    {
        proof {
            use_type_invariant(self);
            lemma_keys_distinct(self.keys@, self.values@);
        }
        let mut i: usize = 0;
        while i < self.keys.len()
            invariant
                i <= self.keys@.len(),
                self.keys@.len() == self.values@.len(),
                self@ == kept_records(self.keys@, self.values@),
                emails_distinct(self@),
                forall|j: int| 0 <= j < i ==> #[trigger] self@[j].email != email@,
            decreases self.keys@.len() - i,
        {
            if same_text(self.keys[i].as_str(), email) {
                proof {
                    lemma_email_index(self@, i as int);
                }
                return Some(i);
            }
            i = i + 1;
        }
        None
    }

    /// Keeps `code` as the code of its address, replacing any earlier one.
    pub fn insert(&mut self, code: VerificationCode)
        ensures
            final(self)@ == put(old(self)@, code@),
    {
        let found = self.find(code.email.as_str());
        let ghost before = self@;
        let ghost rec = code@;
        proof {
            lemma_put_distinct(before, rec);
        }
        match found {
            Some(i) => {
                let (keys, mut values) = self.take();
                values.set(i, code);
                assert(kept_records(keys@, values@) =~= before.update(i as int, rec));
                proof {
                    lemma_keys_distinct(keys@, values@);
                }
                *self = VerificationStore { keys, values };
            },
            None => {
                let key = code.email.clone();
                let (mut keys, mut values) = self.take();
                keys.push(key);
                values.push(code);
                assert(kept_records(keys@, values@) =~= before.push(rec));
                proof {
                    lemma_keys_distinct(keys@, values@);
                }
                *self = VerificationStore { keys, values };
            },
        }
    }

    /// Makes a code for `email` at `now` with the given `code` text, keeps it
    /// (replacing any earlier code of that address) and returns its text.
    pub fn create_at(&mut self, email: &str, ttl_minutes: i64, code: String, now: i64) -> (r: String)
        requires
            -MAX_TTL_MINUTES <= ttl_minutes <= MAX_TTL_MINUTES,
        ensures
            r@ == code@,
            final(self)@ == put(old(self)@, record_at(email@, code@, ttl_minutes, now)),
    {
        let text = code.clone();
        let c = VerificationCode::new_at(text_of(email), code, ttl_minutes, now);
        self.insert(c);
        text
    }

    /// Makes a fresh random code for `email`, keeps it (replacing any earlier
    /// code of that address) and returns its text.
    pub fn create(&mut self, email: &str, ttl_minutes: i64) -> (r: String)
        requires
            -MAX_TTL_MINUTES <= ttl_minutes <= MAX_TTL_MINUTES,
        ensures
            exists|n: nat, now: i64|
                n < 1_000_000 && 0 <= now <= MAX_CLOCK_MICROS && r@ == code_text(n) && final(self)@ == put(
                    old(self)@,
                    record_at(email@, code_text(n), ttl_minutes, now),
                ),
            r@.len() == 6,
            all_digits(r@),
    {
        let code = Generator::verification_code();
        let now = now_micros();
        self.create_at(email, ttl_minutes, code, now)
    }

    /// `create` with the default lifetime of a code.
    pub fn create_default(&mut self, email: &str) -> (r: String)
        ensures
            exists|n: nat, now: i64|
                n < 1_000_000 && 0 <= now <= MAX_CLOCK_MICROS && r@ == code_text(n) && final(self)@ == put(
                    old(self)@,
                    record_at(email@, code_text(n), VerificationCode::DEFAULT_TTL_MINUTES, now),
                ),
            r@.len() == 6,
    {
        self.create(email, VerificationCode::DEFAULT_TTL_MINUTES)
    }

    /// The code kept for `email`.
    pub fn get(&self, email: &str) -> (r: Option<&VerificationCode>)
        ensures
            match r {
                Some(c) => lookup(self@, email@) == Some(kept_record(email@, c@)),
                None => lookup(self@, email@) is None,
            },
    {
        match self.find(email) {
            Some(i) => Some(&self.values[i]),
            None => None,
        }
    }

    /// The code kept for `email`, to be changed in place; it stays kept for
    /// `email` whatever the change.
    pub fn get_mut(&mut self, email: &str) -> (r: Option<&mut VerificationCode>)
        ensures
            match r {
                Some(c) => {
                    &&& lookup(old(self)@, email@) == Some(kept_record(email@, (*c)@))
                    &&& final(self)@ == old(self)@.update(email_index(old(self)@, email@), kept_record(email@, final(c)@))
                },
                None => lookup(old(self)@, email@) is None && final(self)@ == old(self)@,
            },
    {
        match self.find(email) {
            Some(i) => Some(self.value_mut(i)),
            None => None,
        }
    }

    /// The code at place `i`, to be changed in place.
    fn value_mut(&mut self, i: usize) -> (r: &mut VerificationCode)
        requires
            i < old(self).values@.len(),
        ensures
            *r == old(self).values@[i as int],
            final(self).keys == old(self).keys,
            final(self).values@ == old(self).values@.update(i as int, *final(r)),
        no_unwind
    {
        proof {
            use_type_invariant(&*self);
        }
        &mut self.values[i]
    }

    /// Takes out and returns the code kept for `email`.
    pub fn remove(&mut self, email: &str) -> (r: Option<VerificationCode>)
        ensures
            match r {
                Some(c) => lookup(old(self)@, email@) == Some(kept_record(email@, c@)),
                None => lookup(old(self)@, email@) is None,
            },
            final(self)@ == without_email(old(self)@, email@),
    {
        let found = self.find(email);
        match found {
            Some(i) => {
                let ghost before = self@;
                let (mut keys, mut values) = self.take();
                let _ = keys.remove(i);
                let c = values.remove(i);
                assert(kept_records(keys@, values@) =~= before.remove(i as int));
                proof {
                    lemma_without_distinct(before, email@);
                }
                proof {
                    lemma_keys_distinct(keys@, values@);
                }
                *self = VerificationStore { keys, values };
                Some(c)
            },
            None => None,
        }
    }

    /// Checks `input` against the code kept for `email` at `now`. An accepted
    /// code is used up and taken out; otherwise the store stays as it was.
    pub fn verify_at(&mut self, email: &str, input_code: &str, now: i64) -> (r: bool)
        ensures
            r == store_accepts(old(self)@, email@, input_code@, now),
            final(self)@ == if r { without_email(old(self)@, email@) } else { old(self)@ },
    {
        let ok = match self.get(email) {
            Some(c) => c.verify_at(input_code, now),
            None => false,
        };
        if ok {
            let _ = self.remove(email);
        }
        ok
    }

    /// Checks `input` against the code kept for `email` now; an accepted code
    /// is used up. The instant is the one
    /// the system clock gives during the call; that clock may be set to any
    /// instant and may go back, so the contract holds for every instant it
    /// can give, and nothing ties it to a reading taken before the call.
    pub fn verify(&mut self, email: &str, input_code: &str) -> (r: bool)
        ensures
            exists|now: i64| 0 <= now <= MAX_CLOCK_MICROS && r == #[trigger] store_accepts(old(self)@, email@, input_code@, now),
            final(self)@ == if r { without_email(old(self)@, email@) } else { old(self)@ },
    {
        let now = now_micros();
        self.verify_at(email, input_code, now)
    }

    /// Takes out every code that has expired at `now` and returns how many.
    pub fn cleanup_expired_at(&mut self, now: i64) -> (r: usize)
        ensures
            final(self)@ == unexpired(old(self)@, now),
            r == count_expired(old(self)@, now),
    {
        let (mut rest_keys, mut rest_values) = self.take();
        let ghost orig = kept_records(rest_keys@, rest_values@);
        let total = rest_values.len();
        let mut kept_keys: Vec<String> = Vec::new();
        let mut kept_values: Vec<VerificationCode> = Vec::new();
        let mut count: usize = 0;
        let ghost mut done: int = 0;
        assert(orig.subrange(0, 0) =~= Seq::<CodeRecord>::empty());
        assert(kept_records(kept_keys@, kept_values@) =~= Seq::<CodeRecord>::empty());
        assert(orig.subrange(0, orig.len() as int) =~= orig);
        while rest_values.len() > 0
            invariant
                0 <= done <= orig.len(),
                orig.len() == total,
                emails_distinct(orig),
                rest_keys@.len() == rest_values@.len(),
                kept_keys@.len() == kept_values@.len(),
                kept_records(rest_keys@, rest_values@) == orig.subrange(done, orig.len() as int),
                kept_records(kept_keys@, kept_values@) == unexpired(orig.subrange(0, done), now),
                count == count_expired(orig.subrange(0, done), now),
                count <= done,
                forall|a: int| #![trigger kept_records(kept_keys@, kept_values@)[a]]
                    0 <= a < kept_values@.len() ==> exists|j: int| 0 <= j < done && #[trigger] orig[j]
                    == kept_records(kept_keys@, kept_values@)[a],
                emails_distinct(kept_records(kept_keys@, kept_values@)),
            decreases rest_values@.len(),
        {
            let ghost rk = rest_keys@;
            let ghost rv = rest_values@;
            let ghost kv_before = kept_records(kept_keys@, kept_values@);
            proof {
                assert(kept_records(rk, rv).len() == rv.len());
                assert(orig.subrange(done, orig.len() as int).len() == orig.len() - done);
                assert(done < orig.len());
                assert(orig.subrange(done, orig.len() as int)[0] == orig[done]);
                assert(kept_records(rk, rv)[0] == orig[done]);
            }
            let k = rest_keys.remove(0);
            let v = rest_values.remove(0);
            proof {
                assert(kept_record(k@, v@) == orig[done]);
                assert(orig.subrange(0, done + 1).drop_last() =~= orig.subrange(0, done));
            }
            if now > v.expires_at {
                count = count + 1;
            } else {
                kept_keys.push(k);
                kept_values.push(v);
                proof {
                    let kv = kept_records(kept_keys@, kept_values@);
                    assert(kv =~= kv_before.push(orig[done]));
                    assert forall|i: int, j: int| 0 <= i < kv.len() && 0 <= j < kv.len() && i != j
                        implies #[trigger] kv[i].email != #[trigger] kv[j].email by {
                        if i < kv.len() - 1 && j < kv.len() - 1 {
                            assert(kv[i] == kv_before[i]);
                            assert(kv[j] == kv_before[j]);
                        } else if i == kv.len() - 1 {
                            assert(kv[j] == kv_before[j]);
                            let m = choose|m: int| 0 <= m < done && #[trigger] orig[m] == kv_before[j];
                            assert(orig[m] == kv[j]);
                        } else {
                            assert(kv[i] == kv_before[i]);
                            let m = choose|m: int| 0 <= m < done && #[trigger] orig[m] == kv_before[i];
                            assert(orig[m] == kv[i]);
                        }
                    }
                    assert forall|a: int| #![trigger kv[a]] 0 <= a < kv.len() implies exists|j: int| 0 <= j < done + 1
                        && #[trigger] orig[j] == kv[a] by {
                        if a < kv_before.len() {
                            assert(kv[a] == kv_before[a]);
                            let m = choose|m: int| 0 <= m < done && #[trigger] orig[m] == kv_before[a];
                            assert(orig[m] == kv[a]);
                        } else {
                            assert(orig[done] == kv[a]);
                        }
                    }
                }
            }
            proof {
                assert(rest_keys@ =~= rk.subrange(1, rk.len() as int));
                assert(rest_values@ =~= rv.subrange(1, rv.len() as int));
                assert forall|q: int| 0 <= q < rest_values@.len() implies #[trigger] kept_records(rest_keys@, rest_values@)[q]
                    == orig[done + 1 + q] by {
                    assert(kept_records(rk, rv)[q + 1] == orig[done + 1 + q]);
                }
                done = done + 1;
                assert(kept_records(rest_keys@, rest_values@) =~= orig.subrange(done, orig.len() as int));
            }
        }
        assert(orig.subrange(0, done) =~= orig);
        proof {
            lemma_keys_distinct(kept_keys@, kept_values@);
        }
        *self = VerificationStore { keys: kept_keys, values: kept_values };
        count
    }

    /// Takes out every code that has expired by now and returns how many.
    pub fn cleanup_expired(&mut self) -> (r: usize)
        ensures
            exists|now: i64|
                0 <= now <= MAX_CLOCK_MICROS && final(self)@ == unexpired(old(self)@, now) && r == count_expired(
                    old(self)@,
                    now,
                ),
    {
        let now = now_micros();
        self.cleanup_expired_at(now)
    }

    /// Whether a new code may be sent to `email` at `now`: there is no code
    /// for it, or its code was made at least `cooldown_seconds` whole seconds
    /// before.
    pub fn can_resend_at(&self, email: &str, cooldown_seconds: i64, now: i64) -> (r: bool)
        ensures
            r == resend_allowed(self@, email@, cooldown_seconds, now),
    {
        match self.get(email) {
            Some(c) => seconds_between(c.created_at, now) >= cooldown_seconds,
            None => true,
        }
    }

    /// Whether a new code may be sent to `email` now.
    pub fn can_resend(&self, email: &str, cooldown_seconds: i64) -> (r: bool)
        ensures
            exists|now: i64| 0 <= now <= MAX_CLOCK_MICROS && r == #[trigger] resend_allowed(self@, email@, cooldown_seconds, now),
    {
        self.can_resend_at(email, cooldown_seconds, now_micros())
    }

    /// Issues the code `code` for `email` at `now`, to be mailed: refused with
    /// "Too many requests. Wait before retry" while the address's last code is
    /// younger than 30 seconds; otherwise the code is kept for 15 minutes
    /// (replacing any earlier one) and returned.
    pub fn issue_code_at(&mut self, email: &str, code: String, now: i64) -> (r: Result<String, String>)
        ensures
            resend_allowed(old(self)@, email@, RESEND_COOLDOWN_SECONDS, now) ==> (r matches Ok(c) && c@ == code@
                && final(self)@ == put(old(self)@, record_at(email@, code@, SENT_CODE_TTL_MINUTES, now))),
            !resend_allowed(old(self)@, email@, RESEND_COOLDOWN_SECONDS, now) ==> (r matches Err(m) && m@
                == "Too many requests. Wait before retry"@ && final(self)@ == old(self)@),
    {
        if !self.can_resend_at(email, RESEND_COOLDOWN_SECONDS, now) {
            return Err(text_of("Too many requests. Wait before retry"));
        }
        Ok(self.create_at(email, SENT_CODE_TTL_MINUTES, code, now))
    }

    /// Issues a fresh random code for `email` now, as `issue_code_at` does. The instant is the one
    /// the system clock gives during the call; that clock may be set to any
    /// instant and may go back, so the contract holds for every instant it
    /// can give, and nothing ties it to a reading taken before the call.
    pub fn issue_code(&mut self, email: &str) -> (r: Result<String, String>)
        ensures
            exists|now: i64, n: nat|
                0 <= now <= MAX_CLOCK_MICROS && n < 1_000_000 && #[trigger] issue_outcome(old(self)@, final(self)@, email@, code_text(n), now, r),
    {
        let now = now_micros();
        let code = Generator::verification_code();
        let ghost before = self@;
        let ghost text = code@;
        let r = self.issue_code_at(email, code, now);
        proof {
            let n = choose|n: nat| n < 1_000_000 && text == code_text(n);
            assert(issue_outcome(before, self@, email@, code_text(n), now, r));
        }
        r
    }

    /// The code of `email` where it has one that has not expired at `now`;
    /// otherwise makes the code `code` at `now`, keeps it and returns it.
    pub fn get_or_create_at(&mut self, email: &str, ttl_minutes: i64, code: String, now: i64) -> (r: String)
        requires
            -MAX_TTL_MINUTES <= ttl_minutes <= MAX_TTL_MINUTES,
        ensures
            get_or_create_outcome(old(self)@, final(self)@, email@, ttl_minutes, code@, now, r@),
    {
        match self.get(email) {
            Some(c) => {
                if !c.is_expired_at(now) {
                    return c.code.clone();
                }
            },
            None => {},
        }
        self.create_at(email, ttl_minutes, code, now)
    }

    /// The code of `email` where it has one that has not expired; otherwise a
    /// fresh random code, kept and returned.
    pub fn get_or_create(&mut self, email: &str, ttl_minutes: i64) -> (r: String)
        requires
            -MAX_TTL_MINUTES <= ttl_minutes <= MAX_TTL_MINUTES,
        ensures
            exists|now: i64, n: nat|
                0 <= now <= MAX_CLOCK_MICROS && n < 1_000_000 && #[trigger] get_or_create_outcome(
                    old(self)@,
                    final(self)@,
                    email@,
                    ttl_minutes,
                    code_text(n),
                    now,
                    r@,
                ),
    {
        let now = now_micros();
        let code = Generator::verification_code();
        self.get_or_create_at(email, ttl_minutes, code, now)
    }
}

} // verus!
