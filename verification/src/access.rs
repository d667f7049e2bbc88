//! The decisions the request handlers take on what they have read: ids and
//! numbers from paths and bodies, who may do what in an event, invitations,
//! dates, and how a failed insert of a user is reported.

use vstd::prelude::*;
use crate::errors::AppError;
use crate::permissions::{EventPermissions, grants};
use crate::text::{parse_i64, parse_i32, parse_in_range, text_of, push_str, same_text};
use crate::user::{User, opt_view};
use crate::models::UserDataResponse;

verus! {

/// Reads an id from a path; text that is not an `i64` is refused with
/// `BadRequest("Invalid {what}")`.
pub fn parse_id(text: &str, what: &str) -> (r: Result<i64, AppError>)
    ensures
        match parse_in_range(text@, true, i64::MIN as int, i64::MAX as int) {
            Some(v) => r == Ok::<i64, AppError>(v as i64),
            None => (r matches Err(AppError::BadRequest(m)) && m@ == "Invalid "@ + what@),
        },
{
    match parse_i64(text) {
        Some(v) => Ok(v),
        None => {
            let mut m = text_of("Invalid ");
            push_str(&mut m, what);
            Err(AppError::BadRequest(m))
        },
    }
}

/// Reads new permission bits given as decimal text.
pub fn parse_new_permissions(text: &str) -> (r: Result<i32, AppError>)
    ensures
        match parse_in_range(text@, true, i32::MIN as int, i32::MAX as int) {
            Some(v) => r == Ok::<i32, AppError>(v as i32),
            None => (r matches Err(AppError::BadRequest(m)) && m@ == "permissions must be number"@),
        },
{
    match parse_i32(text) {
        Some(v) => Ok(v),
        None => Err(AppError::BadRequest(text_of("permissions must be number"))),
    }
}

/// The ids of a list given as text, or `None` where one of them is not an `i64`.
pub open spec fn parsed_ids(list: Seq<Seq<char>>) -> Option<Seq<i64>>
    decreases list.len(),
{
    if list.len() == 0 {
        Some(Seq::empty())
    } else {
        match parsed_ids(list.drop_last()) {
            None => None,
            Some(ids) => match parse_in_range(list.last(), true, i64::MIN as int, i64::MAX as int) {
                Some(v) => Some(ids.push(v as i64)),
                None => None,
            },
        }
    }
}

proof fn lemma_parsed_ids_none_stays(a: Seq<Seq<char>>, b: Seq<Seq<char>>)
    requires
        parsed_ids(a) is None,
    ensures
        parsed_ids(a + b) is None,
    decreases b.len(),
{
    if b.len() > 0 {
        lemma_parsed_ids_none_stays(a, b.drop_last());
        assert((a + b).drop_last() =~= a + b.drop_last());
    } else {
        assert(a + b =~= a);
    }
}

/// Reads the ids of items to remove; an absent list is empty, and a text that
/// is not an `i64` is refused with `BadRequest(message)`.
pub fn parse_id_list(list: Option<Vec<String>>, message: &str) -> (r: Result<Vec<i64>, AppError>)
    ensures
        match list {
            None => (r matches Ok(v) && v@.len() == 0),
            Some(l) => match parsed_ids(l@.map_values(|s: String| s@)) {
                Some(ids) => (r matches Ok(v) && v@ == ids),
                None => (r matches Err(AppError::BadRequest(m)) && m@ == message@),
            },
        },
{
    match list {
        None => Ok(Vec::new()),
        Some(l) => parse_each_id(&l, message),
    }
}

/// Parses every text of `l` as an id; the first that fails refuses the whole list.
fn parse_each_id(l: &Vec<String>, message: &str) -> (r: Result<Vec<i64>, AppError>)
    ensures
        match parsed_ids(l@.map_values(|s: String| s@)) {
            Some(ids) => (r matches Ok(v) && v@ == ids),
            None => (r matches Err(AppError::BadRequest(m)) && m@ == message@),
        },
{
    let ghost all = l@.map_values(|s: String| s@);
    let mut ids: Vec<i64> = Vec::new();
    let mut k: usize = 0;
    while k < l.len()
        invariant
            k <= l@.len(),
            all == l@.map_values(|s: String| s@),
            parsed_ids(all.subrange(0, k as int)) == Some(ids@),
        decreases l@.len() - k,
    {
        let ghost next = all.subrange(0, k + 1);
        assert(next.drop_last() =~= all.subrange(0, k as int));
        match parse_i64(l[k].as_str()) {
            Some(v) => {
                ids.push(v);
            },
            None => {
                proof {
                    lemma_parsed_ids_none_stays(next, all.subrange(k + 1, all.len() as int));
                    assert(next + all.subrange(k + 1, all.len() as int) =~= all);
                }
                return Err(AppError::BadRequest(text_of(message)));
            },
        }
        k = k + 1;
    }
    assert(all.subrange(0, all.len() as int) =~= all);
    Ok(ids)
}

/// The permissions given to the user who creates an event: owner and admin.
pub fn creator_permissions() -> (bits: i32)
    ensures
        bits == EventPermissions::OWNER | EventPermissions::ADMIN,
        grants(bits, EventPermissions::OWNER),
        grants(bits, EventPermissions::ADMIN),
        !grants(bits, EventPermissions::MEMBER),
{
    let mut p = EventPermissions::new();
    p.add_permission(EventPermissions::OWNER).add_permission(EventPermissions::ADMIN);
    let bits = p.get_bits();
    assert(0i32 | 4i32 == 4i32) by (bit_vector);
    assert((4i32 | 2i32) == 6i32) by (bit_vector);
    assert(6i32 & 4i32 != 0 && 6i32 & 2i32 != 0 && 6i32 & 1i32 == 0) by (bit_vector);
    bits
}

/// Whether a member may create or delete albums: the owner or an admin.
pub fn can_manage_albums(permissions: &EventPermissions) -> (r: bool)
    ensures
        r == (grants(permissions@, EventPermissions::OWNER) || grants(permissions@, EventPermissions::ADMIN)),
{
    permissions.check_permission(EventPermissions::OWNER) || permissions.check_permission(
        EventPermissions::ADMIN,
    )
}

/// Whether a member may delete a photo: the owner or an admin may delete
/// any, others only their own.
pub fn check_photo_delete(is_owner_or_admin: bool, uploaded_by: i64, user_id: i64) -> (r: Result<(), AppError>)
    ensures
        (is_owner_or_admin || uploaded_by == user_id) ==> r is Ok,
        !(is_owner_or_admin || uploaded_by == user_id) ==> (r matches Err(AppError::Forbidden(m)) && m@
            == "Not enough permissions to delete this photo"@),
{
    if !is_owner_or_admin && uploaded_by != user_id {
        return Err(AppError::Forbidden(text_of("Not enough permissions to delete this photo")));
    }
    Ok(())
}

/// Checks an invitation: its token must be known and name the event asked for.
pub fn check_invite_token(token_event_id: Option<i64>, event_id: i64) -> (r: Result<(), AppError>)
    ensures
        match token_event_id {
            None => (r matches Err(AppError::BadRequest(m)) && m@ == "Invalid or expired invite token"@),
            Some(id) => if id != event_id {
                (r matches Err(AppError::BadRequest(m)) && m@ == "Token does not match this event"@)
            } else {
                r is Ok
            },
        },
{
    match token_event_id {
        None => Err(AppError::BadRequest(text_of("Invalid or expired invite token"))),
        Some(id) => if id != event_id {
            Err(AppError::BadRequest(text_of("Token does not match this event")))
        } else {
            Ok(())
        },
    }
}

/// Checks that a user who joins an event is not in it yet.
pub fn check_not_member(is_member: bool) -> (r: Result<(), AppError>)
    ensures
        is_member ==> (r matches Err(AppError::BadRequest(m)) && m@ == "User already in event"@),
        !is_member ==> r is Ok,
{
    if is_member {
        return Err(AppError::BadRequest(text_of("User already in event")));
    }
    Ok(())
}

/// Whether `p` occurs in `s` as a run of consecutive characters.
pub open spec fn contains_text(s: Seq<char>, p: Seq<char>) -> bool {
    exists|i: int| 0 <= i && i + p.len() <= s.len() && #[trigger] s.subrange(i, i + p.len()) == p
}

/// Whether `p` occurs in `s`.
pub fn text_contains(s: &str, p: &str) -> (r: bool)
    ensures
        r == contains_text(s@, p@),
{
    let n = s.unicode_len();
    let m = p.unicode_len();
    if m > n {
        return false;
    }
    let mut i: usize = 0;
    while i <= n - m
        invariant
            n == s@.len(),
            m == p@.len(),
            m <= n,
            i <= n - m + 1,
            forall|j: int| 0 <= j < i ==> #[trigger] s@.subrange(j, j + m) != p@,
        decreases n - m + 1 - i,
    {
        let mut k: usize = 0;
        let mut same = true;
        while k < m
            invariant
                n == s@.len(),
                m == p@.len(),
                i + m <= n,
                k <= m,
                same == forall|q: int| 0 <= q < k ==> s@[i + q] == p@[q],
            decreases m - k,
        {
            if s.get_char(i + k) != p.get_char(k) {
                same = false;
            }
            k = k + 1;
        }
        if same {
            assert(s@.subrange(i as int, i + m) =~= p@);
            return true;
        }
        proof {
            assert(!(forall|q: int| 0 <= q < m ==> s@[i + q] == p@[q]));
            let q = choose|q: int| !(0 <= q < m ==> s@[i + q] == p@[q]);
            assert(s@.subrange(i as int, i + m)[q] != p@[q]);
        }
        i = i + 1;
    }
    false
}

/// How a failed insert of a new user is reported: a duplicate key on the
/// username or the address is a conflict, anything else an internal error.
pub fn classify_create_user_error(message: &str) -> (e: AppError)
    ensures
        (contains_text(message@, "duplicate key"@) && (contains_text(message@, "username"@)
            || contains_text(message@, "email"@))) ==> e matches AppError::Conflict,
        !(contains_text(message@, "duplicate key"@) && (contains_text(message@, "username"@)
            || contains_text(message@, "email"@))) ==> (e matches AppError::Internal(m) && m@
            == "Database error for create user"@),
{
    let duplicate = text_contains(message, "duplicate key");
    if duplicate && text_contains(message, "username") {
        return AppError::Conflict;
    }
    if duplicate && text_contains(message, "email") {
        return AppError::Conflict;
    }
    AppError::Internal(text_of("Database error for create user"))
}

/// The days a session lasts: the given setting where it reads as an `i64`,
/// else 30.
pub fn session_ttl_days(setting: &Option<String>) -> (d: i64)
    ensures
        d == match setting {
            Some(s) => match parse_in_range(s@, true, i64::MIN as int, i64::MAX as int) {
                Some(v) => v as i64,
                None => 30i64,
            },
            None => 30i64,
        },
{
    match setting {
        Some(s) => match parse_i64(s.as_str()) {
            Some(v) => v,
            None => 30,
        },
        None => 30,
    }
}

/// The instant, in microseconds since the epoch, that chrono reads from a
/// text as a `DateTime<Utc>` (a relaxed RFC 3339), if it reads one.
pub uninterp spec fn utc_datetime_micros(s: Seq<char>) -> Option<i64>;

/// chrono's `str::parse::<DateTime<Utc>>`, then `timestamp_micros`. The
/// contract names the answer and states nothing more of it.
#[verifier::external_body]
fn parse_utc_datetime(s: &str) -> (r: Option<i64>)
    ensures
        r == utc_datetime_micros(s@),
{
    match s.parse::<chrono::DateTime<chrono::Utc>>() {
        Ok(dt) => Some(dt.timestamp_micros()),
        Err(_) => None,
    }
}

/// Reads an optional date of a new event; one that chrono cannot read is
/// refused with `BadRequest(message)`.
pub fn parse_event_time(text: &Option<String>, message: &str) -> (r: Result<Option<i64>, AppError>)
    ensures
        match text {
            None => r == Ok::<Option<i64>, AppError>(None),
            Some(s) => match utc_datetime_micros(s@) {
                Some(t) => r == Ok::<Option<i64>, AppError>(Some(t)),
                None => (r matches Err(AppError::BadRequest(m)) && m@ == message@),
            },
        },
{
    match text {
        None => Ok(None),
        Some(s) => match parse_utc_datetime(s.as_str()) {
            Some(t) => Ok(Some(t)),
            None => Err(AppError::BadRequest(text_of(message))),
        },
    }
}

/// Reads an optional date of a change to an event; one that chrono cannot
/// read counts as absent.
pub fn parse_event_time_lenient(text: &Option<String>) -> (r: Option<i64>)
    ensures
        r == match text {
            None => None,
            Some(s) => utc_datetime_micros(s@),
        },
{
    match text {
        None => None,
        Some(s) => parse_utc_datetime(s.as_str()),
    }
}

/// The data of a user as it is answered: the display name is always given.
pub fn user_data_response(user: &User) -> (r: UserDataResponse)
    ensures
        r.user_id == user.user_id,
        r.username@ == user.username@,
        r.email@ == user.email@,
        opt_view(r.display_name) == Some(user.display_name@),
        opt_view(r.birthday) == opt_view(user.birthday),
        opt_view(r.description) == opt_view(user.description_profile),
{
    UserDataResponse {
        user_id: user.user_id,
        username: user.username.clone(),
        email: user.email.clone(),
        display_name: Some(user.display_name.clone()),
        birthday: match &user.birthday {
            Some(b) => Some(b.clone()),
            None => None,
        },
        description: match &user.description_profile {
            Some(d) => Some(d.clone()),
            None => None,
        },
    }
}

} // verus!
