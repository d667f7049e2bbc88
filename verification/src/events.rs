//! Events, their members and their chat, and the answers built from them.

use vstd::prelude::*;
use crate::errors::AppError;
use crate::models::CreateEventResponse;
use crate::permissions::EventPermissions;
use crate::storage::invite_link;
use crate::text::{bin_digits, i32_bits_value, int_text, i64_to_text, text_of};
use crate::user::opt_view;

verus! {

/// A message of an event's chat.
#[derive(Debug, Clone)]
pub struct ChatMessage {
    pub username: String,
    pub text: String,
    pub timestamp: u64,
    pub message_id: u64,
    pub event_id: u64,
    pub subgroups: Option<String>,
}

/// An event as the database holds it; instants are microseconds since the
/// epoch.
#[derive(Debug)]
pub struct Events {
    pub event_id: i64,
    pub title: String,
    pub description_event: Option<String>,
    pub start_date_time: Option<i64>,
    pub end_date_time: Option<i64>,
    pub color: String,
    pub created_at: i64,
    pub status_event: String,
    pub location: Option<String>,
}

/// A member of an event, by id and name.
#[derive(Debug)]
pub struct EventParticipant {
    pub user_id: i64,
    pub username: String,
}

/// A user's place in an event: their permissions and when they joined.
#[derive(Debug)]
pub struct EventUser {
    pub user_id: i64,
    pub event_id: i64,
    pub permissions: EventPermissions,
    pub joined_at: i64,
}

/// An event with its members, the asking user's permissions in binary and,
/// for the owner, the link that invites others.
#[derive(Debug)]
pub struct GetEventDetailedResponse {
    pub event: Events,
    pub invite_link: Option<String>,
    pub members: Vec<EventParticipant>,
    pub permissions: String,
}

/// The RFC 3339 text that chrono writes for an instant given in microseconds
/// since the epoch, where chrono can represent the instant.
pub uninterp spec fn rfc3339_of(micros: i64) -> Option<Seq<char>>;

/// chrono's `DateTime::<Utc>::from_timestamp_micros`, then `to_rfc3339`. The
/// contract names the answer and states nothing more of it.
#[verifier::external_body]
fn rfc3339_text(micros: i64) -> (r: Option<String>)
    ensures
        opt_view(r) == rfc3339_of(micros),
{
    match chrono::DateTime::<chrono::Utc>::from_timestamp_micros(micros) {
        Some(d) => Some(d.to_rfc3339()),
        None => None,
    }
}

/// `true` or `false`, as Rust writes a `bool`.
pub open spec fn bool_text(b: bool) -> Seq<char> {
    if b {
        "true"@
    } else {
        "false"@
    }
}

/// Whether an optional instant can be written (absent ones can).
pub open spec fn opt_time_writable(t: Option<i64>) -> bool {
    match t {
        Some(m) => rfc3339_of(m) is Some,
        None => true,
    }
}

/// An optional instant as written.
pub open spec fn opt_time_text(t: Option<i64>) -> Option<Seq<char>> {
    match t {
        Some(m) => rfc3339_of(m),
        None => None,
    }
}

/// Whether every instant of `e` can be written.
pub open spec fn event_times_writable(e: Events) -> bool {
    &&& rfc3339_of(e.created_at) is Some
    &&& opt_time_writable(e.start_date_time)
    &&& opt_time_writable(e.end_date_time)
}

/// Writes an optional instant; `None` where it is present but cannot be
/// written.
fn opt_time_to_text(t: Option<i64>) -> (r: Option<Option<String>>)
    ensures
        match r {
            Some(v) => opt_time_writable(t) && opt_view(v) == opt_time_text(t),
            None => !opt_time_writable(t),
        },
{
    match t {
        Some(m) => match rfc3339_text(m) {
            Some(s) => Some(Some(s)),
            None => None,
        },
        None => Some(None),
    }
}

/// `true` or `false`.
fn bool_to_text(b: bool) -> (s: String)
    ensures
        s@ == bool_text(b),
{
    if b {
        text_of("true")
    } else {
        text_of("false")
    }
}

/// A copy of an optional text.
fn copy_opt(s: &Option<String>) -> (r: Option<String>)
    ensures
        opt_view(r) == opt_view(*s),
{
    match s {
        Some(t) => Some(t.clone()),
        None => None,
    }
}

/// The answer to the creation of an event: its id as text, its fields, its
/// instants in RFC 3339, and whether the asking user is its owner as
/// `true`/`false`. An instant that chrono cannot represent is reported as an
/// internal error.
pub fn create_event_response(event: &Events, created_by: bool) -> (r: Result<CreateEventResponse, AppError>)
    ensures
        event_times_writable(*event) ==> (r matches Ok(c) && {
            &&& c.event_id@ == int_text(event.event_id as int)
            &&& c.title@ == event.title@
            &&& opt_view(c.description_event) == opt_view(event.description_event)
            &&& opt_view(c.location) == opt_view(event.location)
            &&& opt_view(c.start_date_time) == opt_time_text(event.start_date_time)
            &&& opt_view(c.end_date_time) == opt_time_text(event.end_date_time)
            &&& c.color@ == event.color@
            &&& c.created_by@ == bool_text(created_by)
            &&& Some(c.created_at@) == rfc3339_of(event.created_at)
            &&& c.status_event@ == event.status_event@
        }),
        !event_times_writable(*event) ==> (r matches Err(AppError::Internal(m)) && m@
            == "Invalid event time"@),
{
    let start = match opt_time_to_text(event.start_date_time) {
        Some(v) => v,
        None => return Err(AppError::Internal(text_of("Invalid event time"))),
    };
    let end = match opt_time_to_text(event.end_date_time) {
        Some(v) => v,
        None => return Err(AppError::Internal(text_of("Invalid event time"))),
    };
    let created_at = match rfc3339_text(event.created_at) {
        Some(v) => v,
        None => return Err(AppError::Internal(text_of("Invalid event time"))),
    };
    Ok(CreateEventResponse {
        event_id: i64_to_text(event.event_id),
        title: event.title.clone(),
        description_event: copy_opt(&event.description_event),
        location: copy_opt(&event.location),
        start_date_time: start,
        end_date_time: end,
        color: event.color.clone(),
        created_by: bool_to_text(created_by),
        created_at,
        status_event: event.status_event.clone(),
    })
}

/// The detailed answer about an event: the owner is given the link that
/// invites with `invite_token`, others no link; the asking user's permissions
/// are written in binary.
pub fn detailed_event_response(
    event: Events,
    is_owner: bool,
    invite_token: &str,
    members: Vec<EventParticipant>,
    permissions: EventPermissions,
) -> (r: GetEventDetailedResponse)
    ensures
        r.event == event,
        r.members == members,
        r.permissions@ == bin_digits(i32_bits_value(permissions@)),
        is_owner ==> opt_view(r.invite_link) == Some("https://kruug.netlify.app/invite?token="@ + invite_token@),
        !is_owner ==> r.invite_link is None,
{
    let link = if is_owner {
        Some(invite_link(invite_token))
    } else {
        None
    };
    GetEventDetailedResponse { event, invite_link: link, members, permissions: permissions.to_binary_string() }
}

} // verus!
