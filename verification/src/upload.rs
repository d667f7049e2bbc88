//! The upload of a photo into an album, as the steps it takes between the
//! database, the request's multipart fields and the disk. The caller performs
//! each action and hands back what came of it; the upload decides the next
//! action.

use vstd::prelude::*;
use crate::access::parse_id;
use crate::errors::AppError;
use crate::models::PhotoResponse;
use crate::storage::{album_dir, album_dir_text, path_extension, photo_url, photo_url_text, stored_photo_name, upload_extension};
use crate::text::{int_text, same_text, text_of};
use crate::user::opt_view;

verus! {

/// Where an upload stands.
#[derive(Debug, Clone, Copy, PartialEq, Eq, Structural)]
pub enum UploadPhase {
    /// Waiting to learn whether the user is a member of the event.
    Member,
    /// Waiting to learn whether the album belongs to the event.
    Album,
    /// Waiting for the next multipart field.
    Fields,
    /// Waiting for the bytes of the photo field.
    Reading,
    /// Waiting for the new photo's row.
    Inserting,
    /// Waiting for the file to be written and the row to name it.
    Saving,
    /// Finished.
    Done,
}

/// What came of the last action.
#[derive(Debug)]
pub enum UploadEvent {
    /// Whether the user is a member of the event.
    Member(bool),
    /// Whether the album belongs to the event.
    AlbumInEvent(bool),
    /// The next multipart field: its name, file name and content type.
    Field { name: Option<String>, file_name: Option<String>, content_type: Option<String> },
    /// The request holds no more fields.
    NoMoreFields,
    /// The number of bytes read from the photo field, or `None` where they
    /// could not be read.
    Read(Option<i64>),
    /// The new photo's row: its id and when it was made.
    Inserted { photo_id: i64, created_at: i64 },
    /// The file was written and the row names it.
    Saved,
}

/// What the caller is to do next.
#[derive(Debug)]
pub enum UploadAction {
    /// Ask whether `user_id` is a member of `event_id`.
    CheckMember { event_id: i64, user_id: i64 },
    /// Ask whether `album_id` belongs to `event_id`.
    CheckAlbum { album_id: i64, event_id: i64 },
    /// Read the next multipart field.
    NextField,
    /// Read the bytes of the current field.
    ReadField,
    /// Insert a photo row (stored name `temp` until it is saved).
    Insert { album_id: i64, original_name: String, mime_type: String, file_size: i64, uploaded_by: i64 },
    /// Create `dir`, write the bytes there under `stored_name`, and give the
    /// row of `photo_id` that name.
    Save { dir: String, stored_name: String, photo_id: i64 },
    /// Answer `201 Created` with the photo.
    Respond(PhotoResponse),
    /// Answer with the error.
    Fail(AppError),
}

/// An upload of a photo into an album of an event by a user.
#[derive(Debug)]
pub struct PhotoUpload {
    pub phase: UploadPhase,
    pub event_id: i64,
    pub album_id: i64,
    pub user_id: i64,
    pub file_name: String,
    pub extension: String,
    pub mime_type: String,
    pub file_size: i64,
    pub photo_id: i64,
    pub created_at: i64,
    pub stored_name: String,
}

/// Whether an event answers the action of a phase.
pub open spec fn expects(p: UploadPhase, e: UploadEvent) -> bool {
    match p {
        UploadPhase::Member => e is Member,
        UploadPhase::Album => e is AlbumInEvent,
        UploadPhase::Fields => e is Field || e is NoMoreFields,
        UploadPhase::Reading => e is Read,
        UploadPhase::Inserting => e is Inserted,
        UploadPhase::Saving => e is Saved,
        UploadPhase::Done => false,
    }
}

/// Whether a field is the photo: its name is `photo`.
pub open spec fn is_photo_field(e: UploadEvent) -> bool {
    &&& e matches UploadEvent::Field { name, .. }
    &&& opt_view(name) == Some("photo"@)
}

/// The phase an upload moves to on an event it expects.
pub open spec fn next_phase(p: UploadPhase, e: UploadEvent) -> UploadPhase {
    match p {
        UploadPhase::Member => if e == UploadEvent::Member(true) {
            UploadPhase::Album
        } else {
            UploadPhase::Done
        },
        UploadPhase::Album => if e == UploadEvent::AlbumInEvent(true) {
            UploadPhase::Fields
        } else {
            UploadPhase::Done
        },
        UploadPhase::Fields => if is_photo_field(e) {
            UploadPhase::Reading
        } else if e is Field {
            UploadPhase::Fields
        } else {
            UploadPhase::Done
        },
        UploadPhase::Reading => if e matches UploadEvent::Read(Some(_)) {
            UploadPhase::Inserting
        } else {
            UploadPhase::Done
        },
        UploadPhase::Inserting => UploadPhase::Saving,
        UploadPhase::Saving => UploadPhase::Done,
        UploadPhase::Done => UploadPhase::Done,
    }
}

/// Whether an action writes: inserts a row or writes a file.
pub open spec fn writes(a: UploadAction) -> bool {
    a is Insert || a is Save
}

/// The phase after a run of events from the start.
pub open spec fn phase_after(es: Seq<UploadEvent>) -> UploadPhase
    decreases es.len(),
{
    if es.len() == 0 {
        UploadPhase::Member
    } else {
        next_phase(phase_after(es.drop_last()), es.last())
    }
}

/// The file name of a photo field: its own, or `photo.jpg`.
pub open spec fn field_file_name(file_name: Option<String>) -> Seq<char> {
    match file_name {
        Some(f) => f@,
        None => "photo.jpg"@,
    }
}

/// The content type of a photo field: its own, or
/// `application/octet-stream`.
pub open spec fn field_mime(content_type: Option<String>) -> Seq<char> {
    match content_type {
        Some(c) => c@,
        None => "application/octet-stream"@,
    }
}

/// The extension a file is stored with.
pub open spec fn stored_extension(name: Seq<char>) -> Seq<char> {
    match path_extension(name) {
        Some(x) => x,
        None => "jpg"@,
    }
}

/// Whether the upload `u` keeps the ids of `v`.
pub open spec fn same_ids(u: PhotoUpload, v: PhotoUpload) -> bool {
    u.event_id == v.event_id && u.album_id == v.album_id && u.user_id == v.user_id
}

/// A copy of an optional text, or `default` where it is absent.
fn text_or(s: &Option<String>, default: &str) -> (r: String)
    ensures
        r@ == match *s {
            Some(t) => t@,
            None => default@,
        },
{
    match s {
        Some(t) => t.clone(),
        None => text_of(default),
    }
}

impl PhotoUpload {
    /// Reads the event and album ids of an upload from the request's path;
    /// text that is not an id is refused with `Invalid event_id` or
    /// `Invalid album_id`, the event's first.
    pub fn parse_ids(event_id: &str, album_id: &str) -> (r: Result<(i64, i64), AppError>)
        ensures
            match crate::text::parse_in_range(event_id@, true, i64::MIN as int, i64::MAX as int) {
                None => (r matches Err(AppError::BadRequest(m)) && m@ == "Invalid event_id"@),
                Some(ev) => match crate::text::parse_in_range(album_id@, true, i64::MIN as int, i64::MAX as int) {
                    None => (r matches Err(AppError::BadRequest(m)) && m@ == "Invalid album_id"@),
                    Some(al) => r == Ok::<(i64, i64), AppError>((ev as i64, al as i64)),
                },
            },
    {
        proof {
            reveal_strlit("Invalid ");
            reveal_strlit("event_id");
            reveal_strlit("album_id");
            reveal_strlit("Invalid event_id");
            reveal_strlit("Invalid album_id");
        }
        let e = match parse_id(event_id, "event_id") {
            Ok(v) => v,
            Err(err) => return Err(err),
        };
        let a = match parse_id(album_id, "album_id") {
            Ok(v) => v,
            Err(err) => return Err(err),
        };
        Ok((e, a))
    }

    /// An upload by `user_id` into `album_id` of `event_id`; it first asks
    /// whether the user is a member of the event.
    pub fn new(event_id: i64, album_id: i64, user_id: i64) -> (r: (PhotoUpload, UploadAction))
        ensures
            r.0.phase == UploadPhase::Member,
            r.0.event_id == event_id,
            r.0.album_id == album_id,
            r.0.user_id == user_id,
            r.1 == (UploadAction::CheckMember { event_id, user_id }),
    {
        let u = PhotoUpload {
            phase: UploadPhase::Member,
            event_id,
            album_id,
            user_id,
            file_name: String::new(),
            extension: String::new(),
            mime_type: String::new(),
            file_size: 0,
            photo_id: 0,
            created_at: 0,
            stored_name: String::new(),
        };
        (u, UploadAction::CheckMember { event_id, user_id })
    }

    /// Whether the upload expects `e` now.
    pub fn expects(&self, e: &UploadEvent) -> (r: bool)
        ensures
            r == expects(self.phase, *e),
    {
        match self.phase {
            UploadPhase::Member => matches!(e, UploadEvent::Member(_)),
            UploadPhase::Album => matches!(e, UploadEvent::AlbumInEvent(_)),
            UploadPhase::Fields => matches!(e, UploadEvent::Field { .. }) || matches!(e, UploadEvent::NoMoreFields),
            UploadPhase::Reading => matches!(e, UploadEvent::Read(_)),
            UploadPhase::Inserting => matches!(e, UploadEvent::Inserted { .. }),
            UploadPhase::Saving => matches!(e, UploadEvent::Saved),
            UploadPhase::Done => false,
        }
    }

    /// Takes what came of the last action and gives the next one. A user who
    /// is not a member fails with `UserNotInEvent("User not in event")`, an
    /// album of another event with `NotFound("Album not found")`; fields not
    /// named `photo` are skipped, and a request without one fails with
    /// `BadRequest("No photo file provided")`; bytes that cannot be read fail
    /// with `BadRequest("Failed to read file")`. The photo is inserted, then
    /// saved as `{photo_id}.{ext}` in the album's directory, then answered.
    pub fn step(&mut self, e: UploadEvent) -> (a: UploadAction)
        requires
            expects(old(self).phase, e),
        ensures
            final(self).phase == next_phase(old(self).phase, e),
            same_ids(*final(self), *old(self)),
            writes(a) <==> (final(self).phase == UploadPhase::Inserting || final(self).phase == UploadPhase::Saving),
            match old(self).phase {
                UploadPhase::Member => if e == UploadEvent::Member(true) {
                    a == (UploadAction::CheckAlbum { album_id: old(self).album_id, event_id: old(self).event_id })
                } else {
                    a matches UploadAction::Fail(AppError::UserNotInEvent(m)) && m@ == "User not in event"@
                },
                UploadPhase::Album => if e == UploadEvent::AlbumInEvent(true) {
                    a is NextField
                } else {
                    a matches UploadAction::Fail(AppError::NotFound(m)) && m@ == "Album not found"@
                },
                UploadPhase::Fields => match e {
                    UploadEvent::Field { name, file_name, content_type } => if is_photo_field(e) {
                        &&& a is ReadField
                        &&& final(self).file_name@ == field_file_name(file_name)
                        &&& final(self).extension@ == stored_extension(field_file_name(file_name))
                        &&& final(self).mime_type@ == field_mime(content_type)
                    } else {
                        a is NextField
                    },
                    _ => a matches UploadAction::Fail(AppError::BadRequest(m)) && m@ == "No photo file provided"@,
                },
                UploadPhase::Reading => match e {
                    UploadEvent::Read(Some(size)) => {
                        &&& a matches UploadAction::Insert { album_id, original_name, mime_type, file_size, uploaded_by }
                        &&& album_id == old(self).album_id
                        &&& original_name@ == old(self).file_name@
                        &&& mime_type@ == old(self).mime_type@
                        &&& file_size == size
                        &&& uploaded_by == old(self).user_id
                        &&& final(self).file_size == size
                        &&& final(self).file_name@ == old(self).file_name@
                        &&& final(self).extension@ == old(self).extension@
                        &&& final(self).mime_type@ == old(self).mime_type@
                    },
                    _ => a matches UploadAction::Fail(AppError::BadRequest(m)) && m@ == "Failed to read file"@,
                },
                UploadPhase::Inserting => match e {
                    UploadEvent::Inserted { photo_id, created_at } => {
                        &&& a matches UploadAction::Save { dir, stored_name, photo_id: p }
                        &&& dir@ == album_dir_text(old(self).event_id, old(self).album_id)
                        &&& stored_name@ == int_text(photo_id as int) + "."@ + old(self).extension@
                        &&& p == photo_id
                        &&& final(self).photo_id == photo_id
                        &&& final(self).created_at == created_at
                        &&& final(self).stored_name@ == stored_name@
                        &&& final(self).file_name@ == old(self).file_name@
                        &&& final(self).mime_type@ == old(self).mime_type@
                        &&& final(self).file_size == old(self).file_size
                    },
                    _ => false,
                },
                UploadPhase::Saving => {
                    &&& a matches UploadAction::Respond(r)
                    &&& r.photo_id == old(self).photo_id
                    &&& r.file_name@ == old(self).stored_name@
                    &&& opt_view(r.original_name) == Some(old(self).file_name@)
                    &&& opt_view(r.mime_type) == Some(old(self).mime_type@)
                    &&& r.file_size == Some(old(self).file_size)
                    &&& r.uploaded_by == old(self).user_id
                    &&& r.created_at == old(self).created_at
                    &&& r.url@ == photo_url_text(old(self).event_id, old(self).album_id, old(self).photo_id)
                },
                UploadPhase::Done => false,
            },
    {
        match self.phase {
            UploadPhase::Member => {
                if let UploadEvent::Member(true) = e {
                    self.phase = UploadPhase::Album;
                    UploadAction::CheckAlbum { album_id: self.album_id, event_id: self.event_id }
                } else {
                    self.phase = UploadPhase::Done;
                    UploadAction::Fail(AppError::UserNotInEvent(text_of("User not in event")))
                }
            },
            UploadPhase::Album => {
                if let UploadEvent::AlbumInEvent(true) = e {
                    self.phase = UploadPhase::Fields;
                    UploadAction::NextField
                } else {
                    self.phase = UploadPhase::Done;
                    UploadAction::Fail(AppError::NotFound(text_of("Album not found")))
                }
            },
            UploadPhase::Fields => {
                match e {
                    UploadEvent::Field { name, file_name, content_type } => {
                        let is_photo = match &name {
                            Some(n) => same_text(n.as_str(), "photo"),
                            None => false,
                        };
                        if is_photo {
                            let f = text_or(&file_name, "photo.jpg");
                            self.extension = upload_extension(f.as_str());
                            self.mime_type = text_or(&content_type, "application/octet-stream");
                            self.file_name = f;
                            self.phase = UploadPhase::Reading;
                            UploadAction::ReadField
                        } else {
                            UploadAction::NextField
                        }
                    },
                    _ => {
                        self.phase = UploadPhase::Done;
                        UploadAction::Fail(AppError::BadRequest(text_of("No photo file provided")))
                    },
                }
            },
            UploadPhase::Reading => {
                match e {
                    UploadEvent::Read(Some(size)) => {
                        self.file_size = size;
                        self.phase = UploadPhase::Inserting;
                        UploadAction::Insert {
                            album_id: self.album_id,
                            original_name: self.file_name.clone(),
                            mime_type: self.mime_type.clone(),
                            file_size: size,
                            uploaded_by: self.user_id,
                        }
                    },
                    _ => {
                        self.phase = UploadPhase::Done;
                        UploadAction::Fail(AppError::BadRequest(text_of("Failed to read file")))
                    },
                }
            },
            UploadPhase::Inserting => {
                match e {
                    UploadEvent::Inserted { photo_id, created_at } => {
                        let stored = stored_photo_name(photo_id, self.extension.as_str());
                        self.photo_id = photo_id;
                        self.created_at = created_at;
                        self.stored_name = stored.clone();
                        self.phase = UploadPhase::Saving;
                        UploadAction::Save { dir: album_dir(self.event_id, self.album_id), stored_name: stored, photo_id }
                    },
                    _ => {
                        self.phase = UploadPhase::Done;
                        UploadAction::Fail(AppError::Internal(text_of("Upload out of order")))
                    },
                }
            },
            UploadPhase::Saving => {
                self.phase = UploadPhase::Done;
                UploadAction::Respond(PhotoResponse {
                    photo_id: self.photo_id,
                    file_name: self.stored_name.clone(),
                    original_name: Some(self.file_name.clone()),
                    mime_type: Some(self.mime_type.clone()),
                    file_size: Some(self.file_size),
                    uploaded_by: self.user_id,
                    created_at: self.created_at,
                    url: photo_url(self.event_id, self.album_id, self.photo_id),
                })
            },
            UploadPhase::Done => UploadAction::Fail(AppError::Internal(text_of("Upload out of order"))),
        }
    }
}

/// A run of events reaches the reading of fields, or a phase that writes
/// (inserting a row, then saving the file), only after the user was found to
/// be a member of the event and, later, the album was found to belong to it.
pub proof fn law_writes_follow_checks(es: Seq<UploadEvent>)
    requires
        phase_after(es) == UploadPhase::Reading || phase_after(es) == UploadPhase::Inserting
            || phase_after(es) == UploadPhase::Saving || phase_after(es) == UploadPhase::Fields,
    ensures
        exists|i: int, j: int|
            0 <= i < j < es.len() && #[trigger] es[i] == UploadEvent::Member(true) && #[trigger] es[j]
                == UploadEvent::AlbumInEvent(true),
    decreases es.len(),
{
    let p = phase_after(es.drop_last());
    let last = es.last();
    if p == UploadPhase::Album {
        assert(last == UploadEvent::AlbumInEvent(true));
        lemma_album_follows_member(es.drop_last());
        let i = choose|i: int| 0 <= i < es.drop_last().len() && #[trigger] es.drop_last()[i] == UploadEvent::Member(true);
        assert(es[i] == UploadEvent::Member(true));
        assert(es[es.len() - 1] == UploadEvent::AlbumInEvent(true));
    } else {
        law_writes_follow_checks(es.drop_last());
        let (i, j) = choose|i: int, j: int|
            0 <= i < j < es.drop_last().len() && #[trigger] es.drop_last()[i] == UploadEvent::Member(true)
                && #[trigger] es.drop_last()[j] == UploadEvent::AlbumInEvent(true);
        assert(es[i] == es.drop_last()[i]);
        assert(es[j] == es.drop_last()[j]);
    }
}

/// A run of events reaches the album check only after the user was found to
/// be a member.
proof fn lemma_album_follows_member(es: Seq<UploadEvent>)
    requires
        phase_after(es) == UploadPhase::Album,
    ensures
        exists|i: int| 0 <= i < es.len() && #[trigger] es[i] == UploadEvent::Member(true),
    decreases es.len(),
{
    let p = phase_after(es.drop_last());
    assert(p == UploadPhase::Member);
    assert(es[es.len() - 1] == UploadEvent::Member(true));
}

} // verus!
