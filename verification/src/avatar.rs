//! The upload of an avatar, a user's own or an event's, as the steps it takes
//! between the database, the request's multipart fields and the disk. The
//! caller performs each action and hands back what came of it; the upload
//! decides the next action.

use vstd::prelude::*;
use crate::errors::AppError;
use crate::storage::{avatar_field_file_name, avatar_file_name, get_event_avatar_dir, upload_extension, user_avatar_dir};
use crate::text::{int_text, text_of};
use crate::upload::stored_extension;

verus! {

/// Whose avatar is uploaded: the user's own, or that of an event.
#[derive(Debug, Clone, Copy, PartialEq, Eq, Structural)]
pub enum AvatarOwner {
    User,
    Event(i64),
}

/// Where an avatar upload stands.
#[derive(Debug, Clone, Copy, PartialEq, Eq, Structural)]
pub enum AvatarPhase {
    /// Waiting to learn whether the user is a member of the event.
    Member,
    /// Waiting to learn whether the user owns the event.
    Owner,
    /// Waiting for the next multipart field.
    Fields,
    /// Waiting for the bytes of the avatar field.
    Reading,
    /// Waiting for the file to be written.
    Saving,
    /// Waiting for the user's avatar address to be recorded.
    Recording,
    /// Finished.
    Done,
}

/// What came of the last action.
#[derive(Debug)]
pub enum AvatarEvent {
    /// Whether the user is a member of the event.
    Member(bool),
    /// Whether the user owns the event.
    Owner(bool),
    /// The next multipart field: its name and file name.
    Field { name: Option<String>, file_name: Option<String> },
    /// The request holds no more fields.
    NoMoreFields,
    /// Whether the bytes of the field could be read.
    Read(bool),
    /// The directory could not be made.
    DirNotMade,
    /// The file could not be written.
    NotWritten,
    /// The file was written.
    Written,
    /// Whether the user's avatar address was recorded.
    UrlSet(bool),
}

/// What the caller is to do next.
#[derive(Debug)]
pub enum AvatarAction {
    /// Ask whether `user_id` is a member of `event_id`.
    CheckMember { event_id: i64, user_id: i64 },
    /// Ask whether `user_id` owns `event_id`.
    CheckOwner { event_id: i64, user_id: i64 },
    /// Read the next multipart field.
    NextField,
    /// Read the bytes of the current field.
    ReadField,
    /// Make `dir`, remove the files in it whose names begin with
    /// `remove_prefix`, and write the bytes there under `name`.
    Save { dir: String, remove_prefix: String, name: String },
    /// Record `url` as the avatar address of `user_id`.
    SetUrl { user_id: i64, url: String },
    /// Answer `200 OK` with `{"success": true}`.
    Respond,
    /// Answer with the error.
    Fail(AppError),
}

/// An avatar upload by a user.
#[derive(Debug)]
pub struct AvatarUpload {
    pub phase: AvatarPhase,
    pub owner: AvatarOwner,
    pub user_id: i64,
    pub extension: String,
}

/// Whether `u` expects the event `e` now; only an event's avatar is checked
/// for membership and ownership.
pub open spec fn avatar_expects(u: AvatarUpload, e: AvatarEvent) -> bool {
    match u.phase {
        AvatarPhase::Member => e is Member && u.owner is Event,
        AvatarPhase::Owner => e is Owner && u.owner is Event,
        AvatarPhase::Fields => e is Field || e is NoMoreFields,
        AvatarPhase::Reading => e is Read,
        AvatarPhase::Saving => e is DirNotMade || e is NotWritten || e is Written,
        AvatarPhase::Recording => e is UrlSet,
        AvatarPhase::Done => false,
    }
}

/// The file name a field carries as an avatar: the field is named `avatar`
/// and has a file name; any other field carries none.
pub open spec fn avatar_file_of(e: AvatarEvent) -> Option<Seq<char>> {
    match e {
        AvatarEvent::Field { name: Some(n), file_name: Some(f) } => if n@ == "avatar"@ {
            Some(f@)
        } else {
            None
        },
        _ => None,
    }
}

/// The phase an upload for `owner` moves to from `p` on an event it expects.
pub open spec fn avatar_next(p: AvatarPhase, owner: AvatarOwner, e: AvatarEvent) -> AvatarPhase {
    match p {
        AvatarPhase::Member => if e == AvatarEvent::Member(true) {
            AvatarPhase::Owner
        } else {
            AvatarPhase::Done
        },
        AvatarPhase::Owner => if e == AvatarEvent::Owner(true) {
            AvatarPhase::Fields
        } else {
            AvatarPhase::Done
        },
        AvatarPhase::Fields => if avatar_file_of(e) is Some {
            AvatarPhase::Reading
        } else if e is Field {
            AvatarPhase::Fields
        } else {
            AvatarPhase::Done
        },
        AvatarPhase::Reading => if e == AvatarEvent::Read(true) {
            AvatarPhase::Saving
        } else {
            AvatarPhase::Done
        },
        AvatarPhase::Saving => if e == AvatarEvent::Written && owner == AvatarOwner::User {
            AvatarPhase::Recording
        } else {
            AvatarPhase::Done
        },
        _ => AvatarPhase::Done,
    }
}

/// The phase an upload for `owner` starts in: an event's avatar first checks
/// the user, a user's own goes straight to the fields.
pub open spec fn avatar_start(owner: AvatarOwner) -> AvatarPhase {
    match owner {
        AvatarOwner::User => AvatarPhase::Fields,
        AvatarOwner::Event(_) => AvatarPhase::Member,
    }
}

/// The phase after a run of events from the start.
pub open spec fn avatar_phase_after(owner: AvatarOwner, es: Seq<AvatarEvent>) -> AvatarPhase
    decreases es.len(),
{
    if es.len() == 0 {
        avatar_start(owner)
    } else {
        avatar_next(avatar_phase_after(owner, es.drop_last()), owner, es.last())
    }
}

/// The directory an avatar of `owner` is kept in.
pub open spec fn avatar_dir_text(owner: AvatarOwner, user_id: i64) -> Seq<char> {
    match owner {
        AvatarOwner::User => "uploads/avatars/user_"@ + int_text(user_id as int),
        AvatarOwner::Event(id) => "uploads/event_avatars/event_"@ + int_text(id as int),
    }
}

/// The message of a directory that could not be made.
pub open spec fn dir_failure_text(owner: AvatarOwner) -> Seq<char> {
    match owner {
        AvatarOwner::User => "Failed to create user dir"@,
        AvatarOwner::Event(_) => "Failed to create directory"@,
    }
}

impl AvatarUpload {
    /// An upload of `owner`'s avatar by `user_id`: an event's first asks
    /// whether the user is a member of it, a user's own asks for the first
    /// field.
    pub fn new(owner: AvatarOwner, user_id: i64) -> (r: (AvatarUpload, AvatarAction))
        ensures
            r.0.phase == avatar_start(owner),
            r.0.owner == owner,
            r.0.user_id == user_id,
            match owner {
                AvatarOwner::User => r.1 is NextField,
                AvatarOwner::Event(id) => r.1 == (AvatarAction::CheckMember { event_id: id, user_id }),
            },
    {
        match owner {
            AvatarOwner::User => {
                let u = AvatarUpload { phase: AvatarPhase::Fields, owner, user_id, extension: String::new() };
                (u, AvatarAction::NextField)
            },
            AvatarOwner::Event(id) => {
                let u = AvatarUpload { phase: AvatarPhase::Member, owner, user_id, extension: String::new() };
                (u, AvatarAction::CheckMember { event_id: id, user_id })
            },
        }
    }

    /// Whether the upload expects `e` now.
    pub fn expects(&self, e: &AvatarEvent) -> (r: bool)
        ensures
            r == avatar_expects(*self, *e),
    {
        let event_owner = match self.owner {
            AvatarOwner::Event(_) => true,
            AvatarOwner::User => false,
        };
        match self.phase {
            AvatarPhase::Member => matches!(e, AvatarEvent::Member(_)) && event_owner,
            AvatarPhase::Owner => matches!(e, AvatarEvent::Owner(_)) && event_owner,
            AvatarPhase::Fields => matches!(e, AvatarEvent::Field { .. }) || matches!(e, AvatarEvent::NoMoreFields),
            AvatarPhase::Reading => matches!(e, AvatarEvent::Read(_)),
            AvatarPhase::Saving => matches!(e, AvatarEvent::DirNotMade) || matches!(e, AvatarEvent::NotWritten)
                || matches!(e, AvatarEvent::Written),
            AvatarPhase::Recording => matches!(e, AvatarEvent::UrlSet(_)),
            AvatarPhase::Done => false,
        }
    }

    /// Takes what came of the last action and gives the next one. A user who
    /// is not in the event fails with `Forbidden("User not in event")`, one
    /// who does not own it with `Forbidden("Not enough permissions")`, before
    /// any field is read. Fields not named `avatar` or without a file name
    /// are skipped, and a request without one fails with
    /// `BadRequest("No file provided")`; bytes that cannot be read fail with
    /// `BadRequest("Failed to read file")`. The bytes are saved as
    /// `avatar.{ext}` in the owner's directory, after the old avatar files
    /// are removed; a user's avatar address then becomes `/user/avatar`.
    pub fn step(&mut self, e: AvatarEvent) -> (a: AvatarAction)
        requires
            avatar_expects(*old(self), e),
        ensures
            final(self).phase == avatar_next(old(self).phase, old(self).owner, e),
            final(self).owner == old(self).owner,
            final(self).user_id == old(self).user_id,
            (a is Save) <==> final(self).phase == AvatarPhase::Saving,
            match old(self).phase {
                AvatarPhase::Member => if e == AvatarEvent::Member(true) {
                    a == (AvatarAction::CheckOwner { event_id: old(self).owner->0, user_id: old(self).user_id })
                } else {
                    a matches AvatarAction::Fail(AppError::Forbidden(m)) && m@ == "User not in event"@
                },
                AvatarPhase::Owner => if e == AvatarEvent::Owner(true) {
                    a is NextField
                } else {
                    a matches AvatarAction::Fail(AppError::Forbidden(m)) && m@ == "Not enough permissions"@
                },
                AvatarPhase::Fields => match avatar_file_of(e) {
                    Some(f) => a is ReadField && final(self).extension@ == stored_extension(f),
                    None => if e is Field {
                        a is NextField
                    } else {
                        a matches AvatarAction::Fail(AppError::BadRequest(m)) && m@ == "No file provided"@
                    },
                },
                AvatarPhase::Reading => if e == AvatarEvent::Read(true) {
                    &&& a matches AvatarAction::Save { dir, remove_prefix, name }
                    &&& dir@ == avatar_dir_text(old(self).owner, old(self).user_id)
                    &&& remove_prefix@ == "avatar."@
                    &&& name@ == "avatar."@ + old(self).extension@
                } else {
                    a matches AvatarAction::Fail(AppError::BadRequest(m)) && m@ == "Failed to read file"@
                },
                AvatarPhase::Saving => match e {
                    AvatarEvent::Written => match old(self).owner {
                        AvatarOwner::User => a matches AvatarAction::SetUrl { user_id, url } && user_id
                            == old(self).user_id && url@ == "/user/avatar"@,
                        AvatarOwner::Event(_) => a is Respond,
                    },
                    AvatarEvent::NotWritten => a matches AvatarAction::Fail(AppError::Internal(m)) && m@
                        == "Failed to save file"@,
                    _ => a matches AvatarAction::Fail(AppError::Internal(m)) && m@ == dir_failure_text(
                        old(self).owner,
                    ),
                },
                AvatarPhase::Recording => if e == AvatarEvent::UrlSet(true) {
                    a is Respond
                } else {
                    a matches AvatarAction::Fail(AppError::Internal(m)) && m@ == "Failed to update avatar"@
                },
                AvatarPhase::Done => false,
            },
    {
        match self.phase {
            AvatarPhase::Member => {
                let event_id = match self.owner {
                    AvatarOwner::Event(id) => id,
                    AvatarOwner::User => {
                        self.phase = AvatarPhase::Done;
                        return AvatarAction::Fail(AppError::Internal(text_of("Upload out of order")));
                    },
                };
                if let AvatarEvent::Member(true) = e {
                    self.phase = AvatarPhase::Owner;
                    AvatarAction::CheckOwner { event_id, user_id: self.user_id }
                } else {
                    self.phase = AvatarPhase::Done;
                    AvatarAction::Fail(AppError::Forbidden(text_of("User not in event")))
                }
            },
            AvatarPhase::Owner => {
                if let AvatarEvent::Owner(true) = e {
                    self.phase = AvatarPhase::Fields;
                    AvatarAction::NextField
                } else {
                    self.phase = AvatarPhase::Done;
                    AvatarAction::Fail(AppError::Forbidden(text_of("Not enough permissions")))
                }
            },
            AvatarPhase::Fields => {
                match e {
                    AvatarEvent::Field { name, file_name } => {
                        match avatar_field_file_name(&name, &file_name) {
                            Some(f) => {
                                self.extension = upload_extension(f.as_str());
                                self.phase = AvatarPhase::Reading;
                                AvatarAction::ReadField
                            },
                            None => AvatarAction::NextField,
                        }
                    },
                    _ => {
                        self.phase = AvatarPhase::Done;
                        AvatarAction::Fail(AppError::BadRequest(text_of("No file provided")))
                    },
                }
            },
            AvatarPhase::Reading => {
                if let AvatarEvent::Read(true) = e {
                    let dir = match self.owner {
                        AvatarOwner::User => user_avatar_dir(self.user_id),
                        AvatarOwner::Event(id) => get_event_avatar_dir(id),
                    };
                    self.phase = AvatarPhase::Saving;
                    AvatarAction::Save {
                        dir,
                        remove_prefix: text_of("avatar."),
                        name: avatar_file_name(self.extension.as_str()),
                    }
                } else {
                    self.phase = AvatarPhase::Done;
                    AvatarAction::Fail(AppError::BadRequest(text_of("Failed to read file")))
                }
            },
            AvatarPhase::Saving => {
                match e {
                    AvatarEvent::Written => match self.owner {
                        AvatarOwner::User => {
                            self.phase = AvatarPhase::Recording;
                            AvatarAction::SetUrl { user_id: self.user_id, url: text_of("/user/avatar") }
                        },
                        AvatarOwner::Event(_) => {
                            self.phase = AvatarPhase::Done;
                            AvatarAction::Respond
                        },
                    },
                    AvatarEvent::NotWritten => {
                        self.phase = AvatarPhase::Done;
                        AvatarAction::Fail(AppError::Internal(text_of("Failed to save file")))
                    },
                    _ => {
                        self.phase = AvatarPhase::Done;
                        let m = match self.owner {
                            AvatarOwner::User => text_of("Failed to create user dir"),
                            AvatarOwner::Event(_) => text_of("Failed to create directory"),
                        };
                        AvatarAction::Fail(AppError::Internal(m))
                    },
                }
            },
            AvatarPhase::Recording => {
                self.phase = AvatarPhase::Done;
                if let AvatarEvent::UrlSet(true) = e {
                    AvatarAction::Respond
                } else {
                    AvatarAction::Fail(AppError::Internal(text_of("Failed to update avatar")))
                }
            },
            AvatarPhase::Done => AvatarAction::Fail(AppError::Internal(text_of("Upload out of order"))),
        }
    }
}

/// An event's avatar is read from the request, and so saved, only after the
/// user was found to be a member of the event and, later, its owner.
pub proof fn law_event_avatar_saved_after_checks(event_id: i64, es: Seq<AvatarEvent>)
    requires
        avatar_phase_after(AvatarOwner::Event(event_id), es) != AvatarPhase::Member,
        avatar_phase_after(AvatarOwner::Event(event_id), es) != AvatarPhase::Owner,
        avatar_phase_after(AvatarOwner::Event(event_id), es) != AvatarPhase::Done,
    ensures
        exists|i: int, j: int|
            0 <= i < j < es.len() && #[trigger] es[i] == AvatarEvent::Member(true) && #[trigger] es[j]
                == AvatarEvent::Owner(true),
    decreases es.len(),
{
    let owner = AvatarOwner::Event(event_id);
    let t = es.drop_last();
    let p = avatar_phase_after(owner, t);
    if p == AvatarPhase::Owner {
        lemma_owner_follows_member(event_id, t);
        let i = choose|i: int| 0 <= i < t.len() && #[trigger] t[i] == AvatarEvent::Member(true);
        assert(es[i] == t[i]);
        assert(es[es.len() - 1] == AvatarEvent::Owner(true));
    } else {
        assert(es.len() > 0);
        law_event_avatar_saved_after_checks(event_id, t);
        let (i, j) = choose|i: int, j: int|
            0 <= i < j < t.len() && #[trigger] t[i] == AvatarEvent::Member(true) && #[trigger] t[j]
                == AvatarEvent::Owner(true);
        assert(es[i] == t[i]);
        assert(es[j] == t[j]);
    }
}

/// An event's upload asks about ownership only after the user was found to
/// be a member.
proof fn lemma_owner_follows_member(event_id: i64, es: Seq<AvatarEvent>)
    requires
        avatar_phase_after(AvatarOwner::Event(event_id), es) == AvatarPhase::Owner,
    ensures
        exists|i: int| 0 <= i < es.len() && #[trigger] es[i] == AvatarEvent::Member(true),
    decreases es.len(),
{
    let p = avatar_phase_after(AvatarOwner::Event(event_id), es.drop_last());
    assert(p == AvatarPhase::Member);
    assert(es[es.len() - 1] == AvatarEvent::Member(true));
}

} // verus!
