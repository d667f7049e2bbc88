//! Where uploaded files live, how they are named and addressed, and the
//! cache headers sent with them.

use vstd::prelude::*;
use crate::text::{int_text, nat_digits, push_i64, push_str, text_of, starts_with_text, u64_to_text};
use crate::generator::all_lower_hex;
use crate::errors::AppError;

verus! {

/// The directory of the photos of an album.
pub open spec fn album_dir_text(event_id: i64, album_id: i64) -> Seq<char> {
    "uploads/events/"@ + int_text(event_id as int) + "/albums/"@ + int_text(album_id as int) + "/photos"@
}

/// The directory of the photos of an album:
/// `uploads/events/{event_id}/albums/{album_id}/photos`.
pub fn album_dir(event_id: i64, album_id: i64) -> (s: String)
    ensures
        s@ == album_dir_text(event_id, album_id),
{
    let mut s = text_of("uploads/events/");
    push_i64(&mut s, event_id);
    push_str(&mut s, "/albums/");
    push_i64(&mut s, album_id);
    push_str(&mut s, "/photos");
    s
}

/// The address at which a photo is served.
pub open spec fn photo_url_text(event_id: i64, album_id: i64, photo_id: i64) -> Seq<char> {
    "/events/"@ + int_text(event_id as int) + "/albums/"@ + int_text(album_id as int) + "/photos/"@
        + int_text(photo_id as int)
}

/// The address at which a photo is served:
/// `/events/{event_id}/albums/{album_id}/photos/{photo_id}`.
pub fn photo_url(event_id: i64, album_id: i64, photo_id: i64) -> (s: String)
    ensures
        s@ == photo_url_text(event_id, album_id, photo_id),
{
    let mut s = text_of("/events/");
    push_i64(&mut s, event_id);
    push_str(&mut s, "/albums/");
    push_i64(&mut s, album_id);
    push_str(&mut s, "/photos/");
    push_i64(&mut s, photo_id);
    s
}

/// The directory of an event's avatar: `uploads/event_avatars/event_{event_id}`.
pub fn get_event_avatar_dir(event_id: i64) -> (s: String)
    ensures
        s@ == "uploads/event_avatars/event_"@ + int_text(event_id as int),
{
    let mut s = text_of("uploads/event_avatars/event_");
    push_i64(&mut s, event_id);
    s
}

/// The directory of a user's avatar: `uploads/avatars/user_{user_id}`.
pub fn user_avatar_dir(user_id: i64) -> (s: String)
    ensures
        s@ == "uploads/avatars/user_"@ + int_text(user_id as int),
{
    let mut s = text_of("uploads/avatars/user_");
    push_i64(&mut s, user_id);
    s
}

/// The name an avatar is stored under: `avatar.{ext}`.
pub fn avatar_file_name(ext: &str) -> (s: String)
    ensures
        s@ == "avatar."@ + ext@,
{
    let mut s = text_of("avatar.");
    push_str(&mut s, ext);
    s
}

/// Whether a file in an avatar directory holds the avatar: its name begins
/// with `avatar.`.
pub fn is_avatar_file(name: &str) -> (r: bool)
    ensures
        r == ("avatar."@.len() <= name@.len() && name@.subrange(0, "avatar."@.len() as int)
            == "avatar."@),
{
    starts_with_text(name, "avatar.")
}

/// The name a photo is stored under: `{photo_id}.{ext}`.
pub fn stored_photo_name(photo_id: i64, ext: &str) -> (s: String)
    ensures
        s@ == int_text(photo_id as int) + "."@ + ext@,
{
    let mut s = String::new();
    push_i64(&mut s, photo_id);
    push_str(&mut s, ".");
    push_str(&mut s, ext);
    proof {
        assert(s@ =~= int_text(photo_id as int) + "."@ + ext@);
    }
    s
}

/// Whether a file in an album directory holds the photo `photo_id`: its name
/// begins with `{photo_id}.`.
pub fn is_photo_file(name: &str, photo_id: i64) -> (r: bool)
    ensures
        r == ({
            let p = int_text(photo_id as int) + "."@;
            p.len() <= name@.len() && name@.subrange(0, p.len() as int) == p
        }),
{
    let mut prefix = String::new();
    push_i64(&mut prefix, photo_id);
    push_str(&mut prefix, ".");
    proof {
        assert(prefix@ =~= int_text(photo_id as int) + "."@);
    }
    starts_with_text(name, prefix.as_str())
}

/// What `Path::new(name).extension()` gives for a file name, as text.
pub uninterp spec fn path_extension(name: Seq<char>) -> Option<Seq<char>>;

/// std's `Path::extension` on a file name, read back as text (the name is
/// valid UTF-8, so its extension is too). The contract names the answer and
/// states nothing more of it.
#[verifier::external_body]
fn std_path_extension(name: &str) -> (r: Option<String>)
    ensures
        r matches Some(e) ==> path_extension(name@) == Some(e@),
        r is None ==> path_extension(name@) is None,
{
    match std::path::Path::new(name).extension() {
        Some(e) => match e.to_str() {
            Some(t) => Some(t.to_string()),
            None => None,
        },
        None => None,
    }
}

/// The extension an uploaded file is stored with: that of its name, or `jpg`
/// where the name has none.
pub fn upload_extension(file_name: &str) -> (s: String)
    ensures
        s@ == match path_extension(file_name@) {
            Some(e) => e,
            None => "jpg"@,
        },
{
    match std_path_extension(file_name) {
        Some(e) => e,
        None => text_of("jpg"),
    }
}

/// The BLAKE3 digest of some bytes, in lowercase hexadecimal.
pub uninterp spec fn blake3_hex_of(data: Seq<u8>) -> Seq<char>;

/// blake3's `hash(data).to_hex()`: the 32-byte digest written as 64 lowercase
/// hexadecimal digits.
#[verifier::external_body]
fn blake3_hex(data: &[u8]) -> (s: String)
    ensures
        s@ == blake3_hex_of(data@),
        s@.len() == 64,
        all_lower_hex(s@),
{
    blake3::hash(data).to_hex().to_string()
}

/// The entity tag of a file's content: its BLAKE3 digest in quotes.
pub fn content_etag(data: &[u8]) -> (s: String)
    ensures
        s@ == "\""@ + blake3_hex_of(data@) + "\""@,
        s@.len() == 66,
{
    let digest = blake3_hex(data);
    let mut s = text_of("\"");
    push_str(&mut s, digest.as_str());
    push_str(&mut s, "\"");
    proof {
        reveal_strlit("\"");
    }
    s
}

/// The entity tag sent when there is no file: two quotes.
pub fn empty_etag() -> (s: String)
    ensures
        s@ == "\"\""@,
{
    text_of("\"\"")
}

/// Whether a request's `If-None-Match` header matches the current tag, so
/// that "not modified" is answered. A header that is not visible ASCII reads
/// as empty text.
pub fn not_modified(if_none_match: &Option<String>, etag: &str) -> (r: bool)
    ensures
        r == match if_none_match {
            Some(h) => h@ == etag@,
            None => false,
        },
{
    match if_none_match {
        Some(h) => crate::text::same_text(h.as_str(), etag),
        None => false,
    }
}

/// The `Cache-Control` value for files kept `max_age` seconds:
/// `public, max-age={max_age}`.
pub fn cache_control_value(max_age: u32) -> (s: String)
    ensures
        s@ == "public, max-age="@ + nat_digits(max_age as nat),
{
    let digits = u64_to_text(max_age as u64);
    let mut s = text_of("public, max-age=");
    push_str(&mut s, digits.as_str());
    s
}

/// The link that invites a user to an event with `token`.
pub fn invite_link(token: &str) -> (s: String)
    ensures
        s@ == "https://kruug.netlify.app/invite?token="@ + token@,
{
    let mut s = text_of("https://kruug.netlify.app/invite?token=");
    push_str(&mut s, token);
    s
}

/// Whether `s` begins with `p`.
pub open spec fn begins_with(s: Seq<char>, p: Seq<char>) -> bool {
    p.len() <= s.len() && s.subrange(0, p.len() as int) == p
}

/// Whether `i` is the place of the first name of `names` that begins with
/// `prefix`.
pub open spec fn is_first_with_prefix(names: Seq<String>, prefix: Seq<char>, i: int) -> bool {
    &&& 0 <= i < names.len()
    &&& begins_with(names[i]@, prefix)
    &&& forall|j: int| 0 <= j < i ==> !begins_with(#[trigger] names[j]@, prefix)
}

/// The place of the first name that begins with `prefix`, as a directory is
/// searched for a file (the search stops at the first match).
pub fn first_with_prefix(names: &Vec<String>, prefix: &str) -> (r: Option<usize>)
    ensures
        match r {
            Some(i) => is_first_with_prefix(names@, prefix@, i as int),
            None => forall|j: int| 0 <= j < names@.len() ==> !begins_with(#[trigger] names@[j]@, prefix@),
        },
{
    let mut k: usize = 0;
    while k < names.len()
        invariant
            k <= names@.len(),
            forall|j: int| 0 <= j < k ==> !begins_with(#[trigger] names@[j]@, prefix@),
        decreases names@.len() - k,
    {
        if starts_with_text(names[k].as_str(), prefix) {
            return Some(k);
        }
        k = k + 1;
    }
    None
}

/// The place of the first file of a directory that holds an avatar.
pub fn first_avatar_file(names: &Vec<String>) -> (r: Option<usize>)
    ensures
        match r {
            Some(i) => is_first_with_prefix(names@, "avatar."@, i as int),
            None => forall|j: int| 0 <= j < names@.len() ==> !begins_with(#[trigger] names@[j]@, "avatar."@),
        },
{
    first_with_prefix(names, "avatar.")
}

/// The place of the first file of an album's directory that holds the photo
/// `photo_id`.
pub fn first_photo_file(names: &Vec<String>, photo_id: i64) -> (r: Option<usize>)
    ensures
        match r {
            Some(i) => is_first_with_prefix(names@, int_text(photo_id as int) + "."@, i as int),
            None => forall|j: int|
                0 <= j < names@.len() ==> !begins_with(#[trigger] names@[j]@, int_text(photo_id as int) + "."@),
        },
{
    let mut prefix = String::new();
    push_i64(&mut prefix, photo_id);
    push_str(&mut prefix, ".");
    proof {
        assert(prefix@ =~= int_text(photo_id as int) + "."@);
    }
    first_with_prefix(names, prefix.as_str())
}

/// The media type that mime_guess gives for a path, by its extension.
pub uninterp spec fn mime_of_path(path: Seq<char>) -> Seq<char>;

/// mime_guess's `from_path(path).first_or_octet_stream()`, written as text.
/// The contract names the answer; of it, it states only that a path without
/// an extension is `application/octet-stream` (the guess is then empty).
#[verifier::external_body]
fn guess_mime(path: &str) -> (s: String)
    ensures
        s@ == mime_of_path(path@),
        path_extension(path@) is None ==> s@ == "application/octet-stream"@,
{
    mime_guess::from_path(path).first_or_octet_stream().to_string()
}

/// How a request for a stored file is answered.
#[derive(Debug)]
pub enum FileAnswer {
    /// The client's copy is current.
    NotModified,
    /// The file is sent with these headers.
    Serve { content_type: String, etag: String, cache_control: String },
}

/// Whether `a` serves a file at `path` with tag `etag`, kept `max_age` seconds.
pub open spec fn serves(a: FileAnswer, path: Seq<char>, etag: Seq<char>, max_age: nat) -> bool {
    &&& a matches FileAnswer::Serve { content_type, etag: t, cache_control }
    &&& content_type@ == mime_of_path(path)
    &&& t@ == etag
    &&& cache_control@ == "public, max-age="@ + nat_digits(max_age)
}

/// Whether a request whose `If-None-Match` is `h` is answered "not
/// modified" for a file with tag `etag`.
pub open spec fn matches_tag(h: Option<String>, etag: Seq<char>) -> bool {
    match h {
        Some(v) => v@ == etag,
        None => false,
    }
}

/// How a photo at `path` with content `data` is answered: "not modified"
/// where the request already holds its tag, else the file with its media
/// type, its tag and `public, max-age={max_age}`.
pub fn photo_answer(path: &str, data: &[u8], if_none_match: &Option<String>, max_age: u32) -> (a: FileAnswer)
    ensures
        matches_tag(*if_none_match, "\""@ + blake3_hex_of(data@) + "\""@) ==> a is NotModified,
        !matches_tag(*if_none_match, "\""@ + blake3_hex_of(data@) + "\""@) ==> serves(
            a,
            path@,
            "\""@ + blake3_hex_of(data@) + "\""@,
            max_age as nat,
        ),
{
    let etag = content_etag(data);
    if not_modified(if_none_match, etag.as_str()) {
        return FileAnswer::NotModified;
    }
    FileAnswer::Serve {
        content_type: guess_mime(path),
        etag,
        cache_control: cache_control_value(max_age),
    }
}

/// The tag of an avatar: that of its content, or two quotes where the
/// directory holds none.
pub open spec fn avatar_tag(avatar: Option<(String, Vec<u8>)>) -> Seq<char> {
    match avatar {
        Some(f) => "\""@ + blake3_hex_of(f.1@) + "\""@,
        None => "\"\""@,
    }
}

/// How a request for an avatar is answered. `dir_exists` tells whether the
/// owner's avatar directory exists; `avatar` is the first avatar file in it,
/// by path and content. A missing directory is "Avatar not found"; a request
/// that holds the current tag is "not modified" (also where there is no
/// file, whose tag is two quotes); otherwise a missing file is "Avatar not
/// found", and a file is served for an hour.
pub fn avatar_answer(dir_exists: bool, avatar: &Option<(String, Vec<u8>)>, if_none_match: &Option<String>) -> (r: Result<FileAnswer, AppError>)
    ensures
        !dir_exists ==> (r matches Err(AppError::NotFound(m)) && m@ == "Avatar not found"@),
        dir_exists && matches_tag(*if_none_match, avatar_tag(*avatar)) ==> (r matches Ok(a) && a is NotModified),
        dir_exists && !matches_tag(*if_none_match, avatar_tag(*avatar)) ==> match *avatar {
            None => (r matches Err(AppError::NotFound(m)) && m@ == "Avatar not found"@),
            Some(f) => (r matches Ok(a) && serves(a, f.0@, avatar_tag(*avatar), 3600)),
        },
{
    if !dir_exists {
        return Err(AppError::NotFound(text_of("Avatar not found")));
    }
    let etag = match avatar {
        Some(f) => content_etag(f.1.as_slice()),
        None => empty_etag(),
    };
    if not_modified(if_none_match, etag.as_str()) {
        return Ok(FileAnswer::NotModified);
    }
    match avatar {
        None => Err(AppError::NotFound(text_of("Avatar not found"))),
        Some(f) => Ok(FileAnswer::Serve {
            content_type: guess_mime(f.0.as_str()),
            etag,
            cache_control: cache_control_value(3600),
        }),
    }
}

/// How a request for an event's avatar is answered. Unlike a user's avatar,
/// the tag is compared first: a request that holds it is "not modified" even
/// where the directory is missing; otherwise a missing directory or file is
/// "Avatar not found", and a file is served for an hour.
pub fn event_avatar_answer(dir_exists: bool, avatar: &Option<(String, Vec<u8>)>, if_none_match: &Option<String>) -> (r: Result<FileAnswer, AppError>)
    ensures
        matches_tag(*if_none_match, avatar_tag(*avatar)) ==> (r matches Ok(a) && a is NotModified),
        !matches_tag(*if_none_match, avatar_tag(*avatar)) && !dir_exists ==> (r matches Err(AppError::NotFound(m))
            && m@ == "Avatar not found"@),
        !matches_tag(*if_none_match, avatar_tag(*avatar)) && dir_exists ==> match *avatar {
            None => (r matches Err(AppError::NotFound(m)) && m@ == "Avatar not found"@),
            Some(f) => (r matches Ok(a) && serves(a, f.0@, avatar_tag(*avatar), 3600)),
        },
{
    let etag = match avatar {
        Some(f) => content_etag(f.1.as_slice()),
        None => empty_etag(),
    };
    if not_modified(if_none_match, etag.as_str()) {
        return Ok(FileAnswer::NotModified);
    }
    if !dir_exists {
        return Err(AppError::NotFound(text_of("Avatar not found")));
    }
    match avatar {
        None => Err(AppError::NotFound(text_of("Avatar not found"))),
        Some(f) => Ok(FileAnswer::Serve {
            content_type: guess_mime(f.0.as_str()),
            etag,
            cache_control: cache_control_value(3600),
        }),
    }
}

/// The file name of a multipart field that carries an avatar: the field is
/// named `avatar` and has a file name; other fields are skipped (`None`).
pub fn avatar_field_file_name(name: &Option<String>, file_name: &Option<String>) -> (r: Option<String>)
    ensures
        match (*name, *file_name) {
            (Some(n), Some(f)) => if n@ == "avatar"@ {
                r matches Some(x) && x@ == f@
            } else {
                r is None
            },
            _ => r is None,
        },
{
    match (name, file_name) {
        (Some(n), Some(f)) => if crate::text::same_text(n.as_str(), "avatar") {
            Some(f.clone())
        } else {
            None
        },
        _ => None,
    }
}

} // verus!
