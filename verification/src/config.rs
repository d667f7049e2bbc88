//! The settings of the service, read from named values (the environment),
//! with their defaults.

use vstd::prelude::*;
use crate::text::{parse_i64, parse_in_range, parse_u16, parse_u32, same_text, text_of};

verus! {

/// The settings of the service.
#[derive(Debug)]
pub struct Config {
    pub database_url: String,
    pub database_url_test: String,
    pub host: String,
    pub port: u16,
    pub rust_log: String,
    pub bcrypt_cost: u32,
    pub max_album_size_mb: i64,
    pub max_photos_count: i64,
    pub smtp_server: String,
    pub smtp_port: u16,
    pub smtp_username: String,
    pub smtp_password: String,
    pub photo_cache_max_age: u32,
}

/// The named values as text pairs.
pub open spec fn vars_view(vars: Seq<(String, String)>) -> Seq<(Seq<char>, Seq<char>)> {
    vars.map_values(|p: (String, String)| (p.0@, p.1@))
}

/// The value of `name` among `vars`; where several pairs carry the name, the
/// last one counts.
pub open spec fn setting(vars: Seq<(Seq<char>, Seq<char>)>, name: Seq<char>) -> Option<Seq<char>>
    decreases vars.len(),
{
    if vars.len() == 0 {
        None
    } else if vars.last().0 == name {
        Some(vars.last().1)
    } else {
        setting(vars.drop_last(), name)
    }
}

/// The value of `name`, or `default` where it is absent.
pub open spec fn setting_or(vars: Seq<(Seq<char>, Seq<char>)>, name: Seq<char>, default: Seq<char>) -> Seq<char> {
    match setting(vars, name) {
        Some(v) => v,
        None => default,
    }
}

/// Whether a text reads as an unsigned number no greater than `hi`.
pub open spec fn reads_unsigned(s: Seq<char>, hi: int) -> bool {
    parse_in_range(s, false, 0, hi) is Some
}

/// Whether a text reads as an `i64`.
pub open spec fn reads_i64(s: Seq<char>) -> bool {
    parse_in_range(s, true, i64::MIN as int, i64::MAX as int) is Some
}

/// The number a text reads as (meaningful where it reads as one).
pub open spec fn number_of(s: Seq<char>, signed: bool, lo: int, hi: int) -> int {
    parse_in_range(s, signed, lo, hi).unwrap()
}

/// Why the settings cannot be read, in the order they are read: a required
/// value that is absent, or a number that does not read; `None` where all can.
pub open spec fn config_problem(v: Seq<(Seq<char>, Seq<char>)>) -> Option<Seq<char>> {
    if setting(v, "DATABASE_URL"@) is None {
        Some("DATABASE_URL not set"@)
    } else if !reads_unsigned(setting_or(v, "PORT"@, "8080"@), u16::MAX as int) {
        Some("PORT must be a number"@)
    } else if !reads_unsigned(setting_or(v, "BCRYPT_COST"@, "12"@), u32::MAX as int) {
        Some("BCRYPT_COST must be a number"@)
    } else if !reads_i64(setting_or(v, "MAX_ALBUM_SIZE_MB"@, "50"@)) {
        Some("MAX_ALBUM_SIZE_MB must be a number"@)
    } else if !reads_i64(setting_or(v, "MAX_PHOTOS_COUNT"@, "100"@)) {
        Some("MAX_PHOTOS_COUNT must be a number"@)
    } else if setting(v, "SMTP_SERVER"@) is None {
        Some("SMTP_SERVER not set"@)
    } else if !reads_unsigned(setting_or(v, "SMTP_PORT"@, "587"@), u16::MAX as int) {
        Some("SMTP_PORT must be a number"@)
    } else if setting(v, "SMTP_USERNAME"@) is None {
        Some("SMTP_USERNAME not set"@)
    } else if setting(v, "SMTP_PASSWORD"@) is None {
        Some("SMTP_PASSWORD not set"@)
    } else if !reads_unsigned(setting_or(v, "PHOTO_CACHE_MAX_AGE"@, "30"@), u32::MAX as int) {
        Some("PHOTO_CACHE_MAX_AGE must be a number"@)
    } else {
        None
    }
}

/// Whether `c` holds the settings that `v` gives, each absent optional one
/// taking its default.
pub open spec fn config_read(c: Config, v: Seq<(Seq<char>, Seq<char>)>) -> bool {
    &&& setting(v, "DATABASE_URL"@) == Some(c.database_url@)
    &&& c.database_url_test@ == setting_or(v, "DATABASE_URL_TEST"@, ""@)
    &&& c.host@ == setting_or(v, "HOST"@, "0.0.0.0"@)
    &&& c.port as int == number_of(setting_or(v, "PORT"@, "8080"@), false, 0, u16::MAX as int)
    &&& c.rust_log@ == setting_or(v, "RUST_LOG"@, "info"@)
    &&& c.bcrypt_cost as int == number_of(setting_or(v, "BCRYPT_COST"@, "12"@), false, 0, u32::MAX as int)
    &&& c.max_album_size_mb as int == number_of(
        setting_or(v, "MAX_ALBUM_SIZE_MB"@, "50"@),
        true,
        i64::MIN as int,
        i64::MAX as int,
    )
    &&& c.max_photos_count as int == number_of(
        setting_or(v, "MAX_PHOTOS_COUNT"@, "100"@),
        true,
        i64::MIN as int,
        i64::MAX as int,
    )
    &&& setting(v, "SMTP_SERVER"@) == Some(c.smtp_server@)
    &&& c.smtp_port as int == number_of(setting_or(v, "SMTP_PORT"@, "587"@), false, 0, u16::MAX as int)
    &&& setting(v, "SMTP_USERNAME"@) == Some(c.smtp_username@)
    &&& setting(v, "SMTP_PASSWORD"@) == Some(c.smtp_password@)
    &&& c.photo_cache_max_age as int == number_of(
        setting_or(v, "PHOTO_CACHE_MAX_AGE"@, "30"@),
        false,
        0,
        u32::MAX as int,
    )
}

/// The value of `name` among `vars`.
fn lookup_setting(vars: &Vec<(String, String)>, name: &str) -> (r: Option<String>)
    ensures
        match r {
            Some(s) => setting(vars_view(vars@), name@) == Some(s@),
            None => setting(vars_view(vars@), name@) is None,
        },
{
    let ghost all = vars_view(vars@);
    let mut found: Option<String> = None;
    let mut k: usize = 0;
    while k < vars.len()
        invariant
            k <= vars@.len(),
            all == vars_view(vars@),
            match found {
                Some(s) => setting(all.subrange(0, k as int), name@) == Some(s@),
                None => setting(all.subrange(0, k as int), name@) is None,
            },
        decreases vars@.len() - k,
    {
        let ghost next = all.subrange(0, k + 1);
        assert(next.drop_last() =~= all.subrange(0, k as int));
        assert(next.last() == (vars@[k as int].0@, vars@[k as int].1@));
        if same_text(vars[k].0.as_str(), name) {
            found = Some(vars[k].1.clone());
        }
        k = k + 1;
    }
    assert(all.subrange(0, all.len() as int) =~= all);
    found
}

/// The value of `name`, or `default` where it is absent.
fn lookup_setting_or(vars: &Vec<(String, String)>, name: &str, default: &str) -> (r: String)
    ensures
        r@ == setting_or(vars_view(vars@), name@, default@),
{
    match lookup_setting(vars, name) {
        Some(s) => s,
        None => text_of(default),
    }
}

impl Config {
    /// Reads the settings from named values: `DATABASE_URL`, `SMTP_SERVER`,
    /// `SMTP_USERNAME` and `SMTP_PASSWORD` are required; the others have
    /// defaults (`HOST` 0.0.0.0, `PORT` 8080, `RUST_LOG` info, `BCRYPT_COST` 12,
    /// `MAX_ALBUM_SIZE_MB` 50, `MAX_PHOTOS_COUNT` 100, `SMTP_PORT` 587,
    /// `PHOTO_CACHE_MAX_AGE` 30, `DATABASE_URL_TEST` empty). The first value
    /// that is missing or is not a number is reported by its message.
    pub fn from_vars(vars: &Vec<(String, String)>) -> (r: Result<Config, String>)
        ensures
            match config_problem(vars_view(vars@)) {
                Some(m) => (r matches Err(e) && e@ == m),
                None => (r matches Ok(c) && config_read(c, vars_view(vars@))),
            },
    {
        let database_url = match lookup_setting(vars, "DATABASE_URL") {
            Some(s) => s,
            None => return Err(text_of("DATABASE_URL not set")),
        };
        let database_url_test = lookup_setting_or(vars, "DATABASE_URL_TEST", "");
        let host = lookup_setting_or(vars, "HOST", "0.0.0.0");
        let port = match parse_u16(lookup_setting_or(vars, "PORT", "8080").as_str()) {
            Some(p) => p,
            None => return Err(text_of("PORT must be a number")),
        };
        let rust_log = lookup_setting_or(vars, "RUST_LOG", "info");
        let bcrypt_cost = match parse_u32(lookup_setting_or(vars, "BCRYPT_COST", "12").as_str()) {
            Some(p) => p,
            None => return Err(text_of("BCRYPT_COST must be a number")),
        };
        let max_album_size_mb = match parse_i64(lookup_setting_or(vars, "MAX_ALBUM_SIZE_MB", "50").as_str()) {
            Some(p) => p,
            None => return Err(text_of("MAX_ALBUM_SIZE_MB must be a number")),
        };
        let max_photos_count = match parse_i64(lookup_setting_or(vars, "MAX_PHOTOS_COUNT", "100").as_str()) {
            Some(p) => p,
            None => return Err(text_of("MAX_PHOTOS_COUNT must be a number")),
        };
        let smtp_server = match lookup_setting(vars, "SMTP_SERVER") {
            Some(s) => s,
            None => return Err(text_of("SMTP_SERVER not set")),
        };
        let smtp_port = match parse_u16(lookup_setting_or(vars, "SMTP_PORT", "587").as_str()) {
            Some(p) => p,
            None => return Err(text_of("SMTP_PORT must be a number")),
        };
        let smtp_username = match lookup_setting(vars, "SMTP_USERNAME") {
            Some(s) => s,
            None => return Err(text_of("SMTP_USERNAME not set")),
        };
        let smtp_password = match lookup_setting(vars, "SMTP_PASSWORD") {
            Some(s) => s,
            None => return Err(text_of("SMTP_PASSWORD not set")),
        };
        let photo_cache_max_age = match parse_u32(lookup_setting_or(vars, "PHOTO_CACHE_MAX_AGE", "30").as_str()) {
            Some(p) => p,
            None => return Err(text_of("PHOTO_CACHE_MAX_AGE must be a number")),
        };
        Ok(Config {
            database_url,
            database_url_test,
            host,
            port,
            rust_log,
            bcrypt_cost,
            max_album_size_mb,
            max_photos_count,
            smtp_server,
            smtp_port,
            smtp_username,
            smtp_password,
            photo_cache_max_age,
        })
    }
}

} // verus!
