//! Users, and the in-memory store that finds them by id, address or name.

use vstd::prelude::*;
use crate::clock::{now_micros, MAX_CLOCK_MICROS};
use crate::keyed::{has_key, keys_distinct, keyed_map, lemma_keyed_at, lemma_keyed_update, lemma_keyed_push, lemma_keyed_empty};
use crate::models::EditUserRequest;
use crate::text::{same_text, text_of};

verus! {

/// What a user record holds.
pub struct UserRecord {
    pub user_id: i64,
    pub display_name: Seq<char>,
    pub username: Seq<char>,
    pub email: Seq<char>,
    pub birthday: Option<Seq<char>>,
    pub avatar_url: Option<Seq<char>>,
    pub description_profile: Option<Seq<char>>,
    pub is_deleted: bool,
    pub created_at: i64,
    pub last_online_at: i64,
}

/// The view of an optional string.
pub open spec fn opt_view(s: Option<String>) -> Option<Seq<char>> {
    match s {
        Some(t) => Some(t@),
        None => None,
    }
}

/// A user of the service.
#[derive(Debug)]
pub struct User {
    pub user_id: i64,
    pub display_name: String,
    pub username: String,
    pub email: String,
    pub birthday: Option<String>,
    pub avatar_url: Option<String>,
    pub description_profile: Option<String>,
    pub is_deleted: bool,
    pub created_at: i64,
    pub last_online_at: i64,
}

impl View for User {
    type V = UserRecord;

    open spec fn view(&self) -> UserRecord {
        UserRecord {
            user_id: self.user_id,
            display_name: self.display_name@,
            username: self.username@,
            email: self.email@,
            birthday: opt_view(self.birthday),
            avatar_url: opt_view(self.avatar_url),
            description_profile: opt_view(self.description_profile),
            is_deleted: self.is_deleted,
            created_at: self.created_at,
            last_online_at: self.last_online_at,
        }
    }
}

/// The record of a user made at `now`.
pub open spec fn new_user_record(
    user_id: i64,
    username: Seq<char>,
    email: Seq<char>,
    birthday: Option<Seq<char>>,
    display_name: Seq<char>,
    avatar_url: Option<Seq<char>>,
    description_profile: Option<Seq<char>>,
    now: i64,
) -> UserRecord {
    UserRecord {
        user_id,
        display_name,
        username,
        email,
        birthday,
        avatar_url,
        description_profile,
        is_deleted: false,
        created_at: now,
        last_online_at: now,
    }
}

/// `new` where it is given, else `old`.
pub open spec fn or_keep(new: Option<Seq<char>>, old: Seq<char>) -> Seq<char> {
    match new {
        Some(v) => v,
        None => old,
    }
}

/// `new` where it is given, else `old`.
pub open spec fn or_keep_opt(new: Option<Seq<char>>, old: Option<Seq<char>>) -> Option<Seq<char>> {
    match new {
        Some(v) => Some(v),
        None => old,
    }
}

/// A user record after the changes `e`: each field that `e` gives replaces
/// the old one, every other field stays.
pub open spec fn edited(u: UserRecord, e: EditUserRequest) -> UserRecord {
    UserRecord {
        username: or_keep(opt_view(e.username), u.username),
        birthday: or_keep_opt(opt_view(e.birthday), u.birthday),
        display_name: or_keep(opt_view(e.display_name), u.display_name),
        description_profile: or_keep_opt(opt_view(e.description), u.description_profile),
        ..u
    }
}

impl User {
    /// A user made at `now`, not deleted, last seen at `now`.
    pub fn create_at(
        user_id: i64,
        username: String,
        email: String,
        birthday: Option<String>,
        display_name: String,
        avatar_url: Option<String>,
        description_profile: Option<String>,
        now: i64,
    ) -> (u: Self)
        ensures
            u@ == new_user_record(user_id, username@, email@, opt_view(birthday), display_name@,
                opt_view(avatar_url), opt_view(description_profile), now),
    {
        User {
            user_id,
            display_name,
            username,
            email,
            birthday,
            avatar_url,
            description_profile,
            is_deleted: false,
            created_at: now,
            last_online_at: now,
        }
    }

    /// A user made now.
    pub fn create(
        user_id: i64,
        username: String,
        email: String,
        birthday: Option<String>,
        display_name: String,
        avatar_url: Option<String>,
        description_profile: Option<String>,
    ) -> (u: Self)
        ensures
            u@ == new_user_record(user_id, username@, email@, opt_view(birthday), display_name@,
                opt_view(avatar_url), opt_view(description_profile), u.created_at),
            0 <= u.created_at <= MAX_CLOCK_MICROS,
    {
        let now = now_micros();
        Self::create_at(user_id, username, email, birthday, display_name, avatar_url,
            description_profile, now)
    }

    /// Applies the changes of `payload`; fields it does not give stay.
    pub fn edit(&mut self, payload: EditUserRequest)
        ensures
            final(self)@ == edited(old(self)@, payload),
    {
        let ghost p = payload;
        let EditUserRequest { username, birthday, display_name, description } = payload;
        match username {
            Some(v) => { self.username = v; },
            None => {},
        }
        match birthday {
            Some(v) => { self.birthday = Some(v); },
            None => {},
        }
        match display_name {
            Some(v) => { self.display_name = v; },
            None => {},
        }
        match description {
            Some(v) => { self.description_profile = Some(v); },
            None => {},
        }
    }
}

/// Why a user could not be added.
#[derive(Debug, Clone, Copy, PartialEq, Eq)]
pub enum UserStoreError {
    EmailExists,
    UsernameExists,
}

impl UserStoreError {
    /// The text of the error.
    pub fn message(&self) -> (s: String)
        ensures
            s@ == match *self {
                UserStoreError::EmailExists => "Email already exists"@,
                UserStoreError::UsernameExists => "Username already exists"@,
            },
    {
        match self {
            UserStoreError::EmailExists => text_of("Email already exists"),
            UserStoreError::UsernameExists => text_of("Username already exists"),
        }
    }
}

/// What the store holds: users by id, and ids by address and by name.
pub struct UserStoreView {
    pub users: Map<i64, UserRecord>,
    pub by_email: Map<Seq<char>, i64>,
    pub by_username: Map<Seq<char>, i64>,
}

/// The pairs of a name index.
pub open spec fn name_pairs(s: Seq<(String, i64)>) -> Seq<(Seq<char>, i64)> {
    s.map_values(|e: (String, i64)| (e.0@, e.1))
}

/// The pairs of the user list.
pub open spec fn user_pairs(s: Seq<User>) -> Seq<(i64, UserRecord)> {
    s.map_values(|u: User| (u.user_id, u@))
}

/// The place of the name `k` in a name index.
fn find_name(v: &Vec<(String, i64)>, k: &str) -> (r: Option<usize>)
    requires
        keys_distinct(name_pairs(v@)),
    ensures
        match r {
            Some(i) => i < v@.len() && v@[i as int].0@ == k@,
            None => !has_key(name_pairs(v@), k@),
        },
{
    let mut i: usize = 0;
    while i < v.len()
        invariant
            i <= v@.len(),
            forall|j: int| 0 <= j < i ==> (#[trigger] v@[j]).0@ != k@,
        decreases v@.len() - i,
    {
        if same_text(v[i].0.as_str(), k) {
            return Some(i);
        }
        i = i + 1;
    }
    proof {
        if has_key(name_pairs(v@), k@) {
            let j = choose|j: int| 0 <= j < v@.len() && #[trigger] name_pairs(v@)[j].0 == k@;
            assert(v@[j].0@ == k@);
        }
    }
    None
}

/// Maps the name `k` to `id` in a name index.
fn put_name(v: &mut Vec<(String, i64)>, k: String, id: i64)
    requires
        keys_distinct(name_pairs(old(v)@)),
    ensures
        keys_distinct(name_pairs(final(v)@)),
        keyed_map(name_pairs(final(v)@)) == keyed_map(name_pairs(old(v)@)).insert(k@, id),
{
    let ghost before = name_pairs(v@);
    match find_name(v, k.as_str()) {
        Some(i) => {
            let _ = v.remove(i);
            v.insert(i, (k, id));
            proof {
                assert(name_pairs(v@) =~= before.update(i as int, (before[i as int].0, id)));
                lemma_keyed_update(before, i as int, id);
            }
        },
        None => {
            let ghost key = k@;
            v.push((k, id));
            proof {
                assert(name_pairs(v@) =~= before.push((key, id)));
                lemma_keyed_push(before, key, id);
            }
        },
    }
}

/// The place of the user with id `id` in the user list.
fn find_user(v: &Vec<User>, id: i64) -> (r: Option<usize>)
    requires
        keys_distinct(user_pairs(v@)),
    ensures
        match r {
            Some(i) => i < v@.len() && v@[i as int].user_id == id,
            None => !has_key(user_pairs(v@), id),
        },
{
    let mut i: usize = 0;
    while i < v.len()
        invariant
            i <= v@.len(),
            forall|j: int| 0 <= j < i ==> (#[trigger] v@[j]).user_id != id,
        decreases v@.len() - i,
    {
        if v[i].user_id == id {
            return Some(i);
        }
        i = i + 1;
    }
    proof {
        if has_key(user_pairs(v@), id) {
            let j = choose|j: int| 0 <= j < v@.len() && #[trigger] user_pairs(v@)[j].0 == id;
            assert(v@[j].user_id == id);
        }
    }
    None
}

/// Keeps `u` as the user with its id, replacing any earlier one.
fn put_user(v: &mut Vec<User>, u: User)
    requires
        keys_distinct(user_pairs(old(v)@)),
    ensures
        keys_distinct(user_pairs(final(v)@)),
        keyed_map(user_pairs(final(v)@)) == keyed_map(user_pairs(old(v)@)).insert(u.user_id, u@),
{
    let ghost before = user_pairs(v@);
    let ghost rec = u@;
    let id = u.user_id;
    match find_user(v, id) {
        Some(i) => {
            let _ = v.remove(i);
            v.insert(i, u);
            proof {
                assert(user_pairs(v@) =~= before.update(i as int, (before[i as int].0, rec)));
                lemma_keyed_update(before, i as int, rec);
            }
        },
        None => {
            v.push(u);
            proof {
                assert(user_pairs(v@) =~= before.push((id, rec)));
                lemma_keyed_push(before, id, rec);
            }
        },
    }
}

/// The outcome of adding a user to a store: refused where the address or
/// else the name is already known, the store then unchanged; otherwise the
/// user is kept under its id, address and name, and its id is returned.
pub open spec fn add_user_outcome(
    before: UserStoreView,
    after: UserStoreView,
    r: Result<i64, UserStoreError>,
    user: UserRecord,
) -> bool {
    if before.by_email.contains_key(user.email) {
        r == Err::<i64, UserStoreError>(UserStoreError::EmailExists) && after == before
    } else if before.by_username.contains_key(user.username) {
        r == Err::<i64, UserStoreError>(UserStoreError::UsernameExists) && after == before
    } else {
        &&& r == Ok::<i64, UserStoreError>(user.user_id)
        &&& after.users == before.users.insert(user.user_id, user)
        &&& after.by_email == before.by_email.insert(user.email, user.user_id)
        &&& after.by_username == before.by_username.insert(user.username, user.user_id)
    }
}

/// The users, addresses and names that caching `users` in order into `s`
/// gives: each user in turn replaces whatever its id, address and name were
/// bound to.
pub open spec fn cached_all(s: UserStoreView, users: Seq<UserRecord>) -> UserStoreView
    decreases users.len(),
{
    if users.len() == 0 {
        s
    } else {
        let t = cached_all(s, users.drop_last());
        let u = users.last();
        UserStoreView {
            users: t.users.insert(u.user_id, u),
            by_email: t.by_email.insert(u.email, u.user_id),
            by_username: t.by_username.insert(u.username, u.user_id),
        }
    }
}

/// The records of a list of users.
pub open spec fn records(users: Seq<User>) -> Seq<UserRecord> {
    users.map_values(|u: User| u@)
}

/// A name index is empty exactly when its map is.
proof fn lemma_names_empty(s: Seq<(String, i64)>)
    requires
        keys_distinct(name_pairs(s)),
    ensures
        (s.len() == 0) == (keyed_map(name_pairs(s)) == Map::<Seq<char>, i64>::empty()),
{
    lemma_keyed_empty::<Seq<char>, i64>();
    if s.len() > 0 {
        lemma_keyed_at(name_pairs(s), 0);
        assert(keyed_map(name_pairs(s)).contains_key(s[0].0@));
    } else {
        assert(name_pairs(s) =~= Seq::<(Seq<char>, i64)>::empty());
    }
}

/// The users the service knows, found by id, address or name.
pub struct UserStore {
    users: Vec<User>,
    users_by_email: Vec<(String, i64)>,
    users_by_username: Vec<(String, i64)>,
}

impl View for UserStore {
    type V = UserStoreView;

    closed spec fn view(&self) -> UserStoreView {
        UserStoreView {
            users: keyed_map(user_pairs(self.users@)),
            by_email: keyed_map(name_pairs(self.users_by_email@)),
            by_username: keyed_map(name_pairs(self.users_by_username@)),
        }
    }
}

impl UserStore {
    #[verifier::type_invariant]
    spec fn inv(self) -> bool {
        &&& keys_distinct(user_pairs(self.users@))
        &&& keys_distinct(name_pairs(self.users_by_email@))
        &&& keys_distinct(name_pairs(self.users_by_username@))
    }

    /// An empty store.
    pub fn new() -> (s: Self)
        ensures
            s@.users == Map::<i64, UserRecord>::empty(),
            s@.by_email == Map::<Seq<char>, i64>::empty(),
            s@.by_username == Map::<Seq<char>, i64>::empty(),
    {
        let s = UserStore { users: Vec::new(), users_by_email: Vec::new(), users_by_username: Vec::new() };
        proof {
            lemma_keyed_empty::<i64, UserRecord>();
            lemma_keyed_empty::<Seq<char>, i64>();
            assert(user_pairs(s.users@) =~= Seq::<(i64, UserRecord)>::empty());
            assert(name_pairs(s.users_by_email@) =~= Seq::<(Seq<char>, i64)>::empty());
            assert(name_pairs(s.users_by_username@) =~= Seq::<(Seq<char>, i64)>::empty());
        }
        s
    }

    /// Forgets every user.
    pub fn clear(&mut self)
        ensures
            final(self)@.users == Map::<i64, UserRecord>::empty(),
            final(self)@.by_email == Map::<Seq<char>, i64>::empty(),
            final(self)@.by_username == Map::<Seq<char>, i64>::empty(),
    {
        proof {
            use_type_invariant(&*self);
        }
        self.users = Vec::new();
        self.users_by_email = Vec::new();
        self.users_by_username = Vec::new();
        proof {
            lemma_keyed_empty::<i64, UserRecord>();
            lemma_keyed_empty::<Seq<char>, i64>();
            assert(user_pairs(self.users@) =~= Seq::<(i64, UserRecord)>::empty());
            assert(name_pairs(self.users_by_email@) =~= Seq::<(Seq<char>, i64)>::empty());
            assert(name_pairs(self.users_by_username@) =~= Seq::<(Seq<char>, i64)>::empty());
        }
    }

    /// Keeps a user read from the database under its id, address and name,
    /// without checking for others with the same address or name.
    pub fn cache_user(&mut self, user: User)
        ensures
            final(self)@.users == old(self)@.users.insert(user.user_id, user@),
            final(self)@.by_email == old(self)@.by_email.insert(user.email@, user.user_id),
            final(self)@.by_username == old(self)@.by_username.insert(user.username@, user.user_id),
    {
        proof {
            use_type_invariant(&*self);
        }
        let id = user.user_id;
        let email = user.email.clone();
        let username = user.username.clone();
        let mut users: Vec<User> = Vec::new();
        std::mem::swap(&mut users, &mut self.users);
        put_user(&mut users, user);
        self.users = users;
        let mut by_email: Vec<(String, i64)> = Vec::new();
        std::mem::swap(&mut by_email, &mut self.users_by_email);
        put_name(&mut by_email, email, id);
        self.users_by_email = by_email;
        let mut by_username: Vec<(String, i64)> = Vec::new();
        std::mem::swap(&mut by_username, &mut self.users_by_username);
        put_name(&mut by_username, username, id);
        self.users_by_username = by_username;
    }

    /// Forgets every user, then keeps `users` (read from the database) in
    /// order, each under its id, address and name.
    pub fn load_users(&mut self, users: Vec<User>)
        ensures
            final(self)@ == cached_all(
                UserStoreView {
                    users: Map::<i64, UserRecord>::empty(),
                    by_email: Map::<Seq<char>, i64>::empty(),
                    by_username: Map::<Seq<char>, i64>::empty(),
                },
                records(users@),
            ),
    {
        let ghost start = UserStoreView {
            users: Map::<i64, UserRecord>::empty(),
            by_email: Map::<Seq<char>, i64>::empty(),
            by_username: Map::<Seq<char>, i64>::empty(),
        };
        let ghost all = records(users@);
        self.clear();
        let mut users = users;
        let n = users.len();
        let mut k: usize = 0;
        while k < n
            invariant
                n == all.len(),
                k <= n,
                records(users@) == all.subrange(k as int, n as int),
                self@ == cached_all(start, all.subrange(0, k as int)),
            decreases n - k,
        {
            proof {
                assert(records(users@).len() == users@.len());
            }
            let ghost before = users@;
            let user = users.remove(0);
            proof {
                assert(records(before)[0] == before[0]@);
                assert(user@ == all[k as int]);
                assert(records(users@) =~= all.subrange(k + 1, n as int)) by {
                    assert forall|j: int| 0 <= j < users@.len() implies #[trigger] records(users@)[j]
                        == all.subrange(k + 1, n as int)[j] by {
                        assert(users@[j] == before[j + 1]);
                        assert(records(before)[j + 1] == before[j + 1]@);
                    }
                }
                assert(all.subrange(0, k + 1).drop_last() =~= all.subrange(0, k as int));
            }
            self.cache_user(user);
            k = k + 1;
        }
        assert(all.subrange(0, n as int) =~= all);
    }

    /// Adds a user made at `now`, unless its address or name is taken.
    pub fn add_user_at(
        &mut self,
        user_id: i64,
        username: String,
        email: String,
        birthday: Option<String>,
        display_name: String,
        description_profile: Option<String>,
        now: i64,
    ) -> (r: Result<i64, UserStoreError>)
        ensures
            add_user_outcome(old(self)@, final(self)@, r, new_user_record(user_id, username@, email@,
                opt_view(birthday), display_name@, None, opt_view(description_profile), now)),
    {
        proof {
            use_type_invariant(&*self);
        }
        match find_name(&self.users_by_email, email.as_str()) {
            Some(i) => {
                proof {
                    lemma_keyed_at(name_pairs(self.users_by_email@), i as int);
                }
                return Err(UserStoreError::EmailExists);
            },
            None => {},
        }
        match find_name(&self.users_by_username, username.as_str()) {
            Some(i) => {
                proof {
                    lemma_keyed_at(name_pairs(self.users_by_username@), i as int);
                }
                return Err(UserStoreError::UsernameExists);
            },
            None => {},
        }
        let user = User::create_at(user_id, username, email, birthday, display_name, None,
            description_profile, now);
        self.cache_user(user);
        Ok(user_id)
    }

    /// Adds a user made now, unless its address or name is taken.
    pub fn add_user(
        &mut self,
        user_id: i64,
        username: String,
        email: String,
        birthday: Option<String>,
        display_name: String,
        description_profile: Option<String>,
    ) -> (r: Result<i64, UserStoreError>)
        ensures
            exists|now: i64| 0 <= now <= MAX_CLOCK_MICROS && #[trigger] add_user_outcome(old(self)@, final(self)@, r,
                new_user_record(user_id, username@, email@, opt_view(birthday), display_name@, None,
                opt_view(description_profile), now)),
    {
        let now = now_micros();
        self.add_user_at(user_id, username, email, birthday, display_name, description_profile, now)
    }

    /// Whether no user is kept.
    pub fn users_is_empty(&self) -> (r: bool)
        ensures
            r == (self@.users == Map::<i64, UserRecord>::empty()),
    {
        proof {
            use_type_invariant(self);
            lemma_keyed_empty::<i64, UserRecord>();
            if self.users@.len() > 0 {
                lemma_keyed_at(user_pairs(self.users@), 0);
                assert(self@.users.contains_key(self.users@[0].user_id));
            } else {
                assert(user_pairs(self.users@) =~= Seq::<(i64, UserRecord)>::empty());
            }
        }
        self.users.len() == 0
    }

    /// Whether no address is indexed.
    pub fn users_by_email_is_empty(&self) -> (r: bool)
        ensures
            r == (self@.by_email == Map::<Seq<char>, i64>::empty()),
    {
        proof {
            use_type_invariant(self);
            lemma_names_empty(self.users_by_email@);
        }
        self.users_by_email.len() == 0
    }

    /// Whether no name is indexed.
    pub fn users_by_username_is_empty(&self) -> (r: bool)
        ensures
            r == (self@.by_username == Map::<Seq<char>, i64>::empty()),
    {
        proof {
            use_type_invariant(self);
            lemma_names_empty(self.users_by_username@);
        }
        self.users_by_username.len() == 0
    }

    /// The user with id `id`.
    pub fn get_user_by_id(&self, id: i64) -> (r: Option<&User>)
        ensures
            match r {
                Some(u) => self@.users.contains_key(id) && self@.users[id] == u@,
                None => !self@.users.contains_key(id),
            },
    {
        proof {
            use_type_invariant(self);
        }
        match find_user(&self.users, id) {
            Some(i) => {
                proof {
                    lemma_keyed_at(user_pairs(self.users@), i as int);
                }
                Some(&self.users[i])
            },
            None => None,
        }
    }

    /// The id kept for `name` in a name index of this store.
    fn id_for(index: &Vec<(String, i64)>, name: &str) -> (r: Option<i64>)
        requires
            keys_distinct(name_pairs(index@)),
        ensures
            match r {
                Some(id) => keyed_map(name_pairs(index@)).contains_key(name@) && keyed_map(
                    name_pairs(index@),
                )[name@] == id,
                None => !keyed_map(name_pairs(index@)).contains_key(name@),
            },
    {
        match find_name(index, name) {
            Some(i) => {
                proof {
                    lemma_keyed_at(name_pairs(index@), i as int);
                }
                Some(index[i].1)
            },
            None => None,
        }
    }

    /// The user whose address is `email`.
    pub fn get_user_by_email(&self, email: &str) -> (r: Option<&User>)
        ensures
            match r {
                Some(u) => self@.by_email.contains_key(email@) && self@.users.contains_key(
                    self@.by_email[email@],
                ) && self@.users[self@.by_email[email@]] == u@,
                None => !(self@.by_email.contains_key(email@) && self@.users.contains_key(
                    self@.by_email[email@],
                )),
            },
    {
        proof {
            use_type_invariant(self);
        }
        match Self::id_for(&self.users_by_email, email) {
            Some(id) => self.get_user_by_id(id),
            None => None,
        }
    }

    /// The user whose name is `username`.
    pub fn get_user_by_username(&self, username: &str) -> (r: Option<&User>)
        ensures
            match r {
                Some(u) => self@.by_username.contains_key(username@) && self@.users.contains_key(
                    self@.by_username[username@],
                ) && self@.users[self@.by_username[username@]] == u@,
                None => !(self@.by_username.contains_key(username@) && self@.users.contains_key(
                    self@.by_username[username@],
                )),
            },
    {
        proof {
            use_type_invariant(self);
        }
        match Self::id_for(&self.users_by_username, username) {
            Some(id) => self.get_user_by_id(id),
            None => None,
        }
    }

    /// Whether the name `username` is taken.
    pub fn check_username(&self, username: &str) -> (r: bool)
        ensures
            r == self@.by_username.contains_key(username@),
    {
        proof {
            use_type_invariant(self);
        }
        Self::id_for(&self.users_by_username, username).is_some()
    }
}

/// A user that was added is found by its id, its address and its name, and a
/// second user with the same name (and another address) is refused.
pub proof fn law_added_user_is_found(
    s0: UserStoreView,
    s1: UserStoreView,
    s2: UserStoreView,
    user: UserRecord,
    other: UserRecord,
    r1: Result<i64, UserStoreError>,
    r2: Result<i64, UserStoreError>,
)
    requires
        add_user_outcome(s0, s1, r1, user),
        r1 is Ok,
        add_user_outcome(s1, s2, r2, other),
        other.username == user.username,
        other.email != user.email,
        !s1.by_email.contains_key(other.email),
    ensures
        s1.users.contains_key(user.user_id) && s1.users[user.user_id] == user,
        s1.by_email[user.email] == user.user_id,
        s1.by_username[user.username] == user.user_id,
        r2 == Err::<i64, UserStoreError>(UserStoreError::UsernameExists),
        s2 == s1,
{
}

} // verus!
