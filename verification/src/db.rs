use crate::search::{first_match, first_position, lemma_first_position};
use crate::text::str_eq;
use vstd::prelude::*;

verus! {

/// One identity record of the credential store.
#[derive(Debug, PartialEq, Eq)]
pub struct User {
    pub id: String,
    pub username: String,
    pub password_hash: String,
    pub session_version: u64,
}

/// A record with its texts as sequences of characters.
pub struct UserView {
    pub id: Seq<char>,
    pub username: Seq<char>,
    pub password_hash: Seq<char>,
    pub session_version: u64,
}

impl View for User {
    type V = UserView;

    open spec fn view(&self) -> UserView {
        UserView {
            id: self.id@,
            username: self.username@,
            password_hash: self.password_hash@,
            session_version: self.session_version,
        }
    }
}

impl Clone for User {
    fn clone(&self) -> (copy: User)
        ensures
            copy@ == self@,
    {
        User {
            id: self.id.clone(),
            username: self.username.clone(),
            password_hash: self.password_hash.clone(),
            session_version: self.session_version,
        }
    }
}

/// The most lanes, Argon2's degree of parallelism, that a password hash may name.
pub const MAX_LANES: u32 = 0xFF_FFFF;

/// The parameters of a password hash in PHC form as `argon2::PasswordHash::new` parses
/// them: in their order, each with its name and, where it is written as a decimal number
/// of 32 bits, its value. `None` for a text that does not parse as a password hash.
pub uninterp spec fn hash_params(hash: Seq<char>) -> Option<Seq<(Seq<char>, Option<u32>)>>;

/// Whether Argon2 accepts `password` for the stored hash text `hash`: what
/// `argon2::Argon2::verify_password` decides once `hash` has been parsed, and `false` for a
/// text that does not parse as a password hash. It is asked only of hashes whose lanes are
/// within `MAX_LANES`.
pub uninterp spec fn password_matches(hash: Seq<char>, password: Seq<char>) -> bool;

/// The view of a list of parameters.
pub open spec fn params_view(params: Seq<(String, Option<u32>)>) -> Seq<(Seq<char>, Option<u32>)> {
    params.map_values(|p: (String, Option<u32>)| (p.0@, p.1))
}

/// The number of lanes that a list of parameters names: the value of the last parameter
/// called `p`, which is the one Argon2 goes by. `None` where no parameter is called `p` or
/// the last one is no decimal number.
pub open spec fn last_lanes(params: Seq<(Seq<char>, Option<u32>)>) -> Option<u32>
    decreases params.len(),
{
    if params.len() == 0 {
        None
    } else if params.last().0 == "p"@ {
        params.last().1
    } else {
        last_lanes(params.drop_last())
    }
}

/// Whether the lanes that `hash` names are within `MAX_LANES`. A text that is no hash, or
/// names no lanes, is within it.
pub open spec fn lanes_in_range(hash: Seq<char>) -> bool {
    match hash_params(hash) {
        Some(params) => match last_lanes(params) {
            Some(lanes) => lanes <= MAX_LANES,
            None => true,
        },
        None => true,
    }
}

/// Whether the stored hash text `hash` accepts `password`: its lanes are within
/// `MAX_LANES`, and Argon2 accepts the password for it. Argon2 itself refuses every hash
/// with more lanes, whatever the password.
pub open spec fn accepts(hash: Seq<char>, password: Seq<char>) -> bool {
    lanes_in_range(hash) && password_matches(hash, password)
}

/// Parses `hash` with `argon2::PasswordHash::new` and hands out its parameters in order:
/// each with its name and with what `password_hash::Value::decimal` reads of its value.
///
/// Trusted: the list depends on the text of `hash` alone.
#[verifier::external_body]
fn read_params(hash: &str) -> (params: Option<Vec<(String, Option<u32>)>>)
    ensures
        params matches Some(list) ==> hash_params(hash@) == Some(params_view(list@)),
        params is None ==> hash_params(hash@) is None,
{
    match argon2::PasswordHash::new(hash) {
        Ok(parsed) => Some(
            parsed
                .params
                .iter()
                .map(|(name, value)| (name.as_str().to_string(), value.decimal().ok()))
                .collect(),
        ),
        Err(_) => None,
    }
}

/// Parses `hash` with `argon2::PasswordHash::new` and checks `password` against it with
/// `argon2::Argon2::verify_password`, under the parameters that the hash itself names: the
/// time and memory the check takes are the ones written in `hash`. A hash that names more
/// lanes than `MAX_LANES` is kept away from the call, which multiplies the lanes in 32 bits
/// before it tests them.
///
/// Trusted: the answer depends on the two texts alone.
#[verifier::external_body]
fn verify_hash(hash: &str, password: &str) -> (accepted: bool)
    requires
        lanes_in_range(hash@),
    ensures
        accepted == password_matches(hash@, password@),
{
    match argon2::PasswordHash::new(hash) {
        Ok(parsed) => argon2::PasswordVerifier::verify_password(
            &argon2::Argon2::default(),
            password.as_bytes(),
            &parsed,
        ).is_ok(),
        Err(_) => false,
    }
}

/// Finds the lanes that a list of parameters names.
fn lanes_of(params: &Vec<(String, Option<u32>)>) -> (lanes: Option<u32>)
    ensures
        lanes == last_lanes(params_view(params@)),
{
    let ghost all = params_view(params@);
    let mut i: usize = params.len();
    assert(all.take(i as int) =~= all);
    while i > 0
        invariant
            i <= params.len(),
            all == params_view(params@),
            last_lanes(all) == last_lanes(all.take(i as int)),
        decreases i,
    {
        i -= 1;
        proof {
            assert(all.take(i + 1).last() == all[i as int]);
            assert(all.take(i + 1).drop_last() =~= all.take(i as int));
        }
        if str_eq(params[i].0.as_str(), "p") {
            return params[i].1;
        }
    }
    None
}

/// Whether the lanes that `hash` names are within `MAX_LANES`.
pub fn lanes_within_limit(hash: &str) -> (within: bool)
    ensures
        within == lanes_in_range(hash@),
{
    match read_params(hash) {
        Some(params) => match lanes_of(&params) {
            Some(lanes) => lanes <= MAX_LANES,
            None => true,
        },
        None => true,
    }
}

/// Hashes `password` with `argon2::Argon2::hash_password` under the default parameters and
/// a salt that `password_hash::SaltString::generate` draws from the operating system, and
/// gives the hash as text; `None` where the hasher reports an error.
///
/// Trusted: whatever salt was drawn, the hash that comes back accepts `password`.
#[verifier::external_body]
fn hash_password(password: &str) -> (hash: Option<String>)
    ensures
        hash matches Some(h) ==> password_matches(h@, password@),
{
    let salt = password_hash::SaltString::generate(rand::rngs::OsRng);
    match argon2::PasswordHasher::hash_password(
        &argon2::Argon2::default(),
        password.as_bytes(),
        &salt,
    ) {
        Ok(hash) => Some(hash.to_string()),
        Err(_) => None,
    }
}

impl User {
    /// Whether this user's stored hash accepts `password`. A hash that names more lanes
    /// than Argon2 allows accepts nothing.
    pub fn check_password(&self, password: &str) -> (accepted: bool)
        ensures
            accepted == accepts(self.password_hash@, password@),
    {
        lanes_within_limit(self.password_hash.as_str()) && verify_hash(
            self.password_hash.as_str(),
            password,
        )
    }
}

/// Selects the records whose id is `id`.
pub open spec fn has_id(id: Seq<char>) -> spec_fn(UserView) -> bool {
    |u: UserView| u.id == id
}

/// Selects the records whose username is `username`.
pub open spec fn has_username(username: Seq<char>) -> spec_fn(UserView) -> bool {
    |u: UserView| u.username == username
}

/// The record after one revocation: its session version one higher. The counter never
/// wraps, so a record at the largest version stays as it is.
pub open spec fn raised(u: UserView) -> UserView {
    UserView {
        session_version: if u.session_version < u64::MAX {
            (u.session_version + 1) as u64
        } else {
            u.session_version
        },
        ..u
    }
}

/// The store after the sessions of `id` have been revoked: the first record with that id
/// has its version raised, and nothing else changes.
pub open spec fn bumped(users: Seq<UserView>, id: Seq<char>) -> Seq<UserView> {
    match first_position(users, has_id(id)) {
        Some(i) => users.update(i, raised(users[i])),
        None => users,
    }
}

/// No two records share an id, and no two share a username.
pub open spec fn unique(users: Seq<UserView>) -> bool {
    forall|i: int, j: int|
        #![trigger users[i], users[j]]
        0 <= i < j < users.len() ==> users[i].id != users[j].id && users[i].username
            != users[j].username
}

/// The view of what a lookup hands back.
pub open spec fn found_view(found: Option<User>) -> Option<UserView> {
    match found {
        Some(u) => Some(u@),
        None => None,
    }
}

/// The credential store as the session logic sees it: lookups by id and by username,
/// creation, and revocation of every session of one user.
pub trait UserDatabase {
    /// The records held, oldest first.
    spec fn records(&self) -> Seq<UserView>;

    /// The first record with this id.
    fn get_user_by_id(&self, id: &str) -> (found: Option<User>)
        ensures
            found_view(found) == first_match(self.records(), has_id(id@)),
    ;

    /// The first record with this username.
    fn get_user_by_username(&self, username: &str) -> (found: Option<User>)
        ensures
            found_view(found) == first_match(self.records(), has_username(username@)),
    ;

    /// Appends a record. The caller sees to it that id and username are new.
    fn add_user(&mut self, user: User)
        ensures
            final(self).records() == old(self).records().push(user@),
    ;

    /// Raises the session version of `id` by one, which revokes every refresh token issued
    /// to that user so far. An unknown id changes nothing.
    fn invalidate_user_sessions(&mut self, id: &str)
        ensures
            final(self).records() == bumped(old(self).records(), id@),
    ;
}

/// The in-memory credential store.
pub struct Database {
    users: Vec<User>,
}

impl Database {
    /// An empty store.
    pub fn new() -> (db: Database)
        ensures
            db.records() == Seq::<UserView>::empty(),
    {
        Database { users: Vec::new() }
    }

    fn position_by_id(&self, id: &str) -> (at: Option<usize>)
        ensures
            match at {
                Some(i) => first_position(self.records(), has_id(id@)) == Some(i as int),
                None => first_position(self.records(), has_id(id@)) is None,
            },
    {
        let mut i: usize = 0;
        while i < self.users.len()
            invariant
                i <= self.users.len(),
                forall|j: int| 0 <= j < i ==> !has_id(id@)(#[trigger] self.records()[j]),
            decreases self.users.len() - i,
        {
            if str_eq(self.users[i].id.as_str(), id) {
                proof {
                    lemma_first_position(self.records(), has_id(id@), i as int);
                }
                return Some(i);
            }
            i += 1;
        }
        proof {
            lemma_first_position(self.records(), has_id(id@), i as int);
        }
        None
    }

    fn position_by_username(&self, username: &str) -> (at: Option<usize>)
        ensures
            match at {
                Some(i) => first_position(self.records(), has_username(username@)) == Some(
                    i as int,
                ),
                None => first_position(self.records(), has_username(username@)) is None,
            },
    {
        let mut i: usize = 0;
        while i < self.users.len()
            invariant
                i <= self.users.len(),
                forall|j: int|
                    0 <= j < i ==> !has_username(username@)(#[trigger] self.records()[j]),
            decreases self.users.len() - i,
        {
            if str_eq(self.users[i].username.as_str(), username) {
                proof {
                    lemma_first_position(self.records(), has_username(username@), i as int);
                }
                return Some(i);
            }
            i += 1;
        }
        proof {
            lemma_first_position(self.records(), has_username(username@), i as int);
        }
        None
    }
}

impl UserDatabase for Database {
    closed spec fn records(&self) -> Seq<UserView> {
        self.users@.map_values(|u: User| u@)
    }

    fn get_user_by_id(&self, id: &str) -> (found: Option<User>) {
        match self.position_by_id(id) {
            Some(i) => Some(self.users[i].clone()),
            None => None,
        }
    }

    fn get_user_by_username(&self, username: &str) -> (found: Option<User>) {
        match self.position_by_username(username) {
            Some(i) => Some(self.users[i].clone()),
            None => None,
        }
    }

    fn add_user(&mut self, user: User) {
        self.users.push(user);
        assert(self.records() =~= old(self).records().push(user@));
    }

    fn invalidate_user_sessions(&mut self, id: &str) {
        match self.position_by_id(id) {
            Some(i) => {
                let mut user = self.users[i].clone();
                if user.session_version < u64::MAX {
                    user.session_version = user.session_version + 1;
                }
                self.users.set(i, user);
                assert(self.records() =~= bumped(old(self).records(), id@));
            },
            None => {},
        }
    }
}

/// The record of a user at creation: the given id, username and password hash, and the
/// first session version, 1.
pub open spec fn new_record(id: Seq<char>, username: Seq<char>, password_hash: Seq<char>) -> UserView {
    UserView { id, username, password_hash, session_version: 1 }
}

/// Creates a user from the outcome of hashing its password. With a hash, the record of
/// the new user is appended and `true` comes back; without one, the store stays as it is
/// and `false` comes back. The caller sees to it that id and username are new.
pub fn create_user<D: UserDatabase>(
    db: &mut D,
    id: &str,
    username: &str,
    password_hash: Option<String>,
) -> (created: bool)
    ensures
        created == password_hash.is_some(),
        final(db).records() == match password_hash {
            Some(hash) => old(db).records().push(new_record(id@, username@, hash@)),
            None => old(db).records(),
        },
{
    match password_hash {
        Some(password_hash) => {
            db.add_user(
                User {
                    id: id.to_owned(),
                    username: username.to_owned(),
                    password_hash,
                    session_version: 1,
                },
            );
            true
        },
        None => false,
    }
}

/// Creates the user `username` with the id `id`, a freshly salted hash of `password` and
/// the first session version, 1. The caller sees to it that id and username are new.
/// Where the password cannot be hashed, or the hash read back names more lanes than
/// `MAX_LANES`, the store stays as it is and `false` comes back.
pub fn setup_user<D: UserDatabase>(db: &mut D, id: &str, username: &str, password: &str) -> (created:
    bool)
    ensures
        created ==> exists|hash: Seq<char>|
            {
                &&& #[trigger] accepts(hash, password@)
                &&& final(db).records() == old(db).records().push(
                    UserView {
                        id: id@,
                        username: username@,
                        password_hash: hash,
                        session_version: 1,
                    },
                )
            },
        !created ==> final(db).records() == old(db).records(),
{
    let password_hash = match hash_password(password) {
        Some(hash) => if lanes_within_limit(hash.as_str()) {
            Some(hash)
        } else {
            None
        },
        None => None,
    };
    assert(password_hash matches Some(hash) ==> accepts(hash@, password@));
    create_user(db, id, username, password_hash)
}

} // verus!
