use crate::date_time::DateTime;
use crate::ids::{fresh_id, new_id};
use crate::models::{only_users_changed, Database, RegisterForm, User, UserStatus};
use crate::table::{first_where, is_first, lemma_first_where_absent, lemma_first_where_found};
use vstd::prelude::*;

verus! {

/// The text that argon2's `hash_encoded` makes of a password and a salt under its default
/// configuration; `None` where it refuses them.
pub uninterp spec fn argon2_hash(password: Seq<char>, salt: Seq<char>) -> Option<Seq<char>>;

/// Relies on rust-argon2's `hash_encoded` with `Config::default()`: the encoded hash of the
/// password's bytes under the salt's bytes, `None` where it returns an error (a salt that
/// is too short).
#[verifier::external_body]
pub fn password_hash(password: &str, salt: &str) -> (r: Option<String>)
    ensures
        match r {
            Some(h) => argon2_hash(password@, salt@) == Some(h@),
            None => argon2_hash(password@, salt@) is None,
        },
{
    argon2::hash_encoded(password.as_bytes(), salt.as_bytes(), &argon2::Config::default()).ok()
}

/// A user with this identifier.
pub open spec fn user_with_id(id: u128) -> spec_fn(User) -> bool {
    |u: User| u.user_id == id
}

/// A user with this email address.
pub open spec fn user_with_email(email: Seq<char>) -> spec_fn(User) -> bool {
    |u: User| u.email@ == email
}

/// The row of `users` that a lookup by `p` finds, if any.
pub open spec fn found_user(users: Seq<User>, p: spec_fn(User) -> bool) -> Option<User> {
    match first_where(users, p) {
        Some(i) => Some(users[i]),
        None => None,
    }
}

pub open spec fn status_text(status: UserStatus) -> Seq<char> {
    match status {
        UserStatus::Active => "active"@,
        UserStatus::Inactive => "inactive"@,
        UserStatus::Pending => "pending"@,
    }
}

fn find_user(users: &Vec<User>, id: u128, email: Option<&String>) -> (r: Option<usize>)
    ensures
        email is None ==> match r {
            Some(i) => first_where(users@, user_with_id(id)) == Some(i as int),
            None => first_where(users@, user_with_id(id)) is None,
        },
        email matches Some(m) ==> match r {
            Some(i) => first_where(users@, user_with_email(m@)) == Some(i as int),
            None => first_where(users@, user_with_email(m@)) is None,
        },
{
    let ghost p = match email {
        Some(m) => user_with_email(m@),
        None => user_with_id(id),
    };
    let mut i: usize = 0;
    while i < users.len()
        invariant
            0 <= i <= users@.len(),
            email is None ==> p == user_with_id(id),
            email matches Some(m) ==> p == user_with_email(m@),
            forall|j: int| 0 <= j < i ==> !p(#[trigger] users@[j]),
        decreases users@.len() - i,
    {
        let u = &users[i];
        let hit = match email {
            Some(m) => u.email == *m,
            None => u.user_id == id,
        };
        if hit {
            proof {
                assert(is_first(users@, p, i as int));
                lemma_first_where_found(users@, p, i as int);
            }
            return Some(i);
        }
        i = i + 1;
    }
    proof {
        lemma_first_where_absent(users@, p);
    }
    None
}

/// No stored row of `s` has identifier `id`.
pub open spec fn fresh_user_id(s: Seq<User>, id: u128) -> bool {
    forall|j: int| 0 <= j < s.len() ==> (#[trigger] s[j]).user_id != id
}

/// A fresh identifier for a new row of `rows`: the one drawn by uuid, unless a row has it.
fn new_user_id(rows: &Vec<User>) -> (r: u128)
    ensures
        fresh_user_id(rows@, r),
{
    let mut ids: Vec<u128> = Vec::new();
    let mut j: usize = 0;
    while j < rows.len()
        invariant
            0 <= j <= rows@.len(),
            ids@.len() == j,
            forall|t: int| 0 <= t < j ==> ids@[t] == (#[trigger] rows@[t]).user_id,
        decreases rows@.len() - j,
    {
        ids.push(rows[j].user_id);
        j = j + 1;
    }
    let r = fresh_id(&ids, new_id());
    assert forall|t: int| 0 <= t < rows@.len() implies (#[trigger] rows@[t]).user_id != r by {
        if rows@[t].user_id == r {
            assert(ids@[t] == r);
            assert(ids@.contains(r));
        }
    }
    r
}

pub struct UserRepository;

impl UserRepository {
    /// Registers an active user under a fresh identifier, with the password stored as its
    /// argon2 hash under `salt`. Fails, adding nothing, when the email address is taken or
    /// the hash cannot be made.
    pub fn create(&mut self, db: &mut Database, data: RegisterForm, salt: &str, now: DateTime) -> (r: Result<
        User,
        String,
    >)
        ensures
            first_where(old(db).users@, user_with_email(data.email@)) is Some ==> {
                &&& r matches Err(e) && e@ == "User with such email address already exists"@
                &&& *final(db) == *old(db)
            },
            first_where(old(db).users@, user_with_email(data.email@)) is None ==> match argon2_hash(
                data.password@,
                salt@,
            ) {
                None => r matches Err(e) && e@ == "Failed to hash password"@ && *final(db) == *old(db),
                Some(h) => r matches Ok(u) && fresh_user_id(old(db).users@, u.user_id) && u.first_name == data.first_name && u.last_name
                    == data.last_name && u.email == data.email && u.password@ == h && u.status@
                    == status_text(UserStatus::Active) && u.created_at == now && u.updated_at == now
                    && u.deleted_at is None && final(db).users@ == old(db).users@.push(u)
                    && only_users_changed(*old(db), *final(db)),
            },
    {
        if find_user(&db.users, 0, Some(&data.email)).is_some() {
            return Err("User with such email address already exists".to_string());
        }
        let password = match password_hash(data.password.as_str(), salt) {
            Some(h) => h,
            None => {
                return Err("Failed to hash password".to_string());
            },
        };
        let model = User {
            user_id: new_user_id(&db.users),
            first_name: data.first_name,
            last_name: data.last_name,
            email: data.email,
            password,
            status: user_stringy_status(UserStatus::Active).to_string(),
            created_at: now,
            updated_at: now,
            deleted_at: None,
        };
        db.users.push(model.clone());
        Ok(model)
    }

    /// The user with identifier `id`.
    pub fn find_by_id(&mut self, db: &Database, id: u128) -> (r: Option<User>)
        ensures
            r == found_user(db.users@, user_with_id(id)),
    {
        match find_user(&db.users, id, None) {
            Some(i) => Some(db.users[i].clone()),
            None => None,
        }
    }

    /// The user with this email address.
    pub fn find_by_email(&mut self, db: &Database, email_addr: String) -> (r: Option<User>)
        ensures
            r == found_user(db.users@, user_with_email(email_addr@)),
    {
        match find_user(&db.users, 0, Some(&email_addr)) {
            Some(i) => Some(db.users[i].clone()),
            None => None,
        }
    }
}

/// The text a status is stored as.
pub fn user_stringy_status(status: UserStatus) -> (r: &'static str)
    ensures
        r@ == status_text(status),
{
    match status {
        UserStatus::Active => "active",
        UserStatus::Inactive => "inactive",
        UserStatus::Pending => "pending",
    }
}

/// Whether a stored status text is that of `status`.
pub fn user_status_is(str: String, status: UserStatus) -> (r: bool)
    ensures
        r == (str@ == status_text(status)),
{
    str == user_stringy_status(status).to_string()
}

} // verus!
