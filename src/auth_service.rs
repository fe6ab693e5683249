use crate::ids::{get_uuid_from_string, uuid_value};
use crate::models::{Database, User, UserStatus};
use crate::user_repository::{found_user, status_text, user_status_is, user_with_email, user_with_id, UserRepository};
use vstd::prelude::*;

verus! {

/// What argon2's `verify_encoded` says of a password against an encoded hash: whether it
/// matches, `None` where the hash cannot be read.
pub uninterp spec fn argon2_verdict(hash: Seq<char>, password: Seq<char>) -> Option<bool>;

/// Relies on rust-argon2's `verify_encoded`: whether the password's bytes match the encoded
/// hash, `None` where it returns an error.
#[verifier::external_body]
pub fn password_verify(hash: &str, password: &str) -> (r: Option<bool>)
    ensures
        r == argon2_verdict(hash@, password@),
{
    argon2::verify_encoded(hash, password.as_bytes()).ok()
}

/// What a login attempt comes to, given the user found by email (if any) and the verdict
/// on the password: the user, or the message to show.
pub open spec fn login_outcome(user: Option<User>, verdict: Option<bool>) -> Result<User, Seq<char>> {
    match user {
        None => Err("Invalid email address or password"@),
        Some(u) => if verdict != Some(true) {
            Err("Invalid email address or password"@)
        } else if u.status@ == status_text(UserStatus::Pending) {
            Err("Your account is not activated yet"@)
        } else if u.status@ == status_text(UserStatus::Inactive) {
            Err("Your account is not active"@)
        } else {
            Ok(u)
        },
    }
}

pub open spec fn same_outcome(r: Result<User, String>, o: Result<User, Seq<char>>) -> bool {
    match (r, o) {
        (Ok(u), Ok(v)) => u == v,
        (Err(e), Err(m)) => e@ == m,
        _ => false,
    }
}

/// Decides a login attempt from the user found by email and the verdict on the password;
/// an unknown address and a wrong password get the same message.
pub fn admit_login(user: Option<User>, verdict: Option<bool>) -> (r: Result<User, String>)
    ensures
        same_outcome(r, login_outcome(user, verdict)),
{
    let u = match user {
        None => {
            return Err("Invalid email address or password".to_string());
        },
        Some(u) => u,
    };
    match verdict {
        Some(true) => {},
        _ => {
            return Err("Invalid email address or password".to_string());
        },
    }
    if user_status_is(u.status.clone(), UserStatus::Pending) {
        return Err("Your account is not activated yet".to_string());
    }
    if user_status_is(u.status.clone(), UserStatus::Inactive) {
        return Err("Your account is not active".to_string());
    }
    Ok(u)
}

/// The user a token's subject names, or the message to show: the subject must be a UUID
/// and name a known user.
pub open spec fn subject_outcome(db: Database, sub: Seq<char>) -> Result<User, Seq<char>> {
    match uuid_value(sub) {
        None => Err("Invalid auth token"@),
        Some(id) => match found_user(db.users@, user_with_id(id)) {
            None => Err("Invalid auth token, user not found"@),
            Some(u) => Ok(u),
        },
    }
}

/// The access token handed out on login.
pub struct AuthAccessData {
    pub access_token: String,
    pub token_type: String,
    pub expires_in: i64,
}

impl AuthAccessData {
    /// A bearer token good for `expires_in` minutes.
    pub fn bearer(access_token: String, expires_in: i64) -> (r: AuthAccessData)
        ensures
            r.access_token == access_token,
            r.token_type@ == "bearer"@,
            r.expires_in == expires_in,
    {
        AuthAccessData { access_token, token_type: "bearer".to_string(), expires_in }
    }
}

/// What a token says: whose it is, when it was issued and when it expires, in seconds since
/// the Unix epoch.
pub struct TokenClaims {
    pub sub: String,
    pub iat: usize,
    pub exp: usize,
}

impl TokenClaims {
    /// Claims for `sub`, issued at `issued_at` and good for `lifetime_minutes`; `None`
    /// where either moment is negative or out of range.
    pub fn issue(sub: String, issued_at: i64, lifetime_minutes: i64) -> (r: Option<TokenClaims>)
        ensures
            r is Some <==> 0 <= issued_at <= usize::MAX && 0 <= issued_at + 60 * lifetime_minutes
                <= usize::MAX,
            r matches Some(c) ==> c.sub == sub && c.iat == issued_at && c.exp == issued_at + 60
                * lifetime_minutes,
    {
        if issued_at < 0 || issued_at as u128 > usize::MAX as u128 {
            return None;
        }
        let exp = issued_at as i128 + 60 * lifetime_minutes as i128;
        if exp < 0 || exp as u128 > usize::MAX as u128 {
            return None;
        }
        Some(TokenClaims { sub, iat: issued_at as usize, exp: exp as usize })
    }
}

/// The body of a refusal for want of authentication.
pub struct ErrorResponse {
    pub success: bool,
    pub status: i32,
    pub message: String,
}

pub fn make_unauthorized_response(message: &str) -> (r: ErrorResponse)
    ensures
        !r.success,
        r.status == 401,
        r.message@ == message@,
{
    ErrorResponse { success: false, status: 401, message: message.to_string() }
}

/// The token of an `Authorization` header: what follows its first seven characters
/// (`Bearer `); `None` where the header is shorter.
pub fn bearer_token(header: &str) -> (r: Option<String>)
    ensures
        header@.len() < 7 ==> r is None,
        header@.len() >= 7 ==> (r matches Some(t) && t@ == header@.subrange(7, header@.len() as int)),
{
    let n = header.unicode_len();
    if n < 7 {
        return None;
    }
    Some(header.substring_char(7, n).to_string())
}

pub struct AuthService;

impl AuthService {
    /// The user whose email address and password these are, if the account may log in;
    /// otherwise the message to show.
    pub fn login(&mut self, db: &Database, email: String, password: String) -> (r: Result<User, String>)
        ensures
            match found_user(db.users@, user_with_email(email@)) {
                None => same_outcome(r, login_outcome(None, None)),
                Some(u) => same_outcome(
                    r,
                    login_outcome(Some(u), argon2_verdict(u.password@, password@)),
                ),
            },
    {
        let user = UserRepository.find_by_email(db, email);
        let verdict = match &user {
            Some(u) => password_verify(u.password.as_str(), password.as_str()),
            None => None,
        };
        admit_login(user, verdict)
    }

    /// The user a token's subject names; otherwise the message to show.
    pub fn authenticate(&mut self, db: &Database, sub: &str) -> (r: Result<User, String>)
        ensures
            same_outcome(r, subject_outcome(*db, sub@)),
    {
        let id = match get_uuid_from_string(sub) {
            Some(id) => id,
            None => {
                return Err("Invalid auth token".to_string());
            },
        };
        match UserRepository.find_by_id(db, id) {
            Some(u) => Ok(u),
            None => Err("Invalid auth token, user not found".to_string()),
        }
    }

    /// Tokens are not tracked, so there is nothing to undo.
    pub fn logout(&mut self) {
    }
}

} // verus!
