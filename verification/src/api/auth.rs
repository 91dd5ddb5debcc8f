//! API keys: the bearer header, the key format and key verification.
use vstd::prelude::*;
use argon2::{PasswordHasher, PasswordVerifier};
use crate::text::{starts_with, str_starts_with, string_of, trim, trim_chars, from_chars, to_chars, slice_chars};

verus! {

/// The key a request was authenticated with.
pub struct AuthenticatedApiKey {
    pub id: String,
    pub plan: String,
}

/// Body of an authentication failure.
pub struct AuthError {
    pub error: String,
}

/// Every API key starts with this.
pub const API_KEY_PREFIX: &'static str = "sk-scraper-";

/// The start of a bearer authorization header.
pub const BEARER_PREFIX: &'static str = "Bearer ";

/// Why a request could not be authenticated.
#[derive(Debug, Clone, Copy, PartialEq, Eq, Structural)]
pub enum AuthFailure {
    MissingHeader,
    BadHeaderFormat,
    BadKeyFormat,
    DatabaseError,
    UnknownKey,
}

/// The message answered for each failure.
pub open spec fn failure_text(f: AuthFailure) -> Seq<char> {
    match f {
        AuthFailure::MissingHeader => "Missing Authorization header"@,
        AuthFailure::BadHeaderFormat => "Invalid Authorization header format. Use: Bearer <api_key>"@,
        AuthFailure::BadKeyFormat => "Invalid API key format"@,
        AuthFailure::DatabaseError => "Database error"@,
        AuthFailure::UnknownKey => "Invalid API key"@,
    }
}

impl AuthError {
    /// The error body of a failure (all are answered `401 Unauthorized`
    /// but `DatabaseError`, which is a server error).
    pub fn of(f: AuthFailure) -> (r: AuthError)
        ensures
            r.error@ == failure_text(f),
    {
        let text = match f {
            AuthFailure::MissingHeader => "Missing Authorization header",
            AuthFailure::BadHeaderFormat => "Invalid Authorization header format. Use: Bearer <api_key>",
            AuthFailure::BadKeyFormat => "Invalid API key format",
            AuthFailure::DatabaseError => "Database error",
            AuthFailure::UnknownKey => "Invalid API key",
        };
        AuthError { error: string_of(text) }
    }
}

/// The token of an `Authorization` header: what follows `Bearer `, trimmed.
pub open spec fn bearer_spec(header: Option<Seq<char>>) -> Result<Seq<char>, AuthFailure> {
    match header {
        None => Err(AuthFailure::MissingHeader),
        Some(h) => if starts_with(h, BEARER_PREFIX@) {
            Ok(trim(h.subrange(BEARER_PREFIX@.len() as int, h.len() as int)))
        } else {
            Err(AuthFailure::BadHeaderFormat)
        },
    }
}

/// Reads the API key out of an `Authorization` header (absent when the
/// request has none or it is not text).
pub fn bearer_token(header: Option<&str>) -> (r: Result<String, AuthFailure>)
    ensures
        match r {
            Ok(t) => bearer_spec(crate::text::opt_str_view(header)) == Ok::<Seq<char>, AuthFailure>(t@),
            Err(f) => bearer_spec(crate::text::opt_str_view(header)) == Err::<Seq<char>, AuthFailure>(f),
        },
{
    match header {
        None => Err(AuthFailure::MissingHeader),
        Some(h) => {
            if !str_starts_with(h, BEARER_PREFIX) {
                return Err(AuthFailure::BadHeaderFormat);
            }
            let v = to_chars(h);
            proof {
                reveal_strlit("Bearer ");
            }
            let rest = slice_chars(&v, 7, v.len());
            let t = trim_chars(&rest);
            Ok(from_chars(&t))
        },
    }
}

/// Whether `argon2` with its default parameters accepts the key `plain`
/// for the stored PHC string `hash` (`PasswordHash::new` succeeds on it
/// and `verify_password` succeeds).
pub uninterp spec fn argon2_accepts(plain: Seq<char>, hash: Seq<char>) -> bool;

/// Calls `PasswordHash::new` on `hash` and `Argon2::verify_password` with
/// the bytes of `plain`; the result is the named `argon2_accepts`.
#[verifier::external_body]
pub fn verify_key(plain: &str, hash: &str) -> (r: bool)
    ensures
        r == argon2_accepts(plain@, hash@),
{
    match argon2::PasswordHash::new(hash) {
        Ok(parsed) => argon2::Argon2::default().verify_password(plain.as_bytes(), &parsed).is_ok(),
        Err(_) => false,
    }
}

/// Calls `Argon2::hash_password` with a salt drawn from the operating
/// system (`SaltString::generate` with `OsRng`) and writes the PHC string.
/// The hash differs from call to call; what holds of every outcome is that
/// the key verifies against it. On failure the error's text is returned.
#[verifier::external_body]
pub fn hash_api_key(plain_key: &str) -> (r: Result<String, String>)
    ensures
        r matches Ok(h) ==> argon2_accepts(plain_key@, h@),
{
    let salt = argon2::password_hash::SaltString::generate(&mut rand_core::OsRng);
    match argon2::Argon2::default().hash_password(plain_key.as_bytes(), &salt) {
        Ok(h) => Ok(h.to_string()),
        Err(e) => Err(format!("Failed to hash password: {}", e)),
    }
}

/// A stored API key.
pub struct ApiKeyRow {
    pub id: String,
    pub key_hash: String,
    pub plan: String,
    pub active: bool,
}

/// The first of `rows` whose hash accepts `plain`, by position.
pub open spec fn first_accepting(rows: Seq<ApiKeyRow>, plain: Seq<char>) -> Option<int> {
    if exists|i: int| 0 <= i < rows.len() && argon2_accepts(plain, #[trigger] rows[i].key_hash@) {
        Some(choose|i: int| 0 <= i < rows.len() && argon2_accepts(plain, #[trigger] rows[i].key_hash@)
            && forall|j: int| 0 <= j < i ==> !argon2_accepts(plain, #[trigger] rows[j].key_hash@))
    } else {
        None
    }
}

/// Validates a presented key against the active stored keys `rows`: it
/// must start with `sk-scraper-`, and the first row whose hash accepts it
/// gives the key's id and plan.
pub fn validate_api_key(rows: &Vec<ApiKeyRow>, plain_key: &str) -> (r: Result<AuthenticatedApiKey, AuthFailure>)
    ensures
        !starts_with(plain_key@, API_KEY_PREFIX@) ==> r == Err::<AuthenticatedApiKey, AuthFailure>(AuthFailure::BadKeyFormat),
        starts_with(plain_key@, API_KEY_PREFIX@) ==> match first_accepting(rows@, plain_key@) {
            Some(i) => r matches Ok(k) && k.id@ == rows@[i].id@ && k.plan@ == rows@[i].plan@,
            None => r == Err::<AuthenticatedApiKey, AuthFailure>(AuthFailure::UnknownKey),
        },
{
    if !str_starts_with(plain_key, API_KEY_PREFIX) {
        return Err(AuthFailure::BadKeyFormat);
    }
    let mut i: usize = 0;
    while i < rows.len()
        invariant
            i <= rows.len(),
            starts_with(plain_key@, API_KEY_PREFIX@),
            forall|j: int| 0 <= j < i ==> !argon2_accepts(plain_key@, #[trigger] rows@[j].key_hash@),
        decreases rows.len() - i,
    {
        if verify_key(plain_key, rows[i].key_hash.as_str()) {
            proof {
                let w = choose|w: int| 0 <= w < rows@.len() && argon2_accepts(plain_key@, #[trigger] rows@[w].key_hash@)
                    && forall|j: int| 0 <= j < w ==> !argon2_accepts(plain_key@, #[trigger] rows@[j].key_hash@);
                assert(0 <= i < rows@.len() && argon2_accepts(plain_key@, rows@[i as int].key_hash@));
                if w < i {
                    assert(!argon2_accepts(plain_key@, rows@[w].key_hash@));
                } else if w > i {
                    assert(!argon2_accepts(plain_key@, rows@[i as int].key_hash@));
                }
            }
            return Ok(AuthenticatedApiKey { id: rows[i].id.clone(), plan: rows[i].plan.clone() });
        }
        i = i + 1;
    }
    Err(AuthFailure::UnknownKey)
}

/// A key hashed by `hash_api_key` is accepted by `validate_api_key`: when
/// its hash is stored in an active row and no earlier row accepts it, the
/// key authenticates as that row.
pub proof fn lemma_hashed_key_validates(rows: Seq<ApiKeyRow>, plain: Seq<char>, i: int)
    requires
        0 <= i < rows.len(),
        argon2_accepts(plain, rows[i].key_hash@),
        forall|j: int| 0 <= j < i ==> !argon2_accepts(plain, #[trigger] rows[j].key_hash@),
    ensures
        first_accepting(rows, plain) == Some(i),
{
    let w = choose|w: int| 0 <= w < rows.len() && argon2_accepts(plain, #[trigger] rows[w].key_hash@)
        && forall|j: int| 0 <= j < w ==> !argon2_accepts(plain, #[trigger] rows[j].key_hash@);
    assert(0 <= i < rows.len() && argon2_accepts(plain, rows[i].key_hash@));
    if w < i {
        assert(!argon2_accepts(plain, rows[w].key_hash@));
    } else if w > i {
        assert(!argon2_accepts(plain, rows[i].key_hash@));
    }
}

} // verus!
