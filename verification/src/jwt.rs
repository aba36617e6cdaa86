//! Authentication: password checks against the stored hash, and the claims of
//! the tokens that are issued.

use vstd::prelude::*;
use vstd::string::*;
use vstd::utf8::encode_utf8;
use argon2::password_hash::rand_core::OsRng;
use argon2::password_hash::SaltString;
use argon2::{Argon2, PasswordHasher};
use crate::error::{NarodenError, NarodenResult};
use crate::user::User;

verus! {

/// An issued token.
#[derive(Debug)]
pub struct Jwt {
    pub token: String,
}

/// Claims carried by a token: the user (`sub`), its role, and the expiry and
/// issue times in seconds since the Unix epoch.
#[derive(Debug)]
pub struct JwtClaims {
    pub sub: String,
    pub role: String,
    pub exp: i64,
    pub iat: i64,
}

/// A login request: a contact value (e-mail or phone) and a password.
#[derive(Debug)]
pub struct PostJwtRequest {
    pub user_identifier: String,
    pub password: String,
}

/// Roles a token can carry.
#[allow(non_camel_case_types)]
#[derive(Debug, Clone, Copy, PartialEq, Eq, Structural)]
pub enum UserRole {
    ADMIN,
    USER,
    NONE,
}

/// The name of a role, as written into tokens.
pub open spec fn role_name(role: UserRole) -> Seq<char> {
    match role {
        UserRole::ADMIN => "ADMIN"@,
        UserRole::USER => "USER"@,
        UserRole::NONE => "NONE"@,
    }
}

impl UserRole {
    /// The name of the role.
    pub fn as_str(&self) -> (name: &'static str)
        ensures
            name@ == role_name(*self),
    {
        match *self {
            UserRole::ADMIN => "ADMIN",
            UserRole::USER => "USER",
            UserRole::NONE => "NONE",
        }
    }
}

/// The PHC string that Argon2 with its default parameters (Argon2id, version 19)
/// computes for `password` and the base64 salt `salt_b64`; `None` when the salt is
/// not valid base64 or hashing fails.
pub uninterp spec fn argon2_phc_hash(password: Seq<char>, salt_b64: Seq<char>) -> Option<Seq<char>>;

/// Hashes `password` with `Argon2::default().hash_password` under the salt decoded
/// by `SaltString::from_b64`, and writes the hash as its PHC string. The result is
/// named by `argon2_phc_hash`; also claimed: a password longer than
/// `argon2::MAX_PWD_LEN` bytes is refused (`Error::PwdTooLong`).
#[verifier::external_body]
pub(crate) fn hash_password(password: &str, salt_b64: &str) -> (hash: Option<String>)
    ensures
        match hash {
            None => argon2_phc_hash(password@, salt_b64@) is None,
            Some(h) => argon2_phc_hash(password@, salt_b64@) == Some(h@),
        },
        encode_utf8(password@).len() > MAX_PASSWORD_BYTES ==> hash is None,
{
    let salt = SaltString::from_b64(salt_b64).ok()?;
    match Argon2::default().hash_password(password.as_bytes(), &salt) {
        Ok(h) => Some(h.to_string()),
        Err(_) => None,
    }
}

/// Largest password, in UTF-8 bytes, that Argon2 accepts (`argon2::MAX_PWD_LEN`).
pub const MAX_PASSWORD_BYTES: u64 = 0xFFFF_FFFF;

/// A fresh random salt from `SaltString::generate` over the operating system's
/// random source, in base64. Claimed: the salt is one that hashing accepts. It
/// encodes 16 random bytes, so `SaltString::from_b64` takes it back and Argon2 finds
/// it long enough; with the default parameters hashing then fails only for a
/// password longer than `argon2::MAX_PWD_LEN` bytes. Its value is not stated.
#[verifier::external_body]
pub(crate) fn generate_salt() -> (salt: String)
    ensures
        forall|password: Seq<char>|
            encode_utf8(password).len() <= MAX_PASSWORD_BYTES ==> (#[trigger] argon2_phc_hash(
                password,
                salt@,
            )) is Some,
{
    SaltString::generate(&mut OsRng).as_str().to_string()
}

/// The outcome of a login for the user found by the contact value: `None` where
/// the stored record lacks what the check needs or hashing fails; a user that is
/// missing or whose password hash differs is refused with invalid credentials;
/// otherwise the key of the user's record.
pub open spec fn login_outcome(user: Option<User>, password: Seq<char>) -> Option<Result<Seq<char>, NarodenError>> {
    match user {
        None => Some(Err(NarodenError::InvalidCredentials)),
        Some(u) => match u.password_salt {
            None => None,
            Some(salt) => match argon2_phc_hash(password, salt@) {
                None => None,
                Some(h) => match u.password {
                    None => None,
                    Some(stored) => if h == stored@ {
                        match u.id {
                            None => None,
                            Some(id) => Some(Ok(id@)),
                        }
                    } else {
                        Some(Err(NarodenError::InvalidCredentials))
                    },
                },
            },
        },
    }
}

/// The view of an optional handler result that carries a string.
pub open spec fn text_outcome(r: Option<NarodenResult<String>>) -> Option<Result<Seq<char>, NarodenError>> {
    match r {
        None => None,
        Some(Ok(s)) => Some(Ok(s@)),
        Some(Err(e)) => Some(Err(e)),
    }
}

/// Checks a login: hashes `password` with the user's stored salt and compares the
/// result with the stored hash (see `login_outcome`).
pub fn verify_credentials(user: Option<User>, password: &str) -> (res: Option<NarodenResult<String>>)
    ensures
        text_outcome(res) == login_outcome(user, password@),
{
    let user = match user {
        None => return Some(Err(NarodenError::InvalidCredentials)),
        Some(u) => u,
    };
    let salt = match &user.password_salt {
        None => return None,
        Some(s) => s,
    };
    let hash = match hash_password(password, salt.as_str()) {
        None => return None,
        Some(h) => h,
    };
    let stored = match &user.password {
        None => return None,
        Some(p) => p,
    };
    if hash != *stored {
        return Some(Err(NarodenError::InvalidCredentials));
    }
    match user.id {
        None => None,
        Some(id) => Some(Ok(id)),
    }
}

/// A login: checks the password of the user found by the contact value and, when
/// it matches, builds the claims of a token for that user with the user role.
/// `None` where the stored record lacks what the check needs, hashing fails, or
/// the expiry is out of range; otherwise the answer follows `login_outcome`.
pub fn login_claims(user: Option<User>, password: &str) -> (res: Option<NarodenResult<JwtClaims>>)
    ensures
        res matches Some(Err(e)) ==> login_outcome(user, password@) == Some(
            Err::<Seq<char>, NarodenError>(e),
        ),
        res matches Some(Ok(c)) ==> login_outcome(user, password@) == Some(
            Ok::<Seq<char>, NarodenError>(c.sub@),
        ) && c.role@ == role_name(UserRole::USER),
        res matches Some(Ok(c)) ==> is_expiry_for_some_reading(c.exp) && 0 <= c.iat
            <= MAX_UTC_TIMESTAMP,
        res is None ==> login_outcome(user, password@) is None || login_outcome(user, password@)
            is Some && login_outcome(user, password@)->0 is Ok,
{
    match verify_credentials(user, password) {
        None => None,
        Some(Err(e)) => Some(Err(e)),
        Some(Ok(id)) => match new_claims(id) {
            None => None,
            Some(c) => Some(Ok(c)),
        },
    }
}

/// A password whose hash under the stored salt differs from the stored hash is refused.
pub proof fn lemma_wrong_password_refused(user: User, password: Seq<char>, salt: String, stored: String, hash: Seq<char>)
    requires
        user.password_salt == Some(salt),
        user.password == Some(stored),
        argon2_phc_hash(password, salt@) == Some(hash),
        hash != stored@,
    ensures
        login_outcome(Some(user), password) == Some(Err::<Seq<char>, NarodenError>(NarodenError::InvalidCredentials)),
{
}

/// Seconds in a day.
pub const SECONDS_PER_DAY: i64 = 86400;

/// Days a token stays valid.
pub const TOKEN_VALIDITY_DAYS: u64 = 30;

/// Earliest timestamp `chrono` represents: January 1 of year -262143 (262144 BCE,
/// `NaiveDate::MIN`), 00:00:00 UTC.
pub const MIN_UTC_TIMESTAMP: i64 = -8334601228800;

/// Latest whole-second timestamp `chrono` represents: December 31, 262142 CE
/// (`NaiveDate::MAX`), 23:59:59 UTC.
pub const MAX_UTC_TIMESTAMP: i64 = 8210266876799;

/// The timestamp `days` days after `timestamp` (seconds since the Unix epoch), as
/// `chrono` computes it: present when both the start and the result lie within
/// `chrono`'s dates, and then `days` times 86400 seconds later (UTC has no
/// daylight-saving shifts).
pub open spec fn timestamp_after_days(timestamp: i64, days: u64) -> Option<i64> {
    if MIN_UTC_TIMESTAMP <= timestamp && timestamp + 86400 * days <= MAX_UTC_TIMESTAMP {
        Some((timestamp + 86400 * days) as i64)
    } else {
        None
    }
}

/// `DateTime::<Utc>::from_timestamp(timestamp, 0)`, moved `days` days on by
/// `checked_add_days`, read back with `timestamp`. Claimed: the result is
/// `timestamp_after_days`; that is, it is present exactly when both the start and the
/// moved date lie within `chrono`'s dates (`from_timestamp` refuses a start outside
/// them, `checked_add_days` a result past `NaiveDate::MAX`, and a day count above
/// `i32::MAX` lies past it anyway); when present it lies exactly `days` times 86400
/// seconds later (UTC has no daylight-saving shifts).
#[verifier::external_body]
fn add_days(timestamp: i64, days: u64) -> (later: Option<i64>)
    ensures
        later == timestamp_after_days(timestamp, days),
{
    match chrono::DateTime::from_timestamp(timestamp, 0) {
        Some(d) => match d.checked_add_days(chrono::Days::new(days)) {
            Some(l) => Some(l.timestamp()),
            None => None,
        },
        None => None,
    }
}

/// The current time from `chrono::Utc::now().timestamp()`, in seconds since the
/// Unix epoch. Claimed: it is not before the epoch and within `chrono`'s dates
/// (`Utc::now` panics otherwise); its value is not stated.
#[verifier::external_body]
fn current_timestamp() -> (now: i64)
    ensures
        0 <= now <= MAX_UTC_TIMESTAMP,
{
    chrono::Utc::now().timestamp()
}

/// The claims of a token for `user_id` with the user role, issued at `issued_at`
/// and expiring 30 days after `expiry_base`; `None` when that expiry is out of range.
pub fn claims_at(user_id: String, expiry_base: i64, issued_at: i64) -> (claims: Option<JwtClaims>)
    ensures
        match timestamp_after_days(expiry_base, 30) {
            None => claims is None,
            Some(exp) => claims matches Some(c) && c.sub == user_id && c.role@ == role_name(
                UserRole::USER,
            ) && c.exp == exp && c.iat == issued_at,
        },
        claims matches Some(c) ==> c.exp == expiry_base + TOKEN_VALIDITY_DAYS * SECONDS_PER_DAY,
        claims is Some <==> expires_in_range(expiry_base as int),
{
    let exp = match add_days(expiry_base, TOKEN_VALIDITY_DAYS) {
        None => return None,
        Some(e) => e,
    };
    Some(
        JwtClaims {
            sub: user_id,
            role: String::from_str(UserRole::USER.as_str()),
            exp,
            iat: issued_at,
        },
    )
}

/// Whether a token based on the clock reading `now` expires within `chrono`'s dates.
pub open spec fn expires_in_range(now: int) -> bool {
    MIN_UTC_TIMESTAMP <= now && now + TOKEN_VALIDITY_DAYS * SECONDS_PER_DAY <= MAX_UTC_TIMESTAMP
}

/// Whether `exp` is the expiry of a token based on some clock reading: 30 days after it.
pub open spec fn is_expiry_for_some_reading(exp: i64) -> bool {
    exists|now: i64|
        #![trigger timestamp_after_days(now, 30)]
        0 <= now && timestamp_after_days(now, 30) == Some(exp) && exp == now
            + TOKEN_VALIDITY_DAYS * SECONDS_PER_DAY
}

/// The claims of a new token for `user_id`: the expiry is taken 30 days after one
/// reading of the clock and the issue time from a second reading. It is `None`
/// when the first reading lies within 30 days of `chrono`'s last date; that depends
/// on the clock alone, so no clause states it.
pub fn new_claims(user_id: String) -> (claims: Option<JwtClaims>)
    ensures
        claims matches Some(c) ==> c.sub == user_id && c.role@ == role_name(UserRole::USER)
            && is_expiry_for_some_reading(c.exp) && 0 <= c.iat <= MAX_UTC_TIMESTAMP,
{
    let expiry_base = current_timestamp();
    let issued_at = current_timestamp();
    claims_at(user_id, expiry_base, issued_at)
}

} // verus!
