//! Users: registration, stored profile and the profile answer.

use vstd::prelude::*;
use vstd::string::*;
use crate::contact::{
    has_no_separator, lemma_normalized_has_no_separator, lemma_strip_separators_idempotent,
    normalize_phone_number, normalized_phone, strip_separators,
};
use crate::error::{NarodenError, NarodenResult};
use crate::jwt::{argon2_phc_hash, generate_salt, hash_password, login_outcome, MAX_PASSWORD_BYTES};
use vstd::utf8::encode_utf8;
use crate::text::{seq_contains, str_contains, string_or_empty, text_or_empty};

verus! {

/// A stored user with its credentials; `id` is the key of its record.
#[derive(Debug)]
pub struct User {
    pub id: Option<String>,
    pub user_name: Option<String>,
    pub first_name: String,
    pub last_name: String,
    pub password: Option<String>,
    pub password_salt: Option<String>,
}

/// Kinds of contact a user registers with.
#[allow(non_camel_case_types)]
#[derive(Debug, Clone, Copy, PartialEq, Eq, Structural)]
pub enum ContactType {
    EMAIL,
    PHONE,
}

/// A stored contact (e-mail address or phone number) of a user.
#[derive(Debug)]
pub struct Contact {
    pub id: Option<String>,
    pub value: String,
    pub contact_type: ContactType,
}

/// A registration request.
#[derive(Debug)]
pub struct PostUserRequest {
    pub first_name: String,
    pub last_name: String,
    pub email: Option<String>,
    pub phone: Option<String>,
    pub phone_code: Option<String>,
    pub password: String,
    pub referral: Option<String>,
}

/// Criteria of a user search.
#[derive(Debug)]
pub struct GetUserRequest {
    pub first_name: String,
    pub last_name: String,
    pub email: String,
    pub referral: Option<String>,
}

/// The profile answered to a user.
#[derive(Debug)]
pub struct UserResponse {
    pub first_name: String,
    pub last_name: String,
    pub email: Option<String>,
    pub phone: Option<String>,
    pub phone_code: Option<String>,
}

/// A user's profile as stored.
#[derive(Debug)]
pub struct DbUser {
    pub first_name: String,
    pub last_name: String,
    pub email: Option<String>,
    pub phone: Option<String>,
    pub phone_code: Option<String>,
}

/// What is written to the database for a registration.
#[derive(Debug)]
pub struct Registration {
    pub first_name: String,
    pub last_name: String,
    pub password_hash: String,
    pub password_salt: String,
    pub email: String,
    pub phone: String,
    pub phone_code: String,
}

/// The phone number stored for a registration: normalised, or empty when none was given.
pub open spec fn registered_phone(request: PostUserRequest) -> Seq<char> {
    match request.phone {
        None => Seq::<char>::empty(),
        Some(p) => normalized_phone(p@, text_or_empty(request.phone_code)),
    }
}

/// The record written for a registration: the names as given, the password hashed
/// with a fresh salt, e-mail and country code (empty when absent), and the phone
/// number normalised under that country code.
/// `None` only when the password is longer than Argon2 accepts.
pub fn prepare_registration(request: &PostUserRequest) -> (res: Option<Registration>)
    ensures
        res is None <==> encode_utf8(request.password@).len() > MAX_PASSWORD_BYTES,
        res matches Some(r) ==> {
            &&& argon2_phc_hash(request.password@, r.password_salt@) == Some(r.password_hash@)
            &&& r.first_name == request.first_name
            &&& r.last_name == request.last_name
            &&& r.email@ == text_or_empty(request.email)
            &&& r.phone_code@ == text_or_empty(request.phone_code)
            &&& r.phone@ == registered_phone(*request)
            &&& has_no_separator(text_or_empty(request.phone_code)) ==> has_no_separator(r.phone@)
        },
{
    let salt = generate_salt();
    let password_hash = match hash_password(request.password.as_str(), salt.as_str()) {
        None => return None,
        Some(h) => h,
    };
    let email = string_or_empty(&request.email);
    let phone_code = string_or_empty(&request.phone_code);
    let phone = match &request.phone {
        None => String::new(),
        Some(p) => normalize_phone_number(p, &phone_code),
    };
    proof {
        if request.phone is Some {
            lemma_registered_phone_is_normal(*request, request.phone->0);
        }
    }
    Some(
        Registration {
            first_name: request.first_name.clone(),
            last_name: request.last_name.clone(),
            password_hash,
            password_salt: salt,
            email,
            phone,
            phone_code,
        },
    )
}

/// The phone stored for a registration is in normal form whatever the number begins
/// with: it holds no formatting character when the country code holds none, and
/// numbers that differ only in formatting are stored alike.
pub proof fn lemma_registered_phone_is_normal(request: PostUserRequest, phone: String)
    requires
        request.phone == Some(phone),
    ensures
        has_no_separator(text_or_empty(request.phone_code)) ==> has_no_separator(
            registered_phone(request),
        ),
        registered_phone(request) == normalized_phone(
            strip_separators(phone@),
            text_or_empty(request.phone_code),
        ),
{
    if has_no_separator(text_or_empty(request.phone_code)) {
        lemma_normalized_has_no_separator(phone@, text_or_empty(request.phone_code));
    }
    lemma_strip_separators_idempotent(phone@);
}

/// Two registrations whose phone numbers differ only in formatting, under the same
/// country code, store the same phone.
pub proof fn lemma_registered_phone_ignores_formatting(a: PostUserRequest, b: PostUserRequest, pa: String, pb: String)
    requires
        a.phone == Some(pa),
        b.phone == Some(pb),
        text_or_empty(a.phone_code) == text_or_empty(b.phone_code),
        strip_separators(pa@) == strip_separators(pb@),
    ensures
        registered_phone(a) == registered_phone(b),
{
}

/// Text the database reports when a contact value is already taken.
pub open spec fn duplicate_contact_marker() -> Seq<char> {
    "Database index `unique_contact_value` already contains"@
}

/// The answer to a registration that the database refused with `errors`: the
/// e-mail, or else the phone number, is reported as already used when the errors
/// name the unique contact index and that (non-empty) value.
pub open spec fn registration_failure(errors: Seq<char>, email: Seq<char>, phone: Seq<char>) -> Option<NarodenError> {
    if seq_contains(errors, duplicate_contact_marker()) {
        if email.len() > 0 && seq_contains(errors, email) {
            Some(NarodenError::AlreadyUsedEmail)
        } else if phone.len() > 0 && seq_contains(errors, phone) {
            Some(NarodenError::AlreadyUsedPhone)
        } else {
            None
        }
    } else {
        None
    }
}

/// Classifies the errors of a refused registration (see `registration_failure`).
pub fn registration_error(errors: &str, email: &str, phone: &str) -> (res: Option<NarodenError>)
    ensures
        res == registration_failure(errors@, email@, phone@),
{
    if str_contains(errors, "Database index `unique_contact_value` already contains") {
        if email.unicode_len() > 0 && str_contains(errors, email) {
            return Some(NarodenError::AlreadyUsedEmail);
        }
        if phone.unicode_len() > 0 && str_contains(errors, phone) {
            return Some(NarodenError::AlreadyUsedPhone);
        }
    }
    None
}

/// The profile answered for a stored user; a missing user is a general error.
pub fn user_profile(user: Option<DbUser>) -> (res: NarodenResult<UserResponse>)
    ensures
        user is None ==> res == Err::<UserResponse, NarodenError>(NarodenError::GeneralError),
        user matches Some(u) ==> res matches Ok(r) && r.first_name == u.first_name && r.last_name
            == u.last_name && r.email == u.email && r.phone == u.phone && r.phone_code
            == u.phone_code,
{
    match user {
        None => Err(NarodenError::GeneralError),
        Some(user) => Ok(
            UserResponse {
                first_name: user.first_name,
                last_name: user.last_name,
                email: user.email,
                phone: user.phone,
                phone_code: user.phone_code,
            },
        ),
    }
}


/// What registration stores is what login checks: a user stored with the hash and
/// salt of a registration, and with a record key, logs in with the registered password.
pub proof fn lemma_registered_password_logs_in(registration: Registration, password: Seq<char>, user: User)
    requires
        argon2_phc_hash(password, registration.password_salt@) == Some(registration.password_hash@),
        user.password == Some(registration.password_hash),
        user.password_salt == Some(registration.password_salt),
        user.id is Some,
    ensures
        login_outcome(Some(user), password) == Some(Ok::<Seq<char>, NarodenError>(user.id.unwrap()@)),
{
}

} // verus!
