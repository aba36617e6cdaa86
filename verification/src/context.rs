//! The identity of the caller of a private endpoint, and how it is read from the
//! request headers.

use vstd::prelude::*;
use vstd::string::*;
use vstd::utf8::is_char_boundary;
use crate::error::{NarodenError, NarodenResult};
use crate::jwt::JwtClaims;
use crate::text::string_or_empty;

verus! {

/// The caller of a private endpoint: user, role and device.
#[derive(Debug, Clone)]
pub struct NarodenContext {
    user_id: String,
    role: String,
    device_id: String,
    device_type: String,
}

impl NarodenContext {
    /// The caller's user key.
    pub closed spec fn user_id_view(&self) -> Seq<char> {
        self.user_id@
    }

    /// The caller's role.
    pub closed spec fn role_view(&self) -> Seq<char> {
        self.role@
    }

    /// The caller's device.
    pub closed spec fn device_id_view(&self) -> Seq<char> {
        self.device_id@
    }

    /// The provider of the caller's device.
    pub closed spec fn device_type_view(&self) -> Seq<char> {
        self.device_type@
    }

    pub fn new(user_id: String, role: String, device_id: String, device_type: String) -> (c: Self)
        ensures
            c.user_id_view() == user_id@,
            c.role_view() == role@,
            c.device_id_view() == device_id@,
            c.device_type_view() == device_type@,
    {
        Self { user_id, role, device_id, device_type }
    }

    pub fn user_id(&self) -> (r: &str)
        ensures
            r@ == self.user_id_view(),
    {
        self.user_id.as_str()
    }

    pub fn role(&self) -> (r: &str)
        ensures
            r@ == self.role_view(),
    {
        self.role.as_str()
    }

    pub fn device_id(&self) -> (r: &str)
        ensures
            r@ == self.device_id_view(),
    {
        self.device_id.as_str()
    }

    pub fn device_type(&self) -> (r: &str)
        ensures
            r@ == self.device_type_view(),
    {
        self.device_type.as_str()
    }
}

/// A private request must carry an `authorization` header.
pub fn require_authorization(header: Option<&str>) -> (res: NarodenResult<&str>)
    ensures
        header is None ==> res == Err::<&str, NarodenError>(NarodenError::MissingAuthorizationHeader),
        header matches Some(h) ==> res == Ok::<&str, NarodenError>(h),
{
    match header {
        None => Err(NarodenError::MissingAuthorizationHeader),
        Some(h) => Ok(h),
    }
}

/// The token of an `authorization` header: what follows its first seven bytes
/// (`"Bearer "`); `None` when the header is shorter or byte seven splits a character.
pub fn bearer_token(header: &str) -> (token: Option<&str>)
    ensures
        token is Some <==> is_char_boundary(header.spec_bytes(), 7),
        token matches Some(t) ==> t.spec_bytes() == header.spec_bytes().subrange(
            7,
            header.spec_bytes().len() as int,
        ),
{
    if header.is_char_boundary(7) {
        let (_, token) = header.split_at(7);
        Some(token)
    } else {
        None
    }
}

/// The caller described by verified token claims and the device headers
/// (`x-device-id`, `x-device-provider`); a missing device header reads as empty.
pub fn context_from_claims(claims: JwtClaims, device_id: &Option<String>, device_provider: &Option<String>) -> (c: NarodenContext)
    ensures
        c.user_id_view() == claims.sub@,
        c.role_view() == claims.role@,
        c.device_id_view() == crate::text::text_or_empty(*device_id),
        c.device_type_view() == crate::text::text_or_empty(*device_provider),
{
    NarodenContext::new(
        claims.sub,
        claims.role,
        string_or_empty(device_id),
        string_or_empty(device_provider),
    )
}

} // verus!
