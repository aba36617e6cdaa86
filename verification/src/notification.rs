//! Push-notification tokens: which token is kept for which device.

use vstd::prelude::*;
use vstd::string::*;
use crate::context::NarodenContext;

verus! {

/// A notification token as stored; `id` is the key of its record once stored.
#[derive(Debug)]
pub struct DbNotificationToken {
    pub id: Option<String>,
    pub device_type: String,
    pub token: String,
    pub device_id: String,
    pub user_id: String,
}

/// A token sent by a device.
#[derive(Debug)]
pub struct NotificationTokenRequest {
    pub token: String,
}

/// Push services a device uses.
#[allow(non_camel_case_types)]
#[derive(Debug, Clone, Copy, PartialEq, Eq, Structural)]
pub enum DeviceType {
    GOOGLE,
    IOS,
    HUAWEY,
}

/// The identifier stored for a push service.
pub open spec fn device_type_code(device_type: DeviceType) -> Seq<char> {
    match device_type {
        DeviceType::GOOGLE => "1"@,
        DeviceType::IOS => "2"@,
        DeviceType::HUAWEY => "3"@,
    }
}

impl DeviceType {
    /// The identifier stored for the push service.
    pub fn device_type_id(&self) -> (id: String)
        ensures
            id@ == device_type_code(*self),
    {
        match *self {
            DeviceType::GOOGLE => String::from_str("1"),
            DeviceType::IOS => String::from_str("2"),
            DeviceType::HUAWEY => String::from_str("3"),
        }
    }
}

/// What to do with the stored tokens when a device sends a token.
#[derive(Debug)]
pub enum TokenRefresh {
    /// The token is already stored for this device.
    Keep,
    /// The token is new: store it.
    Store(DbNotificationToken),
    /// The token is stored for another device: delete that record, then store it anew.
    Replace { stale: String, fresh: DbNotificationToken },
}

/// The kind of a refresh, with the key of the record it deletes.
pub enum RefreshStep {
    Keep,
    Store,
    Replace(Seq<char>),
}

/// The refresh for a token sent from the device `device_id`, given the record
/// already stored for that token: none is stored, it is stored for this device, or
/// for another one. `None` when a record of another device has no key.
pub open spec fn refresh_step(device_id: Seq<char>, existing: Option<DbNotificationToken>) -> Option<RefreshStep> {
    match existing {
        None => Some(RefreshStep::Store),
        Some(e) => if e.device_id@ == device_id {
            Some(RefreshStep::Keep)
        } else {
            match e.id {
                None => None,
                Some(id) => Some(RefreshStep::Replace(id@)),
            }
        },
    }
}

/// The kind of a planned refresh.
pub open spec fn step_of(refresh: Option<TokenRefresh>) -> Option<RefreshStep> {
    match refresh {
        None => None,
        Some(TokenRefresh::Keep) => Some(RefreshStep::Keep),
        Some(TokenRefresh::Store(_)) => Some(RefreshStep::Store),
        Some(TokenRefresh::Replace { stale, fresh: _ }) => Some(RefreshStep::Replace(stale@)),
    }
}

/// Whether `token` is the record to store for the caller's token: no key yet, and
/// the caller's device, push service and user.
pub open spec fn is_fresh_token(token: DbNotificationToken, context: NarodenContext, request: NotificationTokenRequest) -> bool {
    &&& token.id is None
    &&& token.device_type@ == context.device_type_view()
    &&& token.token == request.token
    &&& token.device_id@ == context.device_id_view()
    &&& token.user_id@ == context.user_id_view()
}

fn fresh_token(context: &NarodenContext, request: &NotificationTokenRequest) -> (token: DbNotificationToken)
    ensures
        is_fresh_token(token, *context, *request),
{
    DbNotificationToken {
        id: None,
        device_type: String::from_str(context.device_type()),
        token: request.token.clone(),
        device_id: String::from_str(context.device_id()),
        user_id: String::from_str(context.user_id()),
    }
}

/// Plans the refresh of the caller's token (see `refresh_step`); every record it
/// stores is the caller's fresh token.
pub fn plan_token_refresh(context: &NarodenContext, request: &NotificationTokenRequest, existing: &Option<DbNotificationToken>) -> (plan: Option<TokenRefresh>)
    ensures
        step_of(plan) == refresh_step(context.device_id_view(), *existing),
        plan matches Some(TokenRefresh::Store(t)) ==> is_fresh_token(t, *context, *request),
        plan matches Some(TokenRefresh::Replace { stale: _, fresh }) ==> is_fresh_token(
            fresh,
            *context,
            *request,
        ),
{
    match existing {
        None => Some(TokenRefresh::Store(fresh_token(context, request))),
        Some(e) => {
            let device_id = String::from_str(context.device_id());
            if e.device_id == device_id {
                Some(TokenRefresh::Keep)
            } else {
                match &e.id {
                    None => None,
                    Some(id) => Some(
                        TokenRefresh::Replace {
                            stale: id.clone(),
                            fresh: fresh_token(context, request),
                        },
                    ),
                }
            }
        },
    }
}

/// Refreshing settles: once the caller's fresh token is stored (under any key),
/// sending the same token again from the same device changes nothing.
pub proof fn lemma_refresh_settles(context: NarodenContext, request: NotificationTokenRequest, fresh: DbNotificationToken, stored: DbNotificationToken)
    requires
        is_fresh_token(fresh, context, request),
        stored.device_type == fresh.device_type,
        stored.token == fresh.token,
        stored.device_id == fresh.device_id,
        stored.user_id == fresh.user_id,
    ensures
        refresh_step(context.device_id_view(), Some(stored)) == Some(RefreshStep::Keep),
{
}

} // verus!
