//! The errors that the web frontend answers with, and the HTTP status of each.
use vstd::prelude::*;
use crate::messages::{decimal_string, decimal_text};

verus! {

/// The kind of resource that was not found.
#[derive(Clone, Copy, Debug, PartialEq, Eq, Structural)]
pub enum ResourceKind {
    AuthoriseRequest,
    Route,
    Server,
    ServerMemberLink,
    User,
    UserConnection,
    WebsiteQuickLink,
}

/// What went wrong with a request.
#[derive(Debug)]
pub enum ErrorModelKind {
    Cache,
    Database,
    InternalError,
    InvalidParams,
    InvalidQuery,
    NotFound { resource_kind: ResourceKind, resource_reference: Option<String> },
    InvalidCredentials,
    MissingCredentials,
    InvalidSignature,
    MissingSignature,
    MissingPermission,
}

/// The body of an error answer.
#[derive(Debug)]
pub struct ErrorModel {
    pub error: ErrorModelKind,
}

/// The HTTP status that answers an error of this kind.
pub open spec fn status_for(kind: ErrorModelKind) -> u16 {
    match kind {
        ErrorModelKind::Cache | ErrorModelKind::Database | ErrorModelKind::InternalError => 500,
        ErrorModelKind::NotFound { .. } => 404,
        ErrorModelKind::InvalidCredentials | ErrorModelKind::MissingCredentials => 401,
        ErrorModelKind::InvalidSignature
        | ErrorModelKind::InvalidParams
        | ErrorModelKind::InvalidQuery
        | ErrorModelKind::MissingSignature => 400,
        ErrorModelKind::MissingPermission => 403,
    }
}

impl From<ErrorModelKind> for ErrorModel {
    fn from(value: ErrorModelKind) -> (model: ErrorModel) {
        ErrorModel { error: value }
    }
}

impl vstd::std_specs::convert::FromSpecImpl<ErrorModelKind> for ErrorModel {
    open spec fn obeys_from_spec() -> bool {
        true
    }

    open spec fn from_spec(value: ErrorModelKind) -> ErrorModel {
        ErrorModel { error: value }
    }
}

impl ErrorModelKind {
    /// The error answer of this kind.
    pub fn model(self) -> (model: ErrorModel)
        ensures
            model.error == self,
    {
        ErrorModel::from(self)
    }

    /// A not-found answer for the resource, naming it where a reference is given.
    pub fn not_found(resource_kind: ResourceKind, resource_reference: Option<String>) -> (model: ErrorModel)
        ensures
            model.error == (ErrorModelKind::NotFound { resource_kind, resource_reference }),
    {
        ErrorModelKind::NotFound { resource_kind, resource_reference }.model()
    }
}

impl ErrorModel {
    /// The HTTP status code that answers this error.
    pub fn status_code(&self) -> (code: u16)
        ensures
            code == status_for(self.error),
    {
        match self.error {
            ErrorModelKind::Cache | ErrorModelKind::Database | ErrorModelKind::InternalError => 500,
            ErrorModelKind::NotFound { .. } => 404,
            ErrorModelKind::InvalidCredentials | ErrorModelKind::MissingCredentials => 401,
            ErrorModelKind::InvalidSignature
            | ErrorModelKind::InvalidParams
            | ErrorModelKind::InvalidQuery
            | ErrorModelKind::MissingSignature => 400,
            ErrorModelKind::MissingPermission => 403,
        }
    }
}

/// Every error is answered with a client-error or server-error status.
pub proof fn lemma_status_is_error(kind: ErrorModelKind)
    ensures
        400 <= status_for(kind) <= 599,
{
}

/// A resource id from a request path: ids are non-zero, and zero is refused as an invalid
/// parameter.
pub fn path_id(raw: u64) -> (id: Result<u64, ErrorModel>)
    ensures
        raw != 0 ==> id == Ok::<u64, ErrorModel>(raw),
        raw == 0 ==> (id matches Err(e) && e.error is InvalidParams),
{
    if raw == 0 {
        Err(ErrorModelKind::InvalidParams.model())
    } else {
        Ok(raw)
    }
}

/// Discord's "manage server" permission bit.
pub const MANAGE_GUILD: u64 = 0x20;

/// Discord's "administrator" permission bit.
pub const ADMINISTRATOR: u64 = 0x8;

/// Whether a role's permissions let its holders manage the server.
pub open spec fn grants_management(permissions: u64) -> bool {
    permissions & MANAGE_GUILD == MANAGE_GUILD || permissions & ADMINISTRATOR == ADMINISTRATOR
}

/// A role with the administrator bit, or the manage-server bit, grants management
/// whatever its other bits; a role with neither does not.
pub proof fn lemma_management_bits(permissions: u64)
    ensures
        permissions & 0x8 == 0x8 ==> grants_management(permissions),
        permissions & 0x20 == 0x20 ==> grants_management(permissions),
        permissions & 0x8 != 0x8 && permissions & 0x20 != 0x20 ==> !grants_management(permissions),
{
}

/// Granting more permissions to a role never takes management away from it.
pub proof fn lemma_more_permissions_keep_management(permissions: u64, extra: u64)
    requires
        grants_management(permissions),
    ensures
        grants_management(permissions | extra),
{
    assert((permissions & 0x20 == 0x20 || permissions & 0x8 == 0x8) ==> ((permissions | extra) & 0x20 == 0x20
        || (permissions | extra) & 0x8 == 0x8)) by (bit_vector);
}

/// A member allowed through one of their roles stays allowed when any of their roles
/// gains permissions.
pub proof fn lemma_more_permissions_keep_access(role_permissions: Seq<u64>, k: int, extra: u64)
    requires
        0 <= k < role_permissions.len(),
        exists|i: int| 0 <= i < role_permissions.len() && grants_management(#[trigger] role_permissions[i]),
    ensures
        exists|i: int|
            0 <= i < role_permissions.len() && grants_management(
                #[trigger] role_permissions.update(k, role_permissions[k] | extra)[i],
            ),
{
    let i = choose|i: int| 0 <= i < role_permissions.len() && grants_management(#[trigger] role_permissions[i]);
    let updated = role_permissions.update(k, role_permissions[k] | extra);
    if i == k {
        lemma_more_permissions_keep_management(role_permissions[k], extra);
    }
    assert(grants_management(updated[i]));
}

/// Whether a user may manage a server's Ribbon settings: the owner may, and so may a
/// member holding a role (among those known) with the manage-server or administrator
/// permission. Anyone else is refused for a missing permission.
pub fn check_user_permissions(is_owner: bool, role_permissions: &[u64]) -> (allowed: Result<(), ErrorModel>)
    ensures
        (exists|i: int|
            0 <= i < role_permissions@.len() && (#[trigger] role_permissions@[i] & ADMINISTRATOR == ADMINISTRATOR
                || role_permissions@[i] & MANAGE_GUILD == MANAGE_GUILD)) ==> allowed is Ok,
        is_owner ==> allowed is Ok,
        allowed is Ok <==> is_owner || exists|i: int|
            0 <= i < role_permissions@.len() && grants_management(#[trigger] role_permissions@[i]),
        allowed matches Err(e) ==> e.error is MissingPermission,
{
    if is_owner {
        return Ok(());
    }
    let mut i: usize = 0;
    while i < role_permissions.len()
        invariant
            i <= role_permissions@.len(),
            forall|k: int| 0 <= k < i ==> !grants_management(#[trigger] role_permissions@[k]),
        decreases role_permissions@.len() - i,
    {
        let permissions = role_permissions[i];
        if permissions & MANAGE_GUILD == MANAGE_GUILD || permissions & ADMINISTRATOR == ADMINISTRATOR {
            return Ok(());
        }
        i = i + 1;
    }
    Err(ErrorModelKind::MissingPermission.model())
}

/// Checks that a member link belongs to the server: refused as a member link not found,
/// named by its id in decimal, where it is not among the server's links.
pub fn check_member_link_of_server(server_link_ids: &[u64], member_link_id: u64) -> (checked: Result<(), ErrorModel>)
    ensures
        checked is Ok <==> server_link_ids@.contains(member_link_id),
        checked matches Err(e) ==> {
            &&& e.error matches ErrorModelKind::NotFound { resource_kind, .. } && resource_kind
                == ResourceKind::ServerMemberLink
            &&& e.error matches ErrorModelKind::NotFound { resource_reference, .. } && (
            resource_reference matches Some(r) && r@ == decimal_text(member_link_id as nat))
        },
{
    let mut i: usize = 0;
    while i < server_link_ids.len()
        invariant
            i <= server_link_ids@.len(),
            forall|k: int| 0 <= k < i ==> server_link_ids@[k] != member_link_id,
        decreases server_link_ids@.len() - i,
    {
        if server_link_ids[i] == member_link_id {
            return Ok(());
        }
        i = i + 1;
    }
    Err(ErrorModelKind::not_found(ResourceKind::ServerMemberLink, Some(decimal_string(member_link_id))))
}

} // verus!
