use ribbon::error_model::{
    check_member_link_of_server, check_user_permissions, path_id, ErrorModelKind, ResourceKind,
    ADMINISTRATOR, MANAGE_GUILD,
};

#[test]
fn status_codes() {
    assert_eq!(ErrorModelKind::Cache.model().status_code(), 500);
    assert_eq!(ErrorModelKind::Database.model().status_code(), 500);
    assert_eq!(ErrorModelKind::InternalError.model().status_code(), 500);
    assert_eq!(ErrorModelKind::not_found(ResourceKind::Route, None).status_code(), 404);
    assert_eq!(ErrorModelKind::InvalidCredentials.model().status_code(), 401);
    assert_eq!(ErrorModelKind::MissingCredentials.model().status_code(), 401);
    assert_eq!(ErrorModelKind::InvalidSignature.model().status_code(), 400);
    assert_eq!(ErrorModelKind::InvalidParams.model().status_code(), 400);
    assert_eq!(ErrorModelKind::InvalidQuery.model().status_code(), 400);
    assert_eq!(ErrorModelKind::MissingSignature.model().status_code(), 400);
    assert_eq!(ErrorModelKind::MissingPermission.model().status_code(), 403);
}

#[test]
fn not_found_keeps_reference() {
    let model = ErrorModelKind::not_found(ResourceKind::WebsiteQuickLink, Some("tok".to_string()));
    match model.error {
        ErrorModelKind::NotFound { resource_kind, resource_reference } => {
            assert_eq!(resource_kind, ResourceKind::WebsiteQuickLink);
            assert_eq!(resource_reference.as_deref(), Some("tok"));
        },
        _ => panic!("expected not found"),
    }
}

#[test]
fn path_ids_must_be_non_zero() {
    assert_eq!(path_id(5).unwrap(), 5);
    assert!(matches!(path_id(0).unwrap_err().error, ErrorModelKind::InvalidParams));
}

#[test]
fn permissions() {
    assert!(check_user_permissions(true, &[]).is_ok());
    assert!(check_user_permissions(false, &[0, MANAGE_GUILD | 1]).is_ok());
    assert!(check_user_permissions(false, &[ADMINISTRATOR]).is_ok());
    let refused = check_user_permissions(false, &[0x10, 0x4]).unwrap_err();
    assert!(matches!(refused.error, ErrorModelKind::MissingPermission));
    assert!(check_user_permissions(false, &[]).is_err());
}

#[test]
fn member_link_must_belong_to_server() {
    assert!(check_member_link_of_server(&[3, 4], 4).is_ok());
    match check_member_link_of_server(&[3, 4], 90).unwrap_err().error {
        ErrorModelKind::NotFound { resource_kind, resource_reference } => {
            assert_eq!(resource_kind, ResourceKind::ServerMemberLink);
            assert_eq!(resource_reference.as_deref(), Some("90"));
        },
        _ => panic!("expected not found"),
    }
}
