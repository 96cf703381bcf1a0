use kbr_api_rust::auth::permissions::{
    has_permission, is_admin, is_artist_or_above, is_customer_or_above, PermissionResource,
};
use kbr_api_rust::auth::resources::resources;
use kbr_api_rust::auth::roles::Role;

#[test]
fn is_admin_returns_true_for_admin() {
    assert!(is_admin(&Role::Admin));
    assert!(is_admin(&Role::SuperAdmin));
    assert!(!is_admin(&Role::Artist));
    assert!(!is_admin(&Role::User));
}

#[test]
fn test_is_artist_or_above() {
    assert!(is_artist_or_above(&Role::Admin));
    assert!(is_artist_or_above(&Role::SuperAdmin));
    assert!(is_artist_or_above(&Role::Artist));
    assert!(!is_artist_or_above(&Role::Customer));
    assert!(!is_artist_or_above(&Role::User));
}

#[test]
fn test_is_customer_or_above() {
    assert!(is_customer_or_above(&Role::Admin));
    assert!(is_customer_or_above(&Role::SuperAdmin));
    assert!(is_customer_or_above(&Role::Artist));
    assert!(is_customer_or_above(&Role::Customer));
    assert!(is_customer_or_above(&Role::User));
    assert!(!is_customer_or_above(&Role::Staff));
}

#[test]
fn has_permission_creates() {
    let perms = vec![PermissionResource {
        resource: "Campaign".to_string(),
        can_create: true,
        can_read: true,
        can_update: false,
        can_delete: false,
    }];
    assert!(has_permission("Campaign", "create", &perms));
    assert!(!has_permission("Campaign", "update", &perms));
}

#[test]
fn has_permission_wrong_resource() {
    let perms = vec![PermissionResource {
        resource: "News".to_string(),
        can_create: true,
        can_read: true,
        can_update: true,
        can_delete: true,
    }];
    assert!(!has_permission("Campaign", "create", &perms));
}

#[test]
fn has_permission_empty_list() {
    let perms: Vec<PermissionResource> = vec![];
    assert!(!has_permission("Campaign", "create", &perms));
}

#[test]
fn has_permission_invalid_action() {
    let perms = vec![PermissionResource {
        resource: "Campaign".to_string(),
        can_create: true,
        can_read: true,
        can_update: true,
        can_delete: true,
    }];
    assert!(!has_permission("Campaign", "execute", &perms));
}

#[test]
fn has_permission_reads_and_deletes() {
    let perms = vec![
        PermissionResource {
            resource: "News".to_string(),
            can_create: false,
            can_read: false,
            can_update: false,
            can_delete: false,
        },
        PermissionResource {
            resource: "Album".to_string(),
            can_create: false,
            can_read: true,
            can_update: false,
            can_delete: true,
        },
    ];
    assert!(has_permission("Album", "read", &perms));
    assert!(has_permission("Album", "delete", &perms));
    assert!(!has_permission("Album", "create", &perms));
    assert!(!has_permission("News", "read", &perms));
}

#[test]
fn role_tiers_are_nested() {
    for role in [Role::Admin, Role::SuperAdmin, Role::Artist, Role::Customer, Role::User, Role::Staff] {
        if is_admin(&role) {
            assert!(is_artist_or_above(&role));
        }
        if is_artist_or_above(&role) {
            assert!(is_customer_or_above(&role));
        }
    }
}

#[test]
fn resources_constant_has_all_values() {
    let resources = resources();
    assert_eq!(resources.album, "Album");
    assert_eq!(resources.song, "Song");
    assert_eq!(resources.artist, "Artist");
    assert_eq!(resources.campaign, "Campaign");
    assert_eq!(resources.kbr_event, "KBREvent");
    assert_eq!(resources.news, "News");
    assert_eq!(resources.user, "User");
}

#[test]
fn role_from_str_valid() {
    assert_eq!("admin".parse::<Role>(), Ok(Role::Admin));
    assert_eq!("super_admin".parse::<Role>(), Ok(Role::SuperAdmin));
    assert_eq!("artist".parse::<Role>(), Ok(Role::Artist));
    assert_eq!("customer".parse::<Role>(), Ok(Role::Customer));
    assert_eq!("user".parse::<Role>(), Ok(Role::User));
    assert_eq!("staff".parse::<Role>(), Ok(Role::Staff));
}

#[test]
fn role_from_str_invalid() {
    assert!("moderator".parse::<Role>().is_err());
    assert!("".parse::<Role>().is_err());
}

#[test]
fn role_from_str_error_names_the_text() {
    assert_eq!("moderator".parse::<Role>(), Err("Unknown role: moderator".to_string()));
    assert_eq!("Admin".parse::<Role>(), Err("Unknown role: Admin".to_string()));
}

#[test]
fn role_display() {
    assert_eq!(Role::Admin.to_string(), "admin");
    assert_eq!(Role::SuperAdmin.to_string(), "super_admin");
    assert_eq!(Role::Artist.to_string(), "artist");
}

#[test]
fn role_name_roundtrip() {
    for role in [Role::Admin, Role::SuperAdmin, Role::Artist, Role::Customer, Role::User, Role::Staff] {
        assert_eq!(role.to_string().parse::<Role>(), Ok(role));
    }
}
