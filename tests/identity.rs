use soteria::{names_from_lookups, resolve, resolve_names, Identity, IdentityKind, SystemConfig};

#[test]
fn kind_names() {
    assert_eq!(IdentityKind::from_name("unix-user"), IdentityKind::UnixUser);
    assert_eq!(IdentityKind::from_name("unix-group"), IdentityKind::UnixGroup);
    assert_eq!(IdentityKind::from_name("unix-netgroup"), IdentityKind::Other);
}

#[test]
fn root_resolves_to_root() {
    let root = Identity::new("unix-user", Some(0));
    assert_eq!(resolve(&root), Some("root".to_string()));
}

#[test]
fn unknown_uid_is_skipped_without_aborting() {
    let ids = vec![
        Identity::new("unix-user", Some(4_000_000_000)),
        Identity::new("unix-group", Some(0)),
        Identity::new("unix-user", None),
        Identity::new("unix-user", Some(0)),
    ];
    assert_eq!(resolve(&ids[0]), None);
    assert_eq!(resolve(&ids[1]), None);
    assert_eq!(resolve(&ids[2]), None);
    assert_eq!(resolve_names(&ids), vec!["root".to_string()]);
}

#[test]
fn names_keep_order_of_lookups() {
    let found = vec![Some("a".to_string()), None, Some("b".to_string())];
    assert_eq!(names_from_lookups(&found), vec!["a".to_string(), "b".to_string()]);
    assert!(names_from_lookups(&vec![None, None]).is_empty());
}

#[test]
fn config_paths() {
    assert_eq!(SystemConfig::default().get_helper_path(), "/usr/lib/polkit-1/polkit-agent-helper-1");
    assert_eq!(SystemConfig::new("/opt/helper".to_string()).get_helper_path(), "/opt/helper");
}

#[test]
fn user_id_only_for_unix_users() {
    assert_eq!(Identity::new("unix-user", Some(1000)).user_id(), Some(1000));
    assert_eq!(Identity::new("unix-group", Some(1000)).user_id(), None);
}
