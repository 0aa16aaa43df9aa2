use soteria::users::{found_names, unix_uids, user_names, well_formed, Identity, UidDetail};

fn identity(kind: &str, uid: UidDetail) -> Identity {
    Identity { kind: kind.to_string(), uid }
}

#[test]
fn only_unix_users_with_a_user_id_are_looked_up() {
    let identities = vec![
        identity("unix-user", UidDetail::U32(1000)),
        identity("unix-group", UidDetail::U32(7)),
        identity("unix-user", UidDetail::NotU32),
        identity("unix-netgroup", UidDetail::Missing),
        identity("unix-user", UidDetail::U32(0)),
    ];
    assert!(well_formed(&identities));
    assert_eq!(unix_uids(&identities), vec![1000, 0]);
}

#[test]
fn a_unix_user_without_a_user_id_is_malformed() {
    assert!(!well_formed(&vec![identity("unix-user", UidDetail::Missing)]));
    assert!(well_formed(&vec![identity("unix-user", UidDetail::NotU32)]));
    assert!(well_formed(&vec![]));
}

#[test]
fn unknown_users_are_passed_over() {
    let answers = vec![Some("bob".to_string()), None, Some("alice".to_string())];
    assert_eq!(found_names(&answers), vec!["bob".to_string(), "alice".to_string()]);
    assert!(found_names(&vec![None]).is_empty());
}

#[test]
fn the_user_database_is_asked() {
    let identities = vec![
        identity("unix-user", UidDetail::U32(u32::MAX)),
        identity("unix-user", UidDetail::U32(0)),
    ];
    assert_eq!(user_names(&identities), vec!["root".to_string()]);
}
