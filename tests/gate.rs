use homechatbot::gate::{check_rooms, inviter_identity, is_valid_inviting_user, Decision};
use homechatbot::store::{connection_string, name_listed, setting_given};

fn lists() -> Vec<Vec<String>> {
    vec![
        vec!["@alice:example.org".to_string()],
        vec!["@bob:example.org".to_string(), "@carol:example.org".to_string()],
    ]
}

#[test]
fn allowed_inviter_is_accepted_absent_rejected() {
    let inviters = vec![
        "@bob:example.org".to_string(),
        "@mallory:example.org".to_string(),
        "@alice:example.org".to_string(),
    ];
    assert_eq!(
        check_rooms(&inviters, &lists()),
        vec![Decision::Accept, Decision::Reject, Decision::Accept]
    );
}

#[test]
fn match_is_exact() {
    assert!(is_valid_inviting_user("@carol:example.org", &lists()));
    assert!(!is_valid_inviting_user("@Carol:example.org", &lists()));
    assert!(!is_valid_inviting_user("@carol:example.org ", &lists()));
    assert!(!is_valid_inviting_user("@carol:example.org", &vec![]));
}

#[test]
fn unknown_creator_is_none_text() {
    assert_eq!(inviter_identity(None), "(none)");
    assert_eq!(inviter_identity(Some("@a:b".to_string())), "@a:b");
    assert_eq!(check_rooms(&vec![inviter_identity(None)], &lists()), vec![Decision::Reject]);
}

#[test]
fn store_address_and_names() {
    assert_eq!(connection_string("db:27017", "bot", "pw"), "mongodb://bot:pw@db:27017/");
    assert!(name_listed(&vec!["admin".to_string(), "homechatbot_db".to_string()], "homechatbot_db"));
    assert!(!name_listed(&vec!["admin".to_string()], "config"));
    assert!(setting_given("x"));
    assert!(!setting_given(""));
}
