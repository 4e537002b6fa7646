use file2link::chat_config::{PermissionsConfig, UsersArrayConfig, UsersConfig};

#[test]
fn test_init_allow_all() {
    let config = PermissionsConfig::init_allow_all();

    assert_eq!(*config.allow_all(), UsersConfig::StringUsers("*".to_string()));
    assert!(config.chats_is_empty());
}

#[test]
fn test_init_empty() {
    let config = PermissionsConfig::init_empty();

    assert_eq!(*config.allow_all(), UsersConfig::StringUsers("".to_string()));
    assert!(config.chats_is_empty());
}

#[test]
fn test_user_has_access_allow_all() {
    let config = PermissionsConfig::init_allow_all();

    assert!(config.user_has_access("any_chat".to_string(), &"any_user".to_string()));
}

#[test]
fn test_user_has_access_specific_user() {
    let mut config = PermissionsConfig::init_empty();

    config.set_allow_all(UsersConfig::SingleUser(123));

    assert!(config.user_has_access("any_chat".to_string(), &"123".to_string()));
    assert!(!config.user_has_access("any_chat".to_string(), &"456".to_string()));
}

#[test]
fn test_user_has_access_string_users() {
    let mut config = PermissionsConfig::init_empty();

    config.set_allow_all(UsersConfig::StringUsers("user1, user2".to_string()));

    assert!(config.user_has_access("any_chat".to_string(), &"user1".to_string()));
    assert!(config.user_has_access("any_chat".to_string(), &"user2".to_string()));
    assert!(!config.user_has_access("any_chat".to_string(), &"user3".to_string()));
}

#[test]
fn test_user_has_access_array_users() {
    let mut config = PermissionsConfig::init_empty();

    config.set_allow_all(UsersConfig::ArrayUsers(vec![
        UsersArrayConfig::StringUser("user1".to_string()),
        UsersArrayConfig::IntegerUser(123),
    ]));

    assert!(config.user_has_access("any_chat".to_string(), &"user1".to_string()));
    assert!(config.user_has_access("any_chat".to_string(), &"123".to_string()));
    assert!(!config.user_has_access("any_chat".to_string(), &"user2".to_string()));
}

#[test]
fn test_user_has_access_to_chat() {
    let mut config = PermissionsConfig::init_empty();

    config.insert_chat("chat1".to_string(), UsersConfig::SingleUser(123));
    config.insert_chat("chat2".to_string(), UsersConfig::StringUsers("user1, user2".to_string()));
    config.insert_chat("chat3".to_string(), UsersConfig::ArrayUsers(vec![
        UsersArrayConfig::StringUser("user1".to_string()),
        UsersArrayConfig::IntegerUser(123),
    ]));

    assert!(config.user_has_access("chat1".to_string(), &"123".to_string()));
    assert!(config.user_has_access("chat2".to_string(), &"user1".to_string()));
    assert!(config.user_has_access("chat2".to_string(), &"user2".to_string()));
    assert!(!config.user_has_access("chat2".to_string(), &"user3".to_string()));
    assert!(config.user_has_access("chat3".to_string(), &"user1".to_string()));
    assert!(config.user_has_access("chat3".to_string(), &"123".to_string()));
    assert!(!config.user_has_access("chat3".to_string(), &"user2".to_string()));
}

#[test]
fn wildcard_grants_any_user_in_any_chat() {
    let config = PermissionsConfig::init_allow_all();

    assert!(config.user_has_access("chat-a".to_string(), &"alice".to_string()));
    assert!(config.user_has_access("-1001".to_string(), &"42".to_string()));
}

#[test]
fn chat_list_grants_listed_ids_only() {
    let mut config = PermissionsConfig::init_empty();
    config.insert_chat("room".to_string(), UsersConfig::ArrayUsers(vec![
        UsersArrayConfig::StringUser("alice".to_string()),
        UsersArrayConfig::IntegerUser(123),
    ]));

    assert!(config.user_has_access("room".to_string(), &"alice".to_string()));
    assert!(config.user_has_access("room".to_string(), &"123".to_string()));
    assert!(!config.user_has_access("room".to_string(), &"bob".to_string()));
    assert!(!config.user_has_access("other".to_string(), &"alice".to_string()));
}

#[test]
fn missing_chat_and_no_global_grant_denies() {
    let config = PermissionsConfig::init_empty();

    assert!(!config.user_has_access("room".to_string(), &"alice".to_string()));
}

#[test]
fn insert_chat_replaces_the_rule() {
    let mut config = PermissionsConfig::init_empty();
    config.insert_chat("room".to_string(), UsersConfig::SingleUser(1));
    config.insert_chat("room".to_string(), UsersConfig::SingleUser(2));

    assert_eq!(config.chat_count(), 1);
    assert!(!config.user_has_access("room".to_string(), &"1".to_string()));
    assert!(config.user_has_access("room".to_string(), &"2".to_string()));
}

#[test]
fn negative_single_user_and_trimmed_list_entries() {
    let mut config = PermissionsConfig::init_empty();
    config.set_allow_all(UsersConfig::SingleUser(-77));
    assert!(config.user_has_access("c".to_string(), &"-77".to_string()));
    assert!(!config.user_has_access("c".to_string(), &"77".to_string()));

    config.set_allow_all(UsersConfig::ArrayUsers(vec![UsersArrayConfig::StringUser("  carol\t".to_string())]));
    assert!(config.user_has_access("c".to_string(), &"carol".to_string()));
}

#[test]
fn single_text_user_without_comma() {
    let mut config = PermissionsConfig::init_empty();
    config.set_allow_all(UsersConfig::StringUsers("dave".to_string()));

    assert!(config.user_has_access("c".to_string(), &"dave".to_string()));
    assert!(!config.user_has_access("c".to_string(), &" dave".to_string()));
}
