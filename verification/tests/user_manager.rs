use user_manager::User;
use user_manager::UserManager;
use user_manager::user_utils::create_user;
use user_manager::user_utils::validate_user;

#[test]
fn test_user_creation() {
    let user = User::new(1, "张三".to_string(), "zhangsan@example.com".to_string());
    assert_eq!(user.id, 1);
    assert_eq!(user.name, "张三");
    assert_eq!(user.email, "zhangsan@example.com");
}

#[test]
fn test_user_validation() {
    let valid_user = User::new(1, "张三".to_string(), "zhangsan@example.com".to_string());
    let invalid_user = User::new(2, "".to_string(), "invalid-email".to_string());

    assert!(valid_user.is_valid());
    assert!(!invalid_user.is_valid());
}

#[test]
fn test_get_info_format() {
    let user = User::new(1, "Alice".to_string(), "alice@example.com".to_string());
    assert_eq!(user.get_info(), "Alice (alice@example.com)");
}

#[test]
fn test_valid_user_variants() {
    assert!(create_user(1, "Alice", "alice@example.com").is_valid());
    assert!(create_user(2, "B", "b@c").is_valid());
    assert!(validate_user(&create_user(3, "Carol", "carol@site.org")));
}

#[test]
fn test_invalid_user_variants() {
    // Missing '@' in the email.
    assert!(!create_user(1, "Alice", "alice.example.com").is_valid());
    // Empty name.
    assert!(!create_user(2, "", "b@c").is_valid());
    // Empty email.
    assert!(!create_user(3, "Carol", "").is_valid());
    assert!(!validate_user(&create_user(4, "Dan", "no-at-sign")));
}

#[test]
fn test_add_returns_running_count() {
    let mut manager = UserManager::new();
    assert_eq!(manager.add_user(create_user(1, "Alice", "alice@example.com")), 1);
    assert_eq!(manager.add_user(create_user(2, "Bob", "bob@example.com")), 2);
    assert_eq!(manager.add_user(create_user(3, "Carol", "carol@example.com")), 3);

    let users = manager.get_users();
    assert_eq!(users.len(), 3);
    assert_eq!(users[0].name, "Alice");
    assert_eq!(users[1].name, "Bob");
    assert_eq!(users[2].name, "Carol");
}

#[test]
fn test_get_users_is_independent_copy() {
    let mut manager = UserManager::new();
    manager.add_user(create_user(1, "Alice", "alice@example.com"));

    let mut users = manager.get_users();
    users.clear();
    users.push(create_user(9, "Mallory", "mallory@example.com"));

    let again = manager.get_users();
    assert_eq!(again.len(), 1);
    assert_eq!(again[0].name, "Alice");
}

#[test]
fn test_find_user_by_id_first_of_duplicates() {
    let mut manager = UserManager::new();
    manager.add_user(create_user(7, "First", "first@example.com"));
    manager.add_user(create_user(8, "Other", "other@example.com"));
    manager.add_user(create_user(7, "Second", "second@example.com"));

    let found = manager.find_user_by_id(7).expect("id 7 is stored");
    assert_eq!(found.name, "First");
    assert!(manager.find_user_by_id(42).is_none());
}

#[test]
fn test_stats_on_empty_manager() {
    let manager = UserManager::new();
    let stats = manager.get_stats();
    assert_eq!(stats.total_users, 0);
    assert_eq!(stats.valid_users, 0);
    assert!(manager.get_users().is_empty());
    assert!(manager.find_user_by_id(1).is_none());
}

#[test]
fn test_manager_scenario() {
    let mut manager = UserManager::new();
    let n1 = manager.add_user(User::new(1, "Alice".to_string(), "alice@example.com".to_string()));
    assert_eq!(n1, 1);
    let n2 = manager.add_user(User::new(2, "".to_string(), "bad".to_string()));
    assert_eq!(n2, 2);

    let stats = manager.get_stats();
    assert_eq!(stats.total_users, 2);
    assert_eq!(stats.valid_users, 1);

    let second = manager.find_user_by_id(2).expect("id 2 is stored");
    assert_eq!(second.name, "");
    assert_eq!(second.email, "bad");
    assert!(manager.find_user_by_id(3).is_none());
}

#[test]
fn test_create_user_matches_new() {
    let a = create_user(5, "Eve", "eve@example.com");
    let b = User::new(5, "Eve".to_string(), "eve@example.com".to_string());
    assert_eq!(a.id, b.id);
    assert_eq!(a.name, b.name);
    assert_eq!(a.email, b.email);
}
