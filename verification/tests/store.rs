use api::models::{Account, Decimal, Timestamp, UserResponse};
use api::services::user_repository::{
    find_all_users_query, find_by_id_query, find_by_identifier_query, project_all, project_found,
    FIND_ALL_USERS_SQL, FIND_BY_IDENTIFIER_SQL, FIND_BY_ID_SQL,
};
use api::services::UserRepository;

fn account(id: &str, username: &str, email: &str, role: &str, created: i64) -> Account {
    Account {
        id: id.to_string(),
        username: username.to_string(),
        email: email.to_string(),
        password_hash: "hash".to_string(),
        profile_image: None,
        role: role.to_string(),
        wallet_balance: Decimal::new(vec![100], 2),
        created_at: Timestamp { seconds: created, nanos: 0 },
        updated_at: Timestamp { seconds: created, nanos: 0 },
    }
}

fn names(users: &[UserResponse]) -> Vec<&str> {
    users.iter().map(|user| user.username.as_str()).collect()
}

fn store() -> UserRepository {
    UserRepository::new(vec![
        account("1", "alice", "alice@example.com", "USER", 200),
        account("2", "root", "root@example.com", "ADMIN", 300),
        account("3", "bob", "bob@example.com", "USER", 100),
    ])
}

#[test]
fn unknown_identifier_is_absent_and_no_error() {
    assert_eq!(store().find_by_identifier("nonexistent"), Ok(None));
    assert_eq!(UserRepository::new(Vec::new()).find_by_identifier("nonexistent"), Ok(None));
}

#[test]
fn account_is_found_by_user_name() {
    let found = store().find_by_identifier("bob").unwrap().unwrap();
    assert_eq!(found.id, "3");
}

#[test]
fn account_is_found_by_email() {
    let found = store().find_by_identifier("root@example.com").unwrap().unwrap();
    assert_eq!(found.id, "2");
    assert_eq!(found, account("2", "root", "root@example.com", "ADMIN", 300));
}

#[test]
fn identifier_must_match_in_full() {
    assert_eq!(store().find_by_identifier("ali"), Ok(None));
    assert_eq!(store().find_by_identifier("alice "), Ok(None));
    assert_eq!(store().find_by_identifier("Alice"), Ok(None));
    assert_eq!(store().find_by_identifier(""), Ok(None));
}

#[test]
fn first_row_wins_where_two_answer_to_an_identifier() {
    let store = UserRepository::new(vec![
        account("1", "carol", "shared", "USER", 1),
        account("2", "shared", "dave@example.com", "USER", 2),
    ]);
    assert_eq!(store.find_by_identifier("shared").unwrap().unwrap().id, "1");
}

#[test]
fn account_is_found_by_id() {
    assert_eq!(store().find_by_id("1").unwrap().unwrap().username, "alice");
    assert_eq!(store().find_by_id("3").unwrap().unwrap().username, "bob");
}

#[test]
fn unknown_id_is_absent_and_no_error() {
    assert_eq!(store().find_by_id("4"), Ok(None));
    assert_eq!(store().find_by_id("alice"), Ok(None));
}

#[test]
fn listing_shows_users_only_newest_first() {
    let store = UserRepository::new(vec![
        account("1", "middle", "m@example.com", "USER", 200),
        account("2", "admin", "a@example.com", "ADMIN", 400),
        account("3", "newest", "n@example.com", "USER", 300),
        account("4", "oldest", "o@example.com", "USER", 100),
    ]);
    let users = store.find_all_users().unwrap();
    assert_eq!(names(&users), vec!["newest", "middle", "oldest"]);
    assert!(users.iter().all(|user| user.role == "USER"));
}

#[test]
fn listing_of_three_accounts_of_mixed_roles() {
    let users = store().find_all_users().unwrap();
    assert_eq!(names(&users), vec!["alice", "bob"]);
    assert_eq!(users[0].wallet_balance, "1.00");
}

#[test]
fn listing_keeps_the_order_of_the_store_among_equal_times() {
    let store = UserRepository::new(vec![
        account("1", "first", "1@example.com", "USER", 50),
        account("2", "second", "2@example.com", "USER", 50),
        account("3", "late", "3@example.com", "USER", 60),
        account("4", "third", "4@example.com", "USER", 50),
    ]);
    assert_eq!(names(&store.find_all_users().unwrap()), vec!["late", "first", "second", "third"]);
}

#[test]
fn listing_orders_by_nanoseconds_within_a_second() {
    let mut early = account("1", "early", "e@example.com", "USER", 50);
    early.created_at = Timestamp { seconds: 50, nanos: 1 };
    let mut late = account("2", "late", "l@example.com", "USER", 50);
    late.created_at = Timestamp { seconds: 50, nanos: 2 };
    let store = UserRepository::new(vec![early, late]);
    assert_eq!(names(&store.find_all_users().unwrap()), vec!["late", "early"]);
}

#[test]
fn listing_role_is_matched_exactly() {
    let store = UserRepository::new(vec![
        account("1", "lower", "l@example.com", "user", 1),
        account("2", "padded", "p@example.com", "USER ", 2),
        account("3", "none", "n@example.com", "", 3),
    ]);
    assert_eq!(store.find_all_users(), Ok(Vec::new()));
}

#[test]
fn listing_of_an_empty_store_is_empty() {
    assert_eq!(UserRepository::new(Vec::new()).find_all_users(), Ok(Vec::new()));
}

#[test]
fn every_account_is_projected_in_order() {
    let accounts = vec![
        account("1", "alice", "alice@example.com", "USER", 200),
        account("2", "root", "root@example.com", "ADMIN", 300),
    ];
    let users = project_all(&accounts);
    assert_eq!(users, vec![accounts[0].to_user_response(), accounts[1].to_user_response()]);
    assert_eq!(project_all(&Vec::new()), Vec::new());
}

#[test]
fn found_account_is_projected_and_none_stays_none() {
    let alice = account("1", "alice", "alice@example.com", "USER", 200);
    assert_eq!(project_found(Some(alice.clone())), Some(alice.to_user_response()));
    assert_eq!(project_found(None), None);
}

#[test]
fn query_text_never_holds_the_value() {
    let hostile = "x' OR '1'='1";
    let by_identifier = find_by_identifier_query(hostile);
    assert_eq!(by_identifier.sql, "SELECT * FROM account WHERE username = ? OR email = ?");
    assert_eq!(by_identifier.sql, FIND_BY_IDENTIFIER_SQL);
    assert_eq!(by_identifier.params, vec![hostile.to_string(), hostile.to_string()]);

    let by_id = find_by_id_query(hostile);
    assert_eq!(by_id.sql, "SELECT * FROM account WHERE id = ?");
    assert_eq!(by_id.sql, FIND_BY_ID_SQL);
    assert_eq!(by_id.params, vec![hostile.to_string()]);
}

#[test]
fn listing_query_has_no_values() {
    let query = find_all_users_query();
    assert_eq!(query.sql, "SELECT * FROM account WHERE role = 'USER' ORDER BY created_at DESC");
    assert_eq!(query.sql, FIND_ALL_USERS_SQL);
    assert!(query.params.is_empty());
}
