use api::models::{Account, Decimal, Timestamp, UserResponse};
use bigdecimal::num_bigint::BigInt;
use bigdecimal::BigDecimal;
use std::str::FromStr;

fn bytes_of(unscaled: i128) -> Vec<u8> {
    unscaled.to_be_bytes().to_vec()
}

fn account(wallet_balance: Decimal) -> Account {
    Account {
        id: "u-1".to_string(),
        username: "alice".to_string(),
        email: "alice@example.com".to_string(),
        password_hash: "$2b$12$secret-hash-that-must-stay-inside".to_string(),
        profile_image: Some("https://example.com/alice.png".to_string()),
        role: "USER".to_string(),
        wallet_balance,
        created_at: Timestamp { seconds: 1_700_000_000, nanos: 250 },
        updated_at: Timestamp { seconds: 1_700_000_999, nanos: 0 },
    }
}

#[test]
fn balance_is_written_digit_for_digit() {
    assert_eq!(Decimal::new(bytes_of(1234567), 4).to_text(), "123.4567");
    assert_eq!(Decimal::new(bytes_of(1000000), 4).to_text(), "100.0000");
    assert_eq!(Decimal::new(bytes_of(-5), 2).to_text(), "-0.05");
    assert_eq!(Decimal::new(bytes_of(42), 0).to_text(), "42");
    assert_eq!(Decimal::new(Vec::new(), 0).to_text(), "0");
}

#[test]
fn balance_beyond_the_machine_integers_keeps_every_digit() {
    // 2^136 + 1 = 87112285931760246646623899502532662132737
    let mut bytes = vec![0u8; 18];
    bytes[0] = 1;
    bytes[17] = 1;
    assert_eq!(
        Decimal::new(bytes, 6).to_text(),
        "87112285931760246646623899502532662.132737"
    );
}

#[test]
fn balance_text_parses_back_to_the_same_value() {
    let cases: [(i128, i64); 8] = [
        (1234567, 4),
        (1, 4),
        (-98765432101234, 6),
        (10000, 4),
        (170141183460469231731687303715884105727, 10),
        (-170141183460469231731687303715884105728, 18),
        (5, 9),
        (123456789, 5),
    ];
    for (unscaled, scale) in cases {
        let bytes = bytes_of(unscaled);
        let text = Decimal::new(bytes.clone(), scale).to_text();
        let parsed = BigDecimal::from_str(&text).unwrap();
        let exact = BigDecimal::new(BigInt::from_signed_bytes_be(&bytes), scale);
        assert_eq!(parsed, exact, "{}", text);
        assert_eq!(parsed.as_bigint_and_exponent(), exact.as_bigint_and_exponent(), "{}", text);
    }
}

#[test]
fn projection_copies_the_public_fields() {
    let user = account(Decimal::new(bytes_of(1234567), 4)).to_user_response();
    assert_eq!(
        user,
        UserResponse {
            id: "u-1".to_string(),
            username: "alice".to_string(),
            email: "alice@example.com".to_string(),
            role: "USER".to_string(),
            wallet_balance: "123.4567".to_string(),
            created_at: Timestamp { seconds: 1_700_000_000, nanos: 250 },
        }
    );
}

#[test]
fn projection_around_a_given_balance_text() {
    let user = account(Decimal::new(bytes_of(1), 0)).to_user_response_with("7.50".to_string());
    assert_eq!(user.wallet_balance, "7.50");
    assert_eq!(user.username, "alice");
    assert_eq!(user.created_at, Timestamp { seconds: 1_700_000_000, nanos: 250 });
}

#[test]
fn projection_does_not_show_the_secret_hash() {
    let account = account(Decimal::new(bytes_of(1234567), 4));
    let shown = format!("{:?}", account.to_user_response());
    assert!(!shown.contains(&account.password_hash));
    assert!(!shown.contains("secret-hash"));
    assert!(shown.contains("alice"));
}

#[test]
fn projection_is_the_same_whatever_the_secret_hash() {
    let first = account(Decimal::new(bytes_of(1234567), 4));
    let mut second = first.clone();
    second.password_hash = "another hash".to_string();
    second.profile_image = None;
    second.updated_at = Timestamp { seconds: 0, nanos: 0 };
    assert_eq!(first.to_user_response(), second.to_user_response());
}

#[test]
fn clone_keeps_every_field() {
    let kept = account(Decimal::new(bytes_of(-77), 3));
    assert_eq!(kept.clone(), kept);
}

#[test]
fn later_time_is_after_earlier_time() {
    let early = Timestamp { seconds: 10, nanos: 999_999_999 };
    let late = Timestamp { seconds: 11, nanos: 0 };
    assert!(late.is_after(&early));
    assert!(!early.is_after(&late));
    assert!(!early.is_after(&early));
    assert!(Timestamp { seconds: 10, nanos: 5 }.is_after(&Timestamp { seconds: 10, nanos: 4 }));
    assert!(Timestamp { seconds: -1, nanos: 0 }.is_after(&Timestamp { seconds: -2, nanos: 9 }));
}
