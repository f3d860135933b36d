use api::models::dto::{
    char_is_whitespace, text_is_blank, LoginRequest, IDENTIFIER_REQUIRED, MIN_PASSWORD_CHARS,
    PASSWORD_REQUIRED, PASSWORD_TOO_SHORT,
};

fn request(identifier: &str, password: &str) -> LoginRequest {
    LoginRequest { identifier: identifier.to_string(), password: password.to_string() }
}

#[test]
fn whitespace_agrees_with_the_standard_library_on_every_character() {
    for code in 0u32..=0x10FFFF {
        if let Some(c) = char::from_u32(code) {
            assert_eq!(char_is_whitespace(c), c.is_whitespace(), "U+{:04X}", code);
        }
    }
}

#[test]
fn blank_text_is_what_trims_to_nothing() {
    for text in ["", " ", "\t\n ", "\u{3000}\u{a0}", "a", " a ", "\u{200b}", "  \u{feff}", " \u{85}"] {
        assert_eq!(text_is_blank(text), text.trim().is_empty(), "{:?}", text);
    }
    assert!(text_is_blank(""));
    assert!(text_is_blank(" \t\r\n"));
    assert!(!text_is_blank(" x "));
}

#[test]
fn well_formed_request_passes() {
    assert_eq!(request("alice", "correctpw").validate(), Ok(()));
    assert_eq!(request("alice@example.com", "123456").validate(), Ok(()));
}

#[test]
fn empty_identifier_is_rejected() {
    assert_eq!(request("", "correctpw").validate(), Err(IDENTIFIER_REQUIRED.to_string()));
}

#[test]
fn identifier_of_white_space_is_rejected() {
    assert_eq!(request(" \t ", "correctpw").validate(), Err(IDENTIFIER_REQUIRED.to_string()));
}

#[test]
fn empty_password_is_rejected() {
    assert_eq!(request("alice", "").validate(), Err(PASSWORD_REQUIRED.to_string()));
}

#[test]
fn password_of_white_space_is_rejected_as_missing() {
    assert_eq!(request("alice", "        ").validate(), Err(PASSWORD_REQUIRED.to_string()));
}

#[test]
fn password_of_five_characters_is_too_short() {
    assert_eq!(request("alice", "short").validate(), Err(PASSWORD_TOO_SHORT.to_string()));
}

#[test]
fn password_of_six_characters_is_long_enough() {
    assert_eq!(MIN_PASSWORD_CHARS, 6);
    assert_eq!(request("alice", "sixsix").validate(), Ok(()));
}

#[test]
fn password_length_counts_characters() {
    // three characters, nine bytes
    assert_eq!(request("alice", "ปลา").validate(), Err(PASSWORD_TOO_SHORT.to_string()));
    // six characters
    assert_eq!(request("alice", "ปลาปลา").validate(), Ok(()));
}

#[test]
fn identifier_is_checked_before_password() {
    assert_eq!(request(" ", "").validate(), Err(IDENTIFIER_REQUIRED.to_string()));
    assert_eq!(request(" ", "short").validate(), Err(IDENTIFIER_REQUIRED.to_string()));
}

#[test]
fn validation_messages_read_as_they_should() {
    assert_eq!(IDENTIFIER_REQUIRED, "กรุณากรอกชื่อผู้ใช้งานหรืออีเมล");
    assert_eq!(PASSWORD_REQUIRED, "กรุณากรอกรหัสผ่าน");
    assert_eq!(PASSWORD_TOO_SHORT, "รหัสผ่านต้องมีความยาวอย่างน้อย 6 ตัวอักษร");
}
