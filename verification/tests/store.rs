use rust_auth::store::{record_key, Purpose};

#[test]
fn record_key_joins_prefix_tag_and_session_key() {
    assert_eq!(record_key(Purpose::Confirmation, "abc"), "valid_session_key:confirmation:abc");
    assert_eq!(record_key(Purpose::PasswordChange, "abc"), "valid_session_key:password_change:abc");
    assert_eq!(record_key(Purpose::Confirmation, ""), "valid_session_key:confirmation:");
}

#[test]
fn record_keys_of_the_two_purposes_never_meet() {
    let keys = ["", "abc", "password_change:abc", ":", "confirmation:", "change:x"];
    for a in keys {
        for b in keys {
            assert_ne!(record_key(Purpose::Confirmation, a), record_key(Purpose::PasswordChange, b));
            if a != b {
                assert_ne!(record_key(Purpose::Confirmation, a), record_key(Purpose::Confirmation, b));
            }
        }
    }
}

#[test]
fn purpose_tags() {
    assert_eq!(Purpose::Confirmation.tag_text(), "confirmation");
    assert_eq!(Purpose::PasswordChange.tag_text(), "password_change");
}
