use rust_auth::claims::{ConfirmationToken, UserId};
use rust_auth::codec::decrypt_at;
use rust_auth::service::{
    validity_window, ConfigurationError, ConfirmationTokenService, IssueError, OutwardSignal,
    VerifyError, LONGEST_WINDOW_SECONDS, PASSWORD_CHANGE_WINDOW_SECONDS,
};
use rust_auth::settings::Secret;
use rust_auth::store::{Purpose, TakeOutcome, WriteOutcome};
use std::collections::HashMap;

const SECRET_KEY: &str = "0123456789abcdef0123456789abcdef";
const HMAC_SECRET: &str = "a secondary secret";
const USER: UserId = UserId(0x550e_8400_e29b_41d4_a716_4466_5544_0000);

/// A store in memory: for each record the instant at which it lapses.
struct MemoryStore {
    deadlines: HashMap<String, i64>,
    reachable: bool,
}

impl MemoryStore {
    fn new() -> MemoryStore {
        MemoryStore { deadlines: HashMap::new(), reachable: true }
    }

    fn write(&mut self, key: &str, ttl_seconds: i64, now: i64) -> WriteOutcome {
        if !self.reachable {
            return WriteOutcome::Unavailable;
        }
        self.deadlines.insert(key.to_string(), now + ttl_seconds);
        WriteOutcome::Written
    }

    fn take(&mut self, key: &str, now: i64) -> TakeOutcome {
        if !self.reachable {
            return TakeOutcome::Unavailable;
        }
        match self.deadlines.remove(key) {
            Some(deadline) if now < deadline => TakeOutcome::Present,
            _ => TakeOutcome::Absent,
        }
    }

    fn time_to_live(&self, key: &str, now: i64) -> Option<i64> {
        self.deadlines.get(key).map(|deadline| deadline - now)
    }
}

fn service_with_lifetime(minutes: i64) -> ConfirmationTokenService {
    ConfirmationTokenService::new(&Secret {
        secret_key: SECRET_KEY.to_string(),
        token_expiration: minutes,
        hmac_secret: HMAC_SECRET.to_string(),
    })
    .unwrap()
}

fn entropy_of(seed: u8) -> [u8; 128] {
    let mut entropy = [0u8; 128];
    for (i, byte) in entropy.iter_mut().enumerate() {
        *byte = seed.wrapping_add(i as u8);
    }
    entropy
}

fn issue_into(
    service: &ConfirmationTokenService,
    store: &mut MemoryStore,
    user: UserId,
    purpose: Purpose,
    now: i64,
    seed: u8,
) -> Result<String, IssueError> {
    let pending = service.begin_issue_at(user, purpose, now, &entropy_of(seed))?;
    let outcome = store.write(pending.store_key(), pending.ttl_seconds(), now);
    pending.complete(outcome)
}

fn verify_against(
    service: &ConfirmationTokenService,
    store: &mut MemoryStore,
    token: &str,
    purpose: Purpose,
    now: i64,
) -> Result<ConfirmationToken, VerifyError> {
    let pending = service.begin_verify_at(token, purpose, now)?;
    let outcome = store.take(pending.store_key(), now);
    pending.complete(outcome)
}

#[test]
fn new_refuses_a_secret_key_that_is_not_32_bytes() {
    for key in ["", "short", "0123456789abcdef0123456789abcde", "0123456789abcdef0123456789abcdef0"] {
        let refused = ConfirmationTokenService::new(&Secret {
            secret_key: key.to_string(),
            token_expiration: 30,
            hmac_secret: HMAC_SECRET.to_string(),
        });
        assert_eq!(refused.err(), Some(ConfigurationError::MalformedSecretKey));
    }
    // Thirty-two characters, and more than thirty-two bytes.
    let refused = ConfirmationTokenService::new(&Secret {
        secret_key: "\u{e9}123456789abcdef0123456789abcdef".to_string(),
        token_expiration: 30,
        hmac_secret: HMAC_SECRET.to_string(),
    });
    assert_eq!(refused.err(), Some(ConfigurationError::MalformedSecretKey));
}

#[test]
fn validity_window_is_the_lifetime_in_seconds_or_one_hour() {
    assert_eq!(validity_window(Purpose::Confirmation, 30), 1_800);
    assert_eq!(validity_window(Purpose::Confirmation, 1), 60);
    assert_eq!(validity_window(Purpose::Confirmation, 0), 0);
    assert_eq!(validity_window(Purpose::Confirmation, -2), -120);
    assert_eq!(validity_window(Purpose::PasswordChange, 30), 3_600);
    assert_eq!(validity_window(Purpose::PasswordChange, -2), 3_600);
    assert_eq!(PASSWORD_CHANGE_WINDOW_SECONDS, 3_600);
}

#[test]
fn validity_window_of_a_lifetime_out_of_range_is_zero() {
    assert_eq!(LONGEST_WINDOW_SECONDS, i64::MAX / 1_000);
    let longest_minutes = LONGEST_WINDOW_SECONDS / 60;
    assert_eq!(validity_window(Purpose::Confirmation, longest_minutes), longest_minutes * 60);
    assert_eq!(validity_window(Purpose::Confirmation, -longest_minutes), -longest_minutes * 60);
    assert_eq!(validity_window(Purpose::Confirmation, longest_minutes + 1), 0);
    assert_eq!(validity_window(Purpose::Confirmation, -longest_minutes - 1), 0);
    assert_eq!(validity_window(Purpose::Confirmation, i64::MAX), 0);
    assert_eq!(validity_window(Purpose::Confirmation, i64::MIN), 0);
}

#[test]
fn purpose_from_flag_goes_by_the_presence_of_the_flag() {
    assert_eq!(Purpose::from_flag(None), Purpose::Confirmation);
    assert_eq!(Purpose::from_flag(Some(true)), Purpose::PasswordChange);
    assert_eq!(Purpose::from_flag(Some(false)), Purpose::PasswordChange);
}

#[test]
fn begin_issue_at_names_the_record_and_its_time_to_live() {
    let service = service_with_lifetime(30);
    let entropy = entropy_of(0);
    let pending = service.begin_issue_at(USER, Purpose::Confirmation, 1_000, &entropy).unwrap();
    let session_key = hex::encode(entropy);
    assert_eq!(pending.store_key(), format!("valid_session_key:confirmation:{}", session_key));
    assert_eq!(pending.ttl_seconds(), 1_800);
    let pending = service.begin_issue_at(USER, Purpose::PasswordChange, 1_000, &entropy).unwrap();
    assert_eq!(pending.store_key(), format!("valid_session_key:password_change:{}", session_key));
    assert_eq!(pending.ttl_seconds(), 3_600);
}

#[test]
fn issued_token_carries_user_session_key_and_expiry() {
    let service = service_with_lifetime(30);
    let entropy = entropy_of(9);
    let pending = service.begin_issue_at(USER, Purpose::Confirmation, 1_000, &entropy).unwrap();
    let token = pending.complete(WriteOutcome::Written).unwrap();
    let claims =
        decrypt_at(&token, SECRET_KEY.as_bytes(), HMAC_SECRET.as_bytes(), 1_000).unwrap();
    assert_eq!(claims.user_id(), USER);
    assert_eq!(claims.session_key(), hex::encode(entropy));
    assert_eq!(claims.expiration(), 2_800);
}

#[test]
fn round_trip_returns_the_user() {
    let service = service_with_lifetime(30);
    for purpose in [Purpose::Confirmation, Purpose::PasswordChange] {
        let mut store = MemoryStore::new();
        let token = issue_into(&service, &mut store, USER, purpose, 1_000, 1).unwrap();
        let confirmed = verify_against(&service, &mut store, &token, purpose, 1_001);
        assert_eq!(confirmed, Ok(ConfirmationToken { user_id: USER }));
    }
}

#[test]
fn second_verification_fails_within_the_window() {
    let service = service_with_lifetime(30);
    let mut store = MemoryStore::new();
    let token = issue_into(&service, &mut store, USER, Purpose::Confirmation, 1_000, 2).unwrap();
    assert!(verify_against(&service, &mut store, &token, Purpose::Confirmation, 1_010).is_ok());
    assert_eq!(
        verify_against(&service, &mut store, &token, Purpose::Confirmation, 1_010),
        Err(VerifyError::AlreadyUsedOrExpired)
    );
    assert_eq!(
        verify_against(&service, &mut store, &token, Purpose::Confirmation, 2_799),
        Err(VerifyError::AlreadyUsedOrExpired)
    );
    assert_eq!(
        verify_against(&service, &mut store, &token, Purpose::Confirmation, 2_801),
        Err(VerifyError::InvalidToken)
    );
}

#[test]
fn of_many_verifications_exactly_one_succeeds() {
    let service = service_with_lifetime(30);
    for attempts in [1usize, 2, 5, 17] {
        let mut store = MemoryStore::new();
        let token =
            issue_into(&service, &mut store, USER, Purpose::Confirmation, 1_000, 3).unwrap();
        let mut pending = Vec::new();
        for _ in 0..attempts {
            pending.push(service.begin_verify_at(&token, Purpose::Confirmation, 1_500).unwrap());
        }
        // All have passed the first step before the store serves the first take.
        let mut succeeded = 0;
        let mut spent = 0;
        for one in pending {
            let outcome = store.take(one.store_key(), 1_500);
            match one.complete(outcome) {
                Ok(confirmed) => {
                    assert_eq!(confirmed.user_id, USER);
                    succeeded += 1;
                }
                Err(VerifyError::AlreadyUsedOrExpired) => spent += 1,
                Err(other) => panic!("unexpected {:?}", other),
            }
        }
        assert_eq!(succeeded, 1);
        assert_eq!(spent, attempts - 1);
    }
}

#[test]
fn expired_token_is_refused_like_a_used_one() {
    let service = service_with_lifetime(30);
    let mut store = MemoryStore::new();
    let token = issue_into(&service, &mut store, USER, Purpose::Confirmation, 1_000, 4).unwrap();
    let at_expiry = verify_against(&service, &mut store, &token, Purpose::Confirmation, 2_800);
    assert_eq!(at_expiry, Err(VerifyError::AlreadyUsedOrExpired));

    let mut store = MemoryStore::new();
    let token = issue_into(&service, &mut store, USER, Purpose::Confirmation, 1_000, 4).unwrap();
    let after_expiry = verify_against(&service, &mut store, &token, Purpose::Confirmation, 2_801);
    assert_eq!(after_expiry, Err(VerifyError::InvalidToken));
    assert_eq!(
        after_expiry.unwrap_err().outward(),
        VerifyError::AlreadyUsedOrExpired.outward()
    );
    // The refusal did not touch the store.
    assert!(store.time_to_live(&format!(
        "valid_session_key:confirmation:{}",
        hex::encode(entropy_of(4))
    ), 2_801).is_some());
}

#[test]
fn outward_signal_tells_a_refusal_from_an_outage_and_nothing_more() {
    assert_eq!(VerifyError::InvalidToken.outward(), OutwardSignal::TokenRejected);
    assert_eq!(VerifyError::AlreadyUsedOrExpired.outward(), OutwardSignal::TokenRejected);
    assert_eq!(VerifyError::StoreUnavailable.outward(), OutwardSignal::TryAgainLater);
}

#[test]
fn tampered_token_is_invalid_and_leaves_the_record() {
    let service = service_with_lifetime(30);
    let mut store = MemoryStore::new();
    let token = issue_into(&service, &mut store, USER, Purpose::Confirmation, 1_000, 5).unwrap();
    for i in 0..token.len() {
        let mut bytes = token.clone().into_bytes();
        bytes[i] = if bytes[i] == b'A' { b'B' } else { b'A' };
        let changed = String::from_utf8(bytes).unwrap();
        assert_eq!(
            verify_against(&service, &mut store, &changed, Purpose::Confirmation, 1_001),
            Err(VerifyError::InvalidToken),
            "accepted a change at {}",
            i
        );
    }
    let confirmed = verify_against(&service, &mut store, &token, Purpose::Confirmation, 1_001);
    assert_eq!(confirmed, Ok(ConfirmationToken { user_id: USER }));
}

#[test]
fn store_failure_at_issue_hands_out_no_token() {
    let service = service_with_lifetime(30);
    let mut store = MemoryStore::new();
    store.reachable = false;
    let refused = issue_into(&service, &mut store, USER, Purpose::Confirmation, 1_000, 6);
    assert_eq!(refused, Err(IssueError::StoreUnavailable));
    let pending =
        service.begin_issue_at(USER, Purpose::Confirmation, 1_000, &entropy_of(6)).unwrap();
    assert_eq!(pending.complete(WriteOutcome::Unavailable), Err(IssueError::StoreUnavailable));
}

#[test]
fn store_failure_at_verify_decides_nothing() {
    let service = service_with_lifetime(30);
    let mut store = MemoryStore::new();
    let token = issue_into(&service, &mut store, USER, Purpose::Confirmation, 1_000, 7).unwrap();
    store.reachable = false;
    assert_eq!(
        verify_against(&service, &mut store, &token, Purpose::Confirmation, 1_001),
        Err(VerifyError::StoreUnavailable)
    );
    store.reachable = true;
    assert_eq!(
        verify_against(&service, &mut store, &token, Purpose::Confirmation, 1_002),
        Ok(ConfirmationToken { user_id: USER })
    );
}

#[test]
fn expiry_out_of_range_is_refused() {
    let service = service_with_lifetime(30);
    let entropy = entropy_of(8);
    let late = service.begin_issue_at(USER, Purpose::Confirmation, i64::MAX - 1_799, &entropy);
    assert_eq!(late.err(), Some(IssueError::ExpiryOutOfRange));
    let last = service.begin_issue_at(USER, Purpose::Confirmation, i64::MAX - 1_800, &entropy);
    assert!(last.is_ok());
    let backwards = service_with_lifetime(-1);
    let early = backwards.begin_issue_at(USER, Purpose::Confirmation, i64::MIN + 59, &entropy);
    assert_eq!(early.err(), Some(IssueError::ExpiryOutOfRange));
}

#[test]
fn token_with_no_lifetime_never_verifies() {
    for minutes in [0i64, -5] {
        let service = service_with_lifetime(minutes);
        let mut store = MemoryStore::new();
        let token =
            issue_into(&service, &mut store, USER, Purpose::Confirmation, 1_000, 10).unwrap();
        assert!(verify_against(&service, &mut store, &token, Purpose::Confirmation, 1_000).is_err());
    }
}

#[test]
fn scenario_confirmation_and_password_change_side_by_side() {
    let service = service_with_lifetime(45);
    let mut store = MemoryStore::new();
    let now = 1_700_000_000;

    let confirmation = service
        .begin_issue_at(USER, Purpose::Confirmation, now, &entropy_of(11))
        .unwrap();
    let confirmation_key = confirmation.store_key().to_string();
    assert_eq!(store.write(&confirmation_key, confirmation.ttl_seconds(), now), WriteOutcome::Written);
    let confirmation_token = confirmation.complete(WriteOutcome::Written).unwrap();
    // The time to live in the store is the configured window.
    assert_eq!(store.time_to_live(&confirmation_key, now), Some(45 * 60));

    let change = service
        .begin_issue_at(USER, Purpose::PasswordChange, now, &entropy_of(12))
        .unwrap();
    let change_key = change.store_key().to_string();
    assert_eq!(store.write(&change_key, change.ttl_seconds(), now), WriteOutcome::Written);
    let change_token = change.complete(WriteOutcome::Written).unwrap();
    assert_eq!(store.time_to_live(&change_key, now), Some(3_600));
    assert_ne!(confirmation_key, change_key);

    // Verify succeeds once and returns the user.
    assert_eq!(
        verify_against(&service, &mut store, &confirmation_token, Purpose::Confirmation, now + 5),
        Ok(ConfirmationToken { user_id: USER })
    );
    // An immediate second verification fails.
    assert_eq!(
        verify_against(&service, &mut store, &confirmation_token, Purpose::Confirmation, now + 5),
        Err(VerifyError::AlreadyUsedOrExpired)
    );
    // The record of the other purpose is untouched, and its token still good.
    assert_eq!(store.time_to_live(&change_key, now + 5), Some(3_595));
    assert_eq!(
        verify_against(&service, &mut store, &change_token, Purpose::PasswordChange, now + 6),
        Ok(ConfirmationToken { user_id: USER })
    );
}

#[test]
fn token_does_not_verify_for_another_purpose() {
    let service = service_with_lifetime(30);
    let mut store = MemoryStore::new();
    let token = issue_into(&service, &mut store, USER, Purpose::Confirmation, 1_000, 13).unwrap();
    assert_eq!(
        verify_against(&service, &mut store, &token, Purpose::PasswordChange, 1_001),
        Err(VerifyError::AlreadyUsedOrExpired)
    );
    // It is still good for its own purpose.
    assert_eq!(
        verify_against(&service, &mut store, &token, Purpose::Confirmation, 1_002),
        Ok(ConfirmationToken { user_id: USER })
    );
}

#[test]
fn token_of_another_service_is_invalid() {
    let service = service_with_lifetime(30);
    let other = ConfirmationTokenService::new(&Secret {
        secret_key: "fedcba9876543210fedcba9876543210".to_string(),
        token_expiration: 30,
        hmac_secret: HMAC_SECRET.to_string(),
    })
    .unwrap();
    let mut store = MemoryStore::new();
    let token = issue_into(&other, &mut store, USER, Purpose::Confirmation, 1_000, 14).unwrap();
    assert_eq!(
        verify_against(&service, &mut store, &token, Purpose::Confirmation, 1_001),
        Err(VerifyError::InvalidToken)
    );
}

#[test]
fn begin_issue_and_begin_verify_use_the_clock_and_fresh_entropy() {
    let service = service_with_lifetime(30);
    let first = service.begin_issue(USER, Purpose::Confirmation).unwrap();
    let second = service.begin_issue(USER, Purpose::Confirmation).unwrap();
    assert_ne!(first.store_key(), second.store_key());
    assert_eq!(first.ttl_seconds(), 1_800);
    assert_eq!(first.store_key().len(), "valid_session_key:confirmation:".len() + 256);
    let key = first.store_key().to_string();
    let token = first.complete(WriteOutcome::Written).unwrap();
    let pending = service.begin_verify(&token, Purpose::Confirmation).unwrap();
    assert_eq!(pending.store_key(), key);
    assert_eq!(pending.complete(TakeOutcome::Present), Ok(ConfirmationToken { user_id: USER }));
    assert_eq!(
        service.begin_verify("v4.local.nothing", Purpose::Confirmation).err(),
        Some(VerifyError::InvalidToken)
    );
}
