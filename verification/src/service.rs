//! The confirmation token service: single-use tokens bound to a user and a
//! purpose.
//!
//! Issuing and verifying each take two steps, with one request to the store
//! between them. The first step decides what to ask of the store; the caller
//! carries the request out and hands the outcome to the second step.
//!
//! - To issue: `begin_issue` makes the token and says which liveness record
//!   to write; `PendingIssue::complete` hands the token out once the record
//!   is written, and not otherwise.
//! - To verify: `begin_verify` decrypts and validates the token and says
//!   which record to take; `PendingVerify::complete` names the user if the
//!   record was there.
//!
//! With a store in memory both steps and the request between them are one
//! call: `issue` and `verify`.

use crate::claims::{
    claims_payload, Claims, ClaimsView, ConfirmationToken, UserId, SESSION_KEY_BYTES,
};
use crate::codec::{decrypt_at, encrypt, opened_payload, token_claims, SECRET_KEY_BYTES};
use crate::encoding::hex_text;
use crate::settings::Secret;
use crate::store::{
    record_key, store_key, Ledger, MemoryLedger, Purpose, TakeOutcome, WriteOutcome,
};
use crate::system::{random_bytes, unix_now};
use vstd::prelude::*;
use vstd::string::*;
use vstd::utf8::*;

verus! {

/// The validity window of a token for a change of password, in seconds.
pub const PASSWORD_CHANGE_WINDOW_SECONDS: i64 = 3600;

/// The longest validity window, in seconds: `i64::MAX` milliseconds. A
/// configured lifetime beyond it counts as no lifetime at all.
pub const LONGEST_WINDOW_SECONDS: i64 = 9_223_372_036_854_775;

/// Why the service could not be set up. This is fatal at startup.
#[derive(Clone, Copy, Debug, PartialEq, Eq, Structural)]
pub enum ConfigurationError {
    /// The secret key is not 32 bytes long.
    MalformedSecretKey,
}

/// Why no token was issued.
#[derive(Clone, Copy, Debug, PartialEq, Eq, Structural)]
pub enum IssueError {
    /// The random source gave no session key.
    EntropyUnavailable,
    /// The expiry, the current time plus the validity window, is no instant
    /// that fits in 64 bits.
    ExpiryOutOfRange,
    /// The encryption primitive failed.
    SealingFailed,
    /// The liveness record could not be written. No token is handed out.
    StoreUnavailable,
}

/// Why a token was not verified.
#[derive(Clone, Copy, Debug, PartialEq, Eq, Structural)]
pub enum VerifyError {
    /// The token is malformed, forged, tampered with, or expired.
    InvalidToken,
    /// The token is genuine, and its liveness record is gone: the token was
    /// used before, or its time to live is over.
    AlreadyUsedOrExpired,
    /// The store could not be reached. Nothing is known of the token.
    StoreUnavailable,
}

/// What the outside is told when a token is not verified.
#[derive(Clone, Copy, Debug, PartialEq, Eq, Structural)]
pub enum OutwardSignal {
    /// The token is not accepted, and a new one has to be asked for. Nothing
    /// tells a forged token from an expired or a used one.
    TokenRejected,
    /// Nothing could be decided; the same token may be tried again later.
    TryAgainLater,
}

impl VerifyError {
    /// What the outside is told of this error.
    pub open spec fn signal(self) -> OutwardSignal {
        match self {
            VerifyError::InvalidToken => OutwardSignal::TokenRejected,
            VerifyError::AlreadyUsedOrExpired => OutwardSignal::TokenRejected,
            VerifyError::StoreUnavailable => OutwardSignal::TryAgainLater,
        }
    }

    /// What the outside is told of this error.
    pub fn outward(&self) -> (signal: OutwardSignal)
        ensures
            signal == self.signal(),
    {
        match self {
            VerifyError::InvalidToken => OutwardSignal::TokenRejected,
            VerifyError::AlreadyUsedOrExpired => OutwardSignal::TokenRejected,
            VerifyError::StoreUnavailable => OutwardSignal::TryAgainLater,
        }
    }
}

/// The validity window in seconds of a token for `purpose`, where
/// confirmation tokens are configured to live `lifetime_minutes`.
pub open spec fn window_seconds(purpose: Purpose, lifetime_minutes: i64) -> i64 {
    match purpose {
        Purpose::PasswordChange => PASSWORD_CHANGE_WINDOW_SECONDS,
        Purpose::Confirmation => if -LONGEST_WINDOW_SECONDS <= lifetime_minutes * 60
            <= LONGEST_WINDOW_SECONDS {
            (lifetime_minutes * 60) as i64
        } else {
            0
        },
    }
}

/// The validity window in seconds of a token for `purpose`.
pub fn validity_window(purpose: Purpose, lifetime_minutes: i64) -> (seconds: i64)
    ensures
        seconds == window_seconds(purpose, lifetime_minutes),
{
    match purpose {
        Purpose::PasswordChange => PASSWORD_CHANGE_WINDOW_SECONDS,
        Purpose::Confirmation => match lifetime_minutes.checked_mul(60) {
            Some(seconds) => if -LONGEST_WINDOW_SECONDS <= seconds && seconds
                <= LONGEST_WINDOW_SECONDS {
                seconds
            } else {
                0
            },
            None => 0,
        },
    }
}

/// What verification says of a user once the store has answered the take of
/// the token's liveness record.
pub open spec fn verdict(user_id: UserId, outcome: TakeOutcome) -> Result<
    ConfirmationToken,
    VerifyError,
> {
    match outcome {
        TakeOutcome::Present => Ok(ConfirmationToken { user_id }),
        TakeOutcome::Absent => Err(VerifyError::AlreadyUsedOrExpired),
        TakeOutcome::Unavailable => Err(VerifyError::StoreUnavailable),
    }
}

/// The service, set up once with the secrets and the lifetime of confirmation
/// tokens.
pub struct ConfirmationTokenService {
    secret_key: String,
    associated_secret: String,
    lifetime_minutes: i64,
}

/// A token that has been made and is not handed out yet: its liveness record
/// has still to be written.
pub struct PendingIssue {
    token: String,
    key: String,
    ttl_seconds: i64,
}

/// A token that has been decrypted and validated: its liveness record has
/// still to be taken.
pub struct PendingVerify {
    user_id: UserId,
    key: String,
}

impl PendingIssue {
    /// The token that is waiting to be handed out.
    pub closed spec fn token(self) -> Seq<char> {
        self.token@
    }

    /// The key of the liveness record to write.
    pub closed spec fn key(self) -> Seq<char> {
        self.key@
    }

    /// The time to live of the liveness record to write.
    pub closed spec fn ttl(self) -> i64 {
        self.ttl_seconds
    }

    /// The key of the liveness record to write.
    pub fn store_key(&self) -> (key: &str)
        ensures
            key@ == self.key(),
    {
        self.key.as_str()
    }

    /// The time to live of the liveness record to write, in seconds.
    pub fn ttl_seconds(&self) -> (ttl: i64)
        ensures
            ttl == self.ttl(),
    {
        self.ttl_seconds
    }

    /// Ends the issuing: the token, if its liveness record was written.
    pub fn complete(self, outcome: WriteOutcome) -> (token: Result<String, IssueError>)
        ensures
            match token {
                Ok(t) => outcome == WriteOutcome::Written && t@ == self.token(),
                Err(e) => outcome == WriteOutcome::Unavailable && e == IssueError::StoreUnavailable,
            },
    {
        match outcome {
            WriteOutcome::Written => Ok(self.token),
            WriteOutcome::Unavailable => Err(IssueError::StoreUnavailable),
        }
    }
}

impl PendingVerify {
    /// The user that the token names.
    pub closed spec fn user(self) -> UserId {
        self.user_id
    }

    /// The key of the liveness record to take.
    pub closed spec fn key(self) -> Seq<char> {
        self.key@
    }

    /// The key of the liveness record to take.
    pub fn store_key(&self) -> (key: &str)
        ensures
            key@ == self.key(),
    {
        self.key.as_str()
    }

    /// Ends the verification: the user, if the liveness record was there.
    pub fn complete(self, outcome: TakeOutcome) -> (confirmed: Result<
        ConfirmationToken,
        VerifyError,
    >)
        ensures
            confirmed == verdict(self.user(), outcome),
    {
        match outcome {
            TakeOutcome::Present => Ok(ConfirmationToken { user_id: self.user_id }),
            TakeOutcome::Absent => Err(VerifyError::AlreadyUsedOrExpired),
            TakeOutcome::Unavailable => Err(VerifyError::StoreUnavailable),
        }
    }
}

impl ConfirmationTokenService {
    #[verifier::type_invariant]
    spec fn well_formed(self) -> bool {
        encode_utf8(self.secret_key@).len() == SECRET_KEY_BYTES
    }

    /// The bytes of the secret key.
    pub closed spec fn key(self) -> Seq<u8> {
        encode_utf8(self.secret_key@)
    }

    /// The bytes of the associated secret.
    pub closed spec fn associated(self) -> Seq<u8> {
        encode_utf8(self.associated_secret@)
    }

    /// The configured lifetime of confirmation tokens, in minutes.
    pub closed spec fn lifetime(self) -> i64 {
        self.lifetime_minutes
    }

    /// The validity window of a token for `purpose`, in seconds.
    pub open spec fn window(self, purpose: Purpose) -> i64 {
        window_seconds(purpose, self.lifetime())
    }

    /// The instant at which a token issued at `now` for `purpose` expires.
    pub open spec fn expiry(self, purpose: Purpose, now: i64) -> int {
        now + self.window(purpose)
    }

    /// Whether the expiry of a token issued at `now` for `purpose` is an
    /// instant that fits in 64 bits.
    pub open spec fn expiry_fits(self, purpose: Purpose, now: i64) -> bool {
        i64::MIN <= self.expiry(purpose, now) <= i64::MAX
    }

    /// The claim set of a token issued at `now` for `user_id` and `purpose`
    /// with the session key made of `entropy`.
    pub open spec fn issued_claims(
        self,
        user_id: UserId,
        purpose: Purpose,
        entropy: Seq<u8>,
        now: i64,
    ) -> ClaimsView {
        ClaimsView {
            user_id,
            session_key: hex_text(entropy),
            expiration: self.expiry(purpose, now) as i64,
        }
    }

    /// Whether `token` is a token that this service issues at `now` for
    /// `user_id` and `purpose` with the session key made of `entropy`.
    pub open spec fn issued(
        self,
        token: Seq<char>,
        user_id: UserId,
        purpose: Purpose,
        entropy: Seq<u8>,
        now: i64,
    ) -> bool {
        &&& entropy.len() == SESSION_KEY_BYTES
        &&& self.expiry_fits(purpose, now)
        &&& opened_payload(token, self.key(), self.associated()) == Some(
            claims_payload(self.issued_claims(user_id, purpose, entropy, now)),
        )
    }

    /// The store after the liveness record of a token was written that was
    /// issued at `now` for `purpose` with the session key made of `entropy`.
    pub open spec fn ledger_after_issue(
        self,
        ledger: Ledger,
        purpose: Purpose,
        entropy: Seq<u8>,
        now: i64,
    ) -> Ledger {
        ledger.write(
            store_key(purpose, hex_text(entropy)),
            self.window(purpose) as int,
            now as int,
        )
    }

    /// What the first step of a verification of `token` for `purpose` at the
    /// instant `now` finds: the user that the token names and the key of its
    /// liveness record, if the token is accepted.
    pub open spec fn accepted(self, token: Seq<char>, purpose: Purpose, now: i64) -> Option<
        (UserId, Seq<char>),
    > {
        match token_claims(token, self.key(), self.associated(), now) {
            None => None,
            Some(claims) => Some((claims.user_id, store_key(purpose, claims.session_key))),
        }
    }

    /// What the verification of `token` for `purpose` at the instant `now`
    /// comes to when the store is `ledger`, and the store after it: the
    /// first step, the take of the liveness record, the second step.
    pub open spec fn verification(
        self,
        ledger: Ledger,
        token: Seq<char>,
        purpose: Purpose,
        now: i64,
    ) -> (Result<ConfirmationToken, VerifyError>, Ledger) {
        match self.accepted(token, purpose, now) {
            None => (Err(VerifyError::InvalidToken), ledger),
            Some((user_id, key)) => (
                verdict(user_id, ledger.take_outcome(key, now as int)),
                ledger.take(key),
            ),
        }
    }

    /// What a run of verifications of `token` for `purpose` comes to, one at
    /// each of `times` in the order in which the store serves them.
    pub open spec fn verifications(
        self,
        ledger: Ledger,
        token: Seq<char>,
        purpose: Purpose,
        times: Seq<i64>,
    ) -> Seq<Result<ConfirmationToken, VerifyError>>
        decreases times.len(),
    {
        if times.len() == 0 {
            Seq::empty()
        } else {
            let first = self.verification(ledger, token, purpose, times[0]);
            seq![first.0] + self.verifications(first.1, token, purpose, times.drop_first())
        }
    }

    /// Sets the service up. A secret key that is not 32 bytes long is
    /// refused.
    pub fn new(secret: &Secret) -> (service: Result<ConfirmationTokenService, ConfigurationError>)
        ensures
            match service {
                Ok(s) => encode_utf8(secret.secret_key@).len() == SECRET_KEY_BYTES && s.key()
                    == encode_utf8(secret.secret_key@) && s.associated() == encode_utf8(
                    secret.hmac_secret@,
                ) && s.lifetime() == secret.token_expiration,
                Err(e) => encode_utf8(secret.secret_key@).len() != SECRET_KEY_BYTES,
            },
    {
        if secret.secret_key.as_str().as_bytes().len() != SECRET_KEY_BYTES {
            return Err(ConfigurationError::MalformedSecretKey);
        }
        Ok(
            ConfirmationTokenService {
                secret_key: secret.secret_key.clone(),
                associated_secret: secret.hmac_secret.clone(),
                lifetime_minutes: secret.token_expiration,
            },
        )
    }

    /// Begins to issue a token for `user_id` and `purpose` at the instant
    /// `now`, with the session key made of `entropy`.
    ///
    /// The token expires one validity window after `now`, and its liveness
    /// record is to live as long. Issuing fails where that expiry is out of
    /// range, and may fail in the encryption primitive.
    pub fn begin_issue_at(
        &self,
        user_id: UserId,
        purpose: Purpose,
        now: i64,
        entropy: &[u8; 128],
    ) -> (pending: Result<PendingIssue, IssueError>)
        ensures
            match pending {
                Ok(p) => self.issued(p.token(), user_id, purpose, entropy@, now)
                    && p.key() == store_key(purpose, hex_text(entropy@))
                    && p.ttl() == self.window(purpose),
                Err(IssueError::ExpiryOutOfRange) => !self.expiry_fits(purpose, now),
                Err(IssueError::SealingFailed) => self.expiry_fits(purpose, now),
                Err(_) => false,
            },
    {
        proof {
            use_type_invariant(self);
        }
        let window = validity_window(purpose, self.lifetime_minutes);
        let expiration = match now.checked_add(window) {
            Some(expiration) => expiration,
            None => return Err(IssueError::ExpiryOutOfRange),
        };
        let claims = Claims::with_entropy(user_id, entropy, expiration);
        let key = record_key(purpose, claims.session_key());
        let sealed = encrypt(
            &claims,
            self.secret_key.as_str().as_bytes(),
            self.associated_secret.as_str().as_bytes(),
        );
        match sealed {
            Ok(token) => Ok(PendingIssue { token, key, ttl_seconds: window }),
            Err(_) => Err(IssueError::SealingFailed),
        }
    }

    /// Begins to issue a token for `user_id` and `purpose`, at the current
    /// time and with a fresh random session key.
    pub fn begin_issue(&self, user_id: UserId, purpose: Purpose) -> (pending: Result<
        PendingIssue,
        IssueError,
    >)
        ensures
            match pending {
                Ok(p) => p.ttl() == self.window(purpose) && exists|entropy: Seq<u8>, now: i64|
                    self.issued(p.token(), user_id, purpose, entropy, now)
                        && p.key() == store_key(purpose, hex_text(entropy)),
                Err(e) => e != IssueError::StoreUnavailable,
            },
    {
        let entropy: [u8; 128] = match random_bytes::<128>() {
            Some(entropy) => entropy,
            None => return Err(IssueError::EntropyUnavailable),
        };
        let now = unix_now();
        self.begin_issue_at(user_id, purpose, now, &entropy)
    }

    /// Begins to verify `token` for `purpose` at the instant `now`.
    ///
    /// The token is decrypted and validated. If it is accepted, the liveness
    /// record to take is the one of its session key under `purpose`;
    /// otherwise the token is invalid, whatever the reason.
    pub fn begin_verify_at(&self, token: &str, purpose: Purpose, now: i64) -> (pending: Result<
        PendingVerify,
        VerifyError,
    >)
        ensures
            match pending {
                Ok(p) => self.accepted(token@, purpose, now) == Some((p.user(), p.key())),
                Err(e) => e == VerifyError::InvalidToken && self.accepted(token@, purpose, now)
                    is None,
            },
    {
        let claims = match decrypt_at(
            token,
            self.secret_key.as_str().as_bytes(),
            self.associated_secret.as_str().as_bytes(),
            now,
        ) {
            Ok(claims) => claims,
            Err(_) => return Err(VerifyError::InvalidToken),
        };
        let key = record_key(purpose, claims.session_key());
        Ok(PendingVerify { user_id: claims.user_id(), key })
    }

    /// Begins to verify `token` for `purpose` at the current time.
    pub fn begin_verify(&self, token: &str, purpose: Purpose) -> (pending: Result<
        PendingVerify,
        VerifyError,
    >)
        ensures
            exists|now: i64|
                match pending {
                    Ok(p) => #[trigger] self.accepted(token@, purpose, now) == Some(
                        (p.user(), p.key()),
                    ),
                    Err(e) => e == VerifyError::InvalidToken && self.accepted(token@, purpose, now)
                        is None,
                },
    {
        let now = unix_now();
        self.begin_verify_at(token, purpose, now)
    }

    /// Issues a token for `user_id` and `purpose` at the instant `now`, with
    /// the session key made of `entropy`, and writes its liveness record to
    /// `ledger`. Where no token is issued the store is left as it was.
    pub fn issue_at(
        &self,
        ledger: &mut MemoryLedger,
        user_id: UserId,
        purpose: Purpose,
        now: i64,
        entropy: &[u8; 128],
    ) -> (token: Result<String, IssueError>)
        ensures
            match token {
                Ok(t) => self.issued(t@, user_id, purpose, entropy@, now)
                    && final(ledger)@ == self.ledger_after_issue(
                    old(ledger)@,
                    purpose,
                    entropy@,
                    now,
                ),
                Err(IssueError::ExpiryOutOfRange) => final(ledger)@ == old(ledger)@
                    && !self.expiry_fits(purpose, now),
                Err(IssueError::SealingFailed) => final(ledger)@ == old(ledger)@
                    && self.expiry_fits(purpose, now),
                Err(_) => false,
            },
    {
        let pending = match self.begin_issue_at(user_id, purpose, now, entropy) {
            Ok(pending) => pending,
            Err(e) => return Err(e),
        };
        let outcome = ledger.write(pending.store_key(), pending.ttl_seconds(), now);
        pending.complete(outcome)
    }

    /// Issues a token for `user_id` and `purpose`, at the current time and
    /// with a fresh random session key, and writes its liveness record to
    /// `ledger`. Where no token is issued the store is left as it was.
    pub fn issue(&self, ledger: &mut MemoryLedger, user_id: UserId, purpose: Purpose) -> (token:
        Result<String, IssueError>)
        ensures
            match token {
                Ok(t) => exists|entropy: Seq<u8>, now: i64|
                    self.issued(t@, user_id, purpose, entropy, now) && final(ledger)@
                        == self.ledger_after_issue(old(ledger)@, purpose, entropy, now),
                Err(e) => final(ledger)@ == old(ledger)@ && e != IssueError::StoreUnavailable,
            },
    {
        let entropy: [u8; 128] = match random_bytes::<128>() {
            Some(entropy) => entropy,
            None => return Err(IssueError::EntropyUnavailable),
        };
        let now = unix_now();
        self.issue_at(ledger, user_id, purpose, now, &entropy)
    }

    /// Verifies `token` for `purpose` at the instant `now` against `ledger`,
    /// and spends it: the liveness record of an accepted token is taken from
    /// the store, so that it is found at most once.
    pub fn verify_at(
        &self,
        ledger: &mut MemoryLedger,
        token: &str,
        purpose: Purpose,
        now: i64,
    ) -> (confirmed: Result<ConfirmationToken, VerifyError>)
        ensures
            (confirmed, final(ledger)@) == self.verification(old(ledger)@, token@, purpose, now),
    {
        let pending = match self.begin_verify_at(token, purpose, now) {
            Ok(pending) => pending,
            Err(e) => return Err(e),
        };
        let outcome = ledger.take(pending.store_key(), now);
        pending.complete(outcome)
    }

    /// Verifies `token` for `purpose` at the current time against `ledger`,
    /// and spends it.
    pub fn verify(&self, ledger: &mut MemoryLedger, token: &str, purpose: Purpose) -> (confirmed:
        Result<ConfirmationToken, VerifyError>)
        ensures
            exists|now: i64|
                (confirmed, final(ledger)@) == #[trigger] self.verification(
                    old(ledger)@,
                    token@,
                    purpose,
                    now,
                ),
    {
        let now = unix_now();
        self.verify_at(ledger, token, purpose, now)
    }
}

} // verus!
