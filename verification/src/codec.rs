//! The token codec: a claim set in an authenticated, encrypted envelope.
//!
//! A token is a PASETO `v4.local` string. Its payload is the text of the claim
//! set; the associated secret is bound to the token as its implicit
//! assertion, which is authenticated and not encrypted. The envelope itself is
//! the work of the `pasetors` crate; what this module proves rests on the two
//! functions below that call it.

use crate::claims::{
    claims_payload, decode_claims, encode_claims, is_well_formed, payload_claims,
    payload_round_trip, Claims, ClaimsView,
};
use crate::system::unix_now;
use vstd::prelude::*;

verus! {

/// The number of bytes of a secret key.
pub const SECRET_KEY_BYTES: usize = 32;

/// The payload that `pasetors::version4::LocalToken::decrypt` recovers from
/// the token string `token` under the key `key` and the implicit assertion
/// `assertion`; nothing where it rejects the token, the token is not a
/// `v4.local` token, or `key` is not a key.
pub uninterp spec fn opened_payload(token: Seq<char>, key: Seq<u8>, assertion: Seq<u8>) -> Option<
    Seq<char>,
>;

/// `pasetors::version4::LocalToken::encrypt`, on the key that
/// `pasetors::keys::SymmetricKey::from` makes of `key`, with no footer and
/// with `assertion` as the implicit assertion. The token differs from call to
/// call, since a fresh nonce goes into it. What is claimed of it: decrypting
/// it under the same key and assertion recovers `payload`.
#[verifier::external_body]
fn seal_local(key: &[u8], payload: &str, assertion: &[u8]) -> (token: Option<String>)
    ensures
        token matches Some(t) ==> opened_payload(t@, key@, assertion@) == Some(payload@),
{
    let key = match pasetors::keys::SymmetricKey::<pasetors::version4::V4>::from(key) {
        Ok(key) => key,
        Err(_) => return None,
    };
    match pasetors::version4::LocalToken::encrypt(&key, payload.as_bytes(), None, Some(assertion)) {
        Ok(token) => Some(token),
        Err(_) => None,
    }
}

/// `pasetors::version4::LocalToken::decrypt`, on the key that
/// `pasetors::keys::SymmetricKey::from` makes of `key` and the token that
/// `pasetors::token::UntrustedToken::try_from` parses from `token`, with no
/// expected footer and with `assertion` as the implicit assertion. The result
/// depends on the three arguments alone; it is what `opened_payload` names.
#[verifier::external_body]
fn open_local(key: &[u8], token: &str, assertion: &[u8]) -> (payload: Option<String>)
    ensures
        match payload {
            Some(p) => opened_payload(token@, key@, assertion@) == Some(p@),
            None => opened_payload(token@, key@, assertion@) is None,
        },
{
    let key = pasetors::keys::SymmetricKey::<pasetors::version4::V4>::from(key).ok()?;
    let untrusted = pasetors::token::UntrustedToken::<
        pasetors::token::Local,
        pasetors::version4::V4,
    >::try_from(token).ok()?;
    let trusted = pasetors::version4::LocalToken::decrypt(&key, &untrusted, None, Some(assertion))
        .ok()?;
    Some(trusted.payload().to_string())
}

/// Why a claim set could not be encrypted.
#[derive(Clone, Copy, Debug, PartialEq, Eq, Structural)]
pub enum EncryptError {
    /// The secret key does not have the length of a key. This is an error of
    /// configuration, not of the request.
    MalformedKey,
    /// The encryption primitive failed.
    SealingFailed,
}

/// The one outward signal for a token that is not accepted: malformed,
/// forged, tampered with, or expired.
#[derive(Clone, Copy, Debug, PartialEq, Eq, Structural)]
pub struct InvalidToken;

/// The claim set that an opened payload yields at the instant `now`: the
/// payload must be the text of a claim set that has not expired.
pub open spec fn accepted_claims(opened: Option<Seq<char>>, now: i64) -> Option<ClaimsView> {
    match opened {
        None => None,
        Some(payload) => match payload_claims(payload) {
            None => None,
            Some(claims) => if now > claims.expiration {
                None
            } else {
                Some(claims)
            },
        },
    }
}

/// The claim set that a token yields under a key and an associated secret at
/// the instant `now`, if the token is accepted.
pub open spec fn token_claims(
    token: Seq<char>,
    secret_key: Seq<u8>,
    associated_secret: Seq<u8>,
    now: i64,
) -> Option<ClaimsView> {
    accepted_claims(opened_payload(token, secret_key, associated_secret), now)
}

/// Encrypts a claim set into a token.
///
/// A key of the wrong length is refused. Otherwise the token, if one is made,
/// opens under the same key and associated secret to the text of `claims`.
pub fn encrypt(claims: &Claims, secret_key: &[u8], associated_secret: &[u8]) -> (token: Result<
    String,
    EncryptError,
>)
    ensures
        match token {
            Ok(t) => secret_key@.len() == SECRET_KEY_BYTES && opened_payload(
                t@,
                secret_key@,
                associated_secret@,
            ) == Some(claims_payload(claims@)),
            Err(EncryptError::MalformedKey) => secret_key@.len() != SECRET_KEY_BYTES,
            Err(EncryptError::SealingFailed) => secret_key@.len() == SECRET_KEY_BYTES,
        },
{
    if secret_key.len() != SECRET_KEY_BYTES {
        return Err(EncryptError::MalformedKey);
    }
    let payload = encode_claims(claims);
    match seal_local(secret_key, payload.as_str(), associated_secret) {
        Some(token) => Ok(token),
        None => Err(EncryptError::SealingFailed),
    }
}

/// Decides on an opened payload at the instant `now`: the claim set it
/// holds, or `InvalidToken` where nothing was opened, the payload is not the
/// text of a claim set, or the claim set has expired.
pub fn validate_payload(opened: Option<String>, now: i64) -> (claims: Result<Claims, InvalidToken>)
    ensures
        match claims {
            Ok(c) => accepted_claims(
                match opened {
                    Some(p) => Some(p@),
                    None => None,
                },
                now,
            ) == Some(c@) && is_well_formed(c@),
            Err(_) => accepted_claims(
                match opened {
                    Some(p) => Some(p@),
                    None => None,
                },
                now,
            ) is None,
        },
{
    let payload = match opened {
        Some(payload) => payload,
        None => return Err(InvalidToken),
    };
    let claims = match decode_claims(payload.as_str()) {
        Some(claims) => claims,
        None => return Err(InvalidToken),
    };
    if now > claims.expiration() {
        return Err(InvalidToken);
    }
    Ok(claims)
}

/// Decrypts and validates a token at the instant `now`.
///
/// Every failure gives the same `InvalidToken`: a malformed string, a failed
/// authentication, a payload that is not a claim set, an expired claim set.
pub fn decrypt_at(token: &str, secret_key: &[u8], associated_secret: &[u8], now: i64) -> (claims:
    Result<Claims, InvalidToken>)
    ensures
        match claims {
            Ok(c) => token_claims(token@, secret_key@, associated_secret@, now) == Some(c@)
                && is_well_formed(c@),
            Err(_) => token_claims(token@, secret_key@, associated_secret@, now) is None,
        },
{
    validate_payload(open_local(secret_key, token, associated_secret), now)
}

/// Decrypts and validates a token at the current time.
///
/// The outcome is the one of `decrypt_at` at some instant; which instant is
/// for the clock to say.
pub fn decrypt(token: &str, secret_key: &[u8], associated_secret: &[u8]) -> (claims: Result<
    Claims,
    InvalidToken,
>)
    ensures
        exists|now: i64|
            match claims {
                Ok(c) => #[trigger] token_claims(token@, secret_key@, associated_secret@, now)
                    == Some(c@) && is_well_formed(c@),
                Err(_) => token_claims(token@, secret_key@, associated_secret@, now) is None,
            },
{
    let now = unix_now();
    decrypt_at(token, secret_key, associated_secret, now)
}

/// A token that opens to the text of a well-formed claim set yields that claim
/// set at every instant up to its expiry, and nothing after it.
pub proof fn sealed_claims_are_read_back(
    token: Seq<char>,
    secret_key: Seq<u8>,
    associated_secret: Seq<u8>,
    claims: ClaimsView,
    now: i64,
)
    requires
        is_well_formed(claims),
        opened_payload(token, secret_key, associated_secret) == Some(claims_payload(claims)),
    ensures
        now <= claims.expiration ==> token_claims(token, secret_key, associated_secret, now)
            == Some(claims),
        now > claims.expiration ==> token_claims(token, secret_key, associated_secret, now)
            is None,
{
    payload_round_trip(claims);
}

} // verus!
