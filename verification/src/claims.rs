//! The claim set that a token carries, and its text inside the token.
//!
//! A claim set has exactly three fields: the user, the session key and the
//! expiry. Its text is a JSON object of a fixed shape, in which every value is
//! a string of lowercase hexadecimal digits of a fixed length:
//!
//! ```text
//! {"user_id":"<32 digits>","session_key":"<256 digits>","expiration":"<16 digits>"}
//! ```
//!
//! Decoding accepts the texts of well-formed claim sets and nothing else, so a
//! text with a missing, an unknown or a malformed field is rejected.

use crate::encoding::{
    hex_digits, hex_digits_are_hex, hex_digits_injective, hex_digits_of_value, hex_encode,
    hex_number, hex_text, hex_text_is_hex, is_digit_char, is_hex, is_hex_text, parse_hex,
    sixteen_pow_of_widths,
};
use vstd::prelude::*;
use vstd::string::*;
use vstd::utf8::*;

verus! {

/// The 128-bit identifier of a user.
#[derive(Clone, Copy, Debug, PartialEq, Eq, Structural)]
pub struct UserId(pub u128);

/// What a successful verification hands back: the user the token was issued
/// for.
#[derive(Clone, Copy, Debug, PartialEq, Eq, Structural)]
pub struct ConfirmationToken {
    pub user_id: UserId,
}

/// The claim set inside a token: the user the token was issued for, the
/// random key under which its liveness record is stored, and the last instant
/// at which it is accepted, in seconds since the Unix epoch.
///
/// A value of this type always has a session key of the right form, so every
/// claim set can be written as text and read back.
#[derive(Debug)]
pub struct Claims {
    user_id: UserId,
    session_key: String,
    expiration: i64,
}

/// The mathematical value of a claim set.
pub struct ClaimsView {
    pub user_id: UserId,
    pub session_key: Seq<char>,
    pub expiration: i64,
}

impl View for Claims {
    type V = ClaimsView;

    closed spec fn view(&self) -> ClaimsView {
        ClaimsView {
            user_id: self.user_id,
            session_key: self.session_key@,
            expiration: self.expiration,
        }
    }
}

impl Claims {
    #[verifier::type_invariant]
    spec fn well_formed(self) -> bool {
        is_session_key(self.session_key@)
    }

    /// A claim set with the given fields, if `session_key` has the form of a
    /// session key.
    pub fn new(user_id: UserId, session_key: String, expiration: i64) -> (claims: Option<Claims>)
        ensures
            match claims {
                Some(c) => is_session_key(session_key@) && c@ == (ClaimsView {
                    user_id,
                    session_key: session_key@,
                    expiration,
                }),
                None => !is_session_key(session_key@),
            },
    {
        let text = session_key.as_str();
        if !is_hex(text) {
            return None;
        }
        proof {
            hex_text_is_ascii(text@);
            is_ascii_spec_bytes(text);
        }
        if text.as_bytes().len() != SESSION_KEY_CHARS {
            return None;
        }
        Some(Claims { user_id, session_key, expiration })
    }

    /// A claim set for `user_id` that expires at `expiration`, with the
    /// session key made of `entropy`: its text in hexadecimal digits.
    pub fn with_entropy(user_id: UserId, entropy: &[u8; 128], expiration: i64) -> (claims: Claims)
        ensures
            claims@ == (ClaimsView { user_id, session_key: hex_text(entropy@), expiration }),
            is_well_formed(claims@),
    {
        proof {
            hex_text_is_hex(entropy@);
        }
        Claims { user_id, session_key: hex_encode(entropy.as_slice()), expiration }
    }

    /// The user the token was issued for.
    pub fn user_id(&self) -> (user_id: UserId)
        ensures
            user_id == self@.user_id,
    {
        self.user_id
    }

    /// The key under which the token's liveness record is stored.
    pub fn session_key(&self) -> (key: &str)
        ensures
            key@ == self@.session_key,
            is_session_key(key@),
    {
        proof {
            use_type_invariant(self);
        }
        self.session_key.as_str()
    }

    /// The last instant at which the token is accepted, in seconds since the
    /// Unix epoch.
    pub fn expiration(&self) -> (expiration: i64)
        ensures
            expiration == self@.expiration,
    {
        self.expiration
    }
}

/// The number of random bytes in a session key.
pub const SESSION_KEY_BYTES: usize = 128;

/// The number of characters of a session key: two digits for each byte.
pub const SESSION_KEY_CHARS: usize = 256;

/// The number of characters of the text of a claim set.
pub const PAYLOAD_CHARS: usize = 351;

/// Whether `key` has the form of a session key.
pub open spec fn is_session_key(key: Seq<char>) -> bool {
    key.len() == SESSION_KEY_CHARS && is_hex_text(key)
}

/// Whether a claim set can be carried in a token.
pub open spec fn is_well_formed(claims: ClaimsView) -> bool {
    is_session_key(claims.session_key)
}

/// The 64-bit word that stands for an expiry: the two's complement of the
/// number of seconds.
pub open spec fn expiration_word(expiration: i64) -> nat {
    if expiration >= 0 {
        expiration as nat
    } else {
        (expiration + 0x1_0000_0000_0000_0000) as nat
    }
}

/// What the text begins with, up to the digits of the user.
pub open spec fn opening_text() -> Seq<char> {
    "{\"user_id\":\""@
}

/// What stands between the digits of the user and the session key.
pub open spec fn session_key_label() -> Seq<char> {
    "\",\"session_key\":\""@
}

/// What stands between the session key and the digits of the expiry.
pub open spec fn expiration_label() -> Seq<char> {
    "\",\"expiration\":\""@
}

/// What the text ends with, after the digits of the expiry.
pub open spec fn closing_text() -> Seq<char> {
    "\"}"@
}

/// The text of a claim set.
pub open spec fn claims_payload(claims: ClaimsView) -> Seq<char> {
    opening_text() + hex_digits(claims.user_id.0 as nat, 32) + session_key_label()
        + claims.session_key + expiration_label() + hex_digits(
        expiration_word(claims.expiration),
        16,
    ) + closing_text()
}

/// The claim set that a text stands for: the well-formed claim set whose text
/// it is, if there is one.
pub open spec fn payload_claims(payload: Seq<char>) -> Option<ClaimsView> {
    if exists|c: ClaimsView| is_well_formed(c) && claims_payload(c) == payload {
        Some(choose|c: ClaimsView| is_well_formed(c) && claims_payload(c) == payload)
    } else {
        None
    }
}

/// The fixed parts of the text: their lengths, and that they are ASCII.
pub proof fn label_texts()
    ensures
        opening_text().len() == 12,
        session_key_label().len() == 17,
        expiration_label().len() == 16,
        closing_text().len() == 2,
        is_ascii_chars(opening_text()),
        is_ascii_chars(session_key_label()),
        is_ascii_chars(expiration_label()),
        is_ascii_chars(closing_text()),
{
    reveal_strlit("{\"user_id\":\"");
    reveal_strlit("\",\"session_key\":\"");
    reveal_strlit("\",\"expiration\":\"");
    reveal_strlit("\"}");
}

/// A text of hexadecimal digits is ASCII.
pub proof fn hex_text_is_ascii(s: Seq<char>)
    requires
        is_hex_text(s),
    ensures
        is_ascii_chars(s),
{
    assert forall|i: int| 0 <= i < s.len() implies '\0' <= #[trigger] s[i] <= '\u{7f}' by {
        assert(is_digit_char(s[i]));
    }
}

/// Where each field stands in the text of a well-formed claim set.
pub proof fn payload_layout(claims: ClaimsView)
    requires
        is_well_formed(claims),
    ensures
        claims_payload(claims).len() == PAYLOAD_CHARS,
        is_ascii_chars(claims_payload(claims)),
        claims_payload(claims).subrange(0, 12) == opening_text(),
        claims_payload(claims).subrange(12, 44) == hex_digits(claims.user_id.0 as nat, 32),
        claims_payload(claims).subrange(44, 61) == session_key_label(),
        claims_payload(claims).subrange(61, 317) == claims.session_key,
        claims_payload(claims).subrange(317, 333) == expiration_label(),
        claims_payload(claims).subrange(333, 349) == hex_digits(
            expiration_word(claims.expiration),
            16,
        ),
        claims_payload(claims).subrange(349, 351) == closing_text(),
{
    let p = claims_payload(claims);
    let user = hex_digits(claims.user_id.0 as nat, 32);
    let expiry = hex_digits(expiration_word(claims.expiration), 16);
    label_texts();
    hex_digits_are_hex(claims.user_id.0 as nat, 32);
    hex_digits_are_hex(expiration_word(claims.expiration), 16);
    hex_text_is_ascii(user);
    hex_text_is_ascii(expiry);
    hex_text_is_ascii(claims.session_key);
    assert(p.len() == 351);
    assert(p.subrange(0, 12) =~= opening_text());
    assert(p.subrange(12, 44) =~= user);
    assert(p.subrange(44, 61) =~= session_key_label());
    assert(p.subrange(61, 317) =~= claims.session_key);
    assert(p.subrange(317, 333) =~= expiration_label());
    assert(p.subrange(333, 349) =~= expiry);
    assert(p.subrange(349, 351) =~= closing_text());
    assert forall|i: int| 0 <= i < p.len() implies '\0' <= #[trigger] p[i] <= '\u{7f}' by {
        if i < 12 {
            assert(p[i] == opening_text()[i]);
        } else if i < 44 {
            assert(p[i] == user[i - 12]);
        } else if i < 61 {
            assert(p[i] == session_key_label()[i - 44]);
        } else if i < 317 {
            assert(p[i] == claims.session_key[i - 61]);
        } else if i < 333 {
            assert(p[i] == expiration_label()[i - 317]);
        } else if i < 349 {
            assert(p[i] == expiry[i - 333]);
        } else {
            assert(p[i] == closing_text()[i - 349]);
        }
    }
}

/// Two well-formed claim sets with the same text are the same claim set.
pub proof fn claims_payload_injective(a: ClaimsView, b: ClaimsView)
    requires
        is_well_formed(a),
        is_well_formed(b),
        claims_payload(a) == claims_payload(b),
    ensures
        a == b,
{
    payload_layout(a);
    payload_layout(b);
    sixteen_pow_of_widths();
    hex_digits_injective(a.user_id.0 as nat, b.user_id.0 as nat, 32);
    hex_digits_injective(expiration_word(a.expiration), expiration_word(b.expiration), 16);
}

/// Decoding the text of a well-formed claim set gives the claim set back.
pub proof fn payload_round_trip(claims: ClaimsView)
    requires
        is_well_formed(claims),
    ensures
        payload_claims(claims_payload(claims)) == Some(claims),
{
    let p = claims_payload(claims);
    let found = choose|c: ClaimsView| is_well_formed(c) && claims_payload(c) == p;
    claims_payload_injective(found, claims);
}

fn expiration_to_word(expiration: i64) -> (word: u128)
    ensures
        word as nat == expiration_word(expiration),
        word < 0x1_0000_0000_0000_0000,
{
    if expiration >= 0 {
        expiration as u128
    } else {
        (expiration as i128 + 0x1_0000_0000_0000_0000) as u128
    }
}

fn word_to_expiration(word: u128) -> (expiration: i64)
    requires
        word < 0x1_0000_0000_0000_0000,
    ensures
        expiration_word(expiration) == word as nat,
{
    if word < 0x8000_0000_0000_0000 {
        word as i64
    } else {
        (word as i128 - 0x1_0000_0000_0000_0000) as i64
    }
}

fn same_text(a: &str, b: &str) -> (same: bool)
    ensures
        same == (a@ == b@),
{
    let left = String::from_str(a);
    let right = String::from_str(b);
    left == right
}

/// Writes a claim set as text.
pub fn encode_claims(claims: &Claims) -> (payload: String)
    ensures
        payload@ == claims_payload(claims@),
        payload_claims(payload@) == Some(claims@),
        is_well_formed(claims@),
{
    proof {
        use_type_invariant(claims);
        payload_round_trip(claims@);
    }
    let user = hex_number(claims.user_id.0, 32);
    let expiry = hex_number(expiration_to_word(claims.expiration), 16);
    let mut payload = String::from_str("{\"user_id\":\"");
    payload.append(user.as_str());
    payload.append("\",\"session_key\":\"");
    payload.append(claims.session_key.as_str());
    payload.append("\",\"expiration\":\"");
    payload.append(expiry.as_str());
    payload.append("\"}");
    assert(payload@ =~= claims_payload(claims@));
    payload
}

/// Reads a claim set from its text. A text that is not the text of a
/// well-formed claim set is rejected.
pub fn decode_claims(payload: &str) -> (claims: Option<Claims>)
    ensures
        match claims {
            Some(c) => payload_claims(payload@) == Some(c@) && is_well_formed(c@),
            None => payload_claims(payload@) is None,
        },
{
    proof {
        label_texts();
        if exists|c: ClaimsView| is_well_formed(c) && claims_payload(c) == payload@ {
            let c = choose|c: ClaimsView| is_well_formed(c) && claims_payload(c) == payload@;
            payload_layout(c);
        }
    }
    if !payload.is_ascii() {
        return None;
    }
    proof {
        is_ascii_spec_bytes(payload);
    }
    if payload.as_bytes().len() != PAYLOAD_CHARS {
        return None;
    }
    if !same_text(payload.substring_ascii(0, 12), "{\"user_id\":\"") {
        return None;
    }
    if !same_text(payload.substring_ascii(44, 61), "\",\"session_key\":\"") {
        return None;
    }
    if !same_text(payload.substring_ascii(317, 333), "\",\"expiration\":\"") {
        return None;
    }
    if !same_text(payload.substring_ascii(349, 351), "\"}") {
        return None;
    }
    let session_text = payload.substring_ascii(61, 317);
    if !is_hex(session_text) {
        proof {
            if exists|c: ClaimsView| is_well_formed(c) && claims_payload(c) == payload@ {
                let c = choose|c: ClaimsView| is_well_formed(c) && claims_payload(c) == payload@;
                assert(is_hex_text(c.session_key));
            }
        }
        return None;
    }
    let user_text = payload.substring_ascii(12, 44);
    let user: u128 = match parse_hex(user_text) {
        Some(v) => v,
        None => {
            proof {
                if exists|c: ClaimsView| is_well_formed(c) && claims_payload(c) == payload@ {
                    let c = choose|c: ClaimsView|
                        is_well_formed(c) && claims_payload(c) == payload@;
                    hex_digits_are_hex(c.user_id.0 as nat, 32);
                }
            }
            return None;
        },
    };
    let expiry_text = payload.substring_ascii(333, 349);
    let word: u128 = match parse_hex(expiry_text) {
        Some(v) => v,
        None => {
            proof {
                if exists|c: ClaimsView| is_well_formed(c) && claims_payload(c) == payload@ {
                    let c = choose|c: ClaimsView|
                        is_well_formed(c) && claims_payload(c) == payload@;
                    hex_digits_are_hex(expiration_word(c.expiration), 16);
                }
            }
            return None;
        },
    };
    proof {
        hex_digits_of_value(user_text@);
        hex_digits_of_value(expiry_text@);
        sixteen_pow_of_widths();
    }
    let claims = Claims {
        user_id: UserId(user),
        session_key: String::from_str(session_text),
        expiration: word_to_expiration(word),
    };
    proof {
        let p = payload@;
        let q = claims_payload(claims@);
        assert(is_well_formed(claims@));
        assert(q =~= p) by {
            payload_layout(claims@);
            assert forall|i: int| 0 <= i < 351 implies q[i] == p[i] by {
                if i < 12 {
                    assert(q.subrange(0, 12)[i] == p.subrange(0, 12)[i]);
                } else if i < 44 {
                    assert(q.subrange(12, 44)[i - 12] == p.subrange(12, 44)[i - 12]);
                } else if i < 61 {
                    assert(q.subrange(44, 61)[i - 44] == p.subrange(44, 61)[i - 44]);
                } else if i < 317 {
                    assert(q.subrange(61, 317)[i - 61] == p.subrange(61, 317)[i - 61]);
                } else if i < 333 {
                    assert(q.subrange(317, 333)[i - 317] == p.subrange(317, 333)[i - 317]);
                } else if i < 349 {
                    assert(q.subrange(333, 349)[i - 333] == p.subrange(333, 349)[i - 333]);
                } else {
                    assert(q.subrange(349, 351)[i - 349] == p.subrange(349, 351)[i - 349]);
                }
            }
        }
        payload_round_trip(claims@);
    }
    Some(claims)
}

} // verus!
