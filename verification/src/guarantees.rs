//! What the service guarantees, over the model of the store in `Ledger`.
//!
//! Each statement speaks of a token that the service has issued and of the
//! store after its liveness record was written, in the terms in which
//! `issue_at` describes them, and of verifications in the terms in which
//! `verify_at` describes its result: the first step of a verification, the
//! store's answer to the take, the second step.

use crate::claims::{is_well_formed, ConfirmationToken, UserId};
use crate::codec::{sealed_claims_are_read_back, token_claims};
use crate::encoding::{hex_text, hex_text_is_hex};
use crate::service::{ConfirmationTokenService, VerifyError};
use crate::store::{store_key, store_keys_are_separate, Ledger, Purpose};
use vstd::prelude::*;

verus! {

/// The claim set of an issued token is well-formed. The token yields it, and
/// is accepted, at every instant up to its expiry and at none after it.
pub proof fn issued_token_is_read_until_expiry(
    service: ConfirmationTokenService,
    token: Seq<char>,
    user_id: UserId,
    purpose: Purpose,
    entropy: Seq<u8>,
    issued_at: i64,
    now: i64,
)
    requires
        service.issued(token, user_id, purpose, entropy, issued_at),
    ensures
        is_well_formed(service.issued_claims(user_id, purpose, entropy, issued_at)),
        now <= service.expiry(purpose, issued_at) ==> token_claims(
            token,
            service.key(),
            service.associated(),
            now,
        ) == Some(service.issued_claims(user_id, purpose, entropy, issued_at)),
        now > service.expiry(purpose, issued_at) ==> token_claims(
            token,
            service.key(),
            service.associated(),
            now,
        ) is None,
        now <= service.expiry(purpose, issued_at) ==> service.accepted(token, purpose, now)
            == Some((user_id, store_key(purpose, hex_text(entropy)))),
        now > service.expiry(purpose, issued_at) ==> service.accepted(token, purpose, now)
            is None,
{
    hex_text_is_hex(entropy);
    sealed_claims_are_read_back(
        token,
        service.key(),
        service.associated(),
        service.issued_claims(user_id, purpose, entropy, issued_at),
        now,
    );
}

/// Round trip: a token that was issued for a user and a purpose, and whose
/// liveness record was written, verifies for that purpose to that user at
/// any instant before its validity window is over.
pub proof fn issued_token_verifies(
    service: ConfirmationTokenService,
    ledger: Ledger,
    token: Seq<char>,
    user_id: UserId,
    purpose: Purpose,
    entropy: Seq<u8>,
    issued_at: i64,
    verified_at: i64,
)
    requires
        service.issued(token, user_id, purpose, entropy, issued_at),
        verified_at < service.expiry(purpose, issued_at),
    ensures
        service.verification(
            service.ledger_after_issue(ledger, purpose, entropy, issued_at),
            token,
            purpose,
            verified_at,
        ).0 == Ok::<ConfirmationToken, VerifyError>(ConfirmationToken { user_id }),
{
    issued_token_is_read_until_expiry(
        service,
        token,
        user_id,
        purpose,
        entropy,
        issued_at,
        verified_at,
    );
}

/// Single use: after a verification that succeeded, no verification of the
/// same token for the same purpose succeeds. As long as the token is accepted,
/// which it is within its validity window, the verification fails with
/// `AlreadyUsedOrExpired`; once it is no longer accepted, with `InvalidToken`.
pub proof fn verified_token_is_spent(
    service: ConfirmationTokenService,
    ledger: Ledger,
    token: Seq<char>,
    purpose: Purpose,
    first_at: i64,
    second_at: i64,
)
    requires
        service.verification(ledger, token, purpose, first_at).0 is Ok,
    ensures
        ({
            let after = service.verification(ledger, token, purpose, first_at).1;
            let second = service.verification(after, token, purpose, second_at).0;
            second == Err::<ConfirmationToken, VerifyError>(
                if service.accepted(token, purpose, second_at) is Some {
                    VerifyError::AlreadyUsedOrExpired
                } else {
                    VerifyError::InvalidToken
                },
            )
        }),
{
    let first_claims = token_claims(token, service.key(), service.associated(), first_at)->0;
    if token_claims(token, service.key(), service.associated(), second_at) is Some {
        let second_claims = token_claims(token, service.key(), service.associated(), second_at)->0;
        assert(first_claims == second_claims);
    }
}

/// Once the liveness record of a token is gone, every verification in a run
/// fails, with `AlreadyUsedOrExpired` as long as the token has not expired.
proof fn spent_token_stays_spent(
    service: ConfirmationTokenService,
    ledger: Ledger,
    token: Seq<char>,
    purpose: Purpose,
    times: Seq<i64>,
    key: Seq<char>,
    bound: i64,
)
    requires
        !ledger.deadlines.dom().contains(key),
        forall|now: i64|
            now <= bound ==> (#[trigger] token_claims(
                token,
                service.key(),
                service.associated(),
                now,
            ) matches Some(claims) && store_key(purpose, claims.session_key) == key),
        forall|i: int| 0 <= i < times.len() ==> #[trigger] times[i] <= bound,
    ensures
        service.verifications(ledger, token, purpose, times).len() == times.len(),
        forall|i: int|
            0 <= i < times.len() ==> #[trigger] service.verifications(
                ledger,
                token,
                purpose,
                times,
            )[i] == Err::<ConfirmationToken, VerifyError>(VerifyError::AlreadyUsedOrExpired),
    decreases times.len(),
{
    if times.len() > 0 {
        let first = service.verification(ledger, token, purpose, times[0]);
        let rest = times.drop_first();
        assert(times[0] <= bound);
        assert(token_claims(token, service.key(), service.associated(), times[0]) is Some);
        assert forall|i: int| 0 <= i < rest.len() implies #[trigger] rest[i] <= bound by {
            assert(rest[i] == times[i + 1]);
        }
        spent_token_stays_spent(service, first.1, token, purpose, rest, key, bound);
        let all = service.verifications(ledger, token, purpose, times);
        assert forall|i: int| 0 <= i < times.len() implies #[trigger] all[i] == Err::<
            ConfirmationToken,
            VerifyError,
        >(VerifyError::AlreadyUsedOrExpired) by {
            if i > 0 {
                assert(all[i] == service.verifications(first.1, token, purpose, rest)[i - 1]);
            }
        }
    }
}

/// Concurrent single use: of any number of verifications of a freshly issued
/// token within its validity window, exactly one succeeds, and each of the
/// others fails with `AlreadyUsedOrExpired`. The store serves the takes one
/// after the other, so the verifications form a run; the one that succeeds
/// is the one whose take the store serves first.
pub proof fn one_of_many_verifications_succeeds(
    service: ConfirmationTokenService,
    ledger: Ledger,
    token: Seq<char>,
    user_id: UserId,
    purpose: Purpose,
    entropy: Seq<u8>,
    issued_at: i64,
    times: Seq<i64>,
)
    requires
        service.issued(token, user_id, purpose, entropy, issued_at),
        times.len() >= 1,
        forall|i: int|
            0 <= i < times.len() ==> #[trigger] times[i] < service.expiry(purpose, issued_at),
    ensures
        ({
            let written = service.ledger_after_issue(ledger, purpose, entropy, issued_at);
            let all = service.verifications(written, token, purpose, times);
            &&& all.len() == times.len()
            &&& all[0] == Ok::<ConfirmationToken, VerifyError>(ConfirmationToken { user_id })
            &&& forall|i: int|
                1 <= i < times.len() ==> #[trigger] all[i] == Err::<
                    ConfirmationToken,
                    VerifyError,
                >(VerifyError::AlreadyUsedOrExpired)
        }),
{
    let key = store_key(purpose, hex_text(entropy));
    let written = service.ledger_after_issue(ledger, purpose, entropy, issued_at);
    let first = service.verification(written, token, purpose, times[0]);
    let rest = times.drop_first();
    let bound = (service.expiry(purpose, issued_at) - 1) as i64;
    issued_token_verifies(service, ledger, token, user_id, purpose, entropy, issued_at, times[0]);
    issued_token_is_read_until_expiry(
        service,
        token,
        user_id,
        purpose,
        entropy,
        issued_at,
        times[0],
    );
    assert forall|now: i64| now <= bound implies (#[trigger] token_claims(
        token,
        service.key(),
        service.associated(),
        now,
    ) matches Some(claims) && store_key(purpose, claims.session_key) == key) by {
        issued_token_is_read_until_expiry(
            service,
            token,
            user_id,
            purpose,
            entropy,
            issued_at,
            now,
        );
    }
    assert forall|i: int| 0 <= i < rest.len() implies #[trigger] rest[i] <= bound by {
        assert(rest[i] == times[i + 1]);
    }
    spent_token_stays_spent(service, first.1, token, purpose, rest, key, bound);
    let all = service.verifications(written, token, purpose, times);
    assert forall|i: int| 1 <= i < times.len() implies #[trigger] all[i] == Err::<
        ConfirmationToken,
        VerifyError,
    >(VerifyError::AlreadyUsedOrExpired) by {
        assert(all[i] == service.verifications(first.1, token, purpose, rest)[i - 1]);
    }
}

/// Expiry: once its validity window is over, an issued token does not
/// verify, and the outside is told what it is told of a used token. After
/// the expiry the claim set is refused; at the expiry itself the liveness
/// record has lapsed.
pub proof fn expired_token_is_rejected(
    service: ConfirmationTokenService,
    ledger: Ledger,
    token: Seq<char>,
    user_id: UserId,
    purpose: Purpose,
    entropy: Seq<u8>,
    issued_at: i64,
    verified_at: i64,
)
    requires
        service.issued(token, user_id, purpose, entropy, issued_at),
        verified_at >= service.expiry(purpose, issued_at),
    ensures
        ({
            let written = service.ledger_after_issue(ledger, purpose, entropy, issued_at);
            let outcome = service.verification(written, token, purpose, verified_at).0;
            &&& outcome matches Err(e) && e.signal() == VerifyError::AlreadyUsedOrExpired.signal()
            &&& verified_at > service.expiry(purpose, issued_at) ==> service.verification(
                ledger,
                token,
                purpose,
                verified_at,
            ).0 == Err::<ConfirmationToken, VerifyError>(VerifyError::InvalidToken)
        }),
{
    issued_token_is_read_until_expiry(
        service,
        token,
        user_id,
        purpose,
        entropy,
        issued_at,
        verified_at,
    );
}

/// No token verifies to a user by accident: a verification succeeds only for
/// a token that opens under the service's secrets to a claim set that has not
/// expired, names that user, and whose liveness record was in the store. So a
/// string that is no such token, however it was made, is refused and names
/// nobody.
pub proof fn verified_user_is_named_by_the_token(
    service: ConfirmationTokenService,
    ledger: Ledger,
    token: Seq<char>,
    purpose: Purpose,
    now: i64,
)
    ensures
        service.verification(ledger, token, purpose, now).0 matches Ok(confirmed) ==> (
        token_claims(token, service.key(), service.associated(), now) matches Some(claims)
            && claims.user_id == confirmed.user_id && now <= claims.expiration && ledger.is_live(
            store_key(purpose, claims.session_key),
            now as int,
        )),
        token_claims(token, service.key(), service.associated(), now) is None
            ==> service.verification(ledger, token, purpose, now) == (
            Err::<ConfirmationToken, VerifyError>(VerifyError::InvalidToken),
            ledger,
        ),
{
}

/// The purposes do not interfere: verifying a token for one purpose neither
/// finds nor removes the liveness record that was written for another, so a
/// token verifies only for the purpose it was issued for, and is still good
/// for that purpose afterwards.
pub proof fn purposes_do_not_interfere(
    service: ConfirmationTokenService,
    ledger: Ledger,
    token: Seq<char>,
    user_id: UserId,
    issued_for: Purpose,
    verified_for: Purpose,
    entropy: Seq<u8>,
    issued_at: i64,
    verified_at: i64,
)
    requires
        service.issued(token, user_id, issued_for, entropy, issued_at),
        issued_for != verified_for,
        verified_at <= service.expiry(issued_for, issued_at),
        !ledger.deadlines.dom().contains(store_key(verified_for, hex_text(entropy))),
    ensures
        ({
            let own_key = store_key(issued_for, hex_text(entropy));
            let written = service.ledger_after_issue(ledger, issued_for, entropy, issued_at);
            let crossed = service.verification(written, token, verified_for, verified_at);
            &&& crossed.0 == Err::<ConfirmationToken, VerifyError>(
                VerifyError::AlreadyUsedOrExpired,
            )
            &&& crossed.1.deadlines.dom().contains(own_key)
            &&& crossed.1.deadlines[own_key] == written.deadlines[own_key]
        }),
{
    let own_key = store_key(issued_for, hex_text(entropy));
    let other_key = store_key(verified_for, hex_text(entropy));
    issued_token_is_read_until_expiry(
        service,
        token,
        user_id,
        issued_for,
        entropy,
        issued_at,
        verified_at,
    );
    if own_key == other_key {
        store_keys_are_separate(issued_for, hex_text(entropy), verified_for, hex_text(entropy));
    }
}

} // verus!
