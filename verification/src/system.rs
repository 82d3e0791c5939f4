//! What the library takes from the machine it runs on: the time and random
//! bytes.

use vstd::prelude::*;

verus! {

/// `chrono::DateTime::timestamp` of the `chrono::DateTime<Utc>` that chrono
/// makes of `std::time::SystemTime::now`: the current time in whole seconds
/// since the Unix epoch, negative where the clock stands before it. The value
/// depends on the machine's clock, so nothing is stated of it.
#[verifier::external_body]
pub(crate) fn unix_now() -> i64 {
    chrono::DateTime::<chrono::Utc>::from(std::time::SystemTime::now()).timestamp()
}

/// `rand_core::RngCore::try_fill_bytes` on `OsRng`: `N` bytes from the
/// operating system's random source, or nothing if the source fails. The
/// bytes depend on chance, so nothing is stated of them.
#[verifier::external_body]
pub(crate) fn random_bytes<const N: usize>() -> Option<[u8; N]> {
    let mut bytes = [0u8; N];
    match argon2::password_hash::rand_core::RngCore::try_fill_bytes(
        &mut argon2::password_hash::rand_core::OsRng,
        &mut bytes,
    ) {
        Ok(()) => Some(bytes),
        Err(_) => None,
    }
}

} // verus!
