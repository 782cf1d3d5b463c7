//! Trusted bindings to platform facilities: identifier generation and the
//! clock. Their results depend on randomness or the machine, so their
//! contracts promise nothing about the values; every caller states what
//! holds of its own result whatever these return.

use vstd::prelude::*;

verus! {

/// Relies on `uuid::Uuid::new_v4` and `Uuid::as_u128`: a freshly drawn
/// random 128-bit identifier. Nothing can be promised of a random value.
#[verifier::external_body]
pub(crate) fn fresh_id() -> u128 {
    uuid::Uuid::new_v4().as_u128()
}

/// Relies on `std::time::SystemTime::now` and `duration_since`: whole
/// seconds since the Unix epoch, or zero should the clock lie before it.
#[verifier::external_body]
pub(crate) fn unix_now_secs() -> u64 {
    match std::time::SystemTime::now().duration_since(std::time::UNIX_EPOCH) {
        Ok(d) => d.as_secs(),
        Err(_) => 0,
    }
}

/// Relies on `std::time::SystemTime::now` and `duration_since`: whole
/// milliseconds since the Unix epoch (truncated to 64 bits), or zero
/// should the clock lie before it.
#[verifier::external_body]
pub(crate) fn unix_now_millis() -> u64 {
    match std::time::SystemTime::now().duration_since(std::time::UNIX_EPOCH) {
        Ok(d) => d.as_millis() as u64,
        Err(_) => 0,
    }
}

/// Relies on `std::time::SystemTime::now` and `duration_since`: whole
/// microseconds since the Unix epoch (truncated to 64 bits), or zero
/// should the clock lie before it.
#[verifier::external_body]
pub(crate) fn unix_now_micros() -> u64 {
    match std::time::SystemTime::now().duration_since(std::time::UNIX_EPOCH) {
        Ok(d) => d.as_micros() as u64,
        Err(_) => 0,
    }
}

/// Relies on `num_cpus::get`: the number of logical processors this
/// process may use. The value depends on the machine and the scheduler.
#[verifier::external_body]
pub(crate) fn cpu_count() -> usize {
    num_cpus::get()
}

} // verus!
