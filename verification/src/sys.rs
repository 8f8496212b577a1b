//! Trusted wrappers over the system clock and UUID generation.
//!
//! Both results depend on the machine's state at the moment of the
//! call, so neither wrapper promises anything of its value; every
//! function that consumes one is verified for every value it could
//! take.

use vstd::prelude::*;

verus! {

/// Relies on chrono's `Local::now`, read out with
/// `DateTime::timestamp` as whole seconds since the Unix epoch.
/// Nothing can be promised of the clock's value.
#[verifier::external_body]
pub(crate) fn local_now_seconds() -> i64 {
    chrono::Local::now().timestamp()
}

/// Relies on uuid's `Uuid::new_v4`, read out with `Uuid::as_u128`:
/// draws a fresh random version-4 UUID. Nothing can be promised of a
/// random value.
#[verifier::external_body]
pub(crate) fn new_uuid_value() -> u128 {
    uuid::Uuid::new_v4().as_u128()
}

} // verus!
