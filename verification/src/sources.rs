use vstd::prelude::*;

verus! {

/// A moment in UTC: whole seconds since the Unix epoch and the nanoseconds
/// past that second.
#[derive(Debug, Clone, Copy, PartialEq, Eq, Structural)]
pub struct Timestamp {
    pub secs: i64,
    pub nanos: u32,
}

/// The bits of a UUID that give its version and variant.
pub const UUID_VERSION_VARIANT_MASK: u128 = 0xF000_C000_0000_0000_0000u128;

/// Those bits in a random (version 4, RFC 4122 variant) UUID.
pub const UUID_V4_BITS: u128 = 0x4000_8000_0000_0000_0000u128;

/// The Unix time of the last second `chrono` can represent
/// (`DateTime::<Utc>::MAX_UTC`, December 31 of year 262142).
pub const CLOCK_MAX_SECS: i64 = 8_210_266_876_799;

/// A value the clock can give: between the Unix epoch and chrono's last
/// representable second, with fewer than a billion nanoseconds.
pub open spec fn clock_reading(t: Timestamp) -> bool {
    0 <= t.secs <= CLOCK_MAX_SECS && t.nanos < 1_000_000_000
}

/// Reads the system clock through `chrono::Utc::now`, as whole seconds
/// (`timestamp`) and the sub-second nanoseconds (`timestamp_subsec_nanos`).
/// The source panics on a clock before the Unix epoch and builds the value
/// with `DateTime::from_timestamp(..).unwrap()` from a `Duration`'s seconds
/// and sub-second nanoseconds, so a returned reading lies between the epoch
/// and `MAX_UTC` with fewer than a billion nanoseconds; which moment it is
/// is not claimed.
#[verifier::external_body]
pub(crate) fn clock_now() -> (t: Timestamp)
    ensures
        clock_reading(t),
{
    let now = chrono::Utc::now();
    Timestamp { secs: now.timestamp(), nanos: now.timestamp_subsec_nanos() }
}

/// Draws a fresh UUID with `uuid::Uuid::new_v4` and returns its 128-bit
/// big-endian value (`as_u128`). The source masks a random number so that
/// the version nibble reads 4 and the variant bits read `10`; that is all
/// that is claimed of it.
#[verifier::external_body]
pub(crate) fn random_uuid() -> (id: u128)
    ensures
        id & UUID_VERSION_VARIANT_MASK == UUID_V4_BITS,
{
    uuid::Uuid::new_v4().as_u128()
}

} // verus!
