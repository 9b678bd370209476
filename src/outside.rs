//! Calls into std and outside crates that the library relies on, each with the
//! contract the library assumes of it.
use vstd::prelude::*;

verus! {

/// What `str::parse::<u16>` yields on a text: the port number it denotes, if any.
pub uninterp spec fn port_number_of(s: Seq<char>) -> Option<u16>;

/// Relies on `str::parse::<u16>`: its outcome depends on the text alone.
#[verifier::external_body]
pub(crate) fn port_number(s: &str) -> (r: Option<u16>)
    ensures
        r == port_number_of(s@),
{
    s.parse::<u16>().ok()
}

/// Relies on uuid's `Uuid::new_v4` and `Uuid::as_u128`: a fresh random identifier,
/// read as one big-endian 128-bit value, with the version-4 and variant bits set.
#[verifier::external_body]
pub(crate) fn new_id() -> (r: u128)
    ensures
        r & 0xF000_C000_0000_0000_0000 == 0x4000_8000_0000_0000_0000,
{
    uuid::Uuid::new_v4().as_u128()
}

/// Relies on chrono's `Utc::now` and `DateTime::timestamp_millis`: the current instant
/// in milliseconds since the Unix epoch. It panics on a system clock set before 1970.
#[verifier::external_body]
pub(crate) fn now_millis() -> (r: i64) {
    chrono::Utc::now().timestamp_millis()
}

/// What `Decimal::from_str_exact` reads from a text, as (mantissa, scale): the number
/// mantissa × 10^(−scale), or nothing when the text is not a decimal it can hold exactly.
pub uninterp spec fn decimal_parts_of(s: Seq<char>) -> Option<(i128, u32)>;

/// Relies on rust_decimal's `Decimal::from_str_exact`, `Decimal::mantissa` and
/// `Decimal::scale`: the text's exact value as (mantissa, scale); the outcome depends
/// on the text alone.
#[verifier::external_body]
pub(crate) fn decimal_parts(s: &str) -> (r: Option<(i128, u32)>)
    ensures
        r == decimal_parts_of(s@),
{
    match rust_decimal::Decimal::from_str_exact(s) {
        Ok(d) => Some((d.mantissa(), d.scale())),
        Err(_) => None,
    }
}

} // verus!
