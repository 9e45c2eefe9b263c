//! Random seeds for the guest, from the platform's source of randomness.

use crate::roc_io_error::{IOErr, IOErrTag};
use vstd::prelude::*;
use vstd::string::to_string_from_display_ensures;

verus! {

/// `getrandom::Error`, carried through as an opaque value.
#[verifier::external_type_specification]
#[verifier::external_body]
pub struct ExRandomError(getrandom::Error);

/// The number that a byte string stands for with its first byte as the least
/// significant one.
pub open spec fn little_endian_value(bytes: Seq<u8>) -> nat
    decreases bytes.len(),
{
    if bytes.len() == 0 {
        0
    } else {
        bytes[0] as nat + 256 * little_endian_value(bytes.drop_first())
    }
}

/// The number that a byte string stands for with its first byte as the most
/// significant one.
pub open spec fn big_endian_value(bytes: Seq<u8>) -> nat {
    little_endian_value(bytes.reverse())
}

/// Whether `value` is what the bytes stand for in one of the two byte
/// orders. Which of the two a machine reads is a property of the machine.
pub open spec fn is_native_value(value: nat, bytes: Seq<u8>) -> bool {
    value == little_endian_value(bytes) || value == big_endian_value(bytes)
}

/// Calls `getrandom::getrandom` on a buffer of `N` bytes and hands the buffer
/// out where the call succeeded. Nothing is claimed of the bytes, nor of
/// when the call fails.
#[verifier::external_body]
fn random_bytes<const N: usize>() -> (r: Result<[u8; N], getrandom::Error>) {
    let mut bytes = [0u8; N];
    match getrandom::getrandom(&mut bytes) {
        Ok(()) => Ok(bytes),
        Err(error) => Err(error),
    }
}

/// Calls `u64::from_ne_bytes`. The result is the number that the bytes stand
/// for in the byte order of the machine, which is one of the two.
#[verifier::external_body]
fn u64_from_ne_bytes(bytes: [u8; 8]) -> (value: u64)
    ensures
        is_native_value(value as nat, bytes@),
{
    u64::from_ne_bytes(bytes)
}

/// Calls `u32::from_ne_bytes`. The result is the number that the bytes stand
/// for in the byte order of the machine, which is one of the two.
#[verifier::external_body]
fn u32_from_ne_bytes(bytes: [u8; 4]) -> (value: u32)
    ensures
        is_native_value(value as nat, bytes@),
{
    u32::from_ne_bytes(bytes)
}

/// The error that reports a failure of the source of randomness: the tag
/// `Other`, with the text that the failure displays as.
fn random_failure(error: &getrandom::Error) -> (e: IOErr)
    ensures
        reports_random_failure(e, *error),
{
    let text = error.to_string();
    IOErr::new_other(text.as_str())
}

/// Whether `e` is the error that reports the failure `error` of the source of
/// randomness.
pub open spec fn reports_random_failure(e: IOErr, error: getrandom::Error) -> bool {
    &&& e.tag() == IOErrTag::Other
    &&& exists|text: String|
        to_string_from_display_ensures::<getrandom::Error>(&error, text) && e.message_spec()
            == Some(text@)
}

/// Whether `r` is the 64-bit seed for what the source of randomness
/// returned: the number that the eight bytes stand for, or the error that
/// reports the failure.
pub open spec fn is_seed_u64(
    r: Result<u64, IOErr>,
    outcome: Result<[u8; 8], getrandom::Error>,
) -> bool {
    match outcome {
        Ok(bytes) => r matches Ok(seed) && is_native_value(seed as nat, bytes@),
        Err(error) => r matches Err(e) && reports_random_failure(e, error),
    }
}

/// Whether `r` is the 32-bit seed for what the source of randomness
/// returned: the number that the four bytes stand for, or the error that
/// reports the failure.
pub open spec fn is_seed_u32(
    r: Result<u32, IOErr>,
    outcome: Result<[u8; 4], getrandom::Error>,
) -> bool {
    match outcome {
        Ok(bytes) => r matches Ok(seed) && is_native_value(seed as nat, bytes@),
        Err(error) => r matches Err(e) && reports_random_failure(e, error),
    }
}

/// The 64-bit seed for what the source of randomness returned: the number
/// that the eight bytes stand for, or the error that reports the failure.
pub fn seed_u64(outcome: Result<[u8; 8], getrandom::Error>) -> (r: Result<u64, IOErr>)
    ensures
        is_seed_u64(r, outcome),
{
    match outcome {
        Ok(bytes) => Ok(u64_from_ne_bytes(bytes)),
        Err(error) => Err(random_failure(&error)),
    }
}

/// The 32-bit seed for what the source of randomness returned: the number
/// that the four bytes stand for, or the error that reports the failure.
pub fn seed_u32(outcome: Result<[u8; 4], getrandom::Error>) -> (r: Result<u32, IOErr>)
    ensures
        is_seed_u32(r, outcome),
{
    match outcome {
        Ok(bytes) => Ok(u32_from_ne_bytes(bytes)),
        Err(error) => Err(random_failure(&error)),
    }
}

/// A random 64-bit seed: what [`seed_u64`] makes of eight bytes asked of the
/// source of randomness. Whether the source answers is for the platform to
/// say; where it fails, the error has the tag `Other` and the text that the
/// failure displays as.
pub fn random_u64() -> (r: Result<u64, IOErr>)
    ensures
        exists|outcome: Result<[u8; 8], getrandom::Error>| is_seed_u64(r, outcome),
        r matches Err(e) ==> exists|error: getrandom::Error| reports_random_failure(e, error),
{
    let outcome = random_bytes::<8>();
    let r = seed_u64(outcome);
    proof {
        assert(is_seed_u64(r, outcome));
    }
    r
}

/// A random 32-bit seed: what [`seed_u32`] makes of four bytes asked of the
/// source of randomness. Whether the source answers is for the platform to
/// say; where it fails, the error has the tag `Other` and the text that the
/// failure displays as.
pub fn random_u32() -> (r: Result<u32, IOErr>)
    ensures
        exists|outcome: Result<[u8; 4], getrandom::Error>| is_seed_u32(r, outcome),
        r matches Err(e) ==> exists|error: getrandom::Error| reports_random_failure(e, error),
{
    let outcome = random_bytes::<4>();
    let r = seed_u32(outcome);
    proof {
        assert(is_seed_u32(r, outcome));
    }
    r
}

} // verus!
