//! Caller-parameter validation, run strictly before any outbound call.
//!
//! The sampling temperature reaches the library as the IEEE-754 bit
//! pattern of a single-precision value (`f32::to_bits`), so the
//! accepted set — finite and between zero and two — is decided here
//! exactly, on plain integers.

use vstd::prelude::*;

use crate::textfmt::{spec_starts_with, str_starts_with};

verus! {

/// Bit pattern of `2.0f32`.
pub const TEMP_TWO_BITS: u32 = 0x4000_0000;

/// Bit pattern of `-0.0f32`.
pub const TEMP_NEG_ZERO_BITS: u32 = 0x8000_0000;

/// The exponent field is not all ones: the value is neither an
/// infinity nor a NaN.
pub open spec fn temp_is_finite(bits: u32) -> bool {
    (bits >> 23) & 0xff != 0xff
}

/// The value is a NaN: exponent all ones with a non-zero mantissa.
pub open spec fn temp_is_nan(bits: u32) -> bool {
    (bits >> 23) & 0xff == 0xff && bits & 0x7f_ffff != 0
}

/// The comparison `0.0 <= t` holds: the value is not a NaN and is
/// either non-negative or a zero of either sign.
pub open spec fn temp_ge_zero(bits: u32) -> bool {
    !temp_is_nan(bits) && (bits & 0x8000_0000 == 0 || bits & 0x7fff_ffff == 0)
}

/// The comparison `t <= 2.0` holds: the value is not a NaN and is
/// either negative or at most the encoding of two.  For values of
/// equal sign the IEEE-754 order agrees with the order of the bit
/// patterns, so a non-negative value is at most two exactly when its
/// bits are at most those of two.
pub open spec fn temp_le_two(bits: u32) -> bool {
    !temp_is_nan(bits) && (bits & 0x8000_0000 != 0 || bits <= TEMP_TWO_BITS)
}

/// A temperature is accepted exactly when it is finite and lies
/// between zero and two inclusive.
pub open spec fn temp_bits_accepted(bits: u32) -> bool {
    temp_is_finite(bits) && temp_ge_zero(bits) && temp_le_two(bits)
}

/// The accepted set in closed form: either negative zero, or a
/// non-negative pattern at most the encoding of two.
pub proof fn lemma_temp_accepted_closed_form(bits: u32)
    ensures
        temp_bits_accepted(bits) <==> (bits == TEMP_NEG_ZERO_BITS || bits <= TEMP_TWO_BITS),
{
    assert((((bits >> 23) & 0xff != 0xff) && (!((bits >> 23) & 0xff == 0xff && bits & 0x7f_ffff
        != 0) && (bits & 0x8000_0000 == 0 || bits & 0x7fff_ffff == 0)) && (!((bits >> 23) & 0xff
        == 0xff && bits & 0x7f_ffff != 0) && (bits & 0x8000_0000 != 0 || bits <= 0x4000_0000)))
        <==> (bits == 0x8000_0000 || bits <= 0x4000_0000)) by (bit_vector);
}

/// The reason reported when a temperature is rejected.
pub open spec fn spec_temperature_error() -> Seq<char> {
    "temperature must be a finite number between 0.0 and 2.0"@
}

/// Accept an absent temperature, or one that is finite and within
/// [0.0, 2.0]; reject NaN, the infinities and anything outside the
/// range, with a human-readable reason.
pub fn validate_temperature(temp_bits: Option<u32>) -> (r: Result<(), String>)
    ensures
        r is Ok <==> (temp_bits matches Some(b) ==> temp_bits_accepted(b)),
        r matches Err(m) ==> m@ == spec_temperature_error(),
{
    match temp_bits {
        None => Ok(()),
        Some(b) => {
            proof {
                lemma_temp_accepted_closed_form(b);
            }
            if b == TEMP_NEG_ZERO_BITS || b <= TEMP_TWO_BITS {
                Ok(())
            } else {
                Err("temperature must be a finite number between 0.0 and 2.0".to_owned())
            }
        },
    }
}

/// The reason reported when an image reference uses a scheme other
/// than http or https.
pub open spec fn spec_image_url_error() -> Seq<char> {
    "image_url must start with http:// or https://"@
}

/// An image reference is accepted exactly when it begins with
/// `http://` or `https://`.
pub open spec fn spec_image_url_accepted(url: Seq<char>) -> bool {
    spec_starts_with(url, "http://"@) || spec_starts_with(url, "https://"@)
}

/// Check the scheme of an image reference.
pub fn validate_image_url(url: &str) -> (r: Result<(), String>)
    ensures
        r is Ok <==> spec_image_url_accepted(url@),
        r matches Err(m) ==> m@ == spec_image_url_error(),
{
    if str_starts_with(url, "http://") || str_starts_with(url, "https://") {
        Ok(())
    } else {
        Err("image_url must start with http:// or https://".to_owned())
    }
}

/// ASCII whitespace, as far as a credential string is concerned.
pub open spec fn is_blank_char(c: char) -> bool {
    c == ' ' || c == '\t' || c == '\n' || c == '\r' || c == '\u{b}' || c == '\u{c}'
}

/// A credential is usable when some character of it is not blank.
/// Its absence or emptiness is a startup-fatal condition for the
/// surrounding process, not a per-call error.
pub fn api_key_usable(key: &String) -> (r: bool)
    ensures
        r <==> exists|i: int| 0 <= i < key@.len() && !is_blank_char(key@[i]),
{
    let s = key.as_str();
    let n = s.unicode_len();
    let mut i: usize = 0;
    while i < n
        invariant
            i <= n,
            n == key@.len(),
            s@ == key@,
            forall|j: int| 0 <= j < i ==> is_blank_char(key@[j]),
        decreases n - i,
    {
        let c = s.get_char(i);
        if !(c == ' ' || c == '\t' || c == '\n' || c == '\r' || c == '\u{b}' || c == '\u{c}') {
            return true;
        }
        i += 1;
    }
    false
}

} // verus!
